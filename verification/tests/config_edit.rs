use zenmail::config::{Config, MailConfig, UserConfig};
use zenmail::config_edit::{
    field_is_port, field_is_toggle, next_field, prev_field, ConfigEditState, ConfigField,
};
use zenmail::number::PortError;

const RING: [ConfigField; 12] = [
    ConfigField::ImapHost,
    ConfigField::ImapPort,
    ConfigField::ImapUser,
    ConfigField::ImapPass,
    ConfigField::ImapStarttls,
    ConfigField::SmtpHost,
    ConfigField::SmtpPort,
    ConfigField::SmtpUser,
    ConfigField::SmtpPass,
    ConfigField::SmtpStarttls,
    ConfigField::UserName,
    ConfigField::UserEmail,
];

fn some_config() -> Config {
    Config {
        imap: MailConfig {
            host: String::from("127.0.0.1"),
            port: 1143,
            username: String::from("you@email.ml"),
            password: String::from("secret"),
            starttls: true,
        },
        smtp: MailConfig {
            host: String::from("smtp.example.org"),
            port: 1025,
            username: String::from("me"),
            password: String::from(""),
            starttls: false,
        },
        user: UserConfig { name: String::from("Your Name"), email: String::from("you@email.ml") },
    }
}

#[test]
fn focus_moves_through_the_ring_in_order() {
    for i in 0..12 {
        assert_eq!(RING[i].index(), i);
        assert_eq!(ConfigField::at(i), RING[i]);
        assert_eq!(next_field(RING[i]), RING[(i + 1) % 12]);
        assert_eq!(prev_field(RING[i]), RING[(i + 11) % 12]);
        assert_eq!(prev_field(next_field(RING[i])), RING[i]);
        assert_eq!(next_field(prev_field(RING[i])), RING[i]);
    }
}

#[test]
fn focus_wraps_at_both_ends() {
    assert_eq!(next_field(ConfigField::UserEmail), ConfigField::ImapHost);
    assert_eq!(prev_field(ConfigField::ImapHost), ConfigField::UserEmail);
    let mut f = ConfigField::SmtpPass;
    for _ in 0..12 {
        f = next_field(f);
    }
    assert_eq!(f, ConfigField::SmtpPass);
}

#[test]
fn two_fields_are_ports_and_two_are_switches() {
    for f in RING {
        assert_eq!(field_is_port(f), f == ConfigField::ImapPort || f == ConfigField::SmtpPort);
        assert_eq!(
            field_is_toggle(f),
            f == ConfigField::ImapStarttls || f == ConfigField::SmtpStarttls
        );
    }
}

#[test]
fn draft_shows_every_field_of_the_configuration() {
    let d = ConfigEditState::from_config(&some_config());
    assert_eq!(d.focus, ConfigField::ImapHost);
    assert_eq!(d.imap_host, "127.0.0.1");
    assert_eq!(d.imap_port, "1143");
    assert_eq!(d.imap_user, "you@email.ml");
    assert_eq!(d.imap_pass, "secret");
    assert!(d.imap_starttls);
    assert_eq!(d.smtp_host, "smtp.example.org");
    assert_eq!(d.smtp_port, "1025");
    assert_eq!(d.smtp_user, "me");
    assert_eq!(d.smtp_pass, "");
    assert!(!d.smtp_starttls);
    assert_eq!(d.user_name, "Your Name");
    assert_eq!(d.user_email, "you@email.ml");
}

#[test]
fn draft_and_configuration_round_trip() {
    let c = some_config();
    assert_eq!(ConfigEditState::from_config(&c).to_config(), Ok(c));
    let mut extreme = some_config();
    extreme.imap.port = 0;
    extreme.smtp.port = 65535;
    let d = ConfigEditState::from_config(&extreme);
    assert_eq!(d.imap_port, "0");
    assert_eq!(d.smtp_port, "65535");
    assert_eq!(d.to_config(), Ok(extreme));
}

#[test]
fn draft_with_a_bad_port_stands_for_no_configuration() {
    let mut d = ConfigEditState::from_config(&some_config());
    d.smtp_port = String::from("70000");
    assert_eq!(d.to_config(), Err(PortError::PosOverflow));
    d.imap_port = String::from("");
    assert_eq!(d.to_config(), Err(PortError::Empty));
    d.imap_port = String::from("12x");
    assert_eq!(d.to_config(), Err(PortError::InvalidDigit));
}

#[test]
fn typing_goes_to_the_field_in_focus() {
    let mut d = ConfigEditState::from_config(&some_config());
    d.type_char('x');
    assert_eq!(d.imap_host, "127.0.0.1x");
    d.focus = ConfigField::UserName;
    d.type_char('!');
    assert_eq!(d.user_name, "Your Name!");
    d.focus = ConfigField::SmtpPass;
    d.type_char('p');
    assert_eq!(d.smtp_pass, "p");
}

#[test]
fn a_port_takes_digits_only() {
    let mut d = ConfigEditState::from_config(&some_config());
    d.focus = ConfigField::ImapPort;
    d.type_char('a');
    d.type_char('+');
    d.type_char(' ');
    d.type_char('٣');
    assert_eq!(d.imap_port, "1143");
    d.type_char('0');
    d.type_char('9');
    assert_eq!(d.imap_port, "114309");
}

#[test]
fn a_switch_takes_no_text_and_flips() {
    let mut d = ConfigEditState::from_config(&some_config());
    let before = d.clone();
    d.focus = ConfigField::ImapStarttls;
    d.type_char('a');
    d.erase();
    assert_eq!(d.imap_starttls, before.imap_starttls);
    assert_eq!(d.imap_host, before.imap_host);
    d.toggle();
    assert!(!d.imap_starttls);
    d.toggle();
    assert!(d.imap_starttls);
    d.focus = ConfigField::SmtpStarttls;
    d.toggle();
    assert!(d.smtp_starttls);
    d.focus = ConfigField::SmtpHost;
    d.toggle();
    assert!(d.smtp_starttls);
    assert!(d.imap_starttls);
}

#[test]
fn erasing_takes_the_last_character_off() {
    let mut d = ConfigEditState::from_config(&some_config());
    d.focus = ConfigField::SmtpUser;
    d.erase();
    assert_eq!(d.smtp_user, "m");
    d.erase();
    assert_eq!(d.smtp_user, "");
    d.erase();
    assert_eq!(d.smtp_user, "");
    d.focus = ConfigField::UserName;
    d.user_name = String::from("Zoë");
    d.erase();
    assert_eq!(d.user_name, "Zo");
}
