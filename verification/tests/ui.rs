use zenmail::app::{App, AppMsg, ComposeField, ConfigField, View};
use zenmail::config::{Config, MailConfig, UserConfig};
use zenmail::mail::MessageSummary;
use zenmail::ui::config::mask;
use zenmail::ui::list::item_row;
use zenmail::ui::{draw, footer, Frame};

fn shown_config() -> Config {
    Config {
        imap: MailConfig {
            host: String::from("127.0.0.1"),
            port: 1143,
            username: String::from("you@email.ml"),
            password: String::from("pw"),
            starttls: true,
        },
        smtp: MailConfig {
            host: String::from("smtp.example.org"),
            port: 25,
            username: String::from("me"),
            password: String::new(),
            starttls: false,
        },
        user: UserConfig { name: String::from("Zoë"), email: String::from("zoe@example.org") },
    }
}

fn entry(uid: u32, from: &str, date: &str, subject: &str) -> MessageSummary {
    MessageSummary {
        uid,
        from: String::from(from),
        date: String::from(date),
        subject: String::from(subject),
    }
}

fn shown_app() -> App {
    let mut app = App::new(shown_config(), false).0;
    zenmail::app::apply_msg(
        &mut app,
        AppMsg::MailList(vec![entry(1, "Jane", "Mon", "Hello"), entry(2, "", "", "")]),
    );
    app
}

#[test]
fn footer_is_status_and_help() {
    assert_eq!(footer("Back", "q quit"), "Back   q quit");
    assert_eq!(footer("", ""), "   ");
}

#[test]
fn a_row_shows_subject_sender_and_date() {
    assert_eq!(item_row(&entry(1, "Jane", "Mon", "Hello")), "Hello\n  Jane  Mon");
    assert_eq!(item_row(&entry(2, "", "", "")), "(no subject)\n  (unknown)  ");
}

#[test]
fn the_list_screen() {
    let mut app = shown_app();
    app.selected = 1;
    match draw(&app) {
        Frame::List(f) => {
            assert_eq!(
                f.items,
                vec![String::from("Hello\n  Jane  Mon"), String::from("(no subject)\n  (unknown)  ")]
            );
            assert_eq!(f.selected, Some(1));
            assert_eq!(
                f.footer,
                "Loaded 2 messages   j/k or ↑↓ move · Enter open · o refresh · c compose · g config · q quit"
            );
        }
        other => panic!("{:?}", other),
    }
    app.selected = 7;
    match draw(&app) {
        Frame::List(f) => assert_eq!(f.selected, Some(1)),
        other => panic!("{:?}", other),
    }
}

#[test]
fn the_message_screen() {
    let mut app = shown_app();
    app.view = View::Mail;
    app.status = String::from("Mail loaded");
    match draw(&app) {
        Frame::Mail(f) => assert_eq!(f.header, "Loading..."),
        other => panic!("{:?}", other),
    }
    app.current_header = Some(entry(42, "Jane", "Mon", "Hello"));
    app.current_body = String::from("text");
    app.body_scroll = 3;
    match draw(&app) {
        Frame::Mail(f) => {
            assert_eq!(f.header, "From    Jane\nDate    Mon\nSubject Hello\nUID     42");
            assert_eq!(f.body, "text");
            assert_eq!(f.scroll, 3);
            assert_eq!(
                f.footer,
                "Mail loaded   j/k or ↑↓ scroll · Esc back · r reply · c compose · g config · q quit"
            );
        }
        other => panic!("{:?}", other),
    }
    app.current_header = Some(entry(4294967295, "", "", ""));
    match draw(&app) {
        Frame::Mail(f) => assert_eq!(
            f.header,
            "From    (unknown)\nDate    \nSubject (no subject)\nUID     4294967295"
        ),
        other => panic!("{:?}", other),
    }
}

#[test]
fn the_compose_screen() {
    let mut app = shown_app();
    app.view = View::Compose;
    app.status = String::from("Reply");
    app.compose.to = String::from("a@b.c");
    app.compose.subject = String::from("Re: x");
    app.compose.body = String::from("mine");
    app.compose.quote = String::from("> yours");
    app.compose.focus = ComposeField::Body;
    match draw(&app) {
        Frame::Compose(f) => {
            assert_eq!(
                f.header,
                "To: a@b.c\nSubject: Re: x\n\n(Tab to switch Â· Ctrl+S to send Â· Esc to cancel)"
            );
            assert_eq!(f.body, "mine\n\n> yours");
            assert!(f.body_focused);
            assert_eq!(f.footer, "Reply   Focus: Body");
        }
        other => panic!("{:?}", other),
    }
    app.compose.body = String::from("  ");
    app.compose.focus = ComposeField::To;
    match draw(&app) {
        Frame::Compose(f) => {
            assert_eq!(f.body, "> yours");
            assert!(!f.body_focused);
            assert_eq!(f.footer, "Reply   Focus: To");
        }
        other => panic!("{:?}", other),
    }
    app.compose.quote = String::new();
    app.compose.focus = ComposeField::Subject;
    match draw(&app) {
        Frame::Compose(f) => {
            assert_eq!(f.body, "  ");
            assert_eq!(f.footer, "Reply   Focus: Subject");
        }
        other => panic!("{:?}", other),
    }
}

#[test]
fn a_password_is_masked() {
    assert_eq!(mask(""), "");
    assert_eq!(mask("x"), "********");
    assert_eq!(mask("a long password"), "********");
}

#[test]
fn a_line_marks_the_focus_and_pads_the_name() {
    let mut app = shown_app();
    app.cfg_edit.focus = ConfigField::ImapPort;
    assert_eq!(zenmail::ui::config::line(&app, ConfigField::ImapPort, "port", "1143"), "▶ port       1143");
    assert_eq!(zenmail::ui::config::line(&app, ConfigField::ImapHost, "host", "h"), "  host       h");
    assert_eq!(zenmail::ui::config::line(&app, ConfigField::ImapHost, "exactly10!", "v"), "  exactly10! v");
    assert_eq!(zenmail::ui::config::line(&app, ConfigField::ImapHost, "longer than ten", "v"), "  longer than ten v");
    assert_eq!(zenmail::ui::config::line(&app, ConfigField::ImapHost, "", ""), "             ");
    assert_eq!(zenmail::ui::config::line(&app, ConfigField::ImapHost, "größe", "v"), "  größe      v");
}

#[test]
fn the_configuration_screen() {
    let mut app = shown_app();
    app.view = View::Config;
    app.status = String::from("Config");
    app.cfg_edit.focus = ConfigField::SmtpPass;
    let expected = "IMAP\n  host       127.0.0.1\n  port       1143\n  username   you@email.ml\n  password   ********\n  starttls   true\n\nSMTP\n  host       smtp.example.org\n  port       25\n  username   me\n▶ password   \n  starttls   false\n\nUSER\n  name       Zoë\n  email      zoe@example.org\n";
    match draw(&app) {
        Frame::Config(f) => {
            assert_eq!(f.text, expected);
            assert_eq!(
                f.footer,
                "Config   Tab/Shift+Tab navigate · Space toggle · Ctrl+S save · e editor · Esc back"
            );
        }
        other => panic!("{:?}", other),
    }
}
