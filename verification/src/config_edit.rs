//! The editable copy of the configuration: twelve fields in a ring, two of
//! them port numbers kept as text until they are saved.

use crate::config::Config;
use crate::config::ConfigModel;
use crate::config::MailConfig;
use crate::config::MailConfigModel;
use crate::config::UserConfig;
use crate::config::UserConfigModel;
use crate::number::decimal;
use crate::number::decimal_string;
use crate::number::is_digit;
use crate::number::lemma_parse_decimal;
use crate::number::parse_port;
use crate::number::parse_port_str;
use crate::number::PortError;
use crate::text::pop_char;
use crate::text::push_char;
use vstd::prelude::*;

verus! {

/// A field of the configuration editor.
#[derive(Clone, Copy, PartialEq, Eq, Structural, Debug)]
pub enum ConfigField {
    ImapHost,
    ImapPort,
    ImapUser,
    ImapPass,
    ImapStarttls,
    SmtpHost,
    SmtpPort,
    SmtpUser,
    SmtpPass,
    SmtpStarttls,
    UserName,
    UserEmail,
}

/// The number of fields in the ring.
pub const FIELD_COUNT: usize = 12;

/// The fields in the order in which the focus moves through them.
pub open spec fn field_ring() -> Seq<ConfigField> {
    seq![
        ConfigField::ImapHost,
        ConfigField::ImapPort,
        ConfigField::ImapUser,
        ConfigField::ImapPass,
        ConfigField::ImapStarttls,
        ConfigField::SmtpHost,
        ConfigField::SmtpPort,
        ConfigField::SmtpUser,
        ConfigField::SmtpPass,
        ConfigField::SmtpStarttls,
        ConfigField::UserName,
        ConfigField::UserEmail,
    ]
}

impl ConfigField {
    /// The place of the field in the ring.
    pub open spec fn position(self) -> int {
        match self {
            ConfigField::ImapHost => 0,
            ConfigField::ImapPort => 1,
            ConfigField::ImapUser => 2,
            ConfigField::ImapPass => 3,
            ConfigField::ImapStarttls => 4,
            ConfigField::SmtpHost => 5,
            ConfigField::SmtpPort => 6,
            ConfigField::SmtpUser => 7,
            ConfigField::SmtpPass => 8,
            ConfigField::SmtpStarttls => 9,
            ConfigField::UserName => 10,
            ConfigField::UserEmail => 11,
        }
    }

    /// The place of the field in the ring.
    pub fn index(self) -> (i: usize)
        ensures
            i == self.position(),
            i < FIELD_COUNT,
            field_ring()[i as int] == self,
    {
        match self {
            ConfigField::ImapHost => 0,
            ConfigField::ImapPort => 1,
            ConfigField::ImapUser => 2,
            ConfigField::ImapPass => 3,
            ConfigField::ImapStarttls => 4,
            ConfigField::SmtpHost => 5,
            ConfigField::SmtpPort => 6,
            ConfigField::SmtpUser => 7,
            ConfigField::SmtpPass => 8,
            ConfigField::SmtpStarttls => 9,
            ConfigField::UserName => 10,
            ConfigField::UserEmail => 11,
        }
    }

    /// The field at place `i` of the ring.
    pub fn at(i: usize) -> (f: ConfigField)
        requires
            i < FIELD_COUNT,
        ensures
            f == field_ring()[i as int],
            f.position() == i,
    {
        if i == 0 {
            ConfigField::ImapHost
        } else if i == 1 {
            ConfigField::ImapPort
        } else if i == 2 {
            ConfigField::ImapUser
        } else if i == 3 {
            ConfigField::ImapPass
        } else if i == 4 {
            ConfigField::ImapStarttls
        } else if i == 5 {
            ConfigField::SmtpHost
        } else if i == 6 {
            ConfigField::SmtpPort
        } else if i == 7 {
            ConfigField::SmtpUser
        } else if i == 8 {
            ConfigField::SmtpPass
        } else if i == 9 {
            ConfigField::SmtpStarttls
        } else if i == 10 {
            ConfigField::UserName
        } else {
            ConfigField::UserEmail
        }
    }
}

/// The field after `f` in the ring; after the last comes the first.
pub open spec fn next_in_ring(f: ConfigField) -> ConfigField {
    field_ring()[(f.position() + 1) % 12]
}

/// The field before `f` in the ring; before the first comes the last.
pub open spec fn prev_in_ring(f: ConfigField) -> ConfigField {
    field_ring()[(f.position() + 11) % 12]
}

/// Whether `f` holds a port number.
pub open spec fn is_port(f: ConfigField) -> bool {
    f == ConfigField::ImapPort || f == ConfigField::SmtpPort
}

/// Whether `f` is a switch rather than a text.
pub open spec fn is_toggle(f: ConfigField) -> bool {
    f == ConfigField::ImapStarttls || f == ConfigField::SmtpStarttls
}

/// The field after `f` in the ring.
pub fn next_field(f: ConfigField) -> (r: ConfigField)
    ensures
        r == next_in_ring(f),
{
    ConfigField::at((f.index() + 1) % FIELD_COUNT)
}

/// The field before `f` in the ring.
pub fn prev_field(f: ConfigField) -> (r: ConfigField)
    ensures
        r == prev_in_ring(f),
{
    ConfigField::at((f.index() + FIELD_COUNT - 1) % FIELD_COUNT)
}

/// Whether `f` holds a port number.
pub fn field_is_port(f: ConfigField) -> (b: bool)
    ensures
        b == is_port(f),
{
    matches!(f, ConfigField::ImapPort | ConfigField::SmtpPort)
}

/// Whether `f` is a switch rather than a text.
pub fn field_is_toggle(f: ConfigField) -> (b: bool)
    ensures
        b == is_toggle(f),
{
    matches!(f, ConfigField::ImapStarttls | ConfigField::SmtpStarttls)
}

/// Moving the focus forward and then back, or back and then forward, leaves
/// it where it was.
pub proof fn lemma_ring_inverse(f: ConfigField)
    ensures
        prev_in_ring(next_in_ring(f)) == f,
        next_in_ring(prev_in_ring(f)) == f,
{
}

/// The ring holds every field once, at its position, and moving forward
/// goes to the next position, from the last to the first.
pub proof fn lemma_ring_order(f: ConfigField)
    ensures
        field_ring().len() == 12,
        0 <= f.position() < 12,
        field_ring()[f.position()] == f,
        next_in_ring(f).position() == (f.position() + 1) % 12,
        prev_in_ring(f).position() == (f.position() + 11) % 12,
{
}

/// The configuration as it is being edited.
#[derive(Debug, PartialEq, Eq)]
pub struct ConfigEditState {
    pub focus: ConfigField,
    pub imap_host: String,
    pub imap_port: String,
    pub imap_user: String,
    pub imap_pass: String,
    pub imap_starttls: bool,
    pub smtp_host: String,
    pub smtp_port: String,
    pub smtp_user: String,
    pub smtp_pass: String,
    pub smtp_starttls: bool,
    pub user_name: String,
    pub user_email: String,
}

/// What a `ConfigEditState` holds, as plain values.
pub struct ConfigEditModel {
    pub focus: ConfigField,
    pub imap_host: Seq<char>,
    pub imap_port: Seq<char>,
    pub imap_user: Seq<char>,
    pub imap_pass: Seq<char>,
    pub imap_starttls: bool,
    pub smtp_host: Seq<char>,
    pub smtp_port: Seq<char>,
    pub smtp_user: Seq<char>,
    pub smtp_pass: Seq<char>,
    pub smtp_starttls: bool,
    pub user_name: Seq<char>,
    pub user_email: Seq<char>,
}

impl View for ConfigEditState {
    type V = ConfigEditModel;

    open spec fn view(&self) -> ConfigEditModel {
        ConfigEditModel {
            focus: self.focus,
            imap_host: self.imap_host@,
            imap_port: self.imap_port@,
            imap_user: self.imap_user@,
            imap_pass: self.imap_pass@,
            imap_starttls: self.imap_starttls,
            smtp_host: self.smtp_host@,
            smtp_port: self.smtp_port@,
            smtp_user: self.smtp_user@,
            smtp_pass: self.smtp_pass@,
            smtp_starttls: self.smtp_starttls,
            user_name: self.user_name@,
            user_email: self.user_email@,
        }
    }
}

/// The draft that shows the configuration `c`: every field as it is, the
/// ports in decimal, the first field in focus.
pub open spec fn draft_of(c: ConfigModel) -> ConfigEditModel {
    ConfigEditModel {
        focus: ConfigField::ImapHost,
        imap_host: c.imap.host,
        imap_port: decimal(c.imap.port as nat),
        imap_user: c.imap.username,
        imap_pass: c.imap.password,
        imap_starttls: c.imap.starttls,
        smtp_host: c.smtp.host,
        smtp_port: decimal(c.smtp.port as nat),
        smtp_user: c.smtp.username,
        smtp_pass: c.smtp.password,
        smtp_starttls: c.smtp.starttls,
        user_name: c.user.name,
        user_email: c.user.email,
    }
}

/// The configuration that the draft `d` stands for, or the reason why one
/// of its ports is no port number. The port for reading is looked at first.
pub open spec fn config_of(d: ConfigEditModel) -> Result<ConfigModel, PortError> {
    match parse_port(d.imap_port) {
        Err(e) => Err(e),
        Ok(imap_port) => match parse_port(d.smtp_port) {
            Err(e) => Err(e),
            Ok(smtp_port) => Ok(
                ConfigModel {
                    imap: MailConfigModel {
                        host: d.imap_host,
                        port: imap_port,
                        username: d.imap_user,
                        password: d.imap_pass,
                        starttls: d.imap_starttls,
                    },
                    smtp: MailConfigModel {
                        host: d.smtp_host,
                        port: smtp_port,
                        username: d.smtp_user,
                        password: d.smtp_pass,
                        starttls: d.smtp_starttls,
                    },
                    user: UserConfigModel { name: d.user_name, email: d.user_email },
                },
            ),
        },
    }
}

/// The text of the field `f` of the draft `d`; a switch has none.
pub open spec fn field_text(d: ConfigEditModel, f: ConfigField) -> Seq<char> {
    match f {
        ConfigField::ImapHost => d.imap_host,
        ConfigField::ImapPort => d.imap_port,
        ConfigField::ImapUser => d.imap_user,
        ConfigField::ImapPass => d.imap_pass,
        ConfigField::SmtpHost => d.smtp_host,
        ConfigField::SmtpPort => d.smtp_port,
        ConfigField::SmtpUser => d.smtp_user,
        ConfigField::SmtpPass => d.smtp_pass,
        ConfigField::UserName => d.user_name,
        ConfigField::UserEmail => d.user_email,
        ConfigField::ImapStarttls => Seq::empty(),
        ConfigField::SmtpStarttls => Seq::empty(),
    }
}

/// The draft `d` with `s` as the text of the field `f`; a switch is left
/// as it is.
pub open spec fn with_field_text(d: ConfigEditModel, f: ConfigField, s: Seq<char>)
    -> ConfigEditModel {
    match f {
        ConfigField::ImapHost => ConfigEditModel { imap_host: s, ..d },
        ConfigField::ImapPort => ConfigEditModel { imap_port: s, ..d },
        ConfigField::ImapUser => ConfigEditModel { imap_user: s, ..d },
        ConfigField::ImapPass => ConfigEditModel { imap_pass: s, ..d },
        ConfigField::SmtpHost => ConfigEditModel { smtp_host: s, ..d },
        ConfigField::SmtpPort => ConfigEditModel { smtp_port: s, ..d },
        ConfigField::SmtpUser => ConfigEditModel { smtp_user: s, ..d },
        ConfigField::SmtpPass => ConfigEditModel { smtp_pass: s, ..d },
        ConfigField::UserName => ConfigEditModel { user_name: s, ..d },
        ConfigField::UserEmail => ConfigEditModel { user_email: s, ..d },
        ConfigField::ImapStarttls => d,
        ConfigField::SmtpStarttls => d,
    }
}

/// The draft after the character `ch` was typed: appended to the text in
/// focus, unless the focus is on a switch, or on a port and `ch` is no
/// digit.
pub open spec fn typed(d: ConfigEditModel, ch: char) -> ConfigEditModel {
    if is_toggle(d.focus) || (is_port(d.focus) && !is_digit(ch)) {
        d
    } else {
        with_field_text(d, d.focus, field_text(d, d.focus).push(ch))
    }
}

/// The draft after the last character of the text in focus was taken off;
/// an empty text and a switch stay as they are.
pub open spec fn erased(d: ConfigEditModel) -> ConfigEditModel {
    if is_toggle(d.focus) || field_text(d, d.focus).len() == 0 {
        d
    } else {
        with_field_text(d, d.focus, field_text(d, d.focus).drop_last())
    }
}

/// The draft after the switch in focus was flipped; with the focus on a
/// text nothing changes.
pub open spec fn toggled(d: ConfigEditModel) -> ConfigEditModel {
    match d.focus {
        ConfigField::ImapStarttls => ConfigEditModel { imap_starttls: !d.imap_starttls, ..d },
        ConfigField::SmtpStarttls => ConfigEditModel { smtp_starttls: !d.smtp_starttls, ..d },
        _ => d,
    }
}

impl Clone for ConfigEditState {
    fn clone(&self) -> (r: Self)
        ensures
            r == *self,
    {
        ConfigEditState {
            focus: self.focus,
            imap_host: self.imap_host.clone(),
            imap_port: self.imap_port.clone(),
            imap_user: self.imap_user.clone(),
            imap_pass: self.imap_pass.clone(),
            imap_starttls: self.imap_starttls,
            smtp_host: self.smtp_host.clone(),
            smtp_port: self.smtp_port.clone(),
            smtp_user: self.smtp_user.clone(),
            smtp_pass: self.smtp_pass.clone(),
            smtp_starttls: self.smtp_starttls,
            user_name: self.user_name.clone(),
            user_email: self.user_email.clone(),
        }
    }
}

impl ConfigEditState {
    /// The draft that shows the configuration `c`.
    pub fn from_config(c: &Config) -> (r: Self)
        ensures
            r@ == draft_of(c@),
    {
        ConfigEditState {
            focus: ConfigField::ImapHost,
            imap_host: c.imap.host.clone(),
            imap_port: decimal_string(c.imap.port as u64),
            imap_user: c.imap.username.clone(),
            imap_pass: c.imap.password.clone(),
            imap_starttls: c.imap.starttls,
            smtp_host: c.smtp.host.clone(),
            smtp_port: decimal_string(c.smtp.port as u64),
            smtp_user: c.smtp.username.clone(),
            smtp_pass: c.smtp.password.clone(),
            smtp_starttls: c.smtp.starttls,
            user_name: c.user.name.clone(),
            user_email: c.user.email.clone(),
        }
    }

    /// The configuration that the draft stands for, or the reason why one
    /// of its ports is no port number.
    pub fn to_config(&self) -> (r: Result<Config, PortError>)
        ensures
            match r {
                Ok(c) => config_of(self@) == Ok::<ConfigModel, PortError>(c@),
                Err(e) => config_of(self@) == Err::<ConfigModel, PortError>(e),
            },
    {
        let imap_port = match parse_port_str(self.imap_port.as_str()) {
            Ok(p) => p,
            Err(e) => {
                return Err(e);
            },
        };
        let smtp_port = match parse_port_str(self.smtp_port.as_str()) {
            Ok(p) => p,
            Err(e) => {
                return Err(e);
            },
        };
        Ok(
            Config {
                imap: MailConfig {
                    host: self.imap_host.clone(),
                    port: imap_port,
                    username: self.imap_user.clone(),
                    password: self.imap_pass.clone(),
                    starttls: self.imap_starttls,
                },
                smtp: MailConfig {
                    host: self.smtp_host.clone(),
                    port: smtp_port,
                    username: self.smtp_user.clone(),
                    password: self.smtp_pass.clone(),
                    starttls: self.smtp_starttls,
                },
                user: UserConfig {
                    name: self.user_name.clone(),
                    email: self.user_email.clone(),
                },
            },
        )
    }

    /// Types the character `ch` into the field in focus.
    pub fn type_char(&mut self, ch: char)
        ensures
            final(self)@ == typed(old(self)@, ch),
    {
        if field_is_toggle(self.focus) {
            return ;
        }
        if field_is_port(self.focus) && !('0' <= ch && ch <= '9') {
            return ;
        }
        match self.focus {
            ConfigField::ImapHost => push_char(&mut self.imap_host, ch),
            ConfigField::ImapPort => push_char(&mut self.imap_port, ch),
            ConfigField::ImapUser => push_char(&mut self.imap_user, ch),
            ConfigField::ImapPass => push_char(&mut self.imap_pass, ch),
            ConfigField::SmtpHost => push_char(&mut self.smtp_host, ch),
            ConfigField::SmtpPort => push_char(&mut self.smtp_port, ch),
            ConfigField::SmtpUser => push_char(&mut self.smtp_user, ch),
            ConfigField::SmtpPass => push_char(&mut self.smtp_pass, ch),
            ConfigField::UserName => push_char(&mut self.user_name, ch),
            ConfigField::UserEmail => push_char(&mut self.user_email, ch),
            _ => {},
        }
    }

    /// Takes the last character off the text in focus.
    pub fn erase(&mut self)
        ensures
            final(self)@ == erased(old(self)@),
    {
        match self.focus {
            ConfigField::ImapHost => {
                pop_char(&mut self.imap_host);
            },
            ConfigField::ImapPort => {
                pop_char(&mut self.imap_port);
            },
            ConfigField::ImapUser => {
                pop_char(&mut self.imap_user);
            },
            ConfigField::ImapPass => {
                pop_char(&mut self.imap_pass);
            },
            ConfigField::SmtpHost => {
                pop_char(&mut self.smtp_host);
            },
            ConfigField::SmtpPort => {
                pop_char(&mut self.smtp_port);
            },
            ConfigField::SmtpUser => {
                pop_char(&mut self.smtp_user);
            },
            ConfigField::SmtpPass => {
                pop_char(&mut self.smtp_pass);
            },
            ConfigField::UserName => {
                pop_char(&mut self.user_name);
            },
            ConfigField::UserEmail => {
                pop_char(&mut self.user_email);
            },
            _ => {},
        }
    }

    /// Flips the switch in focus.
    pub fn toggle(&mut self)
        ensures
            final(self)@ == toggled(old(self)@),
    {
        match self.focus {
            ConfigField::ImapStarttls => {
                self.imap_starttls = !self.imap_starttls;
            },
            ConfigField::SmtpStarttls => {
                self.smtp_starttls = !self.smtp_starttls;
            },
            _ => {},
        }
    }
}

/// A configuration that is shown in the editor and saved unchanged comes
/// back as it was, field by field.
pub proof fn law_draft_round_trip(c: ConfigModel)
    ensures
        config_of(draft_of(c)) == Ok::<ConfigModel, PortError>(c),
{
    lemma_parse_decimal(c.imap.port);
    lemma_parse_decimal(c.smtp.port);
}

/// A draft that was saved, shown again from what was saved, holds every
/// field as it was: the texts and switches unchanged, the ports with the
/// same numbers, and it stands for the same configuration.
pub proof fn law_saved_draft_shows_again(d: ConfigEditModel)
    requires
        config_of(d) is Ok,
    ensures
        ({
            let again = draft_of(config_of(d)->Ok_0);
            &&& config_of(again) == config_of(d)
            &&& parse_port(again.imap_port) == parse_port(d.imap_port)
            &&& parse_port(again.smtp_port) == parse_port(d.smtp_port)
            &&& again == (ConfigEditModel {
                focus: ConfigField::ImapHost,
                imap_port: again.imap_port,
                smtp_port: again.smtp_port,
                ..d
            })
        }),
{
    law_draft_round_trip(config_of(d)->Ok_0);
}

} // verus!
