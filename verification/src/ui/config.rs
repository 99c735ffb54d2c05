//! The configuration editor as it is shown.

use crate::app::App;
use crate::app::AppModel;
use crate::config_edit::ConfigEditModel;
use crate::config_edit::ConfigField;
use crate::text::push_char;
use crate::ui::footer;
use crate::ui::footer_text;
use vstd::prelude::*;
use vstd::view::View as _;

verus! {

/// The configuration screen: the fields, one to a line, and the line at
/// the bottom.
#[derive(Debug, PartialEq, Eq)]
pub struct ConfigFrame {
    pub text: String,
    pub footer: String,
}

/// The keys of the configuration screen, in words.
pub open spec fn config_help() -> Seq<char> {
    "Tab/Shift+Tab navigate · Space toggle · Ctrl+S save · e editor · Esc back"@
}

/// The width to which the name of a field is filled up.
pub const LABEL_WIDTH: usize = 10;

/// What is shown in place of a password: eight stars, or nothing for an
/// empty one.
pub open spec fn masked(s: Seq<char>) -> Seq<char> {
    if s.len() == 0 {
        Seq::empty()
    } else {
        "********"@
    }
}

/// `n` spaces.
pub open spec fn spaces(n: nat) -> Seq<char> {
    Seq::new(n, |i: int| ' ')
}

/// `label` filled up with spaces to the width of ten; a longer one is left
/// as it is.
pub open spec fn padded(label: Seq<char>) -> Seq<char> {
    if label.len() < 10 {
        label + spaces((10 - label.len()) as nat)
    } else {
        label
    }
}

/// The mark before a field: an arrow before the one in focus, two spaces
/// before any other.
pub open spec fn marker(focused: bool) -> Seq<char> {
    if focused {
        "▶ "@
    } else {
        "  "@
    }
}

/// The line for a field: the mark, the name filled up to its width, a
/// space, and the value.
pub open spec fn field_line(focused: bool, label: Seq<char>, value: Seq<char>) -> Seq<char> {
    marker(focused) + padded(label) + seq![' '] + value
}

/// A switch in words.
pub open spec fn switch_text(on: bool) -> Seq<char> {
    if on {
        "true"@
    } else {
        "false"@
    }
}

/// The line for the field `f` of the draft `d`, with the line feed that
/// ends it.
pub open spec fn draft_line(d: ConfigEditModel, f: ConfigField) -> Seq<char> {
    let on = d.focus == f;
    (match f {
        ConfigField::ImapHost => field_line(on, "host"@, d.imap_host),
        ConfigField::ImapPort => field_line(on, "port"@, d.imap_port),
        ConfigField::ImapUser => field_line(on, "username"@, d.imap_user),
        ConfigField::ImapPass => field_line(on, "password"@, masked(d.imap_pass)),
        ConfigField::ImapStarttls => field_line(on, "starttls"@, switch_text(d.imap_starttls)),
        ConfigField::SmtpHost => field_line(on, "host"@, d.smtp_host),
        ConfigField::SmtpPort => field_line(on, "port"@, d.smtp_port),
        ConfigField::SmtpUser => field_line(on, "username"@, d.smtp_user),
        ConfigField::SmtpPass => field_line(on, "password"@, masked(d.smtp_pass)),
        ConfigField::SmtpStarttls => field_line(on, "starttls"@, switch_text(d.smtp_starttls)),
        ConfigField::UserName => field_line(on, "name"@, d.user_name),
        ConfigField::UserEmail => field_line(on, "email"@, d.user_email),
    }) + seq!['\n']
}

/// The text of the configuration screen: three blocks with a heading each,
/// for the server that is read, the server that sends, and the user, with
/// an empty line between them.
pub open spec fn draft_screen(d: ConfigEditModel) -> Seq<char> {
    "IMAP\n"@ + draft_line(d, ConfigField::ImapHost) + draft_line(d, ConfigField::ImapPort)
        + draft_line(d, ConfigField::ImapUser) + draft_line(d, ConfigField::ImapPass)
        + draft_line(d, ConfigField::ImapStarttls) + "\nSMTP\n"@ + draft_line(
        d,
        ConfigField::SmtpHost,
    ) + draft_line(d, ConfigField::SmtpPort) + draft_line(d, ConfigField::SmtpUser) + draft_line(
        d,
        ConfigField::SmtpPass,
    ) + draft_line(d, ConfigField::SmtpStarttls) + "\nUSER\n"@ + draft_line(
        d,
        ConfigField::UserName,
    ) + draft_line(d, ConfigField::UserEmail)
}

/// What is shown in place of the password `s`.
pub fn mask(s: &str) -> (r: String)
    ensures
        r@ == masked(s@),
{
    if s.is_empty() {
        String::new()
    } else {
        "********".to_owned()
    }
}

/// The line for the field `field` of the editor, named `label` and holding
/// `value`.
pub fn line(app: &App, field: ConfigField, label: &str, value: &str) -> (r: String)
    ensures
        r@ == field_line(app@.cfg_edit.focus == field, label@, value@),
{
    let mut out = if app.cfg_edit.focus == field {
        "▶ ".to_owned()
    } else {
        "  ".to_owned()
    };
    let ghost mark = out@;
    out.append(label);
    let n = label.unicode_len();
    let mut i: usize = n;
    while i < LABEL_WIDTH
        invariant
            n <= i,
            n == label@.len(),
            n >= LABEL_WIDTH ==> i == n,
            n < LABEL_WIDTH ==> i <= LABEL_WIDTH,
            out@ == mark + (label@ + spaces((i - n) as nat)),
        decreases LABEL_WIDTH - i,
    {
        push_char(&mut out, ' ');
        i += 1;
    }
    push_char(&mut out, ' ');
    out.append(value);
    out
}

/// Appends the line of the field `field` of the editor.
fn push_field(out: &mut String, app: &App, field: ConfigField)
    ensures
        final(out)@ == old(out)@ + draft_line(app@.cfg_edit, field),
{
    let d = &app.cfg_edit;
    let l = match field {
        ConfigField::ImapHost => line(app, field, "host", d.imap_host.as_str()),
        ConfigField::ImapPort => line(app, field, "port", d.imap_port.as_str()),
        ConfigField::ImapUser => line(app, field, "username", d.imap_user.as_str()),
        ConfigField::ImapPass => line(app, field, "password", mask(d.imap_pass.as_str()).as_str()),
        ConfigField::ImapStarttls => line(app, field, "starttls", switch_str(d.imap_starttls)),
        ConfigField::SmtpHost => line(app, field, "host", d.smtp_host.as_str()),
        ConfigField::SmtpPort => line(app, field, "port", d.smtp_port.as_str()),
        ConfigField::SmtpUser => line(app, field, "username", d.smtp_user.as_str()),
        ConfigField::SmtpPass => line(app, field, "password", mask(d.smtp_pass.as_str()).as_str()),
        ConfigField::SmtpStarttls => line(app, field, "starttls", switch_str(d.smtp_starttls)),
        ConfigField::UserName => line(app, field, "name", d.user_name.as_str()),
        ConfigField::UserEmail => line(app, field, "email", d.user_email.as_str()),
    };
    out.append(l.as_str());
    push_char(out, '\n');
}

/// A switch in words.
fn switch_str(on: bool) -> (r: &'static str)
    ensures
        r@ == switch_text(on),
{
    if on {
        "true"
    } else {
        "false"
    }
}

/// Whether the frame `f` shows the state `s`.
pub open spec fn shows(f: ConfigFrame, s: AppModel) -> bool {
    &&& f.text@ == draft_screen(s.cfg_edit)
    &&& f.footer@ == footer_text(s.status, config_help())
}

/// The configuration screen for the state `app`.
pub fn draw(app: &App) -> (f: ConfigFrame)
    ensures
        shows(f, app@),
{
    let mut s = "IMAP\n".to_owned();
    push_field(&mut s, app, ConfigField::ImapHost);
    push_field(&mut s, app, ConfigField::ImapPort);
    push_field(&mut s, app, ConfigField::ImapUser);
    push_field(&mut s, app, ConfigField::ImapPass);
    push_field(&mut s, app, ConfigField::ImapStarttls);
    s.append("\nSMTP\n");
    push_field(&mut s, app, ConfigField::SmtpHost);
    push_field(&mut s, app, ConfigField::SmtpPort);
    push_field(&mut s, app, ConfigField::SmtpUser);
    push_field(&mut s, app, ConfigField::SmtpPass);
    push_field(&mut s, app, ConfigField::SmtpStarttls);
    s.append("\nUSER\n");
    push_field(&mut s, app, ConfigField::UserName);
    push_field(&mut s, app, ConfigField::UserEmail);
    ConfigFrame {
        text: s,
        footer: footer(
            app.status.as_str(),
            "Tab/Shift+Tab navigate · Space toggle · Ctrl+S save · e editor · Esc back",
        ),
    }
}

} // verus!
