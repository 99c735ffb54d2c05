//! The draft of a message as it is shown.

use crate::app::App;
use crate::app::AppModel;
use crate::compose::ComposeField;
use crate::compose::ComposeModel;
use crate::text::is_blank;
use crate::text::is_blank_str;
use crate::text::push_char;
use vstd::prelude::*;
use vstd::view::View as _;

verus! {

/// The compose screen: the header block, the text, whether the text has
/// the focus, and the line at the bottom.
#[derive(Debug, PartialEq, Eq)]
pub struct ComposeFrame {
    pub header: String,
    pub body: String,
    pub body_focused: bool,
    pub footer: String,
}

/// The header block of the draft `c`: recipient and subject, and the keys
/// of the screen.
pub open spec fn draft_header(c: ComposeModel) -> Seq<char> {
    "To: "@ + c.to + "\nSubject: "@ + c.subject
        + "\n\n(Tab to switch Â· Ctrl+S to send Â· Esc to cancel)"@
}

/// The text of the draft `c` as shown: the body, and after an empty line
/// the quote; the quote alone under a blank body, the body alone where
/// there is no quote.
pub open spec fn draft_text(c: ComposeModel) -> Seq<char> {
    if c.quote.len() == 0 {
        c.body
    } else if is_blank(c.body) {
        c.quote
    } else {
        c.body + seq!['\n', '\n'] + c.quote
    }
}

/// The name of the field `f`.
pub open spec fn field_name(f: ComposeField) -> Seq<char> {
    match f {
        ComposeField::To => "To"@,
        ComposeField::Subject => "Subject"@,
        ComposeField::Body => "Body"@,
    }
}

/// The line at the bottom of the compose screen: the status, and the field
/// in focus.
pub open spec fn draft_footer(s: AppModel) -> Seq<char> {
    s.status + "   Focus: "@ + field_name(s.compose.focus)
}

/// Whether the frame `f` shows the state `s`.
pub open spec fn shows(f: ComposeFrame, s: AppModel) -> bool {
    &&& f.header@ == draft_header(s.compose)
    &&& f.body@ == draft_text(s.compose)
    &&& f.body_focused == (s.compose.focus == ComposeField::Body)
    &&& f.footer@ == draft_footer(s)
}

/// The compose screen for the state `app`.
pub fn draw(app: &App) -> (f: ComposeFrame)
    ensures
        shows(f, app@),
{
    let mut header = "To: ".to_owned();
    header.append(app.compose.to.as_str());
    header.append("\nSubject: ");
    header.append(app.compose.subject.as_str());
    header.append("\n\n(Tab to switch Â· Ctrl+S to send Â· Esc to cancel)");
    let body = if app.compose.quote.as_str().is_empty() {
        app.compose.body.clone()
    } else if is_blank_str(app.compose.body.as_str()) {
        app.compose.quote.clone()
    } else {
        let mut out = app.compose.body.clone();
        push_char(&mut out, '\n');
        push_char(&mut out, '\n');
        out.append(app.compose.quote.as_str());
        assert(out@ =~= draft_text(app@.compose));
        out
    };
    let mut footer = app.status.clone();
    footer.append("   Focus: ");
    footer.append(
        match app.compose.focus {
            ComposeField::To => "To",
            ComposeField::Subject => "Subject",
            ComposeField::Body => "Body",
        },
    );
    ComposeFrame {
        header: header,
        body: body,
        body_focused: app.compose.focus == ComposeField::Body,
        footer: footer,
    }
}

} // verus!
