//! An open message as it is shown.

use crate::app::App;
use crate::app::AppModel;
use crate::mail::SummaryModel;
use crate::number::decimal;
use crate::number::push_decimal;
use crate::ui::footer;
use crate::ui::footer_text;
use vstd::prelude::*;
use vstd::view::View as _;

verus! {

/// The message screen: the header block, the text with the line it is
/// scrolled to, and the line at the bottom.
#[derive(Debug, PartialEq, Eq)]
pub struct MailFrame {
    pub header: String,
    pub body: String,
    pub scroll: u16,
    pub footer: String,
}

/// The keys of the message screen, in words.
pub open spec fn mail_help() -> Seq<char> {
    "j/k or ↑↓ scroll · Esc back · r reply · c compose · g config · q quit"@
}

/// The header block for the message `h`: sender, date, subject and
/// identifier, one to a line.
pub open spec fn header_block(h: SummaryModel) -> Seq<char> {
    "From    "@ + (if h.from.len() == 0 {
        "(unknown)"@
    } else {
        h.from
    }) + "\nDate    "@ + h.date + "\nSubject "@ + (if h.subject.len() == 0 {
        "(no subject)"@
    } else {
        h.subject
    }) + "\nUID     "@ + decimal(h.uid as nat)
}

/// The header block of the state `s`: that of the open message, or the
/// loading text where none is open.
pub open spec fn header_text(s: AppModel) -> Seq<char> {
    match s.current_header {
        Some(h) => header_block(h),
        None => "Loading..."@,
    }
}

/// Whether the frame `f` shows the state `s`.
pub open spec fn shows(f: MailFrame, s: AppModel) -> bool {
    &&& f.header@ == header_text(s)
    &&& f.body@ == s.current_body
    &&& f.scroll == s.body_scroll
    &&& f.footer@ == footer_text(s.status, mail_help())
}

/// The message screen for the state `app`.
pub fn draw(app: &App) -> (f: MailFrame)
    ensures
        shows(f, app@),
{
    let header = match &app.current_header {
        Some(h) => {
            let mut out = "From    ".to_owned();
            if h.from.as_str().is_empty() {
                out.append("(unknown)");
            } else {
                out.append(h.from.as_str());
            }
            out.append("\nDate    ");
            out.append(h.date.as_str());
            out.append("\nSubject ");
            if h.subject.as_str().is_empty() {
                out.append("(no subject)");
            } else {
                out.append(h.subject.as_str());
            }
            out.append("\nUID     ");
            push_decimal(&mut out, h.uid as u64);
            out
        },
        None => "Loading...".to_owned(),
    };
    MailFrame {
        header: header,
        body: app.current_body.clone(),
        scroll: app.body_scroll,
        footer: footer(
            app.status.as_str(),
            "j/k or ↑↓ scroll · Esc back · r reply · c compose · g config · q quit",
        ),
    }
}

} // verus!
