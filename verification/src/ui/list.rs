//! The list of messages as it is shown.

use crate::app::App;
use crate::app::AppModel;
use crate::mail::MessageSummary;
use crate::mail::SummaryModel;
use crate::text::push_char;
use crate::ui::footer;
use crate::ui::footer_text;
use crate::ui::strings_model;
use vstd::prelude::*;
use vstd::view::View as _;

verus! {

/// The list screen: its rows, the row that is highlighted, and the line
/// at the bottom.
#[derive(Debug, PartialEq, Eq)]
pub struct ListFrame {
    pub items: Vec<String>,
    pub selected: Option<usize>,
    pub footer: String,
}

/// The keys of the list screen, in words.
pub open spec fn list_help() -> Seq<char> {
    "j/k or ↑↓ move · Enter open · o refresh · c compose · g config · q quit"@
}

/// The row shown while there is no message.
pub open spec fn placeholder_row() -> Seq<char> {
    "Loading... (press o to refresh)"@
}

/// The row for the message `m`: the subject, and below it the sender and
/// the date.
pub open spec fn item_text(m: SummaryModel) -> Seq<char> {
    (if m.subject.len() == 0 {
        "(no subject)"@
    } else {
        m.subject
    }) + seq!['\n', ' ', ' '] + (if m.from.len() == 0 {
        "(unknown)"@
    } else {
        m.from
    }) + seq![' ', ' '] + m.date
}

/// The rows for the messages `list`: one for each, or the placeholder
/// where there is none.
pub open spec fn list_rows(list: Seq<SummaryModel>) -> Seq<Seq<char>> {
    if list.len() == 0 {
        seq![placeholder_row()]
    } else {
        list.map_values(|m: SummaryModel| item_text(m))
    }
}

/// The row that is highlighted: the selected one, or the last one where
/// the selection is beyond it; none in an empty list.
pub open spec fn highlighted(s: AppModel) -> Option<usize> {
    if s.messages.len() == 0 {
        None
    } else if s.selected < s.messages.len() {
        Some(s.selected as usize)
    } else {
        Some((s.messages.len() - 1) as usize)
    }
}

/// The row for the message `m`.
pub fn item_row(m: &MessageSummary) -> (r: String)
    ensures
        r@ == item_text(m@),
{
    let mut out = if m.subject.as_str().is_empty() {
        "(no subject)".to_owned()
    } else {
        m.subject.clone()
    };
    push_char(&mut out, '\n');
    push_char(&mut out, ' ');
    push_char(&mut out, ' ');
    if m.from.as_str().is_empty() {
        out.append("(unknown)");
    } else {
        out.append(m.from.as_str());
    }
    push_char(&mut out, ' ');
    push_char(&mut out, ' ');
    out.append(m.date.as_str());
    out
}

/// Whether the frame `f` shows the state `s`.
pub open spec fn shows(f: ListFrame, s: AppModel) -> bool {
    &&& strings_model(f.items@) == list_rows(s.messages)
    &&& f.selected == highlighted(s)
    &&& f.footer@ == footer_text(s.status, list_help())
}

/// The list screen for the state `app`.
pub fn draw(app: &App) -> (f: ListFrame)
    ensures
        shows(f, app@),
{
    let n = app.messages.len();
    let mut items: Vec<String> = Vec::new();
    if n == 0 {
        items.push("Loading... (press o to refresh)".to_owned());
        assert(strings_model(items@) =~= list_rows(app@.messages));
    } else {
        let mut i: usize = 0;
        while i < n
            invariant
                i <= n == app.messages@.len(),
                items@.len() == i,
                forall|j: int| 0 <= j < i ==> (#[trigger] items@[j])@ == item_text(app.messages@[j]@),
            decreases n - i,
        {
            items.push(item_row(&app.messages[i]));
            i += 1;
        }
        assert(strings_model(items@) =~= list_rows(app@.messages));
    }
    let selected = if n == 0 {
        None
    } else if app.selected < n {
        Some(app.selected)
    } else {
        Some(n - 1)
    };
    ListFrame {
        items: items,
        selected: selected,
        footer: footer(
            app.status.as_str(),
            "j/k or ↑↓ move · Enter open · o refresh · c compose · g config · q quit",
        ),
    }
}

} // verus!
