//! What is on the screen: for every state, the frame that shows it. A frame
//! says what is written where; drawing it is left to the terminal.

use crate::app::App;
use crate::app::AppModel;
use crate::app::View;
use vstd::prelude::*;
use vstd::view::View as _;

pub mod compose;
pub mod config;
pub mod list;
pub mod view;

verus! {

/// The texts of a list of strings, in order.
pub open spec fn strings_model(v: Seq<String>) -> Seq<Seq<char>> {
    v.map_values(|s: String| s@)
}

/// The line at the bottom of a screen: the status, and after three spaces
/// the keys of the screen.
pub open spec fn footer_text(status: Seq<char>, help: Seq<char>) -> Seq<char> {
    status + seq![' ', ' ', ' '] + help
}

/// The line at the bottom of a screen.
pub fn footer(status: &str, help: &str) -> (r: String)
    ensures
        r@ == footer_text(status@, help@),
{
    let mut out = status.to_owned();
    out.append("   ");
    out.append(help);
    proof {
        reveal_strlit("   ");
    }
    out
}

/// A frame: the screen of the view that is active.
#[derive(Debug, PartialEq, Eq)]
pub enum Frame {
    List(list::ListFrame),
    Mail(view::MailFrame),
    Compose(compose::ComposeFrame),
    Config(config::ConfigFrame),
}

/// Whether the frame `f` shows the state `s`: it is the screen of the view
/// that is active, and shows what the state holds.
pub open spec fn shows(f: Frame, s: AppModel) -> bool {
    match f {
        Frame::List(l) => s.view == View::List && list::shows(l, s),
        Frame::Mail(m) => s.view == View::Mail && view::shows(m, s),
        Frame::Compose(c) => s.view == View::Compose && compose::shows(c, s),
        Frame::Config(c) => s.view == View::Config && config::shows(c, s),
    }
}

/// The frame that shows the state `app`. The state is only read.
pub fn draw(app: &App) -> (f: Frame)
    ensures
        shows(f, app@),
{
    match app.view {
        View::List => Frame::List(list::draw(app)),
        View::Mail => Frame::Mail(view::draw(app)),
        View::Compose => Frame::Compose(compose::draw(app)),
        View::Config => Frame::Config(config::draw(app)),
    }
}

} // verus!
