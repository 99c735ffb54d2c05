//! How the editor of the user is run on the configuration file.

use crate::app::Event;
use crate::app::EventModel;
use crate::text::chars_of;
use crate::text::lead;
use crate::text::lead_at;
use crate::text::push_char;
use crate::text::trim_start;
use crate::text::CharClass;
use vstd::prelude::*;
use vstd::view::View as _;

verus! {

/// A command to run.
#[derive(Debug, PartialEq, Eq)]
pub enum EditorCommand {
    /// A command line for the shell.
    Shell { line: String },
    /// A program with the file as its only argument.
    Direct { program: String, path: String },
}

/// What an `EditorCommand` holds, as plain values.
pub enum EditorCommandModel {
    Shell { line: Seq<char> },
    Direct { program: Seq<char>, path: Seq<char> },
}

impl vstd::view::View for EditorCommand {
    type V = EditorCommandModel;

    open spec fn view(&self) -> EditorCommandModel {
        match self {
            EditorCommand::Shell { line } => EditorCommandModel::Shell { line: line@ },
            EditorCommand::Direct { program, path } => EditorCommandModel::Direct {
                program: program@,
                path: path@,
            },
        }
    }
}

/// The number of words in `s`: of runs of characters that are no white
/// space. (The bounds in the condition always hold; they make the
/// recursion evidently finite.)
pub open spec fn word_count(s: Seq<char>) -> nat
    decreases s.len(),
{
    let t = trim_start(s);
    let n = lead(t, CharClass::NonWhitespace);
    if 0 < n <= t.len() <= s.len() {
        1 + word_count(t.skip(n as int))
    } else {
        0
    }
}

/// The editor that is run where none is named.
pub open spec fn default_editor() -> Seq<char> {
    "nano"@
}

/// The command that runs the editor `editor` on the file `path`. An editor
/// named with arguments goes through the shell, with the file after it;
/// one named by a single word is run itself. Where no editor is named, the
/// default one is.
pub open spec fn command_for(editor: Option<Seq<char>>, path: Seq<char>) -> EditorCommandModel {
    let e = match editor {
        Some(e) => e,
        None => default_editor(),
    };
    if word_count(e) > 1 {
        EditorCommandModel::Shell { line: e + seq![' '] + path }
    } else {
        EditorCommandModel::Direct { program: e, path: path }
    }
}

/// Counts the words in `s`.
pub fn count_words(s: &str) -> (n: usize)
    ensures
        n == word_count(s@),
{
    let v = chars_of(s);
    let len = v.len();
    let mut count: usize = 0;
    let mut i: usize = 0;
    assert(v@.subrange(0, len as int) =~= v@);
    while i < len
        invariant
            i <= len == v.len(),
            count <= i,
            v@ == s@,
            word_count(s@) == count + word_count(v@.subrange(i as int, len as int)),
        decreases len - i,
    {
        let ghost cur = v@.subrange(i as int, len as int);
        let ws = lead_at(&v, i, len, CharClass::Whitespace);
        let ghost t = v@.subrange(ws as int, len as int);
        assert(trim_start(cur) =~= t);
        let we = lead_at(&v, ws, len, CharClass::NonWhitespace);
        if we == ws {
            i = len;
        } else {
            assert(t.skip(we - ws) =~= v@.subrange(we as int, len as int));
            count += 1;
            i = we;
        }
    }
    count
}

/// The model of a text that may be absent.
pub open spec fn text_model(s: Option<&str>) -> Option<Seq<char>> {
    match s {
        Some(t) => Some(t@),
        None => None,
    }
}

/// The command that runs the editor `editor` on the file `path`.
pub fn editor_command(editor: Option<&str>, path: &str) -> (c: EditorCommand)
    ensures
        c@ == command_for(text_model(editor), path@),
{
    let e = match editor {
        Some(e) => e,
        None => "nano",
    };
    if count_words(e) > 1 {
        let mut line = e.to_owned();
        push_char(&mut line, ' ');
        line.append(path);
        assert(line@ =~= e@ + seq![' '] + path@);
        EditorCommand::Shell { line: line }
    } else {
        EditorCommand::Direct { program: e.to_owned(), path: path.to_owned() }
    }
}

/// The event to report when the editor has ended: none where it ended
/// well, so that the file is read again; its failure otherwise.
pub fn editor_exit(success: bool) -> (e: Option<Event>)
    ensures
        success ==> e.is_none(),
        !success ==> e.is_some() && e.unwrap()@ == EventModel::EditorFailed(
            "editor exited with non-zero"@,
        ),
{
    if success {
        None
    } else {
        Some(Event::EditorFailed("editor exited with non-zero".to_owned()))
    }
}

} // verus!
