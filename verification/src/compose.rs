//! The draft of an outgoing message, and the rules by which a reply is
//! prepared from the message it answers.

use crate::mail::MessageSummary;
use crate::mail::SummaryModel;
use crate::text::chars_of;
use crate::text::find;
use crate::text::lead;
use crate::text::lead_at;
use crate::text::lemma_lead;
use crate::text::push_char;
use crate::text::push_range;
use crate::text::string_of;
use crate::text::strip;
use crate::text::strip_at;
use crate::text::trail_at;
use crate::text::trim;
use crate::text::trim_end;
use crate::text::trim_start;
use crate::text::CharClass;
use vstd::prelude::*;

verus! {

/// The field of the draft that takes the keyboard.
#[derive(Clone, Copy, PartialEq, Eq, Structural, Debug)]
pub enum ComposeField {
    To,
    Subject,
    Body,
}

/// A message being written. `body` is what the user types; `quote` is the
/// text of the message that is answered, shown below it and sent with it.
#[derive(Debug, PartialEq, Eq)]
pub struct ComposeState {
    pub to: String,
    pub subject: String,
    pub body: String,
    pub quote: String,
    pub focus: ComposeField,
}

/// What a `ComposeState` holds, as plain values.
pub struct ComposeModel {
    pub to: Seq<char>,
    pub subject: Seq<char>,
    pub body: Seq<char>,
    pub quote: Seq<char>,
    pub focus: ComposeField,
}

impl View for ComposeState {
    type V = ComposeModel;

    open spec fn view(&self) -> ComposeModel {
        ComposeModel {
            to: self.to@,
            subject: self.subject@,
            body: self.body@,
            quote: self.quote@,
            focus: self.focus,
        }
    }
}

impl Clone for ComposeState {
    fn clone(&self) -> (r: Self)
        ensures
            r == *self,
    {
        ComposeState {
            to: self.to.clone(),
            subject: self.subject.clone(),
            body: self.body.clone(),
            quote: self.quote.clone(),
            focus: self.focus,
        }
    }
}

/// The draft of a new message: every text empty, the recipient in focus.
pub open spec fn blank_draft() -> ComposeModel {
    ComposeModel {
        to: Seq::empty(),
        subject: Seq::empty(),
        body: Seq::empty(),
        quote: Seq::empty(),
        focus: ComposeField::To,
    }
}

impl ComposeState {
    /// The draft of a new message.
    pub fn new() -> (r: Self)
        ensures
            r@ == blank_draft(),
    {
        ComposeState {
            to: String::new(),
            subject: String::new(),
            body: String::new(),
            quote: String::new(),
            focus: ComposeField::To,
        }
    }
}

/// The text that is sent for a draft: the body and the quote, each without
/// trailing white space, with one empty line between them; a half that is
/// empty is left out, and the empty line with it.
pub open spec fn full_body(c: ComposeModel) -> Seq<char> {
    let body = trim_end(c.body);
    let quote = trim_end(c.quote);
    if quote.len() == 0 {
        body
    } else if body.len() == 0 {
        quote
    } else {
        body + seq!['\n', '\n'] + quote
    }
}

/// The text that is sent for the draft `c`.
pub fn compose_full_body(c: &ComposeState) -> (r: String)
    ensures
        r@ == full_body(c@),
{
    let b = chars_of(c.body.as_str());
    let q = chars_of(c.quote.as_str());
    let bn = trail_at(&b, 0, b.len(), CharClass::Whitespace);
    let qn = trail_at(&q, 0, q.len(), CharClass::Whitespace);
    proof {
        assert(b@.subrange(0, b.len() as int) =~= b@);
        assert(q@.subrange(0, q.len() as int) =~= q@);
    }
    let mut out = string_of(&b, 0, bn);
    if qn == 0 {
        out
    } else if bn == 0 {
        string_of(&q, 0, qn)
    } else {
        push_char(&mut out, '\n');
        push_char(&mut out, '\n');
        push_range(&mut out, &q, 0, qn);
        out
    }
}

/// The address between the first `<` of `s` and the next `>`, without the
/// white space around it, if there is such a pair and something between it.
pub open spec fn bracketed(s: Seq<char>) -> Option<Seq<char>> {
    let l = find(s, '<');
    if l < s.len() {
        let rest = s.skip(l as int + 1);
        let r = find(rest, '>');
        if r < rest.len() && trim(rest.take(r as int)).len() > 0 {
            Some(trim(rest.take(r as int)))
        } else {
            None
        }
    } else {
        None
    }
}

/// The first word of `s` that holds an `@` once the punctuation around it is
/// taken off, in that form. Words are what white space separates. (The
/// bounds in the condition always hold; they make the recursion evidently
/// finite.)
pub open spec fn address_word(s: Seq<char>) -> Option<Seq<char>>
    decreases s.len(),
{
    let t = trim_start(s);
    let n = lead(t, CharClass::NonWhitespace);
    if 0 < n <= t.len() <= s.len() {
        let w = strip(t.take(n as int), CharClass::Wrapping);
        if w.contains('@') {
            Some(w)
        } else {
            address_word(t.skip(n as int))
        }
    } else {
        None
    }
}

/// The address to which a reply to a message from `from` goes: the one in
/// angle brackets; else the first word with an `@`; else the whole of
/// `from`, trimmed.
pub open spec fn reply_to(from: Seq<char>) -> Seq<char> {
    let s = trim(from);
    match bracketed(s) {
        Some(a) => a,
        None => match address_word(s) {
            Some(w) => w,
            None => s,
        },
    }
}

/// A character is found in a text exactly if the text contains it.
pub proof fn lemma_find_contains(s: Seq<char>, c: char)
    ensures
        find(s, c) <= s.len(),
        find(s, c) < s.len() <==> s.contains(c),
{
    lemma_lead(s, CharClass::Other(c));
}

/// The address to which a reply to a message from `from` goes.
pub fn extract_reply_to(from: &str) -> (r: String)
    ensures
        r@ == reply_to(from@),
{
    let v = chars_of(from);
    let (a, b) = strip_at(&v, 0, v.len(), CharClass::Whitespace);
    let ghost s = v@.subrange(a as int, b as int);
    assert(v@.subrange(0, v.len() as int) =~= v@);
    let l = lead_at(&v, a, b, CharClass::Other('<'));
    if l < b {
        let r = lead_at(&v, l + 1, b, CharClass::Other('>'));
        assert(s.skip(l - a + 1) =~= v@.subrange(l + 1, b as int));
        if r < b {
            let (x, y) = strip_at(&v, l + 1, r, CharClass::Whitespace);
            assert(s.skip(l - a + 1).take(r - l - 1) =~= v@.subrange(l + 1, r as int));
            if x < y {
                return string_of(&v, x, y);
            }
        }
    }
    let mut i: usize = a;
    while i < b
        invariant
            a <= i <= b <= v.len(),
            s == v@.subrange(a as int, b as int),
            s == trim(from@),
            bracketed(s).is_none(),
            address_word(s) == address_word(v@.subrange(i as int, b as int)),
        decreases b - i,
    {
        let ghost cur = v@.subrange(i as int, b as int);
        let ws = lead_at(&v, i, b, CharClass::Whitespace);
        let ghost t = v@.subrange(ws as int, b as int);
        assert(trim_start(cur) =~= t);
        let we = lead_at(&v, ws, b, CharClass::NonWhitespace);
        proof {
            lemma_lead(cur, CharClass::Whitespace);
        }
        if we == ws {
            i = b;
        } else {
            let (x, y) = strip_at(&v, ws, we, CharClass::Wrapping);
            assert(t.take(we - ws) =~= v@.subrange(ws as int, we as int));
            let ghost w = v@.subrange(x as int, y as int);
            let at = lead_at(&v, x, y, CharClass::Other('@'));
            proof {
                lemma_find_contains(w, '@');
            }
            if at < y {
                return string_of(&v, x, y);
            }
            assert(t.skip(we - ws) =~= v@.subrange(we as int, b as int));
            i = we;
        }
    }
    string_of(&v, a, b)
}

/// Whether `s` starts with `re:`, in capitals or small letters.
pub open spec fn has_re_prefix(s: Seq<char>) -> bool {
    &&& s.len() >= 3
    &&& (s[0] == 'r' || s[0] == 'R')
    &&& (s[1] == 'e' || s[1] == 'E')
    &&& s[2] == ':'
}

/// The subject of a reply to a message with the subject `subject`: the
/// trimmed subject with `Re: ` before it, unless it starts with `re:`
/// already. A blank subject has no such start, so it gives `Re: ` with
/// nothing after it.
pub open spec fn reply_subject(subject: Seq<char>) -> Seq<char> {
    let s = trim(subject);
    if has_re_prefix(s) {
        s
    } else {
        "Re: "@ + s
    }
}

/// The subject of a reply to a message with the subject `subject`.
pub fn make_reply_subject(subject: &str) -> (r: String)
    ensures
        r@ == reply_subject(subject@),
{
    let v = chars_of(subject);
    let (a, b) = strip_at(&v, 0, v.len(), CharClass::Whitespace);
    let ghost s = v@.subrange(a as int, b as int);
    assert(v@.subrange(0, v.len() as int) =~= v@);
    if b - a >= 3 && (v[a] == 'r' || v[a] == 'R') && (v[a + 1] == 'e' || v[a + 1] == 'E')
        && v[a + 2] == ':' {
        string_of(&v, a, b)
    } else {
        let mut out = "Re: ".to_owned();
        push_range(&mut out, &v, a, b);
        out
    }
}

/// `s` with every carriage return that a line feed follows taken out,
/// read from left to right.
pub open spec fn unify_newlines(s: Seq<char>) -> Seq<char>
    decreases s.len(),
{
    if s.len() == 0 {
        s
    } else if s.len() >= 2 && s[0] == '\r' && s[1] == '\n' {
        seq!['\n'] + unify_newlines(s.skip(2))
    } else {
        seq![s[0]] + unify_newlines(s.skip(1))
    }
}

/// `l` without the carriage return at its end, if it has one.
pub open spec fn strip_cr(l: Seq<char>) -> Seq<char> {
    if l.len() > 0 && l.last() == '\r' {
        l.drop_last()
    } else {
        l
    }
}

/// The lines of `s`. A line ends at a line feed, which is not part of it,
/// nor is a carriage return just before that line feed. What follows the
/// last line feed is a line too, unless it is empty.
pub open spec fn lines(s: Seq<char>) -> Seq<Seq<char>>
    decreases s.len(),
{
    if s.len() == 0 {
        Seq::empty()
    } else if find(s, '\n') >= s.len() {
        seq![s]
    } else {
        seq![strip_cr(s.take(find(s, '\n') as int))] + lines(s.skip(find(s, '\n') as int + 1))
    }
}

/// The lines `ls`, each with `> ` before it, separated by line feeds.
pub open spec fn quoted_lines(ls: Seq<Seq<char>>) -> Seq<char>
    decreases ls.len(),
{
    if ls.len() == 0 {
        Seq::empty()
    } else if ls.len() == 1 {
        "> "@ + ls[0]
    } else {
        quoted_lines(ls.drop_last()) + seq!['\n'] + "> "@ + ls.last()
    }
}

/// `text` as a quotation: each of its lines with `> ` before it. A text
/// without lines gives a single `> `.
pub open spec fn quote(text: Seq<char>) -> Seq<char> {
    let ls = lines(unify_newlines(text));
    if ls.len() == 0 {
        "> "@
    } else {
        quoted_lines(ls)
    }
}

/// `v` with every carriage return that a line feed follows taken out.
fn unified(v: &Vec<char>) -> (u: Vec<char>)
    ensures
        u@ == unify_newlines(v@),
{
    let n = v.len();
    let mut u: Vec<char> = Vec::new();
    let mut i: usize = 0;
    assert(v@.skip(0) =~= v@);
    while i < n
        invariant
            i <= n == v.len(),
            unify_newlines(v@) == u@ + unify_newlines(v@.skip(i as int)),
        decreases n - i,
    {
        let ghost rest = v@.skip(i as int);
        if v[i] == '\r' && i + 1 < n && v[i + 1] == '\n' {
            u.push('\n');
            i += 2;
            assert(rest.skip(2) =~= v@.skip(i as int));
        } else {
            u.push(v[i]);
            i += 1;
            assert(rest.skip(1) =~= v@.skip(i as int));
        }
    }
    u
}

/// `text` as a quotation.
pub fn quote_lines(text: &str) -> (r: String)
    ensures
        r@ == quote(text@),
{
    let v = chars_of(text);
    let u = unified(&v);
    let n = u.len();
    let mut out = String::new();
    let mut i: usize = 0;
    let mut first = true;
    let ghost mut done: Seq<Seq<char>> = Seq::empty();
    assert(u@.skip(0) =~= u@);
    while i < n
        invariant
            i <= n == u.len(),
            lines(u@) == done + lines(u@.skip(i as int)),
            out@ == quoted_lines(done),
            first == (done.len() == 0),
        decreases n - i,
    {
        let ghost rest = u@.skip(i as int);
        let e = lead_at(&u, i, n, CharClass::Other('\n'));
        let stop = if e < n && e > i && u[e - 1] == '\r' {
            e - 1
        } else {
            e
        };
        let ghost line = u@.subrange(i as int, stop as int);
        if !first {
            push_char(&mut out, '\n');
        }
        out.append("> ");
        push_range(&mut out, &u, i, stop);
        proof {
            let grown = done.push(line);
            assert(grown.drop_last() =~= done);
            if e < n {
                assert(strip_cr(rest.take(e - i)) =~= line);
                assert(rest.skip(e - i + 1) =~= u@.skip(e + 1));
            }
            done = grown;
        }
        first = false;
        i = if e < n {
            e + 1
        } else {
            n
        };
    }
    if first {
        out.append("> ");
    }
    out
}

/// The sender as named in a quotation.
pub open spec fn shown_sender(from: Seq<char>) -> Seq<char> {
    if from.len() == 0 {
        "(unknown)"@
    } else {
        from
    }
}

/// The date as named in a quotation.
pub open spec fn shown_date(date: Seq<char>) -> Seq<char> {
    if date.len() == 0 {
        "(unknown date)"@
    } else {
        date
    }
}

/// The quotation that a reply carries: a line that names the date and the
/// sender of the message answered, then its text, quoted.
pub open spec fn reply_quote(header: SummaryModel, body: Seq<char>) -> Seq<char> {
    "On "@ + shown_date(header.date) + ", "@ + shown_sender(header.from) + " wrote:"@
        + seq!['\n'] + quote(body)
}

/// The quotation that a reply to the message `header` with the text `body`
/// carries.
pub fn make_reply_quote(header: &MessageSummary, body: &str) -> (r: String)
    ensures
        r@ == reply_quote(header@, body@),
{
    let mut out = "On ".to_owned();
    if header.date.as_str().is_empty() {
        out.append("(unknown date)");
    } else {
        out.append(header.date.as_str());
    }
    out.append(", ");
    if header.from.as_str().is_empty() {
        out.append("(unknown)");
    } else {
        out.append(header.from.as_str());
    }
    out.append(" wrote:");
    push_char(&mut out, '\n');
    let quoted = quote_lines(body);
    out.append(quoted.as_str());
    out
}

} // verus!
