//! Text as sequences of characters: the vocabulary in which the mail client's
//! string handling is specified, and the verified routines that implement it.

use vstd::prelude::*;
use vstd::std_specs::iter::IteratorSpec;

verus! {

/// A set of characters, by which a text is scanned or stripped.
#[derive(Clone, Copy, Debug)]
pub enum CharClass {
    /// Unicode white space.
    Whitespace,
    /// Everything but Unicode white space.
    NonWhitespace,
    /// The punctuation that surrounds an address in a header: `<`, `>`, `,`, `;`.
    Wrapping,
    /// Every character but the given one.
    Other(char),
}

/// Whether `c` has the Unicode property White_Space.
pub open spec fn is_space(c: char) -> bool {
    ||| '\u{9}' <= c <= '\u{d}'
    ||| c == ' '
    ||| c == '\u{85}'
    ||| c == '\u{a0}'
    ||| c == '\u{1680}'
    ||| '\u{2000}' <= c <= '\u{200a}'
    ||| c == '\u{2028}'
    ||| c == '\u{2029}'
    ||| c == '\u{202f}'
    ||| c == '\u{205f}'
    ||| c == '\u{3000}'
}

/// Whether `c` is punctuation that may surround an address.
pub open spec fn is_wrapping(c: char) -> bool {
    c == '<' || c == '>' || c == ',' || c == ';'
}

impl CharClass {
    /// Whether `c` belongs to the class.
    pub open spec fn has(self, c: char) -> bool {
        match self {
            CharClass::Whitespace => is_space(c),
            CharClass::NonWhitespace => !is_space(c),
            CharClass::Wrapping => is_wrapping(c),
            CharClass::Other(x) => c != x,
        }
    }

    /// Decides membership of `c` in the class.
    pub fn holds(self, c: char) -> (b: bool)
        ensures
            b == self.has(c),
    {
        match self {
            CharClass::Whitespace => is_space_char(c),
            CharClass::NonWhitespace => !is_space_char(c),
            CharClass::Wrapping => c == '<' || c == '>' || c == ',' || c == ';',
            CharClass::Other(x) => c != x,
        }
    }
}

/// Decides whether `c` is white space.
pub fn is_space_char(c: char) -> (b: bool)
    ensures
        b == is_space(c),
{
    ('\u{9}' <= c && c <= '\u{d}') || c == ' ' || c == '\u{85}' || c == '\u{a0}' || c
        == '\u{1680}' || ('\u{2000}' <= c && c <= '\u{200a}') || c == '\u{2028}' || c
        == '\u{2029}' || c == '\u{202f}' || c == '\u{205f}' || c == '\u{3000}'
}

/// The length of the longest prefix of `s` made of characters of class `k`.
pub open spec fn lead(s: Seq<char>, k: CharClass) -> nat
    decreases s.len(),
{
    if s.len() > 0 && k.has(s[0]) {
        1 + lead(s.drop_first(), k)
    } else {
        0
    }
}

/// The length of the longest suffix of `s` made of characters of class `k`.
pub open spec fn trail(s: Seq<char>, k: CharClass) -> nat
    decreases s.len(),
{
    if s.len() > 0 && k.has(s.last()) {
        1 + trail(s.drop_last(), k)
    } else {
        0
    }
}

/// `s` without its longest prefix of characters of class `k`.
pub open spec fn strip_start(s: Seq<char>, k: CharClass) -> Seq<char> {
    s.skip(lead(s, k) as int)
}

/// `s` without its longest suffix of characters of class `k`.
pub open spec fn strip_end(s: Seq<char>, k: CharClass) -> Seq<char> {
    s.take(s.len() - trail(s, k))
}

/// `s` with characters of class `k` removed from both ends.
pub open spec fn strip(s: Seq<char>, k: CharClass) -> Seq<char> {
    strip_end(strip_start(s, k), k)
}

/// `s` without leading white space.
pub open spec fn trim_start(s: Seq<char>) -> Seq<char> {
    strip_start(s, CharClass::Whitespace)
}

/// `s` without trailing white space.
pub open spec fn trim_end(s: Seq<char>) -> Seq<char> {
    strip_end(s, CharClass::Whitespace)
}

/// `s` without leading and trailing white space.
pub open spec fn trim(s: Seq<char>) -> Seq<char> {
    strip(s, CharClass::Whitespace)
}

/// Whether `s` holds nothing but white space.
pub open spec fn is_blank(s: Seq<char>) -> bool {
    trim(s).len() == 0
}

/// The index of the first `c` in `s`, or the length of `s` if there is none.
pub open spec fn find(s: Seq<char>, c: char) -> nat {
    lead(s, CharClass::Other(c))
}

/// A prefix of `n` characters of class `k`, followed by a character that is
/// not of it or by the end of the text, is the longest such prefix.
pub proof fn lemma_lead_at(s: Seq<char>, k: CharClass, n: int)
    requires
        0 <= n <= s.len(),
        forall|i: int| 0 <= i < n ==> k.has(#[trigger] s[i]),
        n < s.len() ==> !k.has(s[n]),
    ensures
        lead(s, k) == n,
    decreases n,
{
    if n > 0 {
        lemma_lead_at(s.drop_first(), k, n - 1);
    }
}

/// A suffix that starts at `n`, is made of characters of class `k` and is
/// preceded by a character that is not of it or by the start of the text,
/// is the longest such suffix.
pub proof fn lemma_trail_at(s: Seq<char>, k: CharClass, n: int)
    requires
        0 <= n <= s.len(),
        forall|i: int| n <= i < s.len() ==> k.has(#[trigger] s[i]),
        n > 0 ==> !k.has(s[n - 1]),
    ensures
        trail(s, k) == s.len() - n,
    decreases s.len() - n,
{
    if n < s.len() {
        lemma_trail_at(s.drop_last(), k, n);
    }
}

/// What the longest prefix of class `k` is: it fits in the text, holds only
/// characters of the class, and cannot be extended.
pub proof fn lemma_lead(s: Seq<char>, k: CharClass)
    ensures
        lead(s, k) <= s.len(),
        forall|i: int| 0 <= i < lead(s, k) ==> k.has(#[trigger] s[i]),
        lead(s, k) < s.len() ==> !k.has(s[lead(s, k) as int]),
    decreases s.len(),
{
    if s.len() > 0 && k.has(s[0]) {
        let t = s.drop_first();
        lemma_lead(t, k);
        assert forall|i: int| 0 <= i < lead(s, k) implies k.has(#[trigger] s[i]) by {
            if i > 0 {
                assert(s[i] == t[i - 1]);
            }
        }
    }
}

/// What the longest suffix of class `k` is: it fits in the text, holds only
/// characters of the class, and cannot be extended.
pub proof fn lemma_trail(s: Seq<char>, k: CharClass)
    ensures
        trail(s, k) <= s.len(),
        forall|i: int| s.len() - trail(s, k) <= i < s.len() ==> k.has(#[trigger] s[i]),
        trail(s, k) < s.len() ==> !k.has(s[s.len() - trail(s, k) - 1]),
    decreases s.len(),
{
    if s.len() > 0 && k.has(s.last()) {
        let t = s.drop_last();
        lemma_trail(t, k);
        assert forall|i: int| s.len() - trail(s, k) <= i < s.len() implies k.has(
            #[trigger] s[i],
        ) by {
            if i < t.len() {
                assert(s[i] == t[i]);
            }
        }
    }
}

/// Appends one character to a string, as `String::push` does.
#[verifier::external_body]
pub(crate) fn push_char(s: &mut String, c: char)
    ensures
        final(s)@ == old(s)@.push(c),
{
    s.push(c)
}

/// Removes the last character of a string and returns it, as `String::pop`
/// does; an empty string stays empty and gives `None`.
#[verifier::external_body]
pub(crate) fn pop_char(s: &mut String) -> (c: Option<char>)
    ensures
        old(s)@.len() == 0 ==> c.is_none() && final(s)@ == old(s)@,
        old(s)@.len() > 0 ==> c == Some(old(s)@.last()) && final(s)@ == old(s)@.drop_last(),
{
    s.pop()
}

/// The characters of `s`, in order.
pub fn chars_of(s: &str) -> (v: Vec<char>)
    ensures
        v@ == s@,
{
    let mut v: Vec<char> = Vec::new();
    for c in it: s.chars()
        invariant
            it.seq() == s@,
            v@ == s@.take(it.index()),
    {
        v.push(c);
    }
    v
}

/// Appends the characters `v[from..to]` to `out`.
pub fn push_range(out: &mut String, v: &Vec<char>, from: usize, to: usize)
    requires
        from <= to <= v.len(),
    ensures
        final(out)@ == old(out)@ + v@.subrange(from as int, to as int),
{
    let mut i: usize = from;
    while i < to
        invariant
            from <= i <= to <= v.len(),
            out@ == old(out)@ + v@.subrange(from as int, i as int),
        decreases to - i,
    {
        push_char(out, v[i]);
        i += 1;
    }
}

/// The string whose characters are `v[from..to]`.
pub fn string_of(v: &Vec<char>, from: usize, to: usize) -> (s: String)
    requires
        from <= to <= v.len(),
    ensures
        s@ == v@.subrange(from as int, to as int),
{
    let mut s = String::new();
    push_range(&mut s, v, from, to);
    s
}

/// The end of the longest prefix of `v[from..to]` made of characters of
/// class `k`.
pub fn lead_at(v: &Vec<char>, from: usize, to: usize, k: CharClass) -> (r: usize)
    requires
        from <= to <= v.len(),
    ensures
        from <= r <= to,
        r - from == lead(v@.subrange(from as int, to as int), k),
{
    let mut i: usize = from;
    while i < to && k.holds(v[i])
        invariant
            from <= i <= to <= v.len(),
            forall|j: int| from <= j < i ==> k.has(#[trigger] v@[j]),
        decreases to - i,
    {
        i += 1;
    }
    proof {
        lemma_lead_at(v@.subrange(from as int, to as int), k, i - from);
    }
    i
}

/// The start of the longest suffix of `v[from..to]` made of characters of
/// class `k`.
pub fn trail_at(v: &Vec<char>, from: usize, to: usize, k: CharClass) -> (r: usize)
    requires
        from <= to <= v.len(),
    ensures
        from <= r <= to,
        to - r == trail(v@.subrange(from as int, to as int), k),
{
    let mut i: usize = to;
    while i > from && k.holds(v[i - 1])
        invariant
            from <= i <= to <= v.len(),
            forall|j: int| i <= j < to ==> k.has(#[trigger] v@[j]),
        decreases i - from,
    {
        i -= 1;
    }
    proof {
        lemma_trail_at(v@.subrange(from as int, to as int), k, i - from);
    }
    i
}

/// The bounds of `v[from..to]` with characters of class `k` removed from
/// both ends.
pub fn strip_at(v: &Vec<char>, from: usize, to: usize, k: CharClass) -> (r: (usize, usize))
    requires
        from <= to <= v.len(),
    ensures
        from <= r.0 <= r.1 <= to,
        v@.subrange(r.0 as int, r.1 as int) == strip(v@.subrange(from as int, to as int), k),
{
    let a = lead_at(v, from, to, k);
    let b = trail_at(v, a, to, k);
    proof {
        let s = v@.subrange(from as int, to as int);
        assert(strip_start(s, k) =~= v@.subrange(a as int, to as int));
    }
    (a, b)
}

/// `s` without leading and trailing white space.
pub fn trim_str(s: &str) -> (r: String)
    ensures
        r@ == trim(s@),
{
    let v = chars_of(s);
    let (a, b) = strip_at(&v, 0, v.len(), CharClass::Whitespace);
    assert(v@.subrange(0, v.len() as int) =~= v@);
    string_of(&v, a, b)
}

/// Decides whether `s` holds nothing but white space.
pub fn is_blank_str(s: &str) -> (b: bool)
    ensures
        b == is_blank(s@),
{
    let v = chars_of(s);
    let (a, b) = strip_at(&v, 0, v.len(), CharClass::Whitespace);
    assert(v@.subrange(0, v.len() as int) =~= v@);
    a == b
}

/// The small letter for a capital letter of the Latin alphabet; any other
/// character as it is.
pub open spec fn lower(c: char) -> char {
    if 'A' <= c <= 'Z' {
        ((c as u8) + 32) as char
    } else {
        c
    }
}

/// `s` with its capital Latin letters made small.
pub open spec fn lowered(s: Seq<char>) -> Seq<char> {
    s.map_values(|c: char| lower(c))
}

/// The small letter for a capital letter of the Latin alphabet.
pub fn lower_char(c: char) -> (r: char)
    ensures
        r == lower(c),
{
    if 'A' <= c && c <= 'Z' {
        ((c as u8) + 32) as char
    } else {
        c
    }
}

/// Decides whether `s`, with its capital Latin letters made small, is `t`.
pub fn lowered_is(s: &str, t: &str) -> (b: bool)
    ensures
        b == (lowered(s@) == t@),
{
    let v = chars_of(s);
    let w = chars_of(t);
    if v.len() != w.len() {
        return false;
    }
    let mut i: usize = 0;
    while i < v.len()
        invariant
            i <= v.len() == w.len(),
            v@ == s@,
            w@ == t@,
            forall|j: int| 0 <= j < i ==> lower(v@[j]) == w@[j],
        decreases v.len() - i,
    {
        if lower_char(v[i]) != w[i] {
            return false;
        }
        i += 1;
    }
    assert(lowered(s@) =~= t@);
    true
}

} // verus!
