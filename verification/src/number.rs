//! Numbers as text: decimal rendering, and the reading of a port number.

use crate::text::chars_of;
use crate::text::push_char;
use vstd::prelude::*;
use vstd::view::View as _;

verus! {

/// The decimal digit that stands for `d`.
pub open spec fn digit_char(d: nat) -> char
    recommends
        d < 10,
{
    (48 + d) as char
}

/// Whether `c` is one of `0` to `9`.
pub open spec fn is_digit(c: char) -> bool {
    '0' <= c <= '9'
}

/// The number that the digit `c` stands for.
pub open spec fn digit_value(c: char) -> nat
    recommends
        is_digit(c),
{
    (c as int - 48) as nat
}

/// `n` in decimal, without sign or leading zeros.
pub open spec fn decimal(n: nat) -> Seq<char>
    decreases n,
{
    if n < 10 {
        seq![digit_char(n)]
    } else {
        decimal(n / 10).push(digit_char(n % 10))
    }
}

/// Why a text is not a port number.
#[derive(Clone, Copy, PartialEq, Eq, Structural, Debug)]
pub enum PortError {
    /// The text is empty.
    Empty,
    /// The text holds a character that is no digit, or only a sign.
    InvalidDigit,
    /// The number is above 65535.
    PosOverflow,
}

/// The number read from the digits `s` after `acc` was read from the digits
/// before them. Reading stops at the first character that is no digit, or
/// that takes the number above 65535.
pub open spec fn read_digits(s: Seq<char>, acc: nat) -> Result<nat, PortError>
    decreases s.len(),
{
    if s.len() == 0 {
        Ok(acc)
    } else if !is_digit(s[0]) {
        Err(PortError::InvalidDigit)
    } else if acc * 10 + digit_value(s[0]) > u16::MAX {
        Err(PortError::PosOverflow)
    } else {
        read_digits(s.drop_first(), acc * 10 + digit_value(s[0]))
    }
}

/// The port number that `s` denotes: decimal digits, with an optional `+`
/// before them, and a value of at most 65535.
pub open spec fn parse_port(s: Seq<char>) -> Result<u16, PortError> {
    if s.len() == 0 {
        Err(PortError::Empty)
    } else if s.len() == 1 && (s[0] == '+' || s[0] == '-') {
        Err(PortError::InvalidDigit)
    } else {
        match read_digits(
            if s[0] == '+' {
                s.drop_first()
            } else {
                s
            },
            0,
        ) {
            Ok(n) => Ok(n as u16),
            Err(e) => Err(e),
        }
    }
}

impl PortError {
    /// The error in words.
    pub open spec fn text(self) -> Seq<char> {
        match self {
            PortError::Empty => "cannot parse integer from empty string"@,
            PortError::InvalidDigit => "invalid digit found in string"@,
            PortError::PosOverflow => "number too large to fit in target type"@,
        }
    }

    /// The error in words.
    pub fn message(&self) -> (s: String)
        ensures
            s@ == self.text(),
    {
        match self {
            PortError::Empty => "cannot parse integer from empty string".to_owned(),
            PortError::InvalidDigit => "invalid digit found in string".to_owned(),
            PortError::PosOverflow => "number too large to fit in target type".to_owned(),
        }
    }
}

/// Appends `n` in decimal to `out`.
pub fn push_decimal(out: &mut String, n: u64)
    ensures
        final(out)@ == old(out)@ + decimal(n as nat),
    decreases n,
{
    if n >= 10 {
        push_decimal(out, n / 10);
    }
    let d: u8 = (n % 10) as u8;
    let c: char = (48u8 + d) as char;
    push_char(out, c);
}

/// `n` in decimal.
pub fn decimal_string(n: u64) -> (s: String)
    ensures
        s@ == decimal(n as nat),
{
    let mut s = String::new();
    push_decimal(&mut s, n);
    s
}

/// Reads a port number.
pub fn parse_port_str(s: &str) -> (r: Result<u16, PortError>)
    ensures
        r == parse_port(s@),
{
    let v = chars_of(s);
    let n = v.len();
    if n == 0 {
        return Err(PortError::Empty);
    }
    if n == 1 && (v[0] == '+' || v[0] == '-') {
        return Err(PortError::InvalidDigit);
    }
    let start: usize = if v[0] == '+' {
        1
    } else {
        0
    };
    assert(v@.skip(start as int) =~= if v@[0] == '+' {
        v@.drop_first()
    } else {
        v@
    });
    let mut acc: u16 = 0;
    let mut i: usize = start;
    while i < n
        invariant
            start <= i <= n == v.len(),
            parse_port(s@) == match read_digits(v@.skip(i as int), acc as nat) {
                Ok(n) => Ok(n as u16),
                Err(e) => Err(e),
            },
        decreases n - i,
    {
        let c = v[i];
        let ghost rest = v@.skip(i as int);
        assert(rest.drop_first() =~= v@.skip(i + 1));
        if !('0' <= c && c <= '9') {
            return Err(PortError::InvalidDigit);
        }
        let d: u16 = (c as u32 - 48) as u16;
        if acc > 6553 || (acc == 6553 && d > 5) {
            return Err(PortError::PosOverflow);
        }
        acc = acc * 10 + d;
        i += 1;
    }
    Ok(acc)
}

/// Rendering a port number and reading it back gives the number.
pub proof fn lemma_parse_decimal(n: u16)
    ensures
        parse_port(decimal(n as nat)) == Ok::<u16, PortError>(n),
{
    lemma_decimal_digits(n as nat);
    lemma_read_decimal(n as nat);
}

/// A decimal rendering is not empty and holds digits only.
pub proof fn lemma_decimal_digits(n: nat)
    ensures
        decimal(n).len() > 0,
        forall|i: int| 0 <= i < decimal(n).len() ==> is_digit(#[trigger] decimal(n)[i]),
    decreases n,
{
    if n >= 10 {
        lemma_decimal_digits(n / 10);
    }
}

/// Reading `s` and then one more digit `d` is reading `s` followed by `d`.
proof fn lemma_read_push(s: Seq<char>, acc: nat, d: nat, v: nat)
    requires
        d < 10,
        read_digits(s, acc) == Ok::<nat, PortError>(v),
        v * 10 + d <= u16::MAX,
    ensures
        read_digits(s.push(digit_char(d)), acc) == Ok::<nat, PortError>(v * 10 + d),
    decreases s.len(),
{
    let t = s.push(digit_char(d));
    if s.len() == 0 {
        assert(read_digits(t.drop_first(), acc * 10 + d) == Ok::<nat, PortError>(acc * 10 + d));
    } else {
        assert(t.drop_first() =~= s.drop_first().push(digit_char(d)));
        lemma_read_push(s.drop_first(), acc * 10 + digit_value(s[0]), d, v);
    }
}

/// Reading the decimal rendering of a number within range gives the number.
proof fn lemma_read_decimal(n: nat)
    requires
        n <= u16::MAX,
    ensures
        read_digits(decimal(n), 0) == Ok::<nat, PortError>(n),
    decreases n,
{
    if n < 10 {
        let s = decimal(n);
        assert(read_digits(s.drop_first(), n) == Ok::<nat, PortError>(n));
    } else {
        lemma_read_decimal(n / 10);
        lemma_read_push(decimal(n / 10), 0, n % 10, n / 10);
    }
}

} // verus!
