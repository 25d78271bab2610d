//! Positions in the source text, and their textual renderings.
use vstd::prelude::*;

use crate::text::{chars_of, string_of};

verus! {

/// A position in the source: a 1-based line and a 0-based column counted in
/// characters since the last newline.
#[derive(Debug, Clone, Copy, PartialEq, Eq, Structural)]
pub struct CodeSourceLocation {
    pub line: usize,
    pub column: usize,
}

/// The character of the decimal digit `d`.
pub open spec fn digit_char(d: nat) -> char {
    if d == 0 {
        '0'
    } else if d == 1 {
        '1'
    } else if d == 2 {
        '2'
    } else if d == 3 {
        '3'
    } else if d == 4 {
        '4'
    } else if d == 5 {
        '5'
    } else if d == 6 {
        '6'
    } else if d == 7 {
        '7'
    } else if d == 8 {
        '8'
    } else {
        '9'
    }
}

/// The decimal notation of `n`, without leading zeros.
pub open spec fn decimal(n: nat) -> Seq<char>
    decreases n,
{
    if n < 10 {
        seq![digit_char(n)]
    } else {
        decimal(n / 10).push(digit_char(n % 10))
    }
}

/// The compact rendering of a location, `(ln: L, cln: C)`.
pub open spec fn location_compact(l: CodeSourceLocation) -> Seq<char> {
    "(ln: "@ + decimal(l.line as nat) + ", cln: "@ + decimal(l.column as nat) + ")"@
}

/// The verbose rendering of a location, `(line: L, column: C)`.
pub open spec fn location_verbose(l: CodeSourceLocation) -> Seq<char> {
    "(line: "@ + decimal(l.line as nat) + ", column: "@ + decimal(l.column as nat) + ")"@
}

impl CodeSourceLocation {
    pub fn new(line: usize, column: usize) -> (r: Self)
        ensures
            r.line == line,
            r.column == column,
    {
        Self { line, column }
    }

    pub fn to_compact_string(&self) -> (r: String)
        ensures
            r@ == location_compact(*self),
    {
        let mut out: Vec<char> = Vec::new();
        self.push_compact(&mut out);
        string_of(out.as_slice())
    }

    /// The verbose rendering, `(line: L, column: C)`.
    pub fn to_verbose_string(&self) -> (r: String)
        ensures
            r@ == location_verbose(*self),
    {
        let mut out: Vec<char> = Vec::new();
        self.push_verbose(&mut out);
        string_of(out.as_slice())
    }

    pub(crate) fn push_compact(&self, out: &mut Vec<char>)
        ensures
            final(out)@ == old(out)@ + location_compact(*self),
    {
        push_str(out, "(ln: ");
        push_decimal(out, self.line);
        push_str(out, ", cln: ");
        push_decimal(out, self.column);
        push_str(out, ")");
        assert(final(out)@ =~= old(out)@ + location_compact(*self));
    }

    pub(crate) fn push_verbose(&self, out: &mut Vec<char>)
        ensures
            final(out)@ == old(out)@ + location_verbose(*self),
    {
        push_str(out, "(line: ");
        push_decimal(out, self.line);
        push_str(out, ", column: ");
        push_decimal(out, self.column);
        push_str(out, ")");
        assert(final(out)@ =~= old(out)@ + location_verbose(*self));
    }
}

/// Appends the characters of `s` to `out`.
pub(crate) fn push_str(out: &mut Vec<char>, s: &str)
    ensures
        final(out)@ == old(out)@ + s@,
{
    let mut w = chars_of(s);
    out.append(&mut w);
}

fn digit_of(d: usize) -> (r: char)
    requires
        d < 10,
    ensures
        r == digit_char(d as nat),
{
    if d == 0 {
        '0'
    } else if d == 1 {
        '1'
    } else if d == 2 {
        '2'
    } else if d == 3 {
        '3'
    } else if d == 4 {
        '4'
    } else if d == 5 {
        '5'
    } else if d == 6 {
        '6'
    } else if d == 7 {
        '7'
    } else if d == 8 {
        '8'
    } else {
        '9'
    }
}

/// Appends the decimal notation of `n` to `out`.
pub(crate) fn push_decimal(out: &mut Vec<char>, n: usize)
    ensures
        final(out)@ == old(out)@ + decimal(n as nat),
    decreases n,
{
    if n >= 10 {
        push_decimal(out, n / 10);
    }
    out.push(digit_of(n % 10));
    assert(final(out)@ =~= old(out)@ + decimal(n as nat));
}

} // verus!
