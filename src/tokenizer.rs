//! The tokenizer: scans raw units, locates them and classifies them into a
//! token stream ending in the end-of-input token.
use vstd::prelude::*;

use crate::code_source_location::CodeSourceLocation;
use crate::scanner::{is_space, lemma_run_end, lemma_unit_bounds, next_unit, unit_at, CharClass};
use crate::text::chars_of;
use crate::token::{Token, TokenList};
use crate::token_type::{classify, classify_range, RawToken, TokenType};

verus! {

/// The raw units from index `i` on, whitespace left out: category, start, end.
pub open spec fn units_from(s: Seq<char>, i: int) -> Seq<(RawToken, int, int)>
    decreases s.len() - i,
{
    if i < 0 || i >= s.len() {
        Seq::empty()
    } else {
        let (k, e) = unit_at(s, i);
        if e <= i || e > s.len() {
            Seq::empty()
        } else if k == RawToken::Whitespace {
            units_from(s, e)
        } else {
            seq![(k, i, e)] + units_from(s, e)
        }
    }
}

/// The raw units of the whole text, in order.
pub open spec fn raw_units(s: Seq<char>) -> Seq<(RawToken, int, int)> {
    units_from(s, 0)
}

/// The 1-based line of index `k`: one more than the newlines before it.
pub open spec fn line_at(s: Seq<char>, k: int) -> nat
    decreases k,
{
    if k <= 0 {
        1
    } else {
        line_at(s, k - 1) + if s[k - 1] == '\n' {
            1nat
        } else {
            0nat
        }
    }
}

/// The column of index `k`: the characters since the last newline before it.
pub open spec fn column_at(s: Seq<char>, k: int) -> nat
    decreases k,
{
    if k <= 0 {
        0
    } else if s[k - 1] == '\n' {
        0
    } else {
        column_at(s, k - 1) + 1
    }
}

pub open spec fn location_at(s: Seq<char>, k: int) -> CodeSourceLocation {
    CodeSourceLocation { line: line_at(s, k) as usize, column: column_at(s, k) as usize }
}

/// The token of the raw unit `u` of `s`.
pub open spec fn token_spec(s: Seq<char>, u: (RawToken, int, int)) -> (
    TokenType,
    Seq<char>,
    CodeSourceLocation,
) {
    let (t, v) = classify(u.0, s.subrange(u.1, u.2));
    (t, v, location_at(s, u.1))
}

/// Where the last raw unit of `units` ends; 0 when there is none.
pub open spec fn end_of_units(units: Seq<(RawToken, int, int)>) -> int {
    if units.len() == 0 {
        0
    } else {
        units.last().2
    }
}

/// The token stream of `s`: one token per raw unit, then the end-of-input
/// token just past the last unit.
pub open spec fn tokens_spec(s: Seq<char>) -> Seq<(TokenType, Seq<char>, CodeSourceLocation)> {
    raw_units(s).map_values(|u: (RawToken, int, int)| token_spec(s, u)).push(
        (TokenType::Eoft, Seq::empty(), location_at(s, end_of_units(raw_units(s)))),
    )
}

pub proof fn lemma_location_bounds(s: Seq<char>, k: int)
    requires
        0 <= k <= s.len(),
    ensures
        line_at(s, k) <= k + 1,
        column_at(s, k) <= k,
    decreases k,
{
    if k > 0 {
        lemma_location_bounds(s, k - 1);
    }
}

proof fn lemma_line_monotone(s: Seq<char>, a: int, b: int)
    requires
        0 <= a <= b <= s.len(),
    ensures
        line_at(s, a) <= line_at(s, b),
    decreases b,
{
    if a < b {
        lemma_line_monotone(s, a, b - 1);
    }
}

/// Past a character that is not a newline, the line number is at most the index.
proof fn lemma_line_after_text(s: Seq<char>, p: int, k: int)
    requires
        0 <= p < k <= s.len(),
        s[p] != '\n',
    ensures
        line_at(s, k) <= k,
    decreases k,
{
    if k == p + 1 {
        lemma_location_bounds(s, p);
    } else {
        lemma_line_after_text(s, p, k - 1);
    }
}

/// Advances a location cursor from index `from` to index `to`.
fn advance_to(v: &Vec<char>, from: usize, line: usize, column: usize, to: usize) -> (r: (
    usize,
    usize,
))
    requires
        from <= to <= v@.len(),
        line_at(v@, to as int) <= usize::MAX,
        line == line_at(v@, from as int),
        column == column_at(v@, from as int),
    ensures
        r.0 == line_at(v@, to as int),
        r.1 == column_at(v@, to as int),
{
    let mut k = from;
    let mut l = line;
    let mut c = column;
    while k < to
        invariant
            from <= k <= to <= v@.len(),
            line_at(v@, to as int) <= usize::MAX,
            l == line_at(v@, k as int),
            c == column_at(v@, k as int),
        decreases to - k,
    {
        proof {
            lemma_location_bounds(v@, k as int);
            lemma_line_monotone(v@, k + 1, to as int);
        }
        if v[k] == '\n' {
            l = l + 1;
            c = 0;
        } else {
            c = c + 1;
        }
        k = k + 1;
    }
    (l, c)
}

/// A tokenizer over one source text.
pub struct Tokenizer {
    file_name: String,
    input: Vec<char>,
}

impl Tokenizer {
    /// The source text.
    pub closed spec fn source(&self) -> Seq<char> {
        self.input@
    }

    /// The file identifier.
    pub closed spec fn file(&self) -> Seq<char> {
        self.file_name@
    }

    pub fn new(file_name: &str, input: &str) -> (r: Self)
        ensures
            r.source() == input@,
            r.file() == file_name@,
    {
        Self { file_name: String::from_str(file_name), input: chars_of(input) }
    }

    /// The token stream of the source, tagged with the file identifier.
    pub fn tokenize(&self) -> (r: TokenList)
        ensures
            r.file_name@ == self.file(),
            r.token_views() == tokens_spec(self.source()),
    {
        let v = &self.input;
        let n = v.len();
        let mut tokens: Vec<Token> = Vec::new();
        let mut i: usize = 0;
        let mut pos: usize = 0;
        let mut line: usize = 1;
        let mut column: usize = 0;
        let mut last_end: usize = 0;
        let ghost mut done: Seq<(RawToken, int, int)> = Seq::empty();
        while i < n
            invariant
                i <= n == v@.len(),
                v@ == self.input@,
                done + units_from(v@, i as int) == raw_units(v@),
                tokens@.len() == done.len(),
                forall|k: int| 0 <= k < done.len() ==> #[trigger] tokens@[k]@ == token_spec(v@, done[k]),
                pos <= last_end <= i,
                line == line_at(v@, pos as int),
                column == column_at(v@, pos as int),
                last_end == end_of_units(done),
                last_end > 0 ==> pos < last_end && v@[pos as int] != '\n',
            decreases n - i,
        {
            let (k, e) = next_unit(v, i);
            if k == RawToken::Whitespace {
                i = e;
            } else {
                proof {
                    lemma_location_bounds(v@, i as int);
                    assert(!is_space(v@[i as int]));
                }
                let (l2, c2) = advance_to(v, pos, line, column, i);
                let (t, val) = classify_range(k, v, i, e);
                tokens.push(Token::new(t, val, CodeSourceLocation::new(l2, c2)));
                proof {
                    lemma_location_bounds(v@, i as int);
                    assert(units_from(v@, i as int) == seq![(k, i as int, e as int)] + units_from(
                        v@,
                        e as int,
                    ));
                    assert(done.push((k, i as int, e as int)) + units_from(v@, e as int) =~= done
                        + units_from(v@, i as int));
                    done = done.push((k, i as int, e as int));
                }
                pos = i;
                line = l2;
                column = c2;
                last_end = e;
                i = e;
            }
        }
        proof {
            if last_end > 0 {
                lemma_line_after_text(v@, pos as int, last_end as int);
            }
        }
        let (l3, c3) = advance_to(v, pos, line, column, last_end);
        proof {
            lemma_location_bounds(v@, last_end as int);
        }
        tokens.push(Token::new_with_empty_value(TokenType::Eoft, CodeSourceLocation::new(l3, c3)));
        let r = TokenList { file_name: self.file_name.clone(), tokens };
        proof {
            assert(done =~= raw_units(v@));
            assert(r.token_views() =~= tokens_spec(v@));
        }
        r
    }
}

/// Whether every character of `s[a..b]` is whitespace.
pub open spec fn all_space(s: Seq<char>, a: int, b: int) -> bool {
    forall|j: int| a <= j < b ==> is_space(#[trigger] s[j])
}

/// The units from `i` on lie in order within `s[i..]`, none of them whitespace,
/// with only whitespace before, between and after them.
pub open spec fn partitions(s: Seq<char>, i: int, u: Seq<(RawToken, int, int)>) -> bool {
    &&& forall|k: int|
        0 <= k < u.len() ==> i <= (#[trigger] u[k]).1 < u[k].2 <= s.len() && u[k].0
            != RawToken::Whitespace
    &&& forall|k: int|
        0 <= k < u.len() - 1 ==> (#[trigger] u[k]).2 <= u[k + 1].1 && all_space(
            s,
            u[k].2,
            u[k + 1].1,
        )
    &&& u.len() == 0 ==> all_space(s, i, s.len() as int)
    &&& u.len() > 0 ==> all_space(s, i, u[0].1) && all_space(s, u.last().2, s.len() as int)
}

proof fn lemma_units_from_partition(s: Seq<char>, i: int)
    requires
        0 <= i <= s.len(),
    ensures
        partitions(s, i, units_from(s, i)),
    decreases s.len() - i,
{
    if i < s.len() {
        let (k, e) = unit_at(s, i);
        lemma_unit_bounds(s, i);
        lemma_units_from_partition(s, e);
        let rest = units_from(s, e);
        if k == RawToken::Whitespace {
            assert(is_space(s[i]));
            lemma_run_end(s, i, CharClass::Space);
            assert(all_space(s, i, e));
        } else {
            let u = units_from(s, i);
            assert(u == seq![(k, i, e)] + rest);
            assert forall|m: int| 0 <= m < u.len() - 1 implies (#[trigger] u[m]).2 <= u[m + 1].1
                && all_space(s, u[m].2, u[m + 1].1) by {
                if m > 0 {
                    assert(u[m] == rest[m - 1]);
                    assert(u[m + 1] == rest[m]);
                }
            }
        }
    }
}

/// The raw units partition the text: in order, each non-empty and none of
/// them whitespace, with nothing but whitespace before, between and after
/// them. Every character outside whitespace belongs to exactly one unit.
pub proof fn lemma_units_partition(s: Seq<char>)
    ensures
        partitions(s, 0, raw_units(s)),
{
    lemma_units_from_partition(s, 0);
}

proof fn lemma_classify_never_end(raw: RawToken, text: Seq<char>)
    ensures
        classify(raw, text).0 != TokenType::Eoft,
{
}

/// Every stream is non-empty, ends in the end-of-input token, and holds no
/// other end-of-input token.
pub proof fn lemma_stream_ends_with_sentinel(s: Seq<char>)
    ensures
        tokens_spec(s).len() >= 1,
        tokens_spec(s).last().0 == TokenType::Eoft,
        forall|k: int|
            0 <= k < tokens_spec(s).len() - 1 ==> (#[trigger] tokens_spec(s)[k]).0
                != TokenType::Eoft,
{
    let t = tokens_spec(s);
    assert forall|k: int| 0 <= k < t.len() - 1 implies (#[trigger] t[k]).0 != TokenType::Eoft by {
        let u = raw_units(s)[k];
        lemma_classify_never_end(u.0, s.subrange(u.1, u.2));
    }
}

/// Tokenizing a text is deterministic: equal texts give equal streams.
pub proof fn lemma_tokenize_deterministic(a: Seq<char>, b: Seq<char>)
    requires
        a == b,
    ensures
        tokens_spec(a) == tokens_spec(b),
{
}

} // verus!
