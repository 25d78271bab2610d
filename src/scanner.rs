//! The raw scanner: splits source text into raw units, taking at each
//! position the longest match and, between matches of equal length, the
//! pattern of higher priority.
use vstd::prelude::*;

use crate::text::{alphabetic, is_alphabetic, is_numeric, numeric, range_equals};
use crate::token_type::RawToken;

verus! {

/// Character classes of which the scanner takes maximal runs.
#[derive(Debug, Clone, Copy, PartialEq, Eq, Structural)]
pub enum CharClass {
    Space,
    Digit,
    HexDigit,
    BinDigit,
    OctDigit,
    AsciiIdent,
    UnicodeIdent,
    NumberSuffix,
    NotNewline,
}

/// Whitespace: space, tab, newline, form feed and the Unicode space separators.
pub open spec fn is_space(c: char) -> bool {
    c == ' ' || c == '\t' || c == '\n' || c == '\u{c}' || c == '\u{a0}' || c == '\u{1680}' || (
    '\u{2000}' <= c && c <= '\u{200a}') || c == '\u{202f}' || c == '\u{205f}' || c == '\u{3000}'
}

pub open spec fn is_digit(c: char) -> bool {
    '0' <= c && c <= '9'
}

pub open spec fn is_ascii_letter(c: char) -> bool {
    ('a' <= c && c <= 'z') || ('A' <= c && c <= 'Z')
}

pub open spec fn is_ascii_ident_start(c: char) -> bool {
    is_ascii_letter(c) || c == '_'
}

/// Whether `c` lies outside ASCII.
pub open spec fn is_non_ascii(c: char) -> bool {
    c > '\u{7f}'
}

/// The first character of an identifier: a letter or `_`.
pub open spec fn is_unicode_ident_start(c: char) -> bool {
    is_ascii_ident_start(c) || (is_non_ascii(c) && alphabetic(c))
}

/// Whether `c` belongs to the class `k`. Beyond ASCII, Unicode identifiers
/// take letters, marks and numbers as std's `char::is_alphabetic` and
/// `char::is_numeric` see them.
pub open spec fn in_class(k: CharClass, c: char) -> bool {
    match k {
        CharClass::Space => is_space(c),
        CharClass::Digit => is_digit(c),
        CharClass::HexDigit => is_digit(c) || ('a' <= c && c <= 'f') || ('A' <= c && c <= 'F'),
        CharClass::BinDigit => c == '0' || c == '1',
        CharClass::OctDigit => '0' <= c && c <= '7',
        CharClass::AsciiIdent => is_ascii_ident_start(c) || is_digit(c),
        CharClass::UnicodeIdent => is_ascii_ident_start(c) || is_digit(c) || (is_non_ascii(c) && (
        alphabetic(c) || numeric(c))),
        CharClass::NumberSuffix => c == 'i' || c == 'f',
        CharClass::NotNewline => c != '\n',
    }
}

/// Whether `s` holds the character `c` at index `j`.
pub open spec fn is_at(s: Seq<char>, j: int, c: char) -> bool {
    0 <= j < s.len() && s[j] == c
}

/// Whether `s` holds a character of class `k` at index `j`.
pub open spec fn class_at(s: Seq<char>, j: int, k: CharClass) -> bool {
    0 <= j < s.len() && in_class(k, s[j])
}

/// The end of the maximal run of class `k` that starts at `i`.
pub open spec fn run_end(s: Seq<char>, i: int, k: CharClass) -> int
    decreases s.len() - i,
{
    if class_at(s, i, k) {
        run_end(s, i + 1, k)
    } else {
        i
    }
}

/// The end of the mantissa of a number at `i`: `\d*\.\d+`, `\d+\.` or `\d+`,
/// the longest that matches; `i` where none does.
pub open spec fn mantissa_end(s: Seq<char>, i: int) -> int {
    let d = run_end(s, i, CharClass::Digit);
    if is_at(s, d, '.') && class_at(s, d + 1, CharClass::Digit) {
        run_end(s, d + 1, CharClass::Digit)
    } else if is_at(s, d, '.') && d > i {
        d + 1
    } else {
        d
    }
}

/// The end of an optional exponent `[eE][+-]?\d+` at `m`.
pub open spec fn exponent_end(s: Seq<char>, m: int) -> int {
    if is_at(s, m, 'e') || is_at(s, m, 'E') {
        let j = if is_at(s, m + 1, '+') || is_at(s, m + 1, '-') {
            m + 2
        } else {
            m + 1
        };
        if class_at(s, j, CharClass::Digit) {
            run_end(s, j, CharClass::Digit)
        } else {
            m
        }
    } else {
        m
    }
}

/// The end of a number at `i`: mantissa, optional exponent, then any `i`/`f` suffix.
pub open spec fn number_end(s: Seq<char>, i: int) -> int {
    run_end(s, exponent_end(s, mantissa_end(s, i)), CharClass::NumberSuffix)
}

/// The end of a block comment whose body starts at `j`: just past the first
/// `*/` at or after `j`, or -1 if there is none.
pub open spec fn block_comment_close(s: Seq<char>, j: int) -> int
    decreases s.len() - j,
{
    if j < 0 || j + 1 >= s.len() {
        -1
    } else if s[j] == '*' && s[j + 1] == '/' {
        j + 2
    } else {
        block_comment_close(s, j + 1)
    }
}

/// The end of a string literal whose body starts at `j`: just past the
/// closing `"`, or -1 if the body is not closed. A backslash escapes any
/// character but a newline.
pub open spec fn string_close(s: Seq<char>, j: int) -> int
    decreases s.len() - j,
{
    if j < 0 || j >= s.len() {
        -1
    } else if s[j] == '"' {
        j + 1
    } else if s[j] == '\\' {
        if j + 1 < s.len() && s[j + 1] != '\n' {
            string_close(s, j + 2)
        } else {
            -1
        }
    } else {
        string_close(s, j + 1)
    }
}

/// The end of a character literal opened at `i`: one character or one escape
/// between single quotes; -1 if there is no such literal.
pub open spec fn char_close(s: Seq<char>, i: int) -> int {
    if 0 <= i + 1 < s.len() && s[i + 1] != '\'' && s[i + 1] != '\\' && is_at(s, i + 2, '\'') {
        i + 3
    } else if is_at(s, i + 1, '\\') && 0 <= i + 2 < s.len() && s[i + 2] != '\n' && is_at(
        s,
        i + 3,
        '\'',
    ) {
        i + 4
    } else {
        -1
    }
}

/// The category of an ASCII identifier-shaped word: a boolean literal, a
/// type name, or a plain ASCII identifier.
pub open spec fn word_kind(w: Seq<char>) -> RawToken {
    if w == "true"@ || w == "false"@ {
        RawToken::BOOLEAN
    } else if w == "i8"@ {
        RawToken::TYPEI8
    } else if w == "i16"@ {
        RawToken::TYPEI16
    } else if w == "i32"@ {
        RawToken::TYPEI32
    } else if w == "i64"@ {
        RawToken::TYPEI64
    } else if w == "u8"@ {
        RawToken::TYPEU8
    } else if w == "u16"@ {
        RawToken::TYPEU16
    } else if w == "u32"@ {
        RawToken::TYPEU32
    } else if w == "u64"@ {
        RawToken::TYPEU64
    } else if w == "f32"@ {
        RawToken::TYPEF32
    } else if w == "f64"@ {
        RawToken::TYPEF64
    } else if w == "c32"@ {
        RawToken::TYPEC32
    } else if w == "c64"@ {
        RawToken::TYPEC64
    } else if w == "char"@ {
        RawToken::TYPECHAR
    } else if w == "string"@ {
        RawToken::TYPESTRING
    } else if w == "bool"@ {
        RawToken::TYPEBOOL
    } else {
        RawToken::IdentifierAscii
    }
}

/// An operator or punctuation unit at `i` (the longer form where both match),
/// or a one-character `Unknown` unit.
pub open spec fn operator_at(s: Seq<char>, i: int) -> (RawToken, int) {
    let c = s[i];
    if c == '+' {
        if is_at(s, i + 1, '+') {
            (RawToken::PlusPlus, i + 2)
        } else if is_at(s, i + 1, '=') {
            (RawToken::PlusEqual, i + 2)
        } else {
            (RawToken::Plus, i + 1)
        }
    } else if c == '-' {
        if is_at(s, i + 1, '-') {
            (RawToken::MinusMinus, i + 2)
        } else if is_at(s, i + 1, '=') {
            (RawToken::MinusEqual, i + 2)
        } else {
            (RawToken::Minus, i + 1)
        }
    } else if c == '<' {
        if is_at(s, i + 1, '=') {
            (RawToken::LessEqual, i + 2)
        } else {
            (RawToken::LESS, i + 1)
        }
    } else if c == '>' {
        if is_at(s, i + 1, '=') {
            (RawToken::Greaterequal, i + 2)
        } else {
            (RawToken::GREATER, i + 1)
        }
    } else if c == '!' {
        if is_at(s, i + 1, '=') {
            (RawToken::NotEqual, i + 2)
        } else {
            (RawToken::NOT, i + 1)
        }
    } else if c == '^' {
        if is_at(s, i + 1, '=') {
            (RawToken::XorEqual, i + 2)
        } else {
            (RawToken::XOR, i + 1)
        }
    } else if c == '%' {
        if is_at(s, i + 1, '=') {
            (RawToken::PercentEqual, i + 2)
        } else {
            (RawToken::PERCENT, i + 1)
        }
    } else if c == '|' {
        if is_at(s, i + 1, '|') {
            (RawToken::OrOr, i + 2)
        } else {
            (RawToken::OR, i + 1)
        }
    } else if c == '&' {
        if is_at(s, i + 1, '&') {
            (RawToken::AndAnd, i + 2)
        } else {
            (RawToken::AND, i + 1)
        }
    } else if c == '*' {
        (RawToken::Star, i + 1)
    } else if c == '=' {
        (RawToken::Equal, i + 1)
    } else if c == ':' {
        (RawToken::Colon, i + 1)
    } else if c == ',' {
        (RawToken::Comma, i + 1)
    } else if c == '(' {
        (RawToken::OpenParentesis, i + 1)
    } else if c == ')' {
        (RawToken::CloseParentesis, i + 1)
    } else if c == '[' {
        (RawToken::OpenSQParentesis, i + 1)
    } else if c == ']' {
        (RawToken::CloseSQParentesis, i + 1)
    } else if c == '{' {
        (RawToken::OpenCurParentesis, i + 1)
    } else if c == '}' {
        (RawToken::CloseCurParentesis, i + 1)
    } else {
        (RawToken::Unknown, i + 1)
    }
}

/// The raw unit that starts at `i`: its category and its end.
///
/// Where several patterns match, the longest wins; between equally long
/// matches, boolean literals and type names outrank ASCII identifiers, which
/// outrank Unicode identifiers. An unclosed string, character literal or
/// block comment is not a unit: its first character is scanned on its own.
pub open spec fn unit_at(s: Seq<char>, i: int) -> (RawToken, int) {
    let c = s[i];
    if is_space(c) {
        (RawToken::Whitespace, run_end(s, i, CharClass::Space))
    } else if c == '/' {
        if is_at(s, i + 1, '/') {
            (RawToken::SingleLineComment, run_end(s, i, CharClass::NotNewline))
        } else if is_at(s, i + 1, '*') && block_comment_close(s, i + 2) >= 0 {
            (RawToken::MultiLineComment, block_comment_close(s, i + 2))
        } else {
            (RawToken::Slash, i + 1)
        }
    } else if is_digit(c) || (c == '.' && class_at(s, i + 1, CharClass::Digit)) {
        (RawToken::Number, number_end(s, i))
    } else if c == '.' {
        (RawToken::Dot, i + 1)
    } else if c == '#' {
        if class_at(s, i + 1, CharClass::HexDigit) {
            (RawToken::Hexadecimal, run_end(s, i + 1, CharClass::HexDigit))
        } else if is_at(s, i + 1, '#') && class_at(s, i + 2, CharClass::BinDigit) {
            (RawToken::Binary, run_end(s, i + 2, CharClass::BinDigit))
        } else if is_at(s, i + 1, 'o') && class_at(s, i + 2, CharClass::OctDigit) {
            (RawToken::Octal, run_end(s, i + 2, CharClass::OctDigit))
        } else {
            (RawToken::Unknown, i + 1)
        }
    } else if c == '"' {
        if string_close(s, i + 1) >= 0 {
            (RawToken::STRING, string_close(s, i + 1))
        } else {
            (RawToken::Unknown, i + 1)
        }
    } else if c == '\'' {
        if char_close(s, i) >= 0 {
            (RawToken::CHAR, char_close(s, i))
        } else {
            (RawToken::Unknown, i + 1)
        }
    } else if is_unicode_ident_start(c) {
        let a = run_end(s, i, CharClass::AsciiIdent);
        let u = run_end(s, i, CharClass::UnicodeIdent);
        if a == u {
            (word_kind(s.subrange(i, a)), a)
        } else {
            (RawToken::IdentifierUnicode, u)
        }
    } else {
        operator_at(s, i)
    }
}

/// Facts about the end of a maximal run.
pub proof fn lemma_run_end(s: Seq<char>, i: int, k: CharClass)
    requires
        0 <= i <= s.len(),
    ensures
        i <= run_end(s, i, k) <= s.len(),
        forall|j: int| i <= j < run_end(s, i, k) ==> in_class(k, #[trigger] s[j]),
        !class_at(s, run_end(s, i, k), k),
        class_at(s, i, k) ==> run_end(s, i, k) > i,
    decreases s.len() - i,
{
    if class_at(s, i, k) {
        lemma_run_end(s, i + 1, k);
    }
}

proof fn lemma_block_comment_close(s: Seq<char>, j: int)
    requires
        0 <= j,
    ensures
        block_comment_close(s, j) == -1 || j + 2 <= block_comment_close(s, j) <= s.len(),
    decreases s.len() - j,
{
    if j + 1 < s.len() && !(s[j] == '*' && s[j + 1] == '/') {
        lemma_block_comment_close(s, j + 1);
    }
}

proof fn lemma_string_close(s: Seq<char>, j: int)
    requires
        0 <= j,
    ensures
        string_close(s, j) == -1 || j + 1 <= string_close(s, j) <= s.len(),
    decreases s.len() - j,
{
    if 0 <= j < s.len() && s[j] != '"' {
        if s[j] == '\\' {
            if j + 1 < s.len() && s[j + 1] != '\n' {
                lemma_string_close(s, j + 2);
            }
        } else {
            lemma_string_close(s, j + 1);
        }
    }
}

proof fn lemma_number_end(s: Seq<char>, i: int)
    requires
        0 <= i < s.len(),
        is_digit(s[i]) || (s[i] == '.' && class_at(s, i + 1, CharClass::Digit)),
    ensures
        i < number_end(s, i) <= s.len(),
{
    let d = run_end(s, i, CharClass::Digit);
    lemma_run_end(s, i, CharClass::Digit);
    if is_at(s, d, '.') && class_at(s, d + 1, CharClass::Digit) {
        lemma_run_end(s, d + 1, CharClass::Digit);
    }
    let m = mantissa_end(s, i);
    assert(i < m <= s.len());
    if is_at(s, m, 'e') || is_at(s, m, 'E') {
        let j = if is_at(s, m + 1, '+') || is_at(s, m + 1, '-') {
            m + 2
        } else {
            m + 1
        };
        if class_at(s, j, CharClass::Digit) {
            lemma_run_end(s, j, CharClass::Digit);
        }
    }
    lemma_run_end(s, exponent_end(s, m), CharClass::NumberSuffix);
}

/// Every unit is non-empty and ends within the text.
pub proof fn lemma_unit_bounds(s: Seq<char>, i: int)
    requires
        0 <= i < s.len(),
    ensures
        i < unit_at(s, i).1 <= s.len(),
{
    let c = s[i];
    if is_space(c) {
        lemma_run_end(s, i, CharClass::Space);
    } else if c == '/' {
        lemma_run_end(s, i, CharClass::NotNewline);
        lemma_block_comment_close(s, i + 2);
    } else if is_digit(c) || (c == '.' && class_at(s, i + 1, CharClass::Digit)) {
        lemma_number_end(s, i);
    } else if c == '#' {
        lemma_run_end(s, i + 1, CharClass::HexDigit);
        if i + 2 <= s.len() {
            lemma_run_end(s, i + 2, CharClass::BinDigit);
            lemma_run_end(s, i + 2, CharClass::OctDigit);
        }
    } else if c == '"' {
        lemma_string_close(s, i + 1);
    } else if is_unicode_ident_start(c) {
        lemma_run_end(s, i, CharClass::AsciiIdent);
        lemma_run_end(s, i, CharClass::UnicodeIdent);
    }
}

/// A two-character operator is scanned as one unit, never as two
/// one-character units.
pub proof fn lemma_two_char_operators(s: Seq<char>, i: int)
    requires
        0 <= i,
        i + 1 < s.len(),
    ensures
        s[i] == '+' && s[i + 1] == '+' ==> unit_at(s, i) == (RawToken::PlusPlus, i + 2),
        s[i] == '-' && s[i + 1] == '-' ==> unit_at(s, i) == (RawToken::MinusMinus, i + 2),
        s[i] == '+' && s[i + 1] == '=' ==> unit_at(s, i) == (RawToken::PlusEqual, i + 2),
        s[i] == '-' && s[i + 1] == '=' ==> unit_at(s, i) == (RawToken::MinusEqual, i + 2),
        s[i] == '<' && s[i + 1] == '=' ==> unit_at(s, i) == (RawToken::LessEqual, i + 2),
        s[i] == '>' && s[i + 1] == '=' ==> unit_at(s, i) == (RawToken::Greaterequal, i + 2),
        s[i] == '!' && s[i + 1] == '=' ==> unit_at(s, i) == (RawToken::NotEqual, i + 2),
        s[i] == '^' && s[i + 1] == '=' ==> unit_at(s, i) == (RawToken::XorEqual, i + 2),
        s[i] == '%' && s[i + 1] == '=' ==> unit_at(s, i) == (RawToken::PercentEqual, i + 2),
        s[i] == '|' && s[i + 1] == '|' ==> unit_at(s, i) == (RawToken::OrOr, i + 2),
        s[i] == '&' && s[i + 1] == '&' ==> unit_at(s, i) == (RawToken::AndAnd, i + 2),
{
}

fn class_has(k: CharClass, c: char) -> (r: bool)
    ensures
        r == in_class(k, c),
{
    match k {
        CharClass::Space => space(c),
        CharClass::Digit => '0' <= c && c <= '9',
        CharClass::HexDigit => ('0' <= c && c <= '9') || ('a' <= c && c <= 'f') || ('A' <= c && c
            <= 'F'),
        CharClass::BinDigit => c == '0' || c == '1',
        CharClass::OctDigit => '0' <= c && c <= '7',
        CharClass::AsciiIdent => ascii_ident_start(c) || ('0' <= c && c <= '9'),
        CharClass::UnicodeIdent => ascii_ident_start(c) || ('0' <= c && c <= '9') || (c > '\u{7f}'
            && (is_alphabetic(c) || is_numeric(c))),
        CharClass::NumberSuffix => c == 'i' || c == 'f',
        CharClass::NotNewline => c != '\n',
    }
}

fn space(c: char) -> (r: bool)
    ensures
        r == is_space(c),
{
    c == ' ' || c == '\t' || c == '\n' || c == '\u{c}' || c == '\u{a0}' || c == '\u{1680}' || (
    '\u{2000}' <= c && c <= '\u{200a}') || c == '\u{202f}' || c == '\u{205f}' || c == '\u{3000}'
}

fn ascii_ident_start(c: char) -> (r: bool)
    ensures
        r == is_ascii_ident_start(c),
{
    ('a' <= c && c <= 'z') || ('A' <= c && c <= 'Z') || c == '_'
}

/// Whether `v` holds `c` at index `j`.
fn char_at(v: &Vec<char>, j: usize, c: char) -> (r: bool)
    ensures
        r == is_at(v@, j as int, c),
{
    j < v.len() && v[j] == c
}

/// Whether `v` holds a character of class `k` at index `j`.
fn class_at_exec(v: &Vec<char>, j: usize, k: CharClass) -> (r: bool)
    ensures
        r == class_at(v@, j as int, k),
{
    j < v.len() && class_has(k, v[j])
}

/// The end of the maximal run of class `k` from `i`.
fn scan_run(v: &Vec<char>, i: usize, k: CharClass) -> (r: usize)
    requires
        i <= v@.len(),
    ensures
        r == run_end(v@, i as int, k),
{
    let mut j = i;
    while j < v.len() && class_has(k, v[j])
        invariant
            i <= j <= v@.len(),
            run_end(v@, j as int, k) == run_end(v@, i as int, k),
        decreases v@.len() - j,
    {
        j = j + 1;
    }
    j
}

fn scan_number(v: &Vec<char>, i: usize) -> (r: usize)
    requires
        i < v@.len(),
        is_digit(v@[i as int]) || (v@[i as int] == '.' && class_at(v@, i + 1, CharClass::Digit)),
    ensures
        r == number_end(v@, i as int),
{
    proof {
        assert(v@.len() == v.len());  // so that indices past `i` fit in usize
    }
    let d = scan_run(v, i, CharClass::Digit);
    proof {
        lemma_run_end(v@, i as int, CharClass::Digit);
    }
    let m = if char_at(v, d, '.') && class_at_exec(v, d + 1, CharClass::Digit) {
        scan_run(v, d + 1, CharClass::Digit)
    } else if char_at(v, d, '.') && d > i {
        d + 1
    } else {
        d
    };
    assert(m == mantissa_end(v@, i as int));
    proof {
        if is_at(v@, d as int, '.') && class_at(v@, d + 1, CharClass::Digit) {
            lemma_run_end(v@, d + 1, CharClass::Digit);
        }
    }
    let e = if char_at(v, m, 'e') || char_at(v, m, 'E') {
        let j = if char_at(v, m + 1, '+') || char_at(v, m + 1, '-') {
            m + 2
        } else {
            m + 1
        };
        if class_at_exec(v, j, CharClass::Digit) {
            scan_run(v, j, CharClass::Digit)
        } else {
            m
        }
    } else {
        m
    };
    assert(e == exponent_end(v@, m as int));
    proof {
        lemma_number_end(v@, i as int);
        if class_at(v@, e as int, CharClass::Digit) {
            lemma_run_end(v@, e as int, CharClass::Digit);
        }
    }
    scan_run(v, e, CharClass::NumberSuffix)
}

fn scan_block_comment(v: &Vec<char>, j0: usize) -> (r: Option<usize>)
    requires
        j0 <= v@.len(),
    ensures
        match r {
            Some(e) => e as int == block_comment_close(v@, j0 as int),
            None => block_comment_close(v@, j0 as int) == -1,
        },
{
    let len = v.len();
    let mut j = j0;
    while j < len
        invariant
            j0 <= j <= len == v@.len(),
            block_comment_close(v@, j as int) == block_comment_close(v@, j0 as int),
        decreases len - j,
    {
        if j + 1 < len && v[j] == '*' && v[j + 1] == '/' {
            return Some(j + 2);
        }
        j = j + 1;
    }
    None
}

fn scan_string(v: &Vec<char>, j0: usize) -> (r: Option<usize>)
    requires
        j0 <= v@.len(),
    ensures
        match r {
            Some(e) => e as int == string_close(v@, j0 as int),
            None => string_close(v@, j0 as int) == -1,
        },
{
    let mut j = j0;
    while j < v.len()
        invariant
            j0 <= j <= v@.len() + 1,
            string_close(v@, j as int) == string_close(v@, j0 as int),
        decreases v@.len() + 1 - j,
    {
        if v[j] == '"' {
            return Some(j + 1);
        } else if v[j] == '\\' {
            if j + 1 < v.len() && v[j + 1] != '\n' {
                j = j + 2;
            } else {
                return None;
            }
        } else {
            j = j + 1;
        }
    }
    None
}

fn scan_char(v: &Vec<char>, i: usize) -> (r: Option<usize>)
    requires
        i < v@.len(),
    ensures
        match r {
            Some(e) => e as int == char_close(v@, i as int),
            None => char_close(v@, i as int) == -1,
        },
{
    proof {
        assert(v@.len() == v.len());  // so that indices past `i` fit in usize
    }
    if i + 1 < v.len() && v[i + 1] != '\'' && v[i + 1] != '\\' && char_at(v, i + 2, '\'') {
        Some(i + 3)
    } else if char_at(v, i + 1, '\\') && i + 2 < v.len() && v[i + 2] != '\n' && char_at(
        v,
        i + 3,
        '\'',
    ) {
        Some(i + 4)
    } else {
        None
    }
}

fn word_kind_in(v: &Vec<char>, lo: usize, hi: usize) -> (r: RawToken)
    requires
        lo <= hi <= v@.len(),
    ensures
        r == word_kind(v@.subrange(lo as int, hi as int)),
{
    if range_equals(v, lo, hi, "true") || range_equals(v, lo, hi, "false") {
        RawToken::BOOLEAN
    } else if range_equals(v, lo, hi, "i8") {
        RawToken::TYPEI8
    } else if range_equals(v, lo, hi, "i16") {
        RawToken::TYPEI16
    } else if range_equals(v, lo, hi, "i32") {
        RawToken::TYPEI32
    } else if range_equals(v, lo, hi, "i64") {
        RawToken::TYPEI64
    } else if range_equals(v, lo, hi, "u8") {
        RawToken::TYPEU8
    } else if range_equals(v, lo, hi, "u16") {
        RawToken::TYPEU16
    } else if range_equals(v, lo, hi, "u32") {
        RawToken::TYPEU32
    } else if range_equals(v, lo, hi, "u64") {
        RawToken::TYPEU64
    } else if range_equals(v, lo, hi, "f32") {
        RawToken::TYPEF32
    } else if range_equals(v, lo, hi, "f64") {
        RawToken::TYPEF64
    } else if range_equals(v, lo, hi, "c32") {
        RawToken::TYPEC32
    } else if range_equals(v, lo, hi, "c64") {
        RawToken::TYPEC64
    } else if range_equals(v, lo, hi, "char") {
        RawToken::TYPECHAR
    } else if range_equals(v, lo, hi, "string") {
        RawToken::TYPESTRING
    } else if range_equals(v, lo, hi, "bool") {
        RawToken::TYPEBOOL
    } else {
        RawToken::IdentifierAscii
    }
}

fn scan_operator(v: &Vec<char>, i: usize) -> (r: (RawToken, usize))
    requires
        i < v@.len(),
    ensures
        r.0 == operator_at(v@, i as int).0,
        r.1 == operator_at(v@, i as int).1,
{
    proof {
        assert(v@.len() == v.len());  // so that indices past `i` fit in usize
    }
    let c = v[i];
    if c == '+' {
        if char_at(v, i + 1, '+') {
            (RawToken::PlusPlus, i + 2)
        } else if char_at(v, i + 1, '=') {
            (RawToken::PlusEqual, i + 2)
        } else {
            (RawToken::Plus, i + 1)
        }
    } else if c == '-' {
        if char_at(v, i + 1, '-') {
            (RawToken::MinusMinus, i + 2)
        } else if char_at(v, i + 1, '=') {
            (RawToken::MinusEqual, i + 2)
        } else {
            (RawToken::Minus, i + 1)
        }
    } else if c == '<' {
        if char_at(v, i + 1, '=') {
            (RawToken::LessEqual, i + 2)
        } else {
            (RawToken::LESS, i + 1)
        }
    } else if c == '>' {
        if char_at(v, i + 1, '=') {
            (RawToken::Greaterequal, i + 2)
        } else {
            (RawToken::GREATER, i + 1)
        }
    } else if c == '!' {
        if char_at(v, i + 1, '=') {
            (RawToken::NotEqual, i + 2)
        } else {
            (RawToken::NOT, i + 1)
        }
    } else if c == '^' {
        if char_at(v, i + 1, '=') {
            (RawToken::XorEqual, i + 2)
        } else {
            (RawToken::XOR, i + 1)
        }
    } else if c == '%' {
        if char_at(v, i + 1, '=') {
            (RawToken::PercentEqual, i + 2)
        } else {
            (RawToken::PERCENT, i + 1)
        }
    } else if c == '|' {
        if char_at(v, i + 1, '|') {
            (RawToken::OrOr, i + 2)
        } else {
            (RawToken::OR, i + 1)
        }
    } else if c == '&' {
        if char_at(v, i + 1, '&') {
            (RawToken::AndAnd, i + 2)
        } else {
            (RawToken::AND, i + 1)
        }
    } else if c == '*' {
        (RawToken::Star, i + 1)
    } else if c == '=' {
        (RawToken::Equal, i + 1)
    } else if c == ':' {
        (RawToken::Colon, i + 1)
    } else if c == ',' {
        (RawToken::Comma, i + 1)
    } else if c == '(' {
        (RawToken::OpenParentesis, i + 1)
    } else if c == ')' {
        (RawToken::CloseParentesis, i + 1)
    } else if c == '[' {
        (RawToken::OpenSQParentesis, i + 1)
    } else if c == ']' {
        (RawToken::CloseSQParentesis, i + 1)
    } else if c == '{' {
        (RawToken::OpenCurParentesis, i + 1)
    } else if c == '}' {
        (RawToken::CloseCurParentesis, i + 1)
    } else {
        (RawToken::Unknown, i + 1)
    }
}

/// The raw unit that starts at `i`: its category and its end.
pub fn next_unit(v: &Vec<char>, i: usize) -> (r: (RawToken, usize))
    requires
        i < v@.len(),
    ensures
        r.0 == unit_at(v@, i as int).0,
        r.1 == unit_at(v@, i as int).1,
        i < r.1 <= v@.len(),
{
    proof {
        assert(v@.len() == v.len());  // so that indices past `i` fit in usize
    }
    proof {
        lemma_unit_bounds(v@, i as int);
    }
    let c = v[i];
    if space(c) {
        (RawToken::Whitespace, scan_run(v, i, CharClass::Space))
    } else if c == '/' {
        if char_at(v, i + 1, '/') {
            (RawToken::SingleLineComment, scan_run(v, i, CharClass::NotNewline))
        } else if char_at(v, i + 1, '*') {
            match scan_block_comment(v, i + 2) {
                Some(e) => (RawToken::MultiLineComment, e),
                None => (RawToken::Slash, i + 1),
            }
        } else {
            (RawToken::Slash, i + 1)
        }
    } else if ('0' <= c && c <= '9') || (c == '.' && class_at_exec(v, i + 1, CharClass::Digit)) {
        (RawToken::Number, scan_number(v, i))
    } else if c == '.' {
        (RawToken::Dot, i + 1)
    } else if c == '#' {
        if class_at_exec(v, i + 1, CharClass::HexDigit) {
            (RawToken::Hexadecimal, scan_run(v, i + 1, CharClass::HexDigit))
        } else if char_at(v, i + 1, '#') && class_at_exec(v, i + 2, CharClass::BinDigit) {
            (RawToken::Binary, scan_run(v, i + 2, CharClass::BinDigit))
        } else if char_at(v, i + 1, 'o') && class_at_exec(v, i + 2, CharClass::OctDigit) {
            (RawToken::Octal, scan_run(v, i + 2, CharClass::OctDigit))
        } else {
            (RawToken::Unknown, i + 1)
        }
    } else if c == '"' {
        match scan_string(v, i + 1) {
            Some(e) => (RawToken::STRING, e),
            None => (RawToken::Unknown, i + 1),
        }
    } else if c == '\'' {
        match scan_char(v, i) {
            Some(e) => (RawToken::CHAR, e),
            None => (RawToken::Unknown, i + 1),
        }
    } else if ascii_ident_start(c) || (c > '\u{7f}' && is_alphabetic(c)) {
        let a = scan_run(v, i, CharClass::AsciiIdent);
        let u = scan_run(v, i, CharClass::UnicodeIdent);
        if a == u {
            (word_kind_in(v, i, a), a)
        } else {
            (RawToken::IdentifierUnicode, u)
        }
    } else {
        scan_operator(v, i)
    }
}

} // verus!
