//! Token kinds: the raw categories the scanner recognises and the final kinds
//! that tokens carry, with the rules that map one onto the other.
use vstd::prelude::*;

use crate::text::{chars_of, range_contains, range_equals, string_of_range};

verus! {

/// The category of a raw unit, as recognised by the scanner.
#[derive(Debug, Clone, Copy, PartialEq, Eq, Structural)]
pub enum RawToken {
    IdentifierAscii,
    IdentifierUnicode,
    Number,
    Binary,
    Hexadecimal,
    Octal,
    Whitespace,
    SingleLineComment,
    MultiLineComment,
    Plus,
    Minus,
    Star,
    Slash,
    LESS,
    GREATER,
    NOT,
    XOR,
    PERCENT,
    OR,
    AND,
    Equal,
    Colon,
    Comma,
    PlusPlus,
    MinusMinus,
    PlusEqual,
    MinusEqual,
    LessEqual,
    Greaterequal,
    NotEqual,
    XorEqual,
    PercentEqual,
    OrOr,
    AndAnd,
    OpenParentesis,
    CloseParentesis,
    OpenSQParentesis,
    CloseSQParentesis,
    OpenCurParentesis,
    CloseCurParentesis,
    BOOLEAN,
    STRING,
    CHAR,
    Dot,
    TYPEI8,
    TYPEI16,
    TYPEI32,
    TYPEI64,
    TYPEU8,
    TYPEU16,
    TYPEU32,
    TYPEU64,
    TYPEF32,
    TYPEF64,
    TYPEC32,
    TYPEC64,
    TYPECHAR,
    TYPESTRING,
    TYPEBOOL,
    /// A single character that no pattern matches.
    Unknown,
}

/// The kind of a finished token.
#[derive(Debug, Clone, Copy, PartialEq, Eq, Hash, Structural)]
pub enum TokenType {
    Integer,
    Double,
    Boolean,
    Plus,
    Minus,
    Not,
    Star,
    Divide,
    Xor,
    Percent,
    Or,
    And,
    Equal,
    Less,
    Greater,
    PlusPlus,
    MinusMinus,
    PlusEqual,
    MinusEqual,
    NotEqual,
    StarEqual,
    DivideEqual,
    XorEqual,
    PercentEqual,
    OrOr,
    AndAnd,
    EqualEqual,
    LessEqual,
    GreaterEqual,
    Dot,
    Identifier,
    Char,
    String,
    KMain,
    KVar,
    KIf,
    KWhile,
    KElse,
    KFor,
    KBreak,
    KFun,
    KReturn,
    KNullptr,
    OpenParenthesis,
    OpenSqParenthesis,
    OpenCurParenthesis,
    CloseParenthesis,
    CloseSqParenthesis,
    CloseCurParenthesis,
    Comma,
    Colon,
    TypeI8,
    TypeI16,
    TypeI32,
    TypeI64,
    TypeU8,
    TypeU16,
    TypeU32,
    TypeU64,
    TypeF32,
    TypeF64,
    TypeC32,
    TypeC64,
    TypeChar,
    TypeString,
    TypeBool,
    Comment,
    Unknown,
    Eoft,
}

/// The reserved-word kinds.
pub open spec fn is_keyword_kind(t: TokenType) -> bool {
    match t {
        TokenType::KMain | TokenType::KVar | TokenType::KIf | TokenType::KWhile | TokenType::KElse
        | TokenType::KFor | TokenType::KBreak | TokenType::KFun | TokenType::KReturn => true,
        _ => false,
    }
}

/// The keyword table: the kind of an ASCII identifier `w`.
pub open spec fn keyword_kind(w: Seq<char>) -> TokenType {
    if w == "main"@ {
        TokenType::KMain
    } else if w == "var"@ {
        TokenType::KVar
    } else if w == "if"@ {
        TokenType::KIf
    } else if w == "while"@ {
        TokenType::KWhile
    } else if w == "else"@ {
        TokenType::KElse
    } else if w == "for"@ {
        TokenType::KFor
    } else if w == "break"@ {
        TokenType::KBreak
    } else if w == "fun"@ {
        TokenType::KFun
    } else if w == "return"@ {
        TokenType::KReturn
    } else {
        TokenType::Identifier
    }
}

/// The kind of an operator, punctuation or type-name unit; `None` for the
/// categories whose tokens carry a value.
pub open spec fn fixed_kind(raw: RawToken) -> Option<TokenType> {
    match raw {
        RawToken::Plus => Some(TokenType::Plus),
        RawToken::Minus => Some(TokenType::Minus),
        RawToken::Star => Some(TokenType::Star),
        RawToken::Slash => Some(TokenType::Divide),
        RawToken::LESS => Some(TokenType::Less),
        RawToken::GREATER => Some(TokenType::Greater),
        RawToken::NOT => Some(TokenType::Not),
        RawToken::XOR => Some(TokenType::Xor),
        RawToken::PERCENT => Some(TokenType::Percent),
        RawToken::OR => Some(TokenType::Or),
        RawToken::AND => Some(TokenType::And),
        RawToken::Equal => Some(TokenType::Equal),
        RawToken::Colon => Some(TokenType::Colon),
        RawToken::Comma => Some(TokenType::Comma),
        RawToken::PlusPlus => Some(TokenType::PlusPlus),
        RawToken::MinusMinus => Some(TokenType::MinusMinus),
        RawToken::PlusEqual => Some(TokenType::PlusEqual),
        RawToken::MinusEqual => Some(TokenType::MinusEqual),
        RawToken::LessEqual => Some(TokenType::LessEqual),
        RawToken::Greaterequal => Some(TokenType::GreaterEqual),
        RawToken::NotEqual => Some(TokenType::NotEqual),
        RawToken::XorEqual => Some(TokenType::XorEqual),
        RawToken::PercentEqual => Some(TokenType::PercentEqual),
        RawToken::OrOr => Some(TokenType::OrOr),
        RawToken::AndAnd => Some(TokenType::AndAnd),
        RawToken::OpenParentesis => Some(TokenType::OpenParenthesis),
        RawToken::CloseParentesis => Some(TokenType::CloseParenthesis),
        RawToken::OpenSQParentesis => Some(TokenType::OpenSqParenthesis),
        RawToken::CloseSQParentesis => Some(TokenType::CloseSqParenthesis),
        RawToken::OpenCurParentesis => Some(TokenType::OpenCurParenthesis),
        RawToken::CloseCurParentesis => Some(TokenType::CloseCurParenthesis),
        RawToken::Dot => Some(TokenType::Dot),
        RawToken::TYPEI8 => Some(TokenType::TypeI8),
        RawToken::TYPEI16 => Some(TokenType::TypeI16),
        RawToken::TYPEI32 => Some(TokenType::TypeI32),
        RawToken::TYPEI64 => Some(TokenType::TypeI64),
        RawToken::TYPEU8 => Some(TokenType::TypeU8),
        RawToken::TYPEU16 => Some(TokenType::TypeU16),
        RawToken::TYPEU32 => Some(TokenType::TypeU32),
        RawToken::TYPEU64 => Some(TokenType::TypeU64),
        RawToken::TYPEF32 => Some(TokenType::TypeF32),
        RawToken::TYPEF64 => Some(TokenType::TypeF64),
        RawToken::TYPEC32 => Some(TokenType::TypeC32),
        RawToken::TYPEC64 => Some(TokenType::TypeC64),
        RawToken::TYPECHAR => Some(TokenType::TypeChar),
        RawToken::TYPESTRING => Some(TokenType::TypeString),
        RawToken::TYPEBOOL => Some(TokenType::TypeBool),
        _ => None,
    }
}

/// `t` without its first and its last character.
pub open spec fn strip_delimiters(t: Seq<char>) -> Seq<char> {
    if t.len() >= 2 {
        t.subrange(1, t.len() - 1)
    } else {
        Seq::empty()
    }
}

/// The kind and the normalised value of a token whose raw unit has category
/// `raw` and text `text`. Radix-prefixed numbers keep their prefix in the value.
pub open spec fn classify(raw: RawToken, text: Seq<char>) -> (TokenType, Seq<char>) {
    match fixed_kind(raw) {
        Some(t) => (t, Seq::empty()),
        None => match raw {
            RawToken::IdentifierAscii => {
                let k = keyword_kind(text);
                if is_keyword_kind(k) {
                    (k, Seq::empty())
                } else {
                    (TokenType::Identifier, text)
                }
            },
            RawToken::IdentifierUnicode => (TokenType::Identifier, text),
            RawToken::Number => if text.contains('.') {
                (TokenType::Double, text)
            } else {
                (TokenType::Integer, text)
            },
            RawToken::Binary | RawToken::Hexadecimal | RawToken::Octal => (TokenType::Integer, text),
            RawToken::SingleLineComment | RawToken::MultiLineComment => (TokenType::Comment, text),
            RawToken::BOOLEAN => (TokenType::Boolean, text),
            RawToken::STRING => (TokenType::String, strip_delimiters(text)),
            RawToken::CHAR => (TokenType::Char, strip_delimiters(text)),
            _ => (TokenType::Unknown, text),
        },
    }
}

/// The short upper-case name of a kind.
pub open spec fn compact_name(t: TokenType) -> Seq<char> {
    match t {
        TokenType::Integer => "INT"@,
        TokenType::Double => "DBL"@,
        TokenType::Boolean => "BOOL"@,
        TokenType::Plus => "PLUS_OP"@,
        TokenType::Minus => "MINUS_OP"@,
        TokenType::Not => "NOT_OP"@,
        TokenType::Star => "STAR_OP"@,
        TokenType::Divide => "DIVIDE_OP"@,
        TokenType::Xor => "XOR_OP"@,
        TokenType::Percent => "PERCENT_OP"@,
        TokenType::Or => "OR_OP"@,
        TokenType::And => "AND_OP"@,
        TokenType::Equal => "EQUAL_OP"@,
        TokenType::Less => "LESS_OP"@,
        TokenType::Greater => "GREATER_OP"@,
        TokenType::PlusPlus => "PLUSPLUS_OP"@,
        TokenType::MinusMinus => "MINUSMINUS_OP"@,
        TokenType::PlusEqual => "PLUSEQUAL_OP"@,
        TokenType::MinusEqual => "MINUSEQUAL_OP"@,
        TokenType::NotEqual => "NOTEQUAL_OP"@,
        TokenType::StarEqual => "STAREQUAL_OP"@,
        TokenType::DivideEqual => "DIVIDEEQUAL_OP"@,
        TokenType::XorEqual => "XOREQUAL_OP"@,
        TokenType::PercentEqual => "PERCENTEQUAL_OP"@,
        TokenType::OrOr => "OROR_OP"@,
        TokenType::AndAnd => "ANDAND_OP"@,
        TokenType::EqualEqual => "EQUALEQUAL_OP"@,
        TokenType::LessEqual => "LESSEQUAL_OP"@,
        TokenType::GreaterEqual => "GREATEREQUAL_OP"@,
        TokenType::Dot => "DOT_OP"@,
        TokenType::Identifier => "IDENT"@,
        TokenType::Char => "CH"@,
        TokenType::String => "STR"@,
        TokenType::KMain => "K_MAIN"@,
        TokenType::KVar => "K_VAR"@,
        TokenType::KIf => "K_IF"@,
        TokenType::KWhile => "K_WHILE"@,
        TokenType::KElse => "K_ELSE"@,
        TokenType::KFor => "K_FOR"@,
        TokenType::KBreak => "BREAK"@,
        TokenType::KFun => "K_FUN"@,
        TokenType::KReturn => "K_RETURN"@,
        TokenType::KNullptr => "K_NULLPTR"@,
        TokenType::OpenParenthesis => "OPEN_PAR"@,
        TokenType::OpenSqParenthesis => "OPEN_SQ_PAR"@,
        TokenType::OpenCurParenthesis => "OPEN_CUR_PAR"@,
        TokenType::CloseParenthesis => "CLOSE_PAR"@,
        TokenType::CloseSqParenthesis => "CLOSE_SQ_PAR"@,
        TokenType::CloseCurParenthesis => "CLOSE_CUR_PAR"@,
        TokenType::Comma => "COMMA"@,
        TokenType::Colon => "COLON"@,
        TokenType::TypeI8 => "I8"@,
        TokenType::TypeI16 => "I16"@,
        TokenType::TypeI32 => "I32"@,
        TokenType::TypeI64 => "I64"@,
        TokenType::TypeU8 => "U8"@,
        TokenType::TypeU16 => "U16"@,
        TokenType::TypeU32 => "U32"@,
        TokenType::TypeU64 => "U64"@,
        TokenType::TypeF32 => "F32"@,
        TokenType::TypeF64 => "F64"@,
        TokenType::TypeC32 => "C32"@,
        TokenType::TypeC64 => "C64"@,
        TokenType::TypeChar => "CHAR"@,
        TokenType::TypeString => "STRING"@,
        TokenType::TypeBool => "BOOL"@,
        TokenType::Comment => "COMMENT"@,
        TokenType::Unknown => "UNKNOWN"@,
        TokenType::Eoft => "EOF"@,
    }
}

/// The name of a kind as written in the source of this type.
pub open spec fn variant_name(t: TokenType) -> Seq<char> {
    match t {
        TokenType::Integer => "Integer"@,
        TokenType::Double => "Double"@,
        TokenType::Boolean => "Boolean"@,
        TokenType::Plus => "Plus"@,
        TokenType::Minus => "Minus"@,
        TokenType::Not => "Not"@,
        TokenType::Star => "Star"@,
        TokenType::Divide => "Divide"@,
        TokenType::Xor => "Xor"@,
        TokenType::Percent => "Percent"@,
        TokenType::Or => "Or"@,
        TokenType::And => "And"@,
        TokenType::Equal => "Equal"@,
        TokenType::Less => "Less"@,
        TokenType::Greater => "Greater"@,
        TokenType::PlusPlus => "PlusPlus"@,
        TokenType::MinusMinus => "MinusMinus"@,
        TokenType::PlusEqual => "PlusEqual"@,
        TokenType::MinusEqual => "MinusEqual"@,
        TokenType::NotEqual => "NotEqual"@,
        TokenType::StarEqual => "StarEqual"@,
        TokenType::DivideEqual => "DivideEqual"@,
        TokenType::XorEqual => "XorEqual"@,
        TokenType::PercentEqual => "PercentEqual"@,
        TokenType::OrOr => "OrOr"@,
        TokenType::AndAnd => "AndAnd"@,
        TokenType::EqualEqual => "EqualEqual"@,
        TokenType::LessEqual => "LessEqual"@,
        TokenType::GreaterEqual => "GreaterEqual"@,
        TokenType::Dot => "Dot"@,
        TokenType::Identifier => "Identifier"@,
        TokenType::Char => "Char"@,
        TokenType::String => "String"@,
        TokenType::KMain => "KMain"@,
        TokenType::KVar => "KVar"@,
        TokenType::KIf => "KIf"@,
        TokenType::KWhile => "KWhile"@,
        TokenType::KElse => "KElse"@,
        TokenType::KFor => "KFor"@,
        TokenType::KBreak => "KBreak"@,
        TokenType::KFun => "KFun"@,
        TokenType::KReturn => "KReturn"@,
        TokenType::KNullptr => "KNullptr"@,
        TokenType::OpenParenthesis => "OpenParenthesis"@,
        TokenType::OpenSqParenthesis => "OpenSqParenthesis"@,
        TokenType::OpenCurParenthesis => "OpenCurParenthesis"@,
        TokenType::CloseParenthesis => "CloseParenthesis"@,
        TokenType::CloseSqParenthesis => "CloseSqParenthesis"@,
        TokenType::CloseCurParenthesis => "CloseCurParenthesis"@,
        TokenType::Comma => "Comma"@,
        TokenType::Colon => "Colon"@,
        TokenType::TypeI8 => "TypeI8"@,
        TokenType::TypeI16 => "TypeI16"@,
        TokenType::TypeI32 => "TypeI32"@,
        TokenType::TypeI64 => "TypeI64"@,
        TokenType::TypeU8 => "TypeU8"@,
        TokenType::TypeU16 => "TypeU16"@,
        TokenType::TypeU32 => "TypeU32"@,
        TokenType::TypeU64 => "TypeU64"@,
        TokenType::TypeF32 => "TypeF32"@,
        TokenType::TypeF64 => "TypeF64"@,
        TokenType::TypeC32 => "TypeC32"@,
        TokenType::TypeC64 => "TypeC64"@,
        TokenType::TypeChar => "TypeChar"@,
        TokenType::TypeString => "TypeString"@,
        TokenType::TypeBool => "TypeBool"@,
        TokenType::Comment => "Comment"@,
        TokenType::Unknown => "Unknown"@,
        TokenType::Eoft => "Eoft"@,
    }
}

impl TokenType {
    pub fn is_keyword(&self) -> (r: bool)
        ensures
            r == is_keyword_kind(*self),
    {
        match self {
            TokenType::KMain | TokenType::KVar | TokenType::KIf | TokenType::KWhile
            | TokenType::KElse | TokenType::KFor | TokenType::KBreak | TokenType::KFun
            | TokenType::KReturn => true,
            _ => false,
        }
    }

    pub fn map_keword_to_token_type(keyword: &str) -> (r: TokenType)
        ensures
            r == keyword_kind(keyword@),
    {
        let v = chars_of(keyword);
        let r = keyword_in(&v, 0, v.len());
        assert(v@.subrange(0, v@.len() as int) =~= v@);
        r
    }

    /// Classifies a raw unit: its token kind and normalised value.
    pub fn map_raw_token_type(raw_token: RawToken, raw_val: &str) -> (r: (TokenType, String))
        ensures
            (r.0, r.1@) == classify(raw_token, raw_val@),
    {
        let v = chars_of(raw_val);
        let r = classify_range(raw_token, &v, 0, v.len());
        assert(v@.subrange(0, v@.len() as int) =~= v@);
        r
    }

    pub fn compact_to_string(&self) -> (r: &'static str)
        ensures
            r@ == compact_name(*self),
    {
        match self {
            TokenType::Integer => "INT",
            TokenType::Double => "DBL",
            TokenType::Boolean => "BOOL",
            TokenType::Plus => "PLUS_OP",
            TokenType::Minus => "MINUS_OP",
            TokenType::Not => "NOT_OP",
            TokenType::Star => "STAR_OP",
            TokenType::Divide => "DIVIDE_OP",
            TokenType::Xor => "XOR_OP",
            TokenType::Percent => "PERCENT_OP",
            TokenType::Or => "OR_OP",
            TokenType::And => "AND_OP",
            TokenType::Equal => "EQUAL_OP",
            TokenType::Less => "LESS_OP",
            TokenType::Greater => "GREATER_OP",
            TokenType::PlusPlus => "PLUSPLUS_OP",
            TokenType::MinusMinus => "MINUSMINUS_OP",
            TokenType::PlusEqual => "PLUSEQUAL_OP",
            TokenType::MinusEqual => "MINUSEQUAL_OP",
            TokenType::NotEqual => "NOTEQUAL_OP",
            TokenType::StarEqual => "STAREQUAL_OP",
            TokenType::DivideEqual => "DIVIDEEQUAL_OP",
            TokenType::XorEqual => "XOREQUAL_OP",
            TokenType::PercentEqual => "PERCENTEQUAL_OP",
            TokenType::OrOr => "OROR_OP",
            TokenType::AndAnd => "ANDAND_OP",
            TokenType::EqualEqual => "EQUALEQUAL_OP",
            TokenType::LessEqual => "LESSEQUAL_OP",
            TokenType::GreaterEqual => "GREATEREQUAL_OP",
            TokenType::Dot => "DOT_OP",
            TokenType::Identifier => "IDENT",
            TokenType::Char => "CH",
            TokenType::String => "STR",
            TokenType::KMain => "K_MAIN",
            TokenType::KVar => "K_VAR",
            TokenType::KIf => "K_IF",
            TokenType::KWhile => "K_WHILE",
            TokenType::KElse => "K_ELSE",
            TokenType::KFor => "K_FOR",
            TokenType::KBreak => "BREAK",
            TokenType::KFun => "K_FUN",
            TokenType::KReturn => "K_RETURN",
            TokenType::KNullptr => "K_NULLPTR",
            TokenType::OpenParenthesis => "OPEN_PAR",
            TokenType::OpenSqParenthesis => "OPEN_SQ_PAR",
            TokenType::OpenCurParenthesis => "OPEN_CUR_PAR",
            TokenType::CloseParenthesis => "CLOSE_PAR",
            TokenType::CloseSqParenthesis => "CLOSE_SQ_PAR",
            TokenType::CloseCurParenthesis => "CLOSE_CUR_PAR",
            TokenType::Comma => "COMMA",
            TokenType::Colon => "COLON",
            TokenType::TypeI8 => "I8",
            TokenType::TypeI16 => "I16",
            TokenType::TypeI32 => "I32",
            TokenType::TypeI64 => "I64",
            TokenType::TypeU8 => "U8",
            TokenType::TypeU16 => "U16",
            TokenType::TypeU32 => "U32",
            TokenType::TypeU64 => "U64",
            TokenType::TypeF32 => "F32",
            TokenType::TypeF64 => "F64",
            TokenType::TypeC32 => "C32",
            TokenType::TypeC64 => "C64",
            TokenType::TypeChar => "CHAR",
            TokenType::TypeString => "STRING",
            TokenType::TypeBool => "BOOL",
            TokenType::Comment => "COMMENT",
            TokenType::Unknown => "UNKNOWN",
            TokenType::Eoft => "EOF",
        }
    }

    /// The name of this kind, as a verbose rendering shows it.
    pub fn name(&self) -> (r: &'static str)
        ensures
            r@ == variant_name(*self),
    {
        match self {
            TokenType::Integer => "Integer",
            TokenType::Double => "Double",
            TokenType::Boolean => "Boolean",
            TokenType::Plus => "Plus",
            TokenType::Minus => "Minus",
            TokenType::Not => "Not",
            TokenType::Star => "Star",
            TokenType::Divide => "Divide",
            TokenType::Xor => "Xor",
            TokenType::Percent => "Percent",
            TokenType::Or => "Or",
            TokenType::And => "And",
            TokenType::Equal => "Equal",
            TokenType::Less => "Less",
            TokenType::Greater => "Greater",
            TokenType::PlusPlus => "PlusPlus",
            TokenType::MinusMinus => "MinusMinus",
            TokenType::PlusEqual => "PlusEqual",
            TokenType::MinusEqual => "MinusEqual",
            TokenType::NotEqual => "NotEqual",
            TokenType::StarEqual => "StarEqual",
            TokenType::DivideEqual => "DivideEqual",
            TokenType::XorEqual => "XorEqual",
            TokenType::PercentEqual => "PercentEqual",
            TokenType::OrOr => "OrOr",
            TokenType::AndAnd => "AndAnd",
            TokenType::EqualEqual => "EqualEqual",
            TokenType::LessEqual => "LessEqual",
            TokenType::GreaterEqual => "GreaterEqual",
            TokenType::Dot => "Dot",
            TokenType::Identifier => "Identifier",
            TokenType::Char => "Char",
            TokenType::String => "String",
            TokenType::KMain => "KMain",
            TokenType::KVar => "KVar",
            TokenType::KIf => "KIf",
            TokenType::KWhile => "KWhile",
            TokenType::KElse => "KElse",
            TokenType::KFor => "KFor",
            TokenType::KBreak => "KBreak",
            TokenType::KFun => "KFun",
            TokenType::KReturn => "KReturn",
            TokenType::KNullptr => "KNullptr",
            TokenType::OpenParenthesis => "OpenParenthesis",
            TokenType::OpenSqParenthesis => "OpenSqParenthesis",
            TokenType::OpenCurParenthesis => "OpenCurParenthesis",
            TokenType::CloseParenthesis => "CloseParenthesis",
            TokenType::CloseSqParenthesis => "CloseSqParenthesis",
            TokenType::CloseCurParenthesis => "CloseCurParenthesis",
            TokenType::Comma => "Comma",
            TokenType::Colon => "Colon",
            TokenType::TypeI8 => "TypeI8",
            TokenType::TypeI16 => "TypeI16",
            TokenType::TypeI32 => "TypeI32",
            TokenType::TypeI64 => "TypeI64",
            TokenType::TypeU8 => "TypeU8",
            TokenType::TypeU16 => "TypeU16",
            TokenType::TypeU32 => "TypeU32",
            TokenType::TypeU64 => "TypeU64",
            TokenType::TypeF32 => "TypeF32",
            TokenType::TypeF64 => "TypeF64",
            TokenType::TypeC32 => "TypeC32",
            TokenType::TypeC64 => "TypeC64",
            TokenType::TypeChar => "TypeChar",
            TokenType::TypeString => "TypeString",
            TokenType::TypeBool => "TypeBool",
            TokenType::Comment => "Comment",
            TokenType::Unknown => "Unknown",
            TokenType::Eoft => "Eoft",
        }
    }
}

/// The kind that the keyword table gives the word `v[lo..hi]`.
pub(crate) fn keyword_in(v: &Vec<char>, lo: usize, hi: usize) -> (r: TokenType)
    requires
        lo <= hi <= v@.len(),
    ensures
        r == keyword_kind(v@.subrange(lo as int, hi as int)),
{
    if range_equals(v, lo, hi, "main") {
        TokenType::KMain
    } else if range_equals(v, lo, hi, "var") {
        TokenType::KVar
    } else if range_equals(v, lo, hi, "if") {
        TokenType::KIf
    } else if range_equals(v, lo, hi, "while") {
        TokenType::KWhile
    } else if range_equals(v, lo, hi, "else") {
        TokenType::KElse
    } else if range_equals(v, lo, hi, "for") {
        TokenType::KFor
    } else if range_equals(v, lo, hi, "break") {
        TokenType::KBreak
    } else if range_equals(v, lo, hi, "fun") {
        TokenType::KFun
    } else if range_equals(v, lo, hi, "return") {
        TokenType::KReturn
    } else {
        TokenType::Identifier
    }
}

fn fixed_kind_of(raw: RawToken) -> (r: Option<TokenType>)
    ensures
        r == fixed_kind(raw),
{
    match raw {
            RawToken::Plus => Some(TokenType::Plus),
            RawToken::Minus => Some(TokenType::Minus),
            RawToken::Star => Some(TokenType::Star),
            RawToken::Slash => Some(TokenType::Divide),
            RawToken::LESS => Some(TokenType::Less),
            RawToken::GREATER => Some(TokenType::Greater),
            RawToken::NOT => Some(TokenType::Not),
            RawToken::XOR => Some(TokenType::Xor),
            RawToken::PERCENT => Some(TokenType::Percent),
            RawToken::OR => Some(TokenType::Or),
            RawToken::AND => Some(TokenType::And),
            RawToken::Equal => Some(TokenType::Equal),
            RawToken::Colon => Some(TokenType::Colon),
            RawToken::Comma => Some(TokenType::Comma),
            RawToken::PlusPlus => Some(TokenType::PlusPlus),
            RawToken::MinusMinus => Some(TokenType::MinusMinus),
            RawToken::PlusEqual => Some(TokenType::PlusEqual),
            RawToken::MinusEqual => Some(TokenType::MinusEqual),
            RawToken::LessEqual => Some(TokenType::LessEqual),
            RawToken::Greaterequal => Some(TokenType::GreaterEqual),
            RawToken::NotEqual => Some(TokenType::NotEqual),
            RawToken::XorEqual => Some(TokenType::XorEqual),
            RawToken::PercentEqual => Some(TokenType::PercentEqual),
            RawToken::OrOr => Some(TokenType::OrOr),
            RawToken::AndAnd => Some(TokenType::AndAnd),
            RawToken::OpenParentesis => Some(TokenType::OpenParenthesis),
            RawToken::CloseParentesis => Some(TokenType::CloseParenthesis),
            RawToken::OpenSQParentesis => Some(TokenType::OpenSqParenthesis),
            RawToken::CloseSQParentesis => Some(TokenType::CloseSqParenthesis),
            RawToken::OpenCurParentesis => Some(TokenType::OpenCurParenthesis),
            RawToken::CloseCurParentesis => Some(TokenType::CloseCurParenthesis),
            RawToken::Dot => Some(TokenType::Dot),
            RawToken::TYPEI8 => Some(TokenType::TypeI8),
            RawToken::TYPEI16 => Some(TokenType::TypeI16),
            RawToken::TYPEI32 => Some(TokenType::TypeI32),
            RawToken::TYPEI64 => Some(TokenType::TypeI64),
            RawToken::TYPEU8 => Some(TokenType::TypeU8),
            RawToken::TYPEU16 => Some(TokenType::TypeU16),
            RawToken::TYPEU32 => Some(TokenType::TypeU32),
            RawToken::TYPEU64 => Some(TokenType::TypeU64),
            RawToken::TYPEF32 => Some(TokenType::TypeF32),
            RawToken::TYPEF64 => Some(TokenType::TypeF64),
            RawToken::TYPEC32 => Some(TokenType::TypeC32),
            RawToken::TYPEC64 => Some(TokenType::TypeC64),
            RawToken::TYPECHAR => Some(TokenType::TypeChar),
            RawToken::TYPESTRING => Some(TokenType::TypeString),
            RawToken::TYPEBOOL => Some(TokenType::TypeBool),
        _ => None,
    }
}

/// Classifies the raw unit of category `raw` whose text is `v[lo..hi]`.
pub(crate) fn classify_range(raw: RawToken, v: &Vec<char>, lo: usize, hi: usize) -> (r: (
    TokenType,
    String,
))
    requires
        lo <= hi <= v@.len(),
    ensures
        (r.0, r.1@) == classify(raw, v@.subrange(lo as int, hi as int)),
{
    if let Some(t) = fixed_kind_of(raw) {
        return (t, String::new());
    }
    match raw {
        RawToken::IdentifierAscii => {
            let k = keyword_in(v, lo, hi);
            if k.is_keyword() {
                (k, String::new())
            } else {
                (TokenType::Identifier, string_of_range(v, lo, hi))
            }
        },
        RawToken::IdentifierUnicode => (TokenType::Identifier, string_of_range(v, lo, hi)),
        RawToken::Number => {
            if range_contains(v, lo, hi, '.') {
                (TokenType::Double, string_of_range(v, lo, hi))
            } else {
                (TokenType::Integer, string_of_range(v, lo, hi))
            }
        },
        RawToken::Binary | RawToken::Hexadecimal | RawToken::Octal => {
            (TokenType::Integer, string_of_range(v, lo, hi))
        },
        RawToken::SingleLineComment | RawToken::MultiLineComment => {
            (TokenType::Comment, string_of_range(v, lo, hi))
        },
        RawToken::BOOLEAN => (TokenType::Boolean, string_of_range(v, lo, hi)),
        RawToken::STRING => (TokenType::String, strip_range(v, lo, hi)),
        RawToken::CHAR => (TokenType::Char, strip_range(v, lo, hi)),
        _ => (TokenType::Unknown, string_of_range(v, lo, hi)),
    }
}

/// `v[lo..hi]` without its first and last character.
fn strip_range(v: &Vec<char>, lo: usize, hi: usize) -> (r: String)
    requires
        lo <= hi <= v@.len(),
    ensures
        r@ == strip_delimiters(v@.subrange(lo as int, hi as int)),
{
    if hi - lo >= 2 {
        let r = string_of_range(v, lo + 1, hi - 1);
        assert(r@ =~= strip_delimiters(v@.subrange(lo as int, hi as int)));
        r
    } else {
        let r = String::new();
        assert(r@ =~= strip_delimiters(v@.subrange(lo as int, hi as int)));
        r
    }
}

/// The reserved words classify to their keyword kinds with an empty value;
/// every other ASCII identifier classifies as an identifier carrying its text.
pub proof fn lemma_keyword_table(w: Seq<char>)
    ensures
        w == "main"@ ==> classify(RawToken::IdentifierAscii, w) == (
            TokenType::KMain,
            Seq::<char>::empty(),
        ),
        w == "var"@ ==> classify(RawToken::IdentifierAscii, w) == (
            TokenType::KVar,
            Seq::<char>::empty(),
        ),
        w == "if"@ ==> classify(RawToken::IdentifierAscii, w) == (
            TokenType::KIf,
            Seq::<char>::empty(),
        ),
        w == "while"@ ==> classify(RawToken::IdentifierAscii, w) == (
            TokenType::KWhile,
            Seq::<char>::empty(),
        ),
        w == "else"@ ==> classify(RawToken::IdentifierAscii, w) == (
            TokenType::KElse,
            Seq::<char>::empty(),
        ),
        w == "for"@ ==> classify(RawToken::IdentifierAscii, w) == (
            TokenType::KFor,
            Seq::<char>::empty(),
        ),
        w == "break"@ ==> classify(RawToken::IdentifierAscii, w) == (
            TokenType::KBreak,
            Seq::<char>::empty(),
        ),
        w == "fun"@ ==> classify(RawToken::IdentifierAscii, w) == (
            TokenType::KFun,
            Seq::<char>::empty(),
        ),
        w == "return"@ ==> classify(RawToken::IdentifierAscii, w) == (
            TokenType::KReturn,
            Seq::<char>::empty(),
        ),
        !(w == "main"@ || w == "var"@ || w == "if"@ || w == "while"@ || w == "else"@ || w == "for"@ || w == "break"@ || w == "fun"@ || w == "return"@) ==> classify(
            RawToken::IdentifierAscii,
            w,
        ) == (TokenType::Identifier, w),
{
    reveal_strlit("main");
    reveal_strlit("var");
    reveal_strlit("if");
    reveal_strlit("while");
    reveal_strlit("else");
    reveal_strlit("for");
    reveal_strlit("break");
    reveal_strlit("fun");
    reveal_strlit("return");
    assert("var"@.len() != "main"@.len());
    assert("if"@.len() != "main"@.len());
    assert("if"@.len() != "var"@.len());
    assert("while"@.len() != "main"@.len());
    assert("while"@.len() != "var"@.len());
    assert("while"@.len() != "if"@.len());
    assert("else"@[0] != "main"@[0]);
    assert("else"@.len() != "var"@.len());
    assert("else"@.len() != "if"@.len());
    assert("else"@.len() != "while"@.len());
    assert("for"@.len() != "main"@.len());
    assert("for"@[0] != "var"@[0]);
    assert("for"@.len() != "if"@.len());
    assert("for"@.len() != "while"@.len());
    assert("for"@.len() != "else"@.len());
    assert("break"@.len() != "main"@.len());
    assert("break"@.len() != "var"@.len());
    assert("break"@.len() != "if"@.len());
    assert("break"@[0] != "while"@[0]);
    assert("break"@.len() != "else"@.len());
    assert("break"@.len() != "for"@.len());
    assert("fun"@.len() != "main"@.len());
    assert("fun"@[0] != "var"@[0]);
    assert("fun"@.len() != "if"@.len());
    assert("fun"@.len() != "while"@.len());
    assert("fun"@.len() != "else"@.len());
    assert("fun"@[1] != "for"@[1]);
    assert("fun"@.len() != "break"@.len());
    assert("return"@.len() != "main"@.len());
    assert("return"@.len() != "var"@.len());
    assert("return"@.len() != "if"@.len());
    assert("return"@.len() != "while"@.len());
    assert("return"@.len() != "else"@.len());
    assert("return"@.len() != "for"@.len());
    assert("return"@.len() != "break"@.len());
    assert("return"@.len() != "fun"@.len());
}

/// A number is a double exactly when its text holds a decimal point; a
/// radix-prefixed number is always an integer. Each keeps its text as value.
pub proof fn lemma_numeric_classification(t: Seq<char>)
    ensures
        classify(RawToken::Number, t) == (
            if t.contains('.') {
                TokenType::Double
            } else {
                TokenType::Integer
            },
            t,
        ),
        classify(RawToken::Binary, t) == (TokenType::Integer, t),
        classify(RawToken::Hexadecimal, t) == (TokenType::Integer, t),
        classify(RawToken::Octal, t) == (TokenType::Integer, t),
{
}

} // verus!
