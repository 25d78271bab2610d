//! Finished tokens and the stream that holds them.
use vstd::prelude::*;

use crate::code_source_location::{
    location_compact, location_verbose, push_str, CodeSourceLocation,
};
use crate::text::string_of;
use crate::token_type::{compact_name, variant_name, TokenType};

verus! {

/// A classified token with its normalised value and its position.
#[derive(Debug, Clone)]
pub struct Token {
    pub token_type: TokenType,
    pub value: String,
    pub source_location: CodeSourceLocation,
}

impl View for Token {
    type V = (TokenType, Seq<char>, CodeSourceLocation);

    open spec fn view(&self) -> Self::V {
        (self.token_type, self.value@, self.source_location)
    }
}

/// The compact rendering of a token with kind `t`, value `v` and location `l`.
pub open spec fn token_compact(t: TokenType, v: Seq<char>, l: CodeSourceLocation) -> Seq<char> {
    if v.len() == 0 {
        "(typ: "@ + compact_name(t) + ", sl: "@ + location_compact(l) + ")"@
    } else {
        "(typ: "@ + compact_name(t) + ", val: '"@ + v + "', sl: "@ + location_compact(l) + ")"@
    }
}

/// The verbose rendering of a token with kind `t`, value `v` and location `l`.
pub open spec fn token_verbose(t: TokenType, v: Seq<char>, l: CodeSourceLocation) -> Seq<char> {
    if v.len() == 0 {
        "Token(type: "@ + variant_name(t) + ", sourceLocation: "@ + location_verbose(l) + ")"@
    } else {
        "Token(type: "@ + variant_name(t) + ", value: '"@ + v + "', sourceLocation: "@
            + location_verbose(l) + ")"@
    }
}

impl Token {
    pub fn new(token_type: TokenType, value: String, source_location: CodeSourceLocation) -> (r:
        Self)
        ensures
            r@ == (token_type, value@, source_location),
    {
        Self { token_type, value, source_location }
    }

    pub fn new_with_empty_value(token_type: TokenType, source_location: CodeSourceLocation) -> (r:
        Self)
        ensures
            r@ == (token_type, Seq::<char>::empty(), source_location),
    {
        Self { token_type, value: String::new(), source_location }
    }

    pub fn is_type(&self, token_type: &TokenType) -> (r: bool)
        ensures
            r == (self.token_type == *token_type),
    {
        self.token_type == *token_type
    }

    pub fn is_type_any_of(&self, token_types: &[TokenType]) -> (r: bool)
        ensures
            r == token_types@.contains(self.token_type),
    {
        let mut k: usize = 0;
        while k < token_types.len()
            invariant
                k <= token_types@.len(),
                forall|j: int| 0 <= j < k ==> token_types@[j] != self.token_type,
            decreases token_types@.len() - k,
        {
            if token_types[k] == self.token_type {
                return true;
            }
            k = k + 1;
        }
        false
    }

    /// The length of the value in bytes of UTF-8.
    pub fn value_size(&self) -> (r: usize)
        ensures
            r == vstd::utf8::encode_utf8(self.value@).len() as usize,
    {
        self.value.as_str().len()
    }

    pub fn to_compact_string(&self) -> (r: String)
        ensures
            r@ == token_compact(self.token_type, self.value@, self.source_location),
    {
        let mut out: Vec<char> = Vec::new();
        push_str(&mut out, "(typ: ");
        push_str(&mut out, self.token_type.compact_to_string());
        if self.value.as_str().is_empty() {
            push_str(&mut out, ", sl: ");
        } else {
            push_str(&mut out, ", val: '");
            push_str(&mut out, self.value.as_str());
            push_str(&mut out, "', sl: ");
        }
        self.source_location.push_compact(&mut out);
        push_str(&mut out, ")");
        assert(out@ =~= token_compact(self.token_type, self.value@, self.source_location));
        string_of(out.as_slice())
    }

    /// The verbose rendering, `Token(type: T, value: 'V', sourceLocation: (line: L, column: C))`,
    /// without the value part when the value is empty.
    pub fn to_verbose_string(&self) -> (r: String)
        ensures
            r@ == token_verbose(self.token_type, self.value@, self.source_location),
    {
        let mut out: Vec<char> = Vec::new();
        push_str(&mut out, "Token(type: ");
        push_str(&mut out, self.token_type.name());
        if self.value.as_str().is_empty() {
            push_str(&mut out, ", sourceLocation: ");
        } else {
            push_str(&mut out, ", value: '");
            push_str(&mut out, self.value.as_str());
            push_str(&mut out, "', sourceLocation: ");
        }
        self.source_location.push_verbose(&mut out);
        push_str(&mut out, ")");
        assert(out@ =~= token_verbose(self.token_type, self.value@, self.source_location));
        string_of(out.as_slice())
    }
}

/// The tokens of one source, in order, with the source's file identifier.
#[derive(Debug, Clone)]
pub struct TokenList {
    pub file_name: String,
    pub tokens: Vec<Token>,
}

impl TokenList {
    /// An empty stream for the file `file_name`.
    pub fn new(file_name: String) -> (r: Self)
        ensures
            r.file_name@ == file_name@,
            r.tokens@.len() == 0,
    {
        Self { file_name, tokens: Vec::new() }
    }

    /// The tokens' views, in order.
    pub open spec fn token_views(&self) -> Seq<(TokenType, Seq<char>, CodeSourceLocation)> {
        self.tokens@.map_values(|t: Token| t@)
    }
}

} // verus!
