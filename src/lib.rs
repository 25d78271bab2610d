//! A verified lexer: turns source text into classified, located tokens.
//!
//! `scanner` splits text into raw units, `token_type` classifies them,
//! `tokenizer` locates them and assembles the token stream.

pub mod code_source_location;
pub mod scanner;
pub mod text;
pub mod token;
pub mod token_type;
pub mod tokenizer;
