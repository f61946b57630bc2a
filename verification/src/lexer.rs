//! JSON text as tokens.
//!
//! Lexing is the work of the `json-tools` crate. What it returns is given a
//! name here; the contracts of this module say no more of it than that it
//! depends on the text alone.

use json_tools::TokenType as Kind;
use json_tools::{Buffer, BufferType, Lexer};
use vstd::prelude::*;

verus! {

/// The kinds of tokens.
#[derive(Clone, Copy, Debug, PartialEq, Eq, Structural)]
pub enum TokenType {
    CurlyOpen,
    CurlyClose,
    BracketOpen,
    BracketClose,
    Colon,
    Comma,
    String,
    BooleanTrue,
    BooleanFalse,
    Number,
    Null,
    Invalid,
}

/// The bytes of a text from the index `first` up to, but without, the index
/// `end`.
#[derive(Clone, Copy, Debug, PartialEq, Eq, Structural)]
pub struct Span {
    pub first: u64,
    pub end: u64,
}

/// A token: its kind and, where the lexer tells, the bytes that it spans.
#[derive(Clone, Copy, Debug, PartialEq, Eq, Structural)]
pub struct Token {
    pub kind: TokenType,
    pub span: Option<Span>,
}

/// The tokens of a text, in the order in which they stand in it.
pub uninterp spec fn lexed(text: Seq<char>) -> Seq<Token>;

/// `Lexer::new` of the `json-tools` crate on the bytes of the text, asked
/// for spans, and run to its end through its `Iterator::next`. Each token is
/// handed on with its kind and its span. Claimed: the tokens depend on the
/// text alone.
#[verifier::external_body]
pub(crate) fn lex(text: &str) -> (tokens: Vec<Token>)
    ensures
        tokens@ == lexed(text@),
{
    Lexer::new(text.bytes(), BufferType::Span).map(|token| Token {
        kind: match token.kind {
            Kind::CurlyOpen => TokenType::CurlyOpen, Kind::CurlyClose => TokenType::CurlyClose,
            Kind::BracketOpen => TokenType::BracketOpen, Kind::Colon => TokenType::Colon,
            Kind::BracketClose => TokenType::BracketClose, Kind::Comma => TokenType::Comma,
            Kind::String => TokenType::String, Kind::Number => TokenType::Number,
            Kind::BooleanTrue => TokenType::BooleanTrue, Kind::Null => TokenType::Null,
            Kind::BooleanFalse => TokenType::BooleanFalse, Kind::Invalid => TokenType::Invalid,
        },
        span: match token.buf {
            Buffer::Span(span) => Some(Span { first: span.first, end: span.end }),
            Buffer::MultiByte(_) => None,
        },
    }).collect()
}

} // verus!
