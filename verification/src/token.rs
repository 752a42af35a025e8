//! Tokens of the character-at-a-time lexer.

use vstd::prelude::*;

verus! {

/// The kind of a token: a number or a single-character symbol.
#[derive(Debug, Clone, Copy, PartialEq, Eq, Structural)]
pub enum TokenKind {
    Number(i64),
    Plus,
    Minus,
    Asterisk,
    Slash,
    LParen,
    RParen,
}

/// One token: its kind and the raw text it was read from.
#[derive(Debug, Clone, PartialEq)]
pub struct Token {
    pub kind: TokenKind,
    pub raw_input: String,
}

} // verus!
