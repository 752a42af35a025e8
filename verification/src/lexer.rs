//! A character-at-a-time lexer.
//!
//! This is the older front end: it walks a vector of characters one
//! position at a time and hands out one token per call. The final grammar
//! does not use it, but it remains part of the crate's surface, and its
//! behaviour is specified by `spec_lex` and proved.

use vstd::prelude::*;
use vstd::string::StrSliceExecFns;
use vstd::string::StringExecFns;

use crate::parser::grammar::{
    dec_val, digit_cls, is_digit, lemma_dec_val_mono, lemma_scan_end, scan_end, skip_ws,
};
use crate::token::{Token, TokenKind};

verus! {

/// A lexing fault: an unexpected character, a read past the end of the
/// input, an advance past the end, or a number too large for 64 signed
/// bits (which carries the position where the number begins).
#[derive(Debug, Clone, Copy, PartialEq, Eq, Structural)]
pub enum LexerError {
    UnexpectedCharacterError(char),
    InvalidPosition(usize),
    MaximumPosition(usize),
    NumberOverflow(usize),
}

/// What one `lex` call yields: a token and the position after it, or a
/// fault and the position at which lexing stopped.
pub enum LexModel {
    Tok { kind: TokenKind, raw: Seq<char>, next: int },
    Fault { err: LexerError, next: int },
}

/// One lexing step: skip whitespace, then read a number, a symbol, or
/// fail. At the end of the input the fault is `InvalidPosition`; at a
/// character outside the vocabulary it is `UnexpectedCharacterError`, and
/// the position does not move past it.
pub open spec fn spec_lex(input: Seq<char>, pos: int) -> LexModel {
    let p = skip_ws(input, pos);
    if 0 <= p < input.len() {
        let c = input[p];
        if is_digit(c) {
            let e = scan_end(input, p, digit_cls());
            if dec_val(input, p, e) <= i64::MAX {
                LexModel::Tok {
                    kind: TokenKind::Number(dec_val(input, p, e) as i64),
                    raw: input.subrange(p, e),
                    next: e,
                }
            } else {
                LexModel::Fault { err: LexerError::NumberOverflow(p as usize), next: e }
            }
        } else if c == '+' {
            LexModel::Tok { kind: TokenKind::Plus, raw: input.subrange(p, p + 1), next: p + 1 }
        } else if c == '-' {
            LexModel::Tok { kind: TokenKind::Minus, raw: input.subrange(p, p + 1), next: p + 1 }
        } else if c == '*' {
            LexModel::Tok { kind: TokenKind::Asterisk, raw: input.subrange(p, p + 1), next: p + 1 }
        } else if c == '/' {
            LexModel::Tok { kind: TokenKind::Slash, raw: input.subrange(p, p + 1), next: p + 1 }
        } else if c == '(' {
            LexModel::Tok { kind: TokenKind::LParen, raw: input.subrange(p, p + 1), next: p + 1 }
        } else if c == ')' {
            LexModel::Tok { kind: TokenKind::RParen, raw: input.subrange(p, p + 1), next: p + 1 }
        } else {
            LexModel::Fault { err: LexerError::UnexpectedCharacterError(c), next: p }
        }
    } else {
        LexModel::Fault { err: LexerError::InvalidPosition(p as usize), next: p }
    }
}


/// The end of the digit run starting at `pos`.
fn vec_scan_digits(v: &Vec<char>, pos: usize) -> (r: usize)
    requires
        pos <= v@.len(),
    ensures
        r as int == scan_end(v@, pos as int, digit_cls()),
        pos <= r <= v@.len(),
{
    let n = v.len();
    let mut i: usize = pos;
    while i < n && ('0' <= v[i] && v[i] <= '9')
        invariant
            n == v@.len(),
            pos <= i <= n,
            scan_end(v@, pos as int, digit_cls()) == scan_end(v@, i as int, digit_cls()),
        decreases n - i,
    {
        i = i + 1;
    }
    i
}

/// The digit run from `pos` to `e`, as a string.
fn vec_digits_string(v: &Vec<char>, pos: usize, e: usize) -> (r: String)
    requires
        pos <= e <= v@.len(),
        e as int == scan_end(v@, pos as int, digit_cls()),
    ensures
        r@ == v@.subrange(pos as int, e as int),
{
    proof {
        lemma_scan_end(v@, pos as int, digit_cls());
    }
    let mut out = String::new();
    let mut i: usize = pos;
    while i < e
        invariant
            pos <= i <= e <= v@.len(),
            e as int == scan_end(v@, pos as int, digit_cls()),
            out@ =~= v@.subrange(pos as int, i as int),
        decreases e - i,
    {
        proof {
            lemma_scan_end(v@, pos as int, digit_cls());
        }
        push_digit(&mut out, v[i]);
        i = i + 1;
        proof {
            assert(out@ =~= v@.subrange(pos as int, i as int));
        }
    }
    proof {
        assert(out@ =~= v@.subrange(pos as int, e as int));
    }
    out
}

/// The value of the digit run from `pos` to `e`, or nothing when it does
/// not fit in 64 signed bits.
fn vec_digits_value(v: &Vec<char>, pos: usize, e: usize) -> (r: Option<i64>)
    requires
        pos < e <= v@.len(),
        e as int == scan_end(v@, pos as int, digit_cls()),
    ensures
        match r {
            Some(val) => val as int == dec_val(v@, pos as int, e as int) && dec_val(
                v@,
                pos as int,
                e as int,
            ) <= i64::MAX,
            None => dec_val(v@, pos as int, e as int) > i64::MAX,
        },
{
    proof {
        lemma_scan_end(v@, pos as int, digit_cls());
    }
    let mut acc: i64 = 0;
    let mut i: usize = pos;
    while i < e
        invariant
            pos <= i <= e <= v@.len(),
            e as int == scan_end(v@, pos as int, digit_cls()),
            0 <= acc,
            acc as int == dec_val(v@, pos as int, i as int),
        decreases e - i,
    {
        proof {
            lemma_scan_end(v@, pos as int, digit_cls());
        }
        let c = v[i];
        let d = (c as u32) - 48;
        let acc10 = match acc.checked_mul(10) {
            Some(z) => z,
            None => {
                proof {
                    lemma_dec_val_mono(v@, pos as int, i + 1, e as int);
                }
                return None;
            },
        };
        acc = match acc10.checked_add(d as i64) {
            Some(z) => z,
            None => {
                proof {
                    lemma_dec_val_mono(v@, pos as int, i + 1, e as int);
                }
                return None;
            },
        };
        i = i + 1;
    }
    Some(acc)
}

/// Appends one digit character to a string.
fn push_digit(out: &mut String, c: char)
    requires
        is_digit(c),
    ensures
        final(out)@ == old(out)@ + seq![c],
{
    proof {
        reveal_strlit("0");
        reveal_strlit("1");
        reveal_strlit("2");
        reveal_strlit("3");
        reveal_strlit("4");
        reveal_strlit("5");
        reveal_strlit("6");
        reveal_strlit("7");
        reveal_strlit("8");
        reveal_strlit("9");
    }
    if c == '0' {
        out.append("0");
    } else if c == '1' {
        out.append("1");
    } else if c == '2' {
        out.append("2");
    } else if c == '3' {
        out.append("3");
    } else if c == '4' {
        out.append("4");
    } else if c == '5' {
        out.append("5");
    } else if c == '6' {
        out.append("6");
    } else if c == '7' {
        out.append("7");
    } else if c == '8' {
        out.append("8");
    } else {
        out.append("9");
    }
    proof {
        assert(final(out)@ =~= old(out)@ + seq![c]);
    }
}

/// The character-at-a-time lexer: the input and the position being read.
#[derive(Debug, Clone, PartialEq)]
pub struct Lexer {
    pub input: Vec<char>,
    pub pos: usize,
}

impl Lexer {
    /// A lexer at the start of the given text.
    pub fn new(input: &str) -> (l: Lexer)
        ensures
            l.input@ == input@,
            l.pos == 0,
    {
        let n = input.unicode_len();
        let mut v: Vec<char> = Vec::new();
        let mut i: usize = 0;
        while i < n
            invariant
                n == input@.len(),
                i <= n,
                v@ =~= input@.subrange(0, i as int),
            decreases n - i,
        {
            v.push(input.get_char(i));
            proof {
                assert(v@ =~= input@.subrange(0, i + 1));
            }
            i = i + 1;
        }
        proof {
            assert(v@ =~= input@);
        }
        Lexer { input: v, pos: 0 }
    }

    /// The character under the cursor, or `InvalidPosition` past the end.
    pub fn cur(&self) -> (r: Result<char, LexerError>)
        ensures
            match r {
                Ok(c) => self.pos < self.input@.len() && c == self.input@[self.pos as int],
                Err(e) => self.pos >= self.input@.len() && e == LexerError::InvalidPosition(
                    self.pos,
                ),
            },
    {
        if self.pos < self.input.len() {
            Ok(self.input[self.pos])
        } else {
            Err(LexerError::InvalidPosition(self.pos))
        }
    }

    /// Advances the cursor by one, or fails with `MaximumPosition` at the
    /// end.
    pub fn next(&mut self) -> (r: Result<(), LexerError>)
        ensures
            final(self).input == old(self).input,
            match r {
                Ok(()) => old(self).pos < old(self).input@.len() && final(self).pos == old(
                    self,
                ).pos + 1,
                Err(e) => old(self).pos >= old(self).input@.len() && e
                    == LexerError::MaximumPosition(old(self).pos) && final(self).pos == old(
                    self,
                ).pos,
            },
    {
        if self.pos >= self.input.len() {
            return Err(LexerError::MaximumPosition(self.pos));
        }
        self.pos = self.pos + 1;
        Ok(())
    }

    /// Reads one token, skipping whitespace first, and leaves the cursor
    /// after it; or fails as `spec_lex` describes.
    pub fn lex(&mut self) -> (r: Result<Token, LexerError>)
        ensures
            final(self).input@ == old(self).input@,
            match spec_lex(old(self).input@, old(self).pos as int) {
                LexModel::Tok { kind, raw, next } => r matches Ok(t) && t.kind == kind
                    && t.raw_input@ == raw && final(self).pos == next,
                LexModel::Fault { err, next } => r matches Err(e) && e == err && final(self).pos
                    == next,
            },
    {
        let ghost s = self.input@;
        let ghost pos0 = self.pos as int;
        // Skip whitespace.
        while self.pos < self.input.len() && (self.input[self.pos] == ' ' || self.input[self.pos]
            == '\t' || self.input[self.pos] == '\r' || self.input[self.pos] == '\n')
            invariant
                self.input@ == s,
                skip_ws(s, pos0) == skip_ws(s, self.pos as int),
            decreases s.len() - self.pos,
        {
            self.pos = self.pos + 1;
        }
        proof {
            assert(self.pos as int == skip_ws(s, pos0));
        }
        if self.pos >= self.input.len() {
            return Err(LexerError::InvalidPosition(self.pos));
        }
        // A number.
        let start = self.pos;
        if '0' <= self.input[self.pos] && self.input[self.pos] <= '9' {
            let e = vec_scan_digits(&self.input, self.pos);
            proof {
                lemma_scan_end(s, self.pos as int, digit_cls());
            }
            let num_str = vec_digits_string(&self.input, self.pos, e);
            let value_opt = vec_digits_value(&self.input, self.pos, e);
            self.pos = e;
            return match value_opt {
                Some(v) => Ok(Token { kind: TokenKind::Number(v), raw_input: num_str }),
                None => Err(LexerError::NumberOverflow(start)),
            };
        }
        // A symbol.
        let c = self.input[self.pos];
        let kind = if c == '+' {
            TokenKind::Plus
        } else if c == '-' {
            TokenKind::Minus
        } else if c == '*' {
            TokenKind::Asterisk
        } else if c == '/' {
            TokenKind::Slash
        } else if c == '(' {
            TokenKind::LParen
        } else if c == ')' {
            TokenKind::RParen
        } else {
            return Err(LexerError::UnexpectedCharacterError(c));
        };
        self.pos = self.pos + 1;
        let raw = if c == '+' {
            String::from_str("+")
        } else if c == '-' {
            String::from_str("-")
        } else if c == '*' {
            String::from_str("*")
        } else if c == '/' {
            String::from_str("/")
        } else if c == '(' {
            String::from_str("(")
        } else {
            String::from_str(")")
        };
        proof {
            reveal_strlit("+");
            reveal_strlit("-");
            reveal_strlit("*");
            reveal_strlit("/");
            reveal_strlit("(");
            reveal_strlit(")");
            assert(raw@ =~= s.subrange(skip_ws(s, pos0), skip_ws(s, pos0) + 1));
        }
        Ok(Token { kind, raw_input: raw })
    }
}

} // verus!
