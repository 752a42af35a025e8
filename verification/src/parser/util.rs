//! Character-level scanning shared by the parsing functions.

use vstd::prelude::*;
use vstd::string::StrSliceExecFns;

use crate::parser::grammar::{
    alnum_cls, assign_cls, cmp_cls, digit_cls, ident_cls, is_alnum, is_assign_char, is_cmp_char,
    is_digit, is_ident, is_logic_char, is_ws, logic_cls, scan_end, skip_ws,
};

verus! {

/// Whether `c` is insignificant whitespace.
pub(crate) fn char_is_ws(c: char) -> (b: bool)
    ensures
        b == is_ws(c),
{
    c == ' ' || c == '\t' || c == '\r' || c == '\n'
}

/// Whether `c` is a decimal digit.
pub(crate) fn char_is_digit(c: char) -> (b: bool)
    ensures
        b == is_digit(c),
{
    '0' <= c && c <= '9'
}

/// Whether `c` may stand in an identifier.
pub(crate) fn char_is_ident(c: char) -> (b: bool)
    ensures
        b == is_ident(c),
{
    ('a' <= c && c <= 'z') || ('A' <= c && c <= 'Z') || ('0' <= c && c <= '9') || c == '_'
}

/// Whether `c` is a letter or a digit.
pub(crate) fn char_is_alnum(c: char) -> (b: bool)
    ensures
        b == is_alnum(c),
{
    ('a' <= c && c <= 'z') || ('A' <= c && c <= 'Z') || ('0' <= c && c <= '9')
}

/// Whether `c` may stand in an assignment operator.
pub(crate) fn char_is_assign(c: char) -> (b: bool)
    ensures
        b == is_assign_char(c),
{
    c == '=' || c == '+' || c == '-' || c == '*' || c == '/'
}

/// Whether `c` may stand in a comparison operator.
pub(crate) fn char_is_cmp(c: char) -> (b: bool)
    ensures
        b == is_cmp_char(c),
{
    c == '=' || c == '>' || c == '<' || c == '!'
}

/// Whether `c` may stand in a logical operator.
pub(crate) fn char_is_logic(c: char) -> (b: bool)
    ensures
        b == is_logic_char(c),
{
    c == '&' || c == '|'
}

/// Skips whitespace from `pos`.
pub(crate) fn skip_ws_at(s: &str, n: usize, pos: usize) -> (r: usize)
    requires
        n == s@.len(),
        pos <= n,
    ensures
        r as int == skip_ws(s@, pos as int),
        pos <= r <= n,
{
    let mut i: usize = pos;
    while i < n && char_is_ws(s.get_char(i))
        invariant
            n == s@.len(),
            pos <= i <= n,
            skip_ws(s@, pos as int) == skip_ws(s@, i as int),
        decreases n - i,
    {
        i = i + 1;
    }
    i
}

/// The end of the digit run starting at `pos`.
pub(crate) fn scan_digits_at(s: &str, n: usize, pos: usize) -> (r: usize)
    requires
        n == s@.len(),
        pos <= n,
    ensures
        r as int == scan_end(s@, pos as int, digit_cls()),
        pos <= r <= n,
{
    let mut i: usize = pos;
    while i < n && char_is_digit(s.get_char(i))
        invariant
            n == s@.len(),
            pos <= i <= n,
            scan_end(s@, pos as int, digit_cls()) == scan_end(s@, i as int, digit_cls()),
        decreases n - i,
    {
        i = i + 1;
    }
    i
}

/// The end of the identifier run starting at `pos`.
pub(crate) fn scan_ident_at(s: &str, n: usize, pos: usize) -> (r: usize)
    requires
        n == s@.len(),
        pos <= n,
    ensures
        r as int == scan_end(s@, pos as int, ident_cls()),
        pos <= r <= n,
{
    let mut i: usize = pos;
    while i < n && char_is_ident(s.get_char(i))
        invariant
            n == s@.len(),
            pos <= i <= n,
            scan_end(s@, pos as int, ident_cls()) == scan_end(s@, i as int, ident_cls()),
        decreases n - i,
    {
        i = i + 1;
    }
    i
}

/// The end of the letter-or-digit run starting at `pos`.
pub(crate) fn scan_alnum_at(s: &str, n: usize, pos: usize) -> (r: usize)
    requires
        n == s@.len(),
        pos <= n,
    ensures
        r as int == scan_end(s@, pos as int, alnum_cls()),
        pos <= r <= n,
{
    let mut i: usize = pos;
    while i < n && char_is_alnum(s.get_char(i))
        invariant
            n == s@.len(),
            pos <= i <= n,
            scan_end(s@, pos as int, alnum_cls()) == scan_end(s@, i as int, alnum_cls()),
        decreases n - i,
    {
        i = i + 1;
    }
    i
}

/// The end of the assignment-operator run starting at `pos`.
pub(crate) fn scan_assign_at(s: &str, n: usize, pos: usize) -> (r: usize)
    requires
        n == s@.len(),
        pos <= n,
    ensures
        r as int == scan_end(s@, pos as int, assign_cls()),
        pos <= r <= n,
{
    let mut i: usize = pos;
    while i < n && char_is_assign(s.get_char(i))
        invariant
            n == s@.len(),
            pos <= i <= n,
            scan_end(s@, pos as int, assign_cls()) == scan_end(s@, i as int, assign_cls()),
        decreases n - i,
    {
        i = i + 1;
    }
    i
}

/// The end of the comparison-operator run starting at `pos`.
pub(crate) fn scan_cmp_at(s: &str, n: usize, pos: usize) -> (r: usize)
    requires
        n == s@.len(),
        pos <= n,
    ensures
        r as int == scan_end(s@, pos as int, cmp_cls()),
        pos <= r <= n,
{
    let mut i: usize = pos;
    while i < n && char_is_cmp(s.get_char(i))
        invariant
            n == s@.len(),
            pos <= i <= n,
            scan_end(s@, pos as int, cmp_cls()) == scan_end(s@, i as int, cmp_cls()),
        decreases n - i,
    {
        i = i + 1;
    }
    i
}

/// The end of the logical-operator run starting at `pos`.
pub(crate) fn scan_logic_at(s: &str, n: usize, pos: usize) -> (r: usize)
    requires
        n == s@.len(),
        pos <= n,
    ensures
        r as int == scan_end(s@, pos as int, logic_cls()),
        pos <= r <= n,
{
    let mut i: usize = pos;
    while i < n && char_is_logic(s.get_char(i))
        invariant
            n == s@.len(),
            pos <= i <= n,
            scan_end(s@, pos as int, logic_cls()) == scan_end(s@, i as int, logic_cls()),
        decreases n - i,
    {
        i = i + 1;
    }
    i
}

/// One or more whitespace characters, as a parsing function: the remainder
/// and the consumed prefix, or nothing if the input does not begin with
/// whitespace.
pub fn sp<'a>(input: &'a str) -> (r: Option<(&'a str, &'a str)>)
    ensures
        ({
            let w = skip_ws(input@, 0);
            match r {
                Some((rest, taken)) => 0 < w && rest@ == input@.subrange(w, input@.len() as int)
                    && taken@ == input@.subrange(0, w),
                None => w == 0,
            }
        }),
{
    let n = input.unicode_len();
    let w = skip_ws_at(input, n, 0);
    if w == 0 {
        None
    } else {
        Some((input.substring_char(w, n), input.substring_char(0, w)))
    }
}

} // verus!
