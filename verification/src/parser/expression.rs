//! Arithmetic expressions: additive and multiplicative chains folded to
//! the left, a right-associative exponent level, unary prefix signs, and
//! primaries. Each function is proved equal to its grammar production.

use vstd::prelude::*;
use vstd::string::StrSliceExecFns;

use crate::ast::{Ast, ExprOpKind, UnaryOpKind, ast_view};
use crate::parser::expr_res_view;
use crate::parser::grammar::{
    dec_val, digit_cls, ident_cls, lemma_dec_val_mono, lemma_scan_end, sp_add, sp_add_more,
    sp_exp, sp_mul, sp_mul_more, sp_primary, sp_unary,
};
use crate::parser::util::{
    char_is_digit, char_is_ident, scan_digits_at, scan_ident_at, skip_ws_at,
};
use crate::value::Value;

verus! {

/// The value of the digit run from `pos` to `e`, or nothing when it does
/// not fit in 64 signed bits.
fn int_value_at(s: &str, n: usize, pos: usize, e: usize) -> (r: Option<i64>)
    requires
        n == s@.len(),
        pos < e <= n,
        e as int == scan_end(s@, pos as int, digit_cls()),
    ensures
        match r {
            Some(v) => v as int == dec_val(s@, pos as int, e as int) && dec_val(
                s@,
                pos as int,
                e as int,
            ) <= i64::MAX,
            None => dec_val(s@, pos as int, e as int) > i64::MAX,
        },
{
    proof {
        lemma_scan_end(s@, pos as int, digit_cls());
    }
    let mut acc: i64 = 0;
    let mut i: usize = pos;
    while i < e
        invariant
            n == s@.len(),
            pos <= i <= e <= n,
            e as int == scan_end(s@, pos as int, digit_cls()),
            0 <= acc,
            acc as int == dec_val(s@, pos as int, i as int),
        decreases e - i,
    {
        proof {
            lemma_scan_end(s@, pos as int, digit_cls());
        }
        let c = s.get_char(i);
        let d = (c as u32) - 48;
        let acc10 = match acc.checked_mul(10) {
            Some(z) => z,
            None => {
                proof {
                    lemma_dec_val_mono(s@, pos as int, i + 1, e as int);
                }
                return None;
            },
        };
        acc = match acc10.checked_add(d as i64) {
            Some(z) => z,
            None => {
                proof {
                    lemma_dec_val_mono(s@, pos as int, i + 1, e as int);
                }
                return None;
            },
        };
        i = i + 1;
    }
    Some(acc)
}

use crate::parser::grammar::scan_end;

/// Primary: a parenthesized additive expression, an integer literal, or a
/// variable name.
pub(crate) fn primary_at(s: &str, n: usize, pos: usize) -> (r: Option<(usize, Ast)>)
    requires
        n == s@.len(),
        pos <= n,
    ensures
        expr_res_view(r) == sp_primary(s@, pos as int),
        r matches Some((p, _)) ==> pos < p <= n,
    decreases n - pos, 0int,
{
    let p = skip_ws_at(s, n, pos);
    if p >= n {
        return None;
    }
    let c = s.get_char(p);
    if c == '(' {
        match add_at(s, n, p + 1) {
            Some((p2, inner)) => {
                let q = skip_ws_at(s, n, p2);
                if q < n && s.get_char(q) == ')' {
                    Some((q + 1, inner))
                } else {
                    None
                }
            },
            None => None,
        }
    } else if char_is_digit(c) {
        let e = scan_digits_at(s, n, p);
        proof {
            lemma_scan_end(s@, p as int, digit_cls());
        }
        match int_value_at(s, n, p, e) {
            Some(v) => Some((e, Ast::Literal(Value::Integer(v)))),
            None => None,
        }
    } else if char_is_ident(c) {
        let e = scan_ident_at(s, n, p);
        proof {
            lemma_scan_end(s@, p as int, ident_cls());
        }
        let name = s.substring_char(p, e).to_owned();
        Some((e, Ast::Variable(name)))
    } else {
        None
    }
}

/// Unary: prefix signs in front of a primary, each sign wrapping the rest.
pub(crate) fn unary_at(s: &str, n: usize, pos: usize) -> (r: Option<(usize, Ast)>)
    requires
        n == s@.len(),
        pos <= n,
    ensures
        expr_res_view(r) == sp_unary(s@, pos as int),
        r matches Some((p, _)) ==> pos < p <= n,
    decreases n - pos, 1int,
{
    let p = skip_ws_at(s, n, pos);
    if p < n {
        let c = s.get_char(p);
        if c == '+' || c == '-' {
            let op = if c == '+' {
                UnaryOpKind::UPlus
            } else {
                UnaryOpKind::UMinus
            };
            return match unary_at(s, n, p + 1) {
                Some((p2, inner)) => Some(
                    (p2, Ast::Monomial { operator: op, expr: Box::new(inner) }),
                ),
                None => None,
            };
        }
    }
    primary_at(s, n, pos)
}

/// Exponent: a unary operand, optionally raised to a further exponent
/// expression; `^` is right associative.
pub(crate) fn exp_at(s: &str, n: usize, pos: usize) -> (r: Option<(usize, Ast)>)
    requires
        n == s@.len(),
        pos <= n,
    ensures
        expr_res_view(r) == sp_exp(s@, pos as int),
        r matches Some((p, _)) ==> pos < p <= n,
    decreases n - pos, 2int,
{
    match unary_at(s, n, pos) {
        Some((p1, left)) => {
            let p = skip_ws_at(s, n, p1);
            if p < n && s.get_char(p) == '^' {
                match exp_at(s, n, p + 1) {
                    Some((p2, right)) => Some(
                        (
                            p2,
                            Ast::Expr {
                                left: Box::new(left),
                                operator: ExprOpKind::EExp,
                                right: Box::new(right),
                            },
                        ),
                    ),
                    None => Some((p1, left)),
                }
            } else {
                Some((p1, left))
            }
        },
        None => None,
    }
}

/// Multiplicative: an exponent operand and its `*` and `/` steps.
pub(crate) fn mul_at(s: &str, n: usize, pos: usize) -> (r: Option<(usize, Ast)>)
    requires
        n == s@.len(),
        pos <= n,
    ensures
        expr_res_view(r) == sp_mul(s@, pos as int),
        r matches Some((p, _)) ==> pos < p <= n,
    decreases n - pos, 3int,
{
    match exp_at(s, n, pos) {
        Some((p1, left)) => mul_more_at(s, n, p1, left),
        None => None,
    }
}

/// The remaining `*` and `/` steps of a multiplicative chain, folding to
/// the left onto `left`.
pub(crate) fn mul_more_at(s: &str, n: usize, pos: usize, left: Ast) -> (r: Option<(usize, Ast)>)
    requires
        n == s@.len(),
        pos <= n,
    ensures
        expr_res_view(r) == sp_mul_more(s@, pos as int, ast_view(left)),
        r matches Some((p, _)) ==> pos <= p <= n,
    decreases n - pos, 4int,
{
    let p = skip_ws_at(s, n, pos);
    if p < n {
        let c = s.get_char(p);
        if c == '*' || c == '/' {
            let op = if c == '*' {
                ExprOpKind::EMul
            } else {
                ExprOpKind::EDiv
            };
            return match exp_at(s, n, p + 1) {
                Some((p2, right)) => {
                    let node = Ast::Expr {
                        left: Box::new(left),
                        operator: op,
                        right: Box::new(right),
                    };
                    mul_more_at(s, n, p2, node)
                },
                None => Some((pos, left)),
            };
        }
    }
    Some((pos, left))
}

/// Additive: a multiplicative operand and its `+` and `-` steps. This is
/// the plain arithmetic entry point of the grammar.
pub(crate) fn add_at(s: &str, n: usize, pos: usize) -> (r: Option<(usize, Ast)>)
    requires
        n == s@.len(),
        pos <= n,
    ensures
        expr_res_view(r) == sp_add(s@, pos as int),
        r matches Some((p, _)) ==> pos < p <= n,
    decreases n - pos, 5int,
{
    match mul_at(s, n, pos) {
        Some((p1, left)) => add_more_at(s, n, p1, left),
        None => None,
    }
}

/// The remaining `+` and `-` steps of an additive chain, folding to the
/// left onto `left`.
pub(crate) fn add_more_at(s: &str, n: usize, pos: usize, left: Ast) -> (r: Option<(usize, Ast)>)
    requires
        n == s@.len(),
        pos <= n,
    ensures
        expr_res_view(r) == sp_add_more(s@, pos as int, ast_view(left)),
        r matches Some((p, _)) ==> pos <= p <= n,
    decreases n - pos, 6int,
{
    let p = skip_ws_at(s, n, pos);
    if p < n {
        let c = s.get_char(p);
        if c == '+' || c == '-' {
            let op = if c == '+' {
                ExprOpKind::EAdd
            } else {
                ExprOpKind::ESub
            };
            return match mul_at(s, n, p + 1) {
                Some((p2, right)) => {
                    let node = Ast::Expr {
                        left: Box::new(left),
                        operator: op,
                        right: Box::new(right),
                    };
                    add_more_at(s, n, p2, node)
                },
                None => Some((pos, left)),
            };
        }
    }
    Some((pos, left))
}

/// Parses one additive expression off the front of the input: the
/// remainder and the tree, or nothing.
pub fn parse_add_sub<'a>(input: &'a str) -> (r: Option<(&'a str, Ast)>)
    ensures
        ({
            let sr = sp_add(input@, 0);
            match r {
                Some((rest, a)) => sr matches Some((p, av)) && av == ast_view(a) && rest@
                    == input@.subrange(p, input@.len() as int),
                None => sr is None,
            }
        }),
{
    let n = input.unicode_len();
    match add_at(input, n, 0) {
        Some((p, a)) => Some((input.substring_char(p, n), a)),
        None => None,
    }
}

/// The binary arithmetic operator a single character spells, if any.
pub fn parse_expr_operator(expr_op_char: char) -> (r: Option<ExprOpKind>)
    ensures
        r == (if expr_op_char == '+' {
            Some(ExprOpKind::EAdd)
        } else if expr_op_char == '-' {
            Some(ExprOpKind::ESub)
        } else if expr_op_char == '*' {
            Some(ExprOpKind::EMul)
        } else if expr_op_char == '/' {
            Some(ExprOpKind::EDiv)
        } else if expr_op_char == '^' {
            Some(ExprOpKind::EExp)
        } else {
            None::<ExprOpKind>
        }),
{
    if expr_op_char == '+' {
        Some(ExprOpKind::EAdd)
    } else if expr_op_char == '-' {
        Some(ExprOpKind::ESub)
    } else if expr_op_char == '*' {
        Some(ExprOpKind::EMul)
    } else if expr_op_char == '/' {
        Some(ExprOpKind::EDiv)
    } else if expr_op_char == '^' {
        Some(ExprOpKind::EExp)
    } else {
        None
    }
}

/// The unary prefix operator a single character spells, if any.
pub fn parse_unary_operator(unary_op_char: char) -> (r: Option<UnaryOpKind>)
    ensures
        r == (if unary_op_char == '+' {
            Some(UnaryOpKind::UPlus)
        } else if unary_op_char == '-' {
            Some(UnaryOpKind::UMinus)
        } else {
            None::<UnaryOpKind>
        }),
{
    if unary_op_char == '+' {
        Some(UnaryOpKind::UPlus)
    } else if unary_op_char == '-' {
        Some(UnaryOpKind::UMinus)
    } else {
        None
    }
}

} // verus!
