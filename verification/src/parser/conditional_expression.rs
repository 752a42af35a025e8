//! Conditional expressions: comparisons joined by logical operators.
//!
//! A comparison is two additive expressions around exactly one comparison
//! operator; chaining comparisons is not part of the grammar. Logical
//! steps fold to the left, each carrying one further comparison.

use vstd::prelude::*;
use vstd::string::StrSliceExecFns;

use crate::ast::{Ast, ComparisonOpKind, LogicalOpKind, ast_view};
use crate::parser::ParseFail;
use crate::parser::expression::add_at;
use crate::parser::grammar::{
    StRes, cmp_op_of, logical_op_of, sp_and_or, sp_and_or_more, sp_comparison,
};
use crate::parser::stmt_res_view;
use crate::parser::util::{scan_cmp_at, scan_logic_at, skip_ws_at};

verus! {

/// The comparison operator spelled by the run between `p` and `e`, if any.
fn cmp_op_token(s: &str, n: usize, p: usize, e: usize) -> (r: Option<ComparisonOpKind>)
    requires
        n == s@.len(),
        p <= e <= n,
    ensures
        r == cmp_op_of(s@.subrange(p as int, e as int)),
{
    proof {
        assert(s@.subrange(p as int, e as int).len() == e - p);
    }
    if e - p == 1 {
        let c0 = s.get_char(p);
        if c0 == '>' {
            Some(ComparisonOpKind::CGreater)
        } else if c0 == '<' {
            Some(ComparisonOpKind::CLess)
        } else {
            None
        }
    } else if e - p == 2 {
        let c0 = s.get_char(p);
        let c1 = s.get_char(p + 1);
        if c0 == '=' && c1 == '=' {
            Some(ComparisonOpKind::CEqual)
        } else if c0 == '!' && c1 == '=' {
            Some(ComparisonOpKind::CNot)
        } else if c0 == '>' && c1 == '=' {
            Some(ComparisonOpKind::CGreaterEqual)
        } else if c0 == '<' && c1 == '=' {
            Some(ComparisonOpKind::CLessEqual)
        } else {
            None
        }
    } else {
        None
    }
}

/// The logical operator spelled by the run between `p` and `e`, if any.
fn logical_op_token(s: &str, n: usize, p: usize, e: usize) -> (r: Option<LogicalOpKind>)
    requires
        n == s@.len(),
        p <= e <= n,
    ensures
        r == logical_op_of(s@.subrange(p as int, e as int)),
{
    proof {
        assert(s@.subrange(p as int, e as int).len() == e - p);
    }
    if e - p == 2 {
        let c0 = s.get_char(p);
        let c1 = s.get_char(p + 1);
        if c0 == '&' && c1 == '&' {
            Some(LogicalOpKind::LAnd)
        } else if c0 == '|' && c1 == '|' {
            Some(LogicalOpKind::LOr)
        } else {
            None
        }
    } else {
        None
    }
}

/// Comparison: an additive expression, one comparison operator, and
/// another additive expression. An unrecognized run of comparison
/// characters is fatal.
pub(crate) fn cmp_at(s: &str, n: usize, pos: usize) -> (r: Result<(usize, Ast), ParseFail>)
    requires
        n == s@.len(),
        pos <= n,
    ensures
        stmt_res_view(r) == sp_comparison(s@, pos as int),
        r matches Ok((p, _)) ==> pos < p <= n,
{
    match add_at(s, n, pos) {
        None => Err(ParseFail::Mismatch),
        Some((p1, left)) => {
            let p = skip_ws_at(s, n, p1);
            let e = scan_cmp_at(s, n, p);
            if p < e {
                match cmp_op_token(s, n, p, e) {
                    Some(op) => match add_at(s, n, e) {
                        Some((p2, right)) => Ok(
                            (
                                p2,
                                Ast::ComparisonExpr {
                                    left: Box::new(left),
                                    operator: op,
                                    right: Box::new(right),
                                },
                            ),
                        ),
                        None => Err(ParseFail::Mismatch),
                    },
                    None => Err(
                        ParseFail::InvalidLiteralOrKeyword(s.substring_char(p, e).to_owned()),
                    ),
                }
            } else {
                Err(ParseFail::Mismatch)
            }
        },
    }
}

/// The remaining logical steps of a conditional expression, folding to the
/// left onto `left`.
pub(crate) fn and_or_more_at(s: &str, n: usize, pos: usize, left: Ast) -> (r: Result<
    (usize, Ast),
    ParseFail,
>)
    requires
        n == s@.len(),
        pos <= n,
    ensures
        stmt_res_view(r) == sp_and_or_more(s@, pos as int, ast_view(left)),
        r matches Ok((p, _)) ==> pos <= p <= n,
    decreases n - pos,
{
    let p = skip_ws_at(s, n, pos);
    let e = scan_logic_at(s, n, p);
    if p < e {
        match logical_op_token(s, n, p, e) {
            Some(op) => match cmp_at(s, n, e) {
                Ok((p2, right)) => {
                    let node = Ast::LogicalExpr {
                        left: Box::new(left),
                        operator: op,
                        right: Box::new(right),
                    };
                    and_or_more_at(s, n, p2, node)
                },
                Err(ParseFail::Mismatch) => Ok((pos, left)),
                Err(ParseFail::InvalidLiteralOrKeyword(w)) => Err(
                    ParseFail::InvalidLiteralOrKeyword(w),
                ),
            },
            None => Err(ParseFail::InvalidLiteralOrKeyword(s.substring_char(p, e).to_owned())),
        }
    } else {
        Ok((pos, left))
    }
}

/// Conditional expression: one comparison and its logical steps.
pub(crate) fn and_or_at(s: &str, n: usize, pos: usize) -> (r: Result<(usize, Ast), ParseFail>)
    requires
        n == s@.len(),
        pos <= n,
    ensures
        stmt_res_view(r) == sp_and_or(s@, pos as int),
        r matches Ok((p, _)) ==> pos < p <= n,
{
    match cmp_at(s, n, pos) {
        Ok((p1, left)) => {
            let r = and_or_more_at(s, n, p1, left);
            match r {
                Ok((p2, node)) => Ok((p2, node)),
                Err(f) => Err(f),
            }
        },
        Err(f) => Err(f),
    }
}

/// Parses a conditional expression off the front of the input.
pub fn parse_conditional_expr<'a>(input: &'a str) -> (r: Result<(&'a str, Ast), ParseFail>)
    ensures
        ({
            let sr = sp_and_or(input@, 0);
            match r {
                Ok((rest, a)) => sr matches StRes::Parsed(p, av) && av == ast_view(a) && rest@
                    == input@.subrange(p, input@.len() as int),
                Err(ParseFail::Mismatch) => sr is Fail,
                Err(ParseFail::InvalidLiteralOrKeyword(w)) => sr matches StRes::Fatal(wv) && w@
                    == wv,
            }
        }),
{
    let n = input.unicode_len();
    match and_or_at(input, n, 0) {
        Ok((p, a)) => Ok((input.substring_char(p, n), a)),
        Err(f) => Err(f),
    }
}

/// The logical operator a whole input spells, if any: `&&` or `||`.
pub fn parse_logical_oprator(input: &str) -> (r: Option<LogicalOpKind>)
    ensures
        r == logical_op_of(input@),
{
    let n = input.unicode_len();
    logical_op_token(input, n, 0, n)
}

} // verus!
