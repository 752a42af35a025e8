//! The parser: source text in, syntax trees out.
//!
//! `parse` turns a whole source text into the ordered sequence of its
//! top-level trees, or fails with a `ParseError`. The grammar itself is
//! written as spec functions in `grammar`, and every parsing function here
//! and in the submodules is proved equal to its production.

pub mod conditional_expression;
pub mod expression;
pub mod function_call;
pub mod grammar;
pub mod statement;
pub mod util;
pub mod variable;

use vstd::prelude::*;
use vstd::string::StrSliceExecFns;

use crate::ast::{Ast, AstView, asts_view, ast_view};
use crate::parser::expression::add_at;
use crate::parser::function_call::call_at;
use crate::parser::grammar::{ProgRes, StRes, sp_program, sp_root};
use crate::parser::util::skip_ws_at;
use crate::parser::variable::{assign_at, decl_at};

verus! {

/// Failure of one parsing function: an ordinary mismatch, from which the
/// caller backtracks and tries its next alternative, or a fatal fault for
/// a fixed-vocabulary token with an unrecognized spelling.
#[derive(Debug, PartialEq)]
pub enum ParseFail {
    Mismatch,
    InvalidLiteralOrKeyword(String),
}

/// Failure of a whole parse: no alternative matched the remaining input,
/// which the error carries, or a fixed-vocabulary token had an
/// unrecognized spelling, which the error carries too.
#[derive(Debug, PartialEq)]
pub enum ParseError {
    SyntaxError(String),
    InvalidLiteralOrKeyword(String),
}

/// The spec-level shadow of an expression-parse result.
pub open spec fn expr_res_view(r: Option<(usize, Ast)>) -> Option<(int, AstView)> {
    match r {
        Some((p, a)) => Some((p as int, ast_view(a))),
        None => None,
    }
}

/// The spec-level shadow of a statement-parse result.
pub open spec fn stmt_res_view(r: Result<(usize, Ast), ParseFail>) -> StRes {
    match r {
        Ok((p, a)) => StRes::Parsed(p as int, ast_view(a)),
        Err(ParseFail::Mismatch) => StRes::Fail,
        Err(ParseFail::InvalidLiteralOrKeyword(w)) => StRes::Fatal(w@),
    }
}

/// One top-level node: a declaration, an assignment, a function call or a
/// bare non-name expression, tried in that order after leading whitespace.
pub(crate) fn root_at(s: &str, n: usize, pos: usize) -> (r: Result<(usize, Ast), ParseFail>)
    requires
        n == s@.len(),
        pos <= n,
    ensures
        stmt_res_view(r) == sp_root(s@, pos as int),
        r matches Ok((p, _)) ==> pos < p <= n,
{
    let p = skip_ws_at(s, n, pos);
    match decl_at(s, n, p) {
        Ok((p2, node)) => Ok((p2, node)),
        Err(ParseFail::InvalidLiteralOrKeyword(w)) => Err(
            ParseFail::InvalidLiteralOrKeyword(w),
        ),
        Err(ParseFail::Mismatch) => match assign_at(s, n, p) {
            Ok((p2, node)) => Ok((p2, node)),
            Err(ParseFail::InvalidLiteralOrKeyword(w)) => Err(
                ParseFail::InvalidLiteralOrKeyword(w),
            ),
            Err(ParseFail::Mismatch) => match call_at(s, n, p) {
                Some((p2, node)) => Ok((p2, node)),
                None => match add_at(s, n, p) {
                    Some((p2, node)) => if matches!(node, Ast::Variable(_)) {
                        Err(ParseFail::Mismatch)
                    } else {
                        Ok((p2, node))
                    },
                    None => Err(ParseFail::Mismatch),
                },
            },
        },
    }
}

/// Parses one top-level node off the front of the input: the remainder and
/// the tree, or the kind of failure.
pub fn root_parser<'a>(input: &'a str) -> (r: Result<(&'a str, Ast), ParseFail>)
    ensures
        ({
            let sr = sp_root(input@, 0);
            match r {
                Ok((rest, a)) => sr matches StRes::Parsed(p, av) && av == ast_view(a) && rest@
                    == input@.subrange(p, input@.len() as int),
                Err(ParseFail::Mismatch) => sr is Fail,
                Err(ParseFail::InvalidLiteralOrKeyword(w)) => sr matches StRes::Fatal(wv) && w@
                    == wv,
            }
        }),
{
    let n = input.unicode_len();
    match root_at(input, n, 0) {
        Ok((p, node)) => Ok((input.substring_char(p, n), node)),
        Err(e) => Err(e),
    }
}

/// Parses a whole program: top-level nodes in sequence, each consuming a
/// further prefix of the input, until only whitespace remains.
///
/// On success the returned trees are exactly those the grammar denotes for
/// the text. When at some position no alternative matches, the result is
/// `SyntaxError` carrying everything from that position on; an unknown
/// type keyword or operator spelling is `InvalidLiteralOrKeyword` carrying
/// the offending word.
pub fn parse(input: &str) -> (r: Result<Vec<Ast>, ParseError>)
    ensures
        ({
            let pr = sp_program(input@, 0);
            match r {
                Ok(nodes) => pr matches ProgRes::Parsed(views) && asts_view(nodes@) == views,
                Err(ParseError::SyntaxError(rem)) => pr matches ProgRes::Syntax(p) && rem@
                    == input@.subrange(p, input@.len() as int),
                Err(ParseError::InvalidLiteralOrKeyword(w)) => pr matches ProgRes::Fatal(wv)
                    && w@ == wv,
            }
        }),
{
    let n = input.unicode_len();
    let mut result: Vec<Ast> = Vec::new();
    let mut pos: usize = 0;
    loop
        invariant
            n == input@.len(),
            pos <= n,
            prog_with_prefix(asts_view(result@), sp_program(input@, pos as int)) == sp_program(
                input@,
                0,
            ),
        decreases n - pos,
    {
        let rest_start = skip_ws_at(input, n, pos);
        if rest_start >= n {
            proof {
                assert(asts_view(result@) + Seq::<AstView>::empty() =~= asts_view(result@));
            }
            return Ok(result);
        }
        match root_at(input, n, pos) {
            Ok((p2, node)) => {
                proof {
                    let views = asts_view(result@);
                    let node_v = ast_view(node);
                    assert(asts_view(result@.push(node)) =~= views.push(node_v));
                    match sp_program(input@, p2 as int) {
                        ProgRes::Parsed(rest) => {
                            assert(views + (seq![node_v] + rest) =~= views.push(node_v) + rest);
                        },
                        _ => {},
                    }
                }
                result.push(node);
                pos = p2;
            },
            Err(ParseFail::Mismatch) => {
                return Err(ParseError::SyntaxError(input.substring_char(pos, n).to_owned()));
            },
            Err(ParseFail::InvalidLiteralOrKeyword(w)) => {
                return Err(ParseError::InvalidLiteralOrKeyword(w));
            },
        }
    }
}

/// A program result with a prefix of already-parsed trees in front.
pub open spec fn prog_with_prefix(prefix: Seq<AstView>, r: ProgRes) -> ProgRes {
    match r {
        ProgRes::Parsed(rest) => ProgRes::Parsed(prefix + rest),
        other => other,
    }
}

} // verus!
