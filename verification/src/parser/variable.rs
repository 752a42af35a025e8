//! Variable declarations, assignments, names, type keywords and
//! assignment operators.

use vstd::prelude::*;
use vstd::string::StrSliceExecFns;

use crate::ast::{AssignmentOpKind, Ast, ValueType};
use crate::parser::ParseFail;
use crate::parser::expression::add_at;
use crate::parser::grammar::{
    alnum_cls, assign_cls, assign_op_of, scan_end, skip_ws, sp_assign, sp_decl, sp_name,
    type_of_word,
};
use crate::parser::stmt_res_view;
use crate::parser::util::{scan_alnum_at, scan_assign_at, scan_digits_at, scan_ident_at, skip_ws_at};

verus! {

/// The end of the variable name starting at `pos`, if a name starts there:
/// a nonempty identifier run that is not digits alone.
pub(crate) fn name_at(s: &str, n: usize, pos: usize) -> (r: Option<usize>)
    requires
        n == s@.len(),
        pos <= n,
    ensures
        match r {
            Some(e) => pos < e <= n && sp_name(s@, pos as int) == Some(
                (e as int, s@.subrange(pos as int, e as int)),
            ),
            None => sp_name(s@, pos as int) is None,
        },
{
    let e = scan_ident_at(s, n, pos);
    if pos < e {
        let d = scan_digits_at(s, n, pos);
        if d < e {
            Some(e)
        } else {
            None
        }
    } else {
        None
    }
}

/// The assignment operator spelled by the run between `p` and `e`, if any.
fn assign_op_token(s: &str, n: usize, p: usize, e: usize) -> (r: Option<AssignmentOpKind>)
    requires
        n == s@.len(),
        p <= e <= n,
    ensures
        r == assign_op_of(s@.subrange(p as int, e as int)),
{
    proof {
        assert(s@.subrange(p as int, e as int).len() == e - p);
    }
    if e - p == 1 {
        if s.get_char(p) == '=' {
            Some(AssignmentOpKind::AEqual)
        } else {
            None
        }
    } else if e - p == 2 {
        let c0 = s.get_char(p);
        let c1 = s.get_char(p + 1);
        if c1 == '=' {
            if c0 == '+' {
                Some(AssignmentOpKind::AAdd)
            } else if c0 == '-' {
                Some(AssignmentOpKind::ASub)
            } else if c0 == '*' {
                Some(AssignmentOpKind::AMul)
            } else if c0 == '/' {
                Some(AssignmentOpKind::ADiv)
            } else {
                None
            }
        } else {
            None
        }
    } else {
        None
    }
}

/// The type keyword after `pos`: leading whitespace, then a letter-or-digit
/// run spelling `int` or `float`. Any other run, the empty one included,
/// is fatal.
pub(crate) fn type_at(s: &str, n: usize, pos: usize) -> (r: Result<(usize, ValueType), ParseFail>)
    requires
        n == s@.len(),
        pos <= n,
    ensures
        ({
            let t0 = skip_ws(s@, pos as int);
            let t1 = scan_end(s@, t0, alnum_cls());
            let word = s@.subrange(t0, t1);
            match r {
                Ok((p, vt)) => p == t1 && pos <= p <= n && type_of_word(word) == Some(vt),
                Err(ParseFail::InvalidLiteralOrKeyword(w)) => type_of_word(word) is None && w@
                    == word,
                Err(ParseFail::Mismatch) => false,
            }
        }),
{
    let t0 = skip_ws_at(s, n, pos);
    let t1 = scan_alnum_at(s, n, t0);
    proof {
        assert(s@.subrange(t0 as int, t1 as int).len() == t1 - t0);
    }
    if t1 - t0 == 3 && s.get_char(t0) == 'i' && s.get_char(t0 + 1) == 'n' && s.get_char(t0 + 2)
        == 't' {
        Ok((t1, ValueType::Integer))
    } else if t1 - t0 == 5 && s.get_char(t0) == 'f' && s.get_char(t0 + 1) == 'l' && s.get_char(
        t0 + 2,
    ) == 'o' && s.get_char(t0 + 3) == 'a' && s.get_char(t0 + 4) == 't' {
        Ok((t1, ValueType::Float))
    } else {
        Err(ParseFail::InvalidLiteralOrKeyword(s.substring_char(t0, t1).to_owned()))
    }
}

/// Variable declaration: `let`, a name, `:`, a type keyword, `=`, and an
/// additive expression.
pub(crate) fn decl_at(s: &str, n: usize, pos: usize) -> (r: Result<(usize, Ast), ParseFail>)
    requires
        n == s@.len(),
        pos <= n,
    ensures
        stmt_res_view(r) == sp_decl(s@, pos as int),
        r matches Ok((p, _)) ==> pos < p <= n,
{
    if n - pos < 3 {
        return Err(ParseFail::Mismatch);
    }
    if !(s.get_char(pos) == 'l' && s.get_char(pos + 1) == 'e' && s.get_char(pos + 2) == 't') {
        return Err(ParseFail::Mismatch);
    }
    let p = skip_ws_at(s, n, pos + 3);
    match name_at(s, n, p) {
        None => Err(ParseFail::Mismatch),
        Some(e1) => {
            let q = skip_ws_at(s, n, e1);
            if q < n && s.get_char(q) == ':' {
                proof {
                    crate::parser::grammar::lemma_skip_ws(s@, q + 1);
                }
                match type_at(s, n, q + 1) {
                    Err(f) => Err(f),
                    Ok((t1, vt)) => {
                        let u = skip_ws_at(s, n, t1);
                        if u < n && s.get_char(u) == '=' {
                            match add_at(s, n, u + 1) {
                                Some((p2, expr)) => {
                                    let name = s.substring_char(p, e1).to_owned();
                                    Ok(
                                        (
                                            p2,
                                            Ast::VariableDeclaration {
                                                name,
                                                value_type: vt,
                                                expr: Box::new(expr),
                                            },
                                        ),
                                    )
                                },
                                None => Err(ParseFail::Mismatch),
                            }
                        } else {
                            Err(ParseFail::Mismatch)
                        }
                    },
                }
            } else {
                Err(ParseFail::Mismatch)
            }
        },
    }
}

/// Variable assignment: a name, an assignment operator, and an additive
/// expression.
pub(crate) fn assign_at(s: &str, n: usize, pos: usize) -> (r: Result<(usize, Ast), ParseFail>)
    requires
        n == s@.len(),
        pos <= n,
    ensures
        stmt_res_view(r) == sp_assign(s@, pos as int),
        r matches Ok((p, _)) ==> pos < p <= n,
{
    match name_at(s, n, pos) {
        None => Err(ParseFail::Mismatch),
        Some(e1) => {
            let p = skip_ws_at(s, n, e1);
            let e = scan_assign_at(s, n, p);
            if p < e {
                match assign_op_token(s, n, p, e) {
                    Some(op) => match add_at(s, n, e) {
                        Some((p2, expr)) => {
                            let name = s.substring_char(pos, e1).to_owned();
                            Ok(
                                (
                                    p2,
                                    Ast::VariableAssignment {
                                        name,
                                        operator: op,
                                        expr: Box::new(expr),
                                    },
                                ),
                            )
                        },
                        None => Err(ParseFail::Mismatch),
                    },
                    None => Err(
                        ParseFail::InvalidLiteralOrKeyword(s.substring_char(p, e).to_owned()),
                    ),
                }
            } else {
                Err(ParseFail::Mismatch)
            }
        },
    }
}

/// Parses a variable declaration off the front of the input.
pub fn parse_variable_declaration<'a>(input: &'a str) -> (r: Result<(&'a str, Ast), ParseFail>)
    ensures
        ({
            let sr = sp_decl(input@, 0);
            match r {
                Ok((rest, a)) => sr matches crate::parser::grammar::StRes::Parsed(p, av) && av
                    == crate::ast::ast_view(a) && rest@ == input@.subrange(
                    p,
                    input@.len() as int,
                ),
                Err(ParseFail::Mismatch) => sr is Fail,
                Err(ParseFail::InvalidLiteralOrKeyword(w)) => sr
                    matches crate::parser::grammar::StRes::Fatal(wv) && w@ == wv,
            }
        }),
{
    let n = input.unicode_len();
    match decl_at(input, n, 0) {
        Ok((p, a)) => Ok((input.substring_char(p, n), a)),
        Err(f) => Err(f),
    }
}

/// Parses a variable assignment off the front of the input.
pub fn parse_variable_assignment<'a>(input: &'a str) -> (r: Result<(&'a str, Ast), ParseFail>)
    ensures
        ({
            let sr = sp_assign(input@, 0);
            match r {
                Ok((rest, a)) => sr matches crate::parser::grammar::StRes::Parsed(p, av) && av
                    == crate::ast::ast_view(a) && rest@ == input@.subrange(
                    p,
                    input@.len() as int,
                ),
                Err(ParseFail::Mismatch) => sr is Fail,
                Err(ParseFail::InvalidLiteralOrKeyword(w)) => sr
                    matches crate::parser::grammar::StRes::Fatal(wv) && w@ == wv,
            }
        }),
{
    let n = input.unicode_len();
    match assign_at(input, n, 0) {
        Ok((p, a)) => Ok((input.substring_char(p, n), a)),
        Err(f) => Err(f),
    }
}

/// Parses a variable name off the front of the input: the remainder and
/// the name.
pub fn parse_variable_name<'a>(input: &'a str) -> (r: Option<(&'a str, &'a str)>)
    ensures
        ({
            match (r, sp_name(input@, 0)) {
                (Some((rest, name)), Some((p, nm))) => rest@ == input@.subrange(
                    p,
                    input@.len() as int,
                ) && name@ == nm,
                (None, None) => true,
                _ => false,
            }
        }),
{
    let n = input.unicode_len();
    match name_at(input, n, 0) {
        Some(e) => Some((input.substring_char(e, n), input.substring_char(0, e))),
        None => None,
    }
}

/// Parses a type keyword off the front of the input, skipping leading
/// whitespace; an unrecognized keyword is fatal.
pub fn parse_variable_type<'a>(input: &'a str) -> (r: Result<(&'a str, ValueType), ParseFail>)
    ensures
        ({
            let t0 = skip_ws(input@, 0);
            let t1 = scan_end(input@, t0, alnum_cls());
            let word = input@.subrange(t0, t1);
            match r {
                Ok((rest, vt)) => type_of_word(word) == Some(vt) && rest@ == input@.subrange(
                    t1,
                    input@.len() as int,
                ),
                Err(ParseFail::InvalidLiteralOrKeyword(w)) => type_of_word(word) is None && w@
                    == word,
                Err(ParseFail::Mismatch) => false,
            }
        }),
{
    let n = input.unicode_len();
    match type_at(input, n, 0) {
        Ok((t1, vt)) => Ok((input.substring_char(t1, n), vt)),
        Err(f) => Err(f),
    }
}

/// Parses an assignment operator off the front of the input; a run of
/// operator characters with an unrecognized spelling is fatal.
pub fn parse_assignment_operator<'a>(input: &'a str) -> (r: Result<
    (&'a str, AssignmentOpKind),
    ParseFail,
>)
    ensures
        ({
            let e = scan_end(input@, 0, assign_cls());
            let run = input@.subrange(0, e);
            match r {
                Ok((rest, op)) => 0 < e && assign_op_of(run) == Some(op) && rest@
                    == input@.subrange(e, input@.len() as int),
                Err(ParseFail::InvalidLiteralOrKeyword(w)) => 0 < e && assign_op_of(run) is None
                    && w@ == run,
                Err(ParseFail::Mismatch) => e == 0,
            }
        }),
{
    let n = input.unicode_len();
    let e = scan_assign_at(input, n, 0);
    if e == 0 {
        return Err(ParseFail::Mismatch);
    }
    match assign_op_token(input, n, 0, e) {
        Some(op) => Ok((input.substring_char(e, n), op)),
        None => Err(ParseFail::InvalidLiteralOrKeyword(input.substring_char(0, e).to_owned())),
    }
}

} // verus!
