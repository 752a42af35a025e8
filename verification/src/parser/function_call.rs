//! Function calls: a name immediately followed by a parenthesized
//! argument expression.

use vstd::prelude::*;
use vstd::string::StrSliceExecFns;

use crate::ast::{Ast, ast_view};
use crate::parser::expr_res_view;
use crate::parser::expression::add_at;
use crate::parser::grammar::sp_call;
use crate::parser::util::skip_ws_at;
use crate::parser::variable::name_at;

verus! {

/// Function call: a name, `(` with no whitespace before it, one additive
/// expression, and `)`.
pub(crate) fn call_at(s: &str, n: usize, pos: usize) -> (r: Option<(usize, Ast)>)
    requires
        n == s@.len(),
        pos <= n,
    ensures
        expr_res_view(r) == sp_call(s@, pos as int),
        r matches Some((p, _)) ==> pos < p <= n,
{
    match name_at(s, n, pos) {
        None => None,
        Some(e1) => {
            if e1 < n && s.get_char(e1) == '(' {
                match add_at(s, n, e1 + 1) {
                    Some((p2, arg)) => {
                        let q = skip_ws_at(s, n, p2);
                        if q < n && s.get_char(q) == ')' {
                            let name = s.substring_char(pos, e1).to_owned();
                            Some((q + 1, Ast::FunctionCall { name, argument: Box::new(arg) }))
                        } else {
                            None
                        }
                    },
                    None => None,
                }
            } else {
                None
            }
        },
    }
}

/// Parses a function call off the front of the input.
pub fn parse_function_call<'a>(input: &'a str) -> (r: Option<(&'a str, Ast)>)
    ensures
        ({
            match (r, sp_call(input@, 0)) {
                (Some((rest, a)), Some((p, av))) => av == ast_view(a) && rest@
                    == input@.subrange(p, input@.len() as int),
                (None, None) => true,
                _ => false,
            }
        }),
{
    let n = input.unicode_len();
    match call_at(input, n, 0) {
        Some((p, a)) => Some((input.substring_char(p, n), a)),
        None => None,
    }
}

} // verus!
