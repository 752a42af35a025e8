//! Statements. The one statement-level form is the variable declaration.

use vstd::prelude::*;

use crate::ast::{Ast, ast_view};
use crate::parser::ParseFail;
use crate::parser::grammar::{StRes, sp_decl};
use crate::parser::variable::parse_variable_declaration;

verus! {

/// Parses one statement off the front of the input: a variable
/// declaration.
pub fn parse_statement<'a>(input: &'a str) -> (r: Result<(&'a str, Ast), ParseFail>)
    ensures
        ({
            let sr = sp_decl(input@, 0);
            match r {
                Ok((rest, a)) => sr matches StRes::Parsed(p, av) && av == ast_view(a) && rest@
                    == input@.subrange(p, input@.len() as int),
                Err(ParseFail::Mismatch) => sr is Fail,
                Err(ParseFail::InvalidLiteralOrKeyword(w)) => sr matches StRes::Fatal(wv) && w@
                    == wv,
            }
        }),
{
    parse_variable_declaration(input)
}

} // verus!
