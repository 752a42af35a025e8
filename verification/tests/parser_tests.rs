use whiteye::ast::{AssignmentOpKind, Ast, ComparisonOpKind, ExprOpKind, LogicalOpKind, UnaryOpKind, ValueType};
use whiteye::parser::conditional_expression::{parse_conditional_expr, parse_logical_oprator};
use whiteye::parser::expression::{parse_add_sub, parse_expr_operator, parse_unary_operator};
use whiteye::parser::function_call::parse_function_call;
use whiteye::parser::statement::parse_statement;
use whiteye::parser::util::sp;
use whiteye::parser::variable::{
    parse_assignment_operator, parse_variable_assignment, parse_variable_declaration,
    parse_variable_name, parse_variable_type,
};
use whiteye::parser::{parse, root_parser, ParseError, ParseFail};
use whiteye::value::Value;

fn ilit(v: i64) -> Ast {
    Ast::Literal(Value::Integer(v))
}

fn binary(l: Ast, op: ExprOpKind, r: Ast) -> Ast {
    Ast::Expr {
        left: Box::new(l),
        operator: op,
        right: Box::new(r),
    }
}

#[test]
fn subtraction_is_left_associative() {
    let nodes = parse("1-2-3").unwrap();
    assert_eq!(
        nodes,
        vec![binary(
            binary(ilit(1), ExprOpKind::ESub, ilit(2)),
            ExprOpKind::ESub,
            ilit(3)
        )]
    );
}

#[test]
fn exponent_is_right_associative() {
    let nodes = parse("2^3^2").unwrap();
    assert_eq!(
        nodes,
        vec![binary(
            ilit(2),
            ExprOpKind::EExp,
            binary(ilit(3), ExprOpKind::EExp, ilit(2))
        )]
    );
}

#[test]
fn multiplication_binds_tighter_than_addition() {
    let nodes = parse("1+2*3").unwrap();
    assert_eq!(
        nodes,
        vec![binary(
            ilit(1),
            ExprOpKind::EAdd,
            binary(ilit(2), ExprOpKind::EMul, ilit(3))
        )]
    );
}

#[test]
fn unary_signs_nest_right_to_left() {
    let nodes = parse("-+5").unwrap();
    assert_eq!(
        nodes,
        vec![Ast::Monomial {
            operator: UnaryOpKind::UMinus,
            expr: Box::new(Ast::Monomial {
                operator: UnaryOpKind::UPlus,
                expr: Box::new(ilit(5)),
            }),
        }]
    );
}

#[test]
fn parentheses_override_precedence() {
    let nodes = parse("(1+2)*3").unwrap();
    assert_eq!(
        nodes,
        vec![binary(
            binary(ilit(1), ExprOpKind::EAdd, ilit(2)),
            ExprOpKind::EMul,
            ilit(3)
        )]
    );
}

#[test]
fn unmatched_parenthesis_is_a_syntax_error() {
    match parse("(1+2") {
        Err(ParseError::SyntaxError(rest)) => assert_eq!(rest, "(1+2"),
        other => panic!("expected a syntax error, got {:?}", other),
    }
}

#[test]
fn leftover_input_is_reported_unconsumed() {
    match parse("1+2 garbage") {
        Err(ParseError::SyntaxError(rest)) => assert_eq!(rest, " garbage"),
        other => panic!("expected a syntax error, got {:?}", other),
    }
}

#[test]
fn bare_identifier_is_not_a_statement() {
    match parse("garbage") {
        Err(ParseError::SyntaxError(rest)) => assert_eq!(rest, "garbage"),
        other => panic!("expected a syntax error, got {:?}", other),
    }
}

#[test]
fn declaration_has_name_type_and_expression() {
    let nodes = parse("let x: int = 5").unwrap();
    assert_eq!(
        nodes,
        vec![Ast::VariableDeclaration {
            name: "x".to_string(),
            value_type: ValueType::Integer,
            expr: Box::new(ilit(5)),
        }]
    );
}

#[test]
fn declaration_accepts_the_float_keyword() {
    let nodes = parse("let y: float = 2").unwrap();
    assert_eq!(
        nodes,
        vec![Ast::VariableDeclaration {
            name: "y".to_string(),
            value_type: ValueType::Float,
            expr: Box::new(ilit(2)),
        }]
    );
}

#[test]
fn unknown_type_keyword_is_fatal() {
    match parse("let x: in = 5") {
        Err(ParseError::InvalidLiteralOrKeyword(word)) => assert_eq!(word, "in"),
        other => panic!("expected a fatal keyword error, got {:?}", other),
    }
}

#[test]
fn unknown_assignment_spelling_is_fatal() {
    match parse("x =+ 5") {
        Err(ParseError::InvalidLiteralOrKeyword(word)) => assert_eq!(word, "=+"),
        other => panic!("expected a fatal operator error, got {:?}", other),
    }
}

#[test]
fn compound_assignment_parses() {
    let nodes = parse("x += 3").unwrap();
    assert_eq!(
        nodes,
        vec![Ast::VariableAssignment {
            name: "x".to_string(),
            operator: AssignmentOpKind::AAdd,
            expr: Box::new(ilit(3)),
        }]
    );
}

#[test]
fn division_assignment_parses_as_division() {
    let nodes = parse("x /= 2").unwrap();
    assert_eq!(
        nodes,
        vec![Ast::VariableAssignment {
            name: "x".to_string(),
            operator: AssignmentOpKind::ADiv,
            expr: Box::new(ilit(2)),
        }]
    );
}

#[test]
fn function_call_takes_one_argument() {
    let nodes = parse("print(1+2)").unwrap();
    assert_eq!(
        nodes,
        vec![Ast::FunctionCall {
            name: "print".to_string(),
            argument: Box::new(binary(ilit(1), ExprOpKind::EAdd, ilit(2))),
        }]
    );
}

#[test]
fn statements_separate_on_newlines() {
    let nodes = parse("let x: int = 1\nx = 2\nprint(x)\n").unwrap();
    assert_eq!(nodes.len(), 3);
    assert!(matches!(nodes[0], Ast::VariableDeclaration { .. }));
    assert!(matches!(nodes[1], Ast::VariableAssignment { .. }));
    assert!(matches!(nodes[2], Ast::FunctionCall { .. }));
}

#[test]
fn whitespace_between_tokens_is_insignificant() {
    assert_eq!(parse(" 1 + 2 * 3 ").unwrap(), parse("1+2*3").unwrap());
}

#[test]
fn too_large_literal_is_a_syntax_error() {
    assert!(matches!(
        parse("9223372036854775808"),
        Err(ParseError::SyntaxError(_))
    ));
}

#[test]
fn largest_literal_parses() {
    let nodes = parse("9223372036854775807+0").unwrap();
    assert_eq!(
        nodes,
        vec![binary(ilit(i64::MAX), ExprOpKind::EAdd, ilit(0))]
    );
}

#[test]
fn empty_input_is_an_empty_program() {
    assert_eq!(parse("").unwrap(), vec![]);
    assert_eq!(parse("  \n\t ").unwrap(), vec![]);
}

#[test]
fn root_parser_returns_the_remainder() {
    let (rest, node) = root_parser(" 1+2 more").unwrap();
    assert_eq!(rest, " more");
    assert_eq!(node, binary(ilit(1), ExprOpKind::EAdd, ilit(2)));
}

#[test]
fn parse_add_sub_stops_before_foreign_input() {
    let (rest, node) = parse_add_sub("4*5)").unwrap();
    assert_eq!(rest, ")");
    assert_eq!(node, binary(ilit(4), ExprOpKind::EMul, ilit(5)));
}

#[test]
fn conditional_expression_requires_a_comparison() {
    let (rest, node) = parse_conditional_expr("1<2 && 3>2").unwrap();
    assert_eq!(rest, "");
    assert_eq!(
        node,
        Ast::LogicalExpr {
            left: Box::new(Ast::ComparisonExpr {
                left: Box::new(ilit(1)),
                operator: ComparisonOpKind::CLess,
                right: Box::new(ilit(2)),
            }),
            operator: LogicalOpKind::LAnd,
            right: Box::new(Ast::ComparisonExpr {
                left: Box::new(ilit(3)),
                operator: ComparisonOpKind::CGreater,
                right: Box::new(ilit(2)),
            }),
        }
    );
    assert!(matches!(
        parse_conditional_expr("1+2"),
        Err(ParseFail::Mismatch)
    ));
}

#[test]
fn statement_parses_a_declaration() {
    let (rest, node) = parse_statement("let a: int = 1 rest").unwrap();
    assert_eq!(rest, " rest");
    assert!(matches!(node, Ast::VariableDeclaration { .. }));
}

#[test]
fn declaration_wrapper_matches_statement() {
    assert_eq!(
        parse_variable_declaration("let a: int = 1"),
        parse_statement("let a: int = 1")
    );
}

#[test]
fn assignment_wrapper_returns_remainder() {
    let (rest, node) = parse_variable_assignment("b = 7 tail").unwrap();
    assert_eq!(rest, " tail");
    assert_eq!(
        node,
        Ast::VariableAssignment {
            name: "b".to_string(),
            operator: AssignmentOpKind::AEqual,
            expr: Box::new(ilit(7)),
        }
    );
}

#[test]
fn variable_names_mix_letters_digits_underscores() {
    let (rest, name) = parse_variable_name("foo_123 bar").unwrap();
    assert_eq!(name, "foo_123");
    assert_eq!(rest, " bar");
    assert!(parse_variable_name("123").is_none());
    assert!(parse_variable_name("(x)").is_none());
}

#[test]
fn type_keyword_parses_after_whitespace() {
    let (rest, vt) = parse_variable_type("  int = 5").unwrap();
    assert_eq!(vt, ValueType::Integer);
    assert_eq!(rest, " = 5");
    assert!(matches!(
        parse_variable_type(" bool = 5"),
        Err(ParseFail::InvalidLiteralOrKeyword(w)) if w == "bool"
    ));
}

#[test]
fn assignment_operators_parse_by_spelling() {
    let (rest, op) = parse_assignment_operator("-= 2").unwrap();
    assert_eq!(op, AssignmentOpKind::ASub);
    assert_eq!(rest, " 2");
    assert!(matches!(
        parse_assignment_operator("== 2"),
        Err(ParseFail::InvalidLiteralOrKeyword(w)) if w == "=="
    ));
    assert!(matches!(
        parse_assignment_operator("x"),
        Err(ParseFail::Mismatch)
    ));
}

#[test]
fn operator_characters_map_to_kinds() {
    assert_eq!(parse_expr_operator('+'), Some(ExprOpKind::EAdd));
    assert_eq!(parse_expr_operator('^'), Some(ExprOpKind::EExp));
    assert_eq!(parse_expr_operator('%'), None);
    assert_eq!(parse_unary_operator('-'), Some(UnaryOpKind::UMinus));
    assert_eq!(parse_unary_operator('*'), None);
    assert_eq!(parse_logical_oprator("&&"), Some(LogicalOpKind::LAnd));
    assert_eq!(parse_logical_oprator("||"), Some(LogicalOpKind::LOr));
    assert_eq!(parse_logical_oprator("&|"), None);
}

#[test]
fn sp_consumes_leading_whitespace_only() {
    let (rest, taken) = sp(" \t x").unwrap();
    assert_eq!(taken, " \t ");
    assert_eq!(rest, "x");
    assert!(sp("x ").is_none());
}

#[test]
fn identifier_then_bare_plus_is_a_fatal_spelling() {
    // After a bare identifier, a run of operator characters must spell an
    // assignment operator; a lone `+` is no recognized spelling.
    match parse("x + 1") {
        Err(ParseError::InvalidLiteralOrKeyword(word)) => assert_eq!(word, "+"),
        other => panic!("expected a fatal operator error, got {:?}", other),
    }
}

#[test]
fn declaration_needs_no_spaces() {
    let nodes = parse("let x:int=5").unwrap();
    assert_eq!(
        nodes,
        vec![Ast::VariableDeclaration {
            name: "x".to_string(),
            value_type: ValueType::Integer,
            expr: Box::new(ilit(5)),
        }]
    );
}

#[test]
fn a_name_may_begin_with_a_digit_but_not_be_all_digits() {
    let (_, name) = parse_variable_name("5x = 3").unwrap();
    assert_eq!(name, "5x");
    match parse("123 = 5") {
        Err(ParseError::SyntaxError(rest)) => assert_eq!(rest, " = 5"),
        other => panic!("expected a syntax error, got {:?}", other),
    }
}

#[test]
fn function_call_needs_its_parenthesis_immediately() {
    assert!(parse_function_call("f (1)").is_none());
    let (rest, node) = parse_function_call("f(1)").unwrap();
    assert_eq!(rest, "");
    assert_eq!(
        node,
        Ast::FunctionCall {
            name: "f".to_string(),
            argument: Box::new(ilit(1)),
        }
    );
}
