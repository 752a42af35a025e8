use whiteye::ast::{Ast, ComparisonOpKind, ExprOpKind, LogicalOpKind, UnaryOpKind};
use whiteye::machine::{Machine, MachineError};
use whiteye::parser::parse;
use whiteye::value::Value;

fn num(v: i64) -> Ast {
    Ast::Literal(Value::Integer(v))
}

fn boolean(v: bool) -> Ast {
    Ast::Literal(Value::Bool(v))
}

fn arith(l: Ast, op: ExprOpKind, r: Ast) -> Ast {
    Ast::Expr {
        left: Box::new(l),
        operator: op,
        right: Box::new(r),
    }
}

#[test]
fn integer_division_truncates_toward_zero() {
    let m = Machine::new();
    assert_eq!(
        m.eval_expression(arith(num(7), ExprOpKind::EDiv, num(2))),
        Ok(Value::Integer(3))
    );
    assert_eq!(
        m.eval_expression(arith(num(-7), ExprOpKind::EDiv, num(2))),
        Ok(Value::Integer(-3))
    );
    assert_eq!(
        m.eval_expression(arith(num(7), ExprOpKind::EDiv, num(-2))),
        Ok(Value::Integer(-3))
    );
    assert_eq!(
        m.eval_expression(arith(num(-7), ExprOpKind::EDiv, num(-2))),
        Ok(Value::Integer(3))
    );
}

#[test]
fn division_by_zero_faults() {
    let m = Machine::new();
    assert_eq!(
        m.eval_expression(arith(num(1), ExprOpKind::EDiv, num(0))),
        Err(MachineError::DivisionByZero)
    );
}

#[test]
fn smallest_quotient_overflows() {
    let m = Machine::new();
    assert_eq!(
        m.eval_expression(arith(num(i64::MIN), ExprOpKind::EDiv, num(-1))),
        Err(MachineError::Overflow)
    );
}

#[test]
fn declaration_then_compound_addition_reads_back() {
    let mut m = Machine::new();
    for line in ["let x: int = 5", "x += 3"] {
        let nodes = parse(line).unwrap();
        for node in nodes {
            m.run(node).unwrap();
        }
    }
    assert_eq!(
        m.eval_expression(Ast::Variable("x".to_string())),
        Ok(Value::Integer(8))
    );
}

#[test]
fn compound_subtraction_puts_the_new_value_on_the_left() {
    let mut m = Machine::new();
    for node in parse("let x: int = 5").unwrap() {
        m.run(node).unwrap();
    }
    for node in parse("x -= 3").unwrap() {
        m.run(node).unwrap();
    }
    // The freshly evaluated right-hand side is the left operand: 3 - 5.
    assert_eq!(m.lookup(&"x".to_string()), Some(Value::Integer(-2)));
}

#[test]
fn assignment_to_undeclared_name_faults_without_mutation() {
    let mut m = Machine::new();
    let nodes = parse("y = 1").unwrap();
    assert_eq!(nodes.len(), 1);
    let mut result = Ok(());
    for node in parse("y = 1").unwrap() {
        result = m.run(node);
    }
    assert_eq!(
        result,
        Err(MachineError::UndefinedVariable("y".to_string()))
    );
    assert_eq!(m.lookup(&"y".to_string()), None);
}

#[test]
fn logical_operator_on_a_number_is_a_type_mismatch() {
    let m = Machine::new();
    assert_eq!(
        m.eval_expression(Ast::LogicalExpr {
            left: Box::new(num(1)),
            operator: LogicalOpKind::LAnd,
            right: Box::new(boolean(true)),
        }),
        Err(MachineError::TypeMismatch)
    );
}

#[test]
fn logical_operators_combine_booleans() {
    let m = Machine::new();
    assert_eq!(
        m.eval_expression(Ast::LogicalExpr {
            left: Box::new(boolean(true)),
            operator: LogicalOpKind::LAnd,
            right: Box::new(boolean(false)),
        }),
        Ok(Value::Bool(false))
    );
    assert_eq!(
        m.eval_expression(Ast::LogicalExpr {
            left: Box::new(boolean(false)),
            operator: LogicalOpKind::LOr,
            right: Box::new(boolean(true)),
        }),
        Ok(Value::Bool(true))
    );
}

#[test]
fn comparisons_produce_booleans() {
    let m = Machine::new();
    assert_eq!(
        m.eval_expression(Ast::ComparisonExpr {
            left: Box::new(num(1)),
            operator: ComparisonOpKind::CLess,
            right: Box::new(num(2)),
        }),
        Ok(Value::Bool(true))
    );
    assert_eq!(
        m.eval_expression(Ast::ComparisonExpr {
            left: Box::new(num(3)),
            operator: ComparisonOpKind::CLessEqual,
            right: Box::new(num(2)),
        }),
        Ok(Value::Bool(false))
    );
}

#[test]
fn comparing_booleans_is_a_type_mismatch() {
    let m = Machine::new();
    assert_eq!(
        m.eval_expression(Ast::ComparisonExpr {
            left: Box::new(boolean(true)),
            operator: ComparisonOpKind::CEqual,
            right: Box::new(boolean(true)),
        }),
        Err(MachineError::TypeMismatch)
    );
}

#[test]
fn arithmetic_on_a_boolean_is_a_type_mismatch() {
    let m = Machine::new();
    assert_eq!(
        m.eval_expression(arith(boolean(true), ExprOpKind::EAdd, num(1))),
        Err(MachineError::TypeMismatch)
    );
}

#[test]
fn unary_minus_negates_and_plus_keeps() {
    let m = Machine::new();
    let parsed = parse("--5").unwrap();
    assert_eq!(m.eval_expression(parsed.into_iter().next().unwrap()), Ok(Value::Integer(5)));
    let parsed = parse("-+5").unwrap();
    assert_eq!(m.eval_expression(parsed.into_iter().next().unwrap()), Ok(Value::Integer(-5)));
}

#[test]
fn negating_the_smallest_integer_overflows() {
    let m = Machine::new();
    assert_eq!(
        m.eval_expression(Ast::Monomial {
            operator: UnaryOpKind::UMinus,
            expr: Box::new(num(i64::MIN)),
        }),
        Err(MachineError::Overflow)
    );
}

#[test]
fn addition_overflow_faults() {
    let m = Machine::new();
    assert_eq!(
        m.eval_expression(arith(num(i64::MAX), ExprOpKind::EAdd, num(1))),
        Err(MachineError::Overflow)
    );
}

#[test]
fn precedence_evaluates_to_seven() {
    let m = Machine::new();
    let node = parse("1+2*3").unwrap().into_iter().next().unwrap();
    assert_eq!(m.eval_expression(node), Ok(Value::Integer(7)));
}

#[test]
fn left_associative_subtraction_evaluates() {
    let m = Machine::new();
    let node = parse("1-2-3").unwrap().into_iter().next().unwrap();
    assert_eq!(m.eval_expression(node), Ok(Value::Integer(-4)));
}

#[test]
fn right_associative_exponent_evaluates() {
    let m = Machine::new();
    let node = parse("2^3^2").unwrap().into_iter().next().unwrap();
    assert_eq!(m.eval_expression(node), Ok(Value::Integer(512)));
}

#[test]
fn parenthesized_expression_evaluates_to_nine() {
    let m = Machine::new();
    let node = parse("(1+2)*3").unwrap().into_iter().next().unwrap();
    assert_eq!(m.eval_expression(node), Ok(Value::Integer(9)));
}

#[test]
fn exponent_edge_cases() {
    let m = Machine::new();
    let pow = |a: i64, b: i64| arith(num(a), ExprOpKind::EExp, num(b));
    assert_eq!(m.eval_expression(pow(2, 10)), Ok(Value::Integer(1024)));
    assert_eq!(m.eval_expression(pow(-2, 3)), Ok(Value::Integer(-8)));
    assert_eq!(m.eval_expression(pow(5, 0)), Ok(Value::Integer(1)));
    assert_eq!(m.eval_expression(pow(0, 0)), Ok(Value::Integer(1)));
    assert_eq!(m.eval_expression(pow(0, 9)), Ok(Value::Integer(0)));
    assert_eq!(m.eval_expression(pow(-1, 5)), Ok(Value::Integer(-1)));
    assert_eq!(m.eval_expression(pow(-1, 6)), Ok(Value::Integer(1)));
    assert_eq!(m.eval_expression(pow(1, i64::MAX)), Ok(Value::Integer(1)));
    assert_eq!(m.eval_expression(pow(2, 63)), Err(MachineError::Overflow));
    assert_eq!(m.eval_expression(pow(2, 62)), Ok(Value::Integer(1 << 62)));
    assert_eq!(
        m.eval_expression(arith(
            num(2),
            ExprOpKind::EExp,
            Ast::Monomial {
                operator: UnaryOpKind::UMinus,
                expr: Box::new(num(1)),
            }
        )),
        Err(MachineError::NegativeExponent)
    );
}

#[test]
fn print_formats_into_the_output_buffer() {
    let mut m = Machine::new();
    for node in parse("print(1+2)").unwrap() {
        m.run(node).unwrap();
    }
    assert_eq!(m.output().as_slice(), &["3".to_string()]);
    let taken = m.take_output();
    assert_eq!(taken, vec!["3".to_string()]);
    assert!(m.output().is_empty());
}

#[test]
fn print_formats_negative_numbers_and_booleans() {
    let mut m = Machine::new();
    m.run(Ast::FunctionCall {
        name: "print".to_string(),
        argument: Box::new(num(-42)),
    })
    .unwrap();
    m.run(Ast::FunctionCall {
        name: "print".to_string(),
        argument: Box::new(boolean(true)),
    })
    .unwrap();
    m.run(Ast::FunctionCall {
        name: "print".to_string(),
        argument: Box::new(num(i64::MIN)),
    })
    .unwrap();
    assert_eq!(
        m.output().as_slice(),
        &[
            "-42".to_string(),
            "true".to_string(),
            "-9223372036854775808".to_string()
        ]
    );
}

#[test]
fn unknown_function_name_faults() {
    let mut m = Machine::new();
    assert_eq!(
        m.run(Ast::FunctionCall {
            name: "frobnicate".to_string(),
            argument: Box::new(num(1)),
        }),
        Err(MachineError::UndefinedFunction("frobnicate".to_string()))
    );
}

#[test]
fn redeclaration_overwrites_the_binding() {
    let mut m = Machine::new();
    for node in parse("let x: int = 1").unwrap() {
        m.run(node).unwrap();
    }
    for node in parse("let x: int = 2").unwrap() {
        m.run(node).unwrap();
    }
    assert_eq!(m.lookup(&"x".to_string()), Some(Value::Integer(2)));
}

#[test]
fn a_bare_expression_statement_changes_nothing() {
    let mut m = Machine::new();
    assert_eq!(m.run(arith(num(1), ExprOpKind::EAdd, num(1))), Ok(()));
    assert!(m.output().is_empty());
}

#[test]
fn evaluating_a_statement_node_is_a_type_mismatch() {
    let m = Machine::new();
    assert_eq!(
        m.eval_expression(Ast::VariableDeclaration {
            name: "x".to_string(),
            value_type: whiteye::ast::ValueType::Integer,
            expr: Box::new(num(1)),
        }),
        Err(MachineError::TypeMismatch)
    );
}

#[test]
fn reading_an_unbound_variable_faults() {
    let m = Machine::new();
    assert_eq!(
        m.eval_expression(Ast::Variable("ghostly".to_string())),
        Err(MachineError::UndefinedVariable("ghostly".to_string()))
    );
}

#[test]
fn a_failing_statement_stops_a_program_after_earlier_effects() {
    let mut m = Machine::new();
    let nodes = parse("let a: int = 1\nprint(a)\nb = 2\nprint(a)").unwrap();
    let mut failure = None;
    for node in nodes {
        if let Err(e) = m.run(node) {
            failure = Some(e);
            break;
        }
    }
    assert_eq!(
        failure,
        Some(MachineError::UndefinedVariable("b".to_string()))
    );
    assert_eq!(m.output().as_slice(), &["1".to_string()]);
    assert_eq!(m.lookup(&"a".to_string()), Some(Value::Integer(1)));
}

#[test]
fn values_convert_from_integers_and_booleans() {
    assert_eq!(Value::from(5i64), Value::Integer(5));
    assert_eq!(Value::from(true), Value::Bool(true));
}

#[test]
fn value_operators_work_standalone() {
    assert_eq!(
        Value::Integer(2).add(Value::Integer(3)),
        Ok(Value::Integer(5))
    );
    assert_eq!(
        Value::Integer(2).sub(Value::Integer(3)),
        Ok(Value::Integer(-1))
    );
    assert_eq!(
        Value::Integer(2).mul(Value::Integer(3)),
        Ok(Value::Integer(6))
    );
    assert_eq!(
        Value::Integer(2).div(Value::Bool(true)),
        Err(MachineError::TypeMismatch)
    );
    assert_eq!(
        Value::Integer(2).compare(ComparisonOpKind::CNot, Value::Integer(3)),
        Ok(Value::Bool(true))
    );
    assert_eq!(Value::Integer(17).to_text(), "17");
    assert_eq!(Value::Integer(0).to_text(), "0");
    assert_eq!(Value::Bool(false).to_text(), "false");
}

#[test]
fn machine_default_is_empty() {
    let m = Machine::default();
    assert!(m.output().is_empty());
    assert_eq!(m.lookup(&"x".to_string()), None);
}
