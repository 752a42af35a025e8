//! The syntax tree produced by the parser and consumed by the evaluator.
//!
//! `Ast` is the executable tree; its names are `String`s and its children are
//! boxed. `AstView` is its spec-level shadow, with names as `Seq<char>`, so
//! that contracts can speak about trees without fixing `String` values.

use vstd::prelude::*;

use crate::value::Value;

verus! {

/// The advisory type keyword of a variable declaration.
#[derive(Debug, PartialEq, Eq, Structural, Clone, Copy)]
pub enum ValueType {
    Integer,
    Float,
    Bool,
}

/// Binary arithmetic operators.
#[derive(Debug, PartialEq, Eq, Structural, Clone, Copy)]
pub enum ExprOpKind {
    EAdd,
    ESub,
    EMul,
    EDiv,
    EExp,
}

/// Unary prefix operators.
#[derive(Debug, PartialEq, Eq, Structural, Clone, Copy)]
pub enum UnaryOpKind {
    UPlus,
    UMinus,
}

/// Plain and compound assignment operators.
#[derive(Debug, PartialEq, Eq, Structural, Clone, Copy)]
pub enum AssignmentOpKind {
    AEqual,
    AAdd,
    ASub,
    AMul,
    ADiv,
}

/// Comparison operators.
#[derive(Debug, PartialEq, Eq, Structural, Clone, Copy)]
pub enum ComparisonOpKind {
    CEqual,
    CNot,
    CGreater,
    CLess,
    CGreaterEqual,
    CLessEqual,
}

/// Logical operators; they accept boolean operands only.
#[derive(Debug, PartialEq, Eq, Structural, Clone, Copy)]
pub enum LogicalOpKind {
    LAnd,
    LOr,
}

/// One node of the syntax tree. Every composite node owns its children
/// exclusively: the tree is strict, with no sharing and no cycles.
#[derive(Debug, PartialEq)]
pub enum Ast {
    Literal(Value),
    Variable(String),
    Expr { left: Box<Ast>, operator: ExprOpKind, right: Box<Ast> },
    Monomial { operator: UnaryOpKind, expr: Box<Ast> },
    ComparisonExpr { left: Box<Ast>, operator: ComparisonOpKind, right: Box<Ast> },
    LogicalExpr { left: Box<Ast>, operator: LogicalOpKind, right: Box<Ast> },
    VariableDeclaration { name: String, value_type: ValueType, expr: Box<Ast> },
    VariableAssignment { name: String, operator: AssignmentOpKind, expr: Box<Ast> },
    FunctionCall { name: String, argument: Box<Ast> },
}

/// The spec-level shadow of `Ast`: the same shape, with each name replaced by
/// its character sequence. The grammar and the evaluator are specified over
/// this type.
pub enum AstView {
    Literal(Value),
    Variable(Seq<char>),
    Expr { left: Box<AstView>, operator: ExprOpKind, right: Box<AstView> },
    Monomial { operator: UnaryOpKind, expr: Box<AstView> },
    ComparisonExpr { left: Box<AstView>, operator: ComparisonOpKind, right: Box<AstView> },
    LogicalExpr { left: Box<AstView>, operator: LogicalOpKind, right: Box<AstView> },
    VariableDeclaration { name: Seq<char>, value_type: ValueType, expr: Box<AstView> },
    VariableAssignment { name: Seq<char>, operator: AssignmentOpKind, expr: Box<AstView> },
    FunctionCall { name: Seq<char>, argument: Box<AstView> },
}

/// The spec-level shadow of a tree.
pub open spec fn ast_view(a: Ast) -> AstView
    decreases a,
{
    match a {
        Ast::Literal(v) => AstView::Literal(v),
        Ast::Variable(name) => AstView::Variable(name@),
        Ast::Expr { left, operator, right } => AstView::Expr {
            left: Box::new(ast_view(*left)),
            operator,
            right: Box::new(ast_view(*right)),
        },
        Ast::Monomial { operator, expr } => AstView::Monomial {
            operator,
            expr: Box::new(ast_view(*expr)),
        },
        Ast::ComparisonExpr { left, operator, right } => AstView::ComparisonExpr {
            left: Box::new(ast_view(*left)),
            operator,
            right: Box::new(ast_view(*right)),
        },
        Ast::LogicalExpr { left, operator, right } => AstView::LogicalExpr {
            left: Box::new(ast_view(*left)),
            operator,
            right: Box::new(ast_view(*right)),
        },
        Ast::VariableDeclaration { name, value_type, expr } => AstView::VariableDeclaration {
            name: name@,
            value_type,
            expr: Box::new(ast_view(*expr)),
        },
        Ast::VariableAssignment { name, operator, expr } => AstView::VariableAssignment {
            name: name@,
            operator,
            expr: Box::new(ast_view(*expr)),
        },
        Ast::FunctionCall { name, argument } => AstView::FunctionCall {
            name: name@,
            argument: Box::new(ast_view(*argument)),
        },
    }
}

/// The spec-level shadow of a parsed program.
pub open spec fn asts_view(s: Seq<Ast>) -> Seq<AstView> {
    s.map_values(|a: Ast| ast_view(a))
}

} // verus!
