//! A small expression-oriented scripting language: a precedence-aware
//! recursive-descent parser turns source text into a syntax tree, and a
//! tree-walking evaluator executes that tree against a mutable variable
//! environment.
//!
//! Every parsing function is proved equal to a spec-level grammar, and the
//! evaluator is proved equal to a spec-level evaluation function over a
//! mathematical model of the machine state.

pub mod ast;
pub mod backend;
pub mod lexer;
pub mod machine;
pub mod parser;
pub mod token;
pub mod value;
