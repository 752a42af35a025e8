//! The boundary to alternate execution backends.
//!
//! A backend consumes the same syntax trees the parser produces and runs
//! them by other means, for instance by lowering them to native code.
//! Nothing in this crate depends on a backend's internals; the traits only
//! fix the structural contract.

pub mod backend_type;

pub use backend_type::BackendType;

use vstd::prelude::*;

use crate::ast::Ast;

verus! {

/// A backend that compiles a program ahead of execution.
pub trait CompileBackend {
    fn compile(&mut self, ast: &[Ast]);
}

/// A backend that compiles and immediately runs a program.
pub trait JITBackend {
    fn jit(&mut self, ast: &[Ast]);
}

} // verus!
