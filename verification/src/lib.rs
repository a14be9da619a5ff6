//! Front end of a compiler for the Cool teaching language: the step that turns
//! a concrete syntax tree into a typed abstract syntax tree, together with the
//! symbol interner and the diagnostics that go with it.

pub mod ast;
pub mod language;
pub mod sexp;
pub mod token;
pub mod util;
