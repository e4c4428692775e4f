//! The lexical environment of a Jsonnet evaluator: scopes of local bindings, the
//! objects that `self`, `super` and `$` name, and the context that a function call
//! builds from its parameters; with the source spans of the lexer and the kinds of
//! values that the web bindings report.

pub mod ctx;
pub mod error;
pub mod function;
pub mod kind;
pub mod laws;
pub mod names;
pub mod scope;
pub mod span;
pub mod value;
