//! A small imperative language's semantic core: a domain-parametric
//! evaluator for expressions and statements, instantiated with a concrete
//! execution domain and with an abstract sign-analysis domain.
//!
//! The executable engine is proved equivalent to a definitional big-step
//! semantics stated over a mathematical view of the machine state.
pub mod ast;
pub mod concrete;
pub mod interpret;
pub mod semantics;
pub mod signed;
