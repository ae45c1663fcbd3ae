//! Evaluation core of a small policy language: expressions reduce to runtime
//! values, statements bind names in a chain of scopes.
pub mod ast;
pub mod error;
pub mod execution;
pub mod laws;
pub mod policy;
pub mod scope;
