//! Why an evaluation failed.
use vstd::prelude::*;
use crate::ast::Ident;

verus! {

/// The first failure met by an evaluation; it aborts the whole evaluation.
#[derive(Debug, Clone, PartialEq)]
pub enum Error {
    /// A call of a name that is not bound.
    FnNotFound(Ident),
    /// A call of a name bound to a policy, not to a function.
    NotFn(Ident),
    /// A user function called with the wrong number of arguments:
    /// its name, the number of parameters, the number of arguments.
    ArgumentMismatch(Ident, usize, usize),
    /// A function value stood where a policy was needed.
    NotMiniscriptRepresentable,
    /// Calls of user functions nested deeper than the evaluator's budget.
    DepthExceeded,
}

/// Model of an error.
pub enum ErrorV {
    FnNotFound(Seq<char>),
    NotFn(Seq<char>),
    ArgumentMismatch(Seq<char>, nat, nat),
    NotMiniscriptRepresentable,
    DepthExceeded,
}

impl View for Error {
    type V = ErrorV;

    open spec fn view(&self) -> ErrorV {
        match self {
            Error::FnNotFound(n) => ErrorV::FnNotFound(n@),
            Error::NotFn(n) => ErrorV::NotFn(n@),
            Error::ArgumentMismatch(n, e, g) => ErrorV::ArgumentMismatch(n@, *e as nat, *g as nat),
            Error::NotMiniscriptRepresentable => ErrorV::NotMiniscriptRepresentable,
            Error::DepthExceeded => ErrorV::DepthExceeded,
        }
    }
}

} // verus!
