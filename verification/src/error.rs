//! The typed errors every construction or rewriting call can fail with.

use vstd::prelude::*;

use crate::sym::{SymV, Symbol};
use crate::ty::{Type, TypeV};

verus! {

/// An error raised while building, folding or uniquifying a staged
/// program. Every error is reported synchronously by the failing call;
/// nothing is retried.
#[derive(Debug, PartialEq, Eq)]
pub enum Error {
    /// An operand or child type does not satisfy an operator's or
    /// constructor's domain; carries the two concrete types involved
    /// (for a unary mismatch, the found and the expected type).
    TypeError { left: Type, right: Type },
    /// An ordering comparison (or max/min) was attempted on operands
    /// whose order is undefined, such as a floating-point NaN.
    ComparisonError { left: Type, right: Type },
    /// A symbol was referenced (or popped) with no active binder in
    /// scope.
    UndefinedSymbol { sym: Symbol },
    /// A builder-algebra operator (`eval` or `merge`) was applied to a
    /// non-builder type.
    InvalidOperation { ty: Type },
}

/// The mathematical view of an `Error`.
#[verifier::ext_equal]
pub enum ErrorV {
    TypeError { left: TypeV, right: TypeV },
    ComparisonError { left: TypeV, right: TypeV },
    UndefinedSymbol { sym: SymV },
    InvalidOperation { ty: TypeV },
}

impl View for Error {
    type V = ErrorV;

    #[verifier::inline]
    open spec fn view(&self) -> ErrorV {
        match *self {
            Error::TypeError { left, right } => ErrorV::TypeError { left: left@, right: right@ },
            Error::ComparisonError { left, right } => ErrorV::ComparisonError {
                left: left@,
                right: right@,
            },
            Error::UndefinedSymbol { sym } => ErrorV::UndefinedSymbol { sym: sym@ },
            Error::InvalidOperation { ty } => ErrorV::InvalidOperation { ty: ty@ },
        }
    }
}

impl Clone for Error {
    /// Deep copy; the copy describes the same error.
    fn clone(&self) -> (res: Self)
        ensures
            res@ == self@,
    {
        match self {
            Error::TypeError { left, right } => Error::TypeError {
                left: left.clone(),
                right: right.clone(),
            },
            Error::ComparisonError { left, right } => Error::ComparisonError {
                left: left.clone(),
                right: right.clone(),
            },
            Error::UndefinedSymbol { sym } => Error::UndefinedSymbol { sym: sym.clone() },
            Error::InvalidOperation { ty } => Error::InvalidOperation { ty: ty.clone() },
        }
    }
}

} // verus!
