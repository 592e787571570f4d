use vstd::prelude::*;

use crate::array::DataType;

verus! {

/// Why the per-batch computation of an operation failed.
#[derive(Clone, Copy, Debug, PartialEq, Eq, Structural)]
pub enum EvalFailure {
    /// The array found at an input position is not of the handle's type.
    InputType { expected: DataType, actual: DataType },
    /// The string bytes of the input do not fit 32-bit offsets.
    OffsetOverflow,
}

/// The operations this core knows how to build.
#[derive(Clone, Copy, Debug, PartialEq, Eq, Structural)]
pub enum Operation {
    /// String length in bytes.
    Len,
}

impl View for Operation {
    type V = Operation;

    open spec fn view(&self) -> Operation {
        *self
    }
}

#[derive(Clone, Debug, PartialEq, Eq)]
pub enum Error {
    /// No constructor is registered under this name.
    UnknownOperation(String),
    /// A constructor is already registered under this name.
    DuplicateOperation(String),
    /// The operation expects `expected` arguments, `given` were supplied.
    Arity { operation: String, expected: usize, given: usize },
    /// The argument at `position` has type `actual` where `expected` is required.
    TypeMismatch { position: usize, expected: DataType, actual: DataType },
    /// A position was read before it was stored, or stored out of order.
    OrderingViolation { position: usize },
    /// The per-batch computation of `operation` failed.
    ExprEvaluation { operation: Operation, cause: EvalFailure },
}

/// The model of an [`Error`], with names as character sequences.
pub enum ErrorModel {
    UnknownOperation(Seq<char>),
    DuplicateOperation(Seq<char>),
    Arity { operation: Seq<char>, expected: nat, given: nat },
    TypeMismatch { position: nat, expected: DataType, actual: DataType },
    OrderingViolation { position: nat },
    ExprEvaluation { operation: Operation, cause: EvalFailure },
}

impl View for Error {
    type V = ErrorModel;

    open spec fn view(&self) -> ErrorModel {
        match self {
            Error::UnknownOperation(n) => ErrorModel::UnknownOperation(n@),
            Error::DuplicateOperation(n) => ErrorModel::DuplicateOperation(n@),
            Error::Arity { operation, expected, given } => ErrorModel::Arity {
                operation: operation@,
                expected: *expected as nat,
                given: *given as nat,
            },
            Error::TypeMismatch { position, expected, actual } => ErrorModel::TypeMismatch {
                position: *position as nat,
                expected: *expected,
                actual: *actual,
            },
            Error::OrderingViolation { position } => ErrorModel::OrderingViolation {
                position: *position as nat,
            },
            Error::ExprEvaluation { operation, cause } => ErrorModel::ExprEvaluation {
                operation: *operation,
                cause: *cause,
            },
        }
    }
}

/// The model of a result: the model of its value or of its error.
pub open spec fn result_model<T: View>(r: Result<T, Error>) -> Result<T::V, ErrorModel> {
    match r {
        Ok(v) => Ok(v@),
        Err(e) => Err(e@),
    }
}

/// `r` is an error whose model is `e`.
pub open spec fn fails_with<T>(r: Result<T, Error>, e: ErrorModel) -> bool {
    r matches Err(x) && x@ == e
}

} // verus!
