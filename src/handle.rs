use vstd::prelude::*;

use crate::array::DataType;
use crate::error::{fails_with, Error, ErrorModel};

verus! {

/// An untyped reference to a node's output: its position in the evaluation
/// order and the type the plan declares for it.
#[derive(Clone, Copy, Debug, PartialEq, Eq, Structural)]
pub struct ValueRef {
    pub position: usize,
    pub data_type: DataType,
}

/// A reference to a node's output that is known to be a string column.
/// It can only be made by [`ValueRef::string`], which checks the type.
#[derive(Clone, Copy, Debug, PartialEq, Eq, Structural)]
pub struct StringValue {
    position: usize,
}

impl StringValue {
    pub closed spec fn spec_position(self) -> nat {
        self.position as nat
    }

    /// The handle for `position`; only [`ValueRef::string`] makes one in
    /// executable code.
    pub closed spec fn at(position: nat) -> StringValue {
        StringValue { position: position as usize }
    }

    pub fn position(&self) -> (r: usize)
        ensures
            r == self.spec_position(),
    {
        self.position
    }
}

/// What [`ValueRef::string`] returns for `v`.
pub open spec fn string_binding(v: ValueRef, r: Result<StringValue, Error>) -> bool {
    if v.data_type == DataType::Utf8 {
        r == Ok::<StringValue, Error>(StringValue::at(v.position as nat))
    } else {
        fails_with(
            r,
            ErrorModel::TypeMismatch {
                position: v.position as nat,
                expected: DataType::Utf8,
                actual: v.data_type,
            },
        )
    }
}

impl ValueRef {
    /// Binds this reference as a string handle, failing with a type mismatch
    /// that names both types and the position if it is not declared `Utf8`.
    pub fn string(self) -> (r: Result<StringValue, Error>)
        ensures
            string_binding(self, r),
    {
        match self.data_type {
            DataType::Utf8 => Ok(StringValue { position: self.position }),
            _ => Err(
                Error::TypeMismatch {
                    position: self.position,
                    expected: DataType::Utf8,
                    actual: self.data_type,
                },
            ),
        }
    }
}

} // verus!
