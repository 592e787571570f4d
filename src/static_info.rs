use vstd::prelude::*;

use crate::array::DataType;
use crate::error::{fails_with, Error, ErrorModel};
use crate::handle::ValueRef;

verus! {

/// The plan-build-time view of one node: the operation's name, its argument
/// references in declared order, and its declared output type. Arguments are
/// consumed left to right by [`StaticInfo::unpack_argument`].
pub struct StaticInfo {
    name: String,
    args: Vec<ValueRef>,
    consumed: usize,
    result_type: DataType,
}

impl StaticInfo {
    #[verifier::type_invariant]
    spec fn inv(self) -> bool {
        &&& self.consumed <= self.args.len()
        &&& self.args.len() < usize::MAX
    }

    pub closed spec fn spec_name(&self) -> Seq<char> {
        self.name@
    }

    pub closed spec fn spec_args(&self) -> Seq<ValueRef> {
        self.args@
    }

    /// How many arguments have been unpacked.
    pub closed spec fn spec_consumed(&self) -> nat {
        self.consumed as nat
    }

    pub closed spec fn spec_result_type(&self) -> DataType {
        self.result_type
    }

    pub fn new(name: String, args: Vec<ValueRef>, result_type: DataType) -> (r: StaticInfo)
        requires
            args@.len() < usize::MAX,
        ensures
            r.spec_name() == name@,
            r.spec_args() == args@,
            r.spec_consumed() == 0,
            r.spec_result_type() == result_type,
    {
        StaticInfo { name, args, consumed: 0, result_type }
    }

    /// The node's operation name.
    pub fn name(&self) -> (r: &String)
        ensures
            r@ == self.spec_name(),
    {
        &self.name
    }

    /// The declared output type of the node.
    pub fn output_type(&self) -> (r: DataType)
        ensures
            r == self.spec_result_type(),
    {
        self.result_type
    }

    /// The number of declared arguments.
    pub fn arg_count(&self) -> (r: usize)
        ensures
            r == self.spec_args().len(),
    {
        self.args.len()
    }

    /// The number of arguments unpacked so far.
    pub fn consumed(&self) -> (r: usize)
        ensures
            r == self.spec_consumed(),
            r <= self.spec_args().len(),
    {
        proof {
            use_type_invariant(self);
        }
        self.consumed
    }

    /// The number of arguments not yet unpacked.
    pub fn remaining(&self) -> (r: usize)
        ensures
            r == self.spec_args().len() - self.spec_consumed(),
    {
        proof {
            use_type_invariant(self);
        }
        self.args.len() - self.consumed
    }

    /// Takes the next argument in declared order. When none is left, fails
    /// with an arity error: the operation expects one more argument than
    /// were given.
    pub fn unpack_argument(&mut self) -> (r: Result<ValueRef, Error>)
        ensures
            final(self).spec_name() == old(self).spec_name(),
            final(self).spec_args() == old(self).spec_args(),
            final(self).spec_result_type() == old(self).spec_result_type(),
            old(self).spec_consumed() < old(self).spec_args().len() ==> r == Ok::<ValueRef, Error>(
                old(self).spec_args()[old(self).spec_consumed() as int],
            ) && final(self).spec_consumed() == old(self).spec_consumed() + 1,
            old(self).spec_consumed() >= old(self).spec_args().len() ==> fails_with(
                r,
                ErrorModel::Arity {
                    operation: old(self).spec_name(),
                    expected: old(self).spec_consumed() + 1,
                    given: old(self).spec_args().len(),
                },
            ) && final(self).spec_consumed() == old(self).spec_consumed(),
    {
        proof {
            use_type_invariant(&*self);
        }
        if self.consumed < self.args.len() {
            let v = self.args[self.consumed];
            self.consumed = self.consumed + 1;
            Ok(v)
        } else {
            Err(
                Error::Arity {
                    operation: self.name.clone(),
                    expected: self.consumed + 1,
                    given: self.args.len(),
                },
            )
        }
    }
}

} // verus!
