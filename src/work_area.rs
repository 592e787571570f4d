use vstd::prelude::*;

use crate::array::{Array, Column};
use crate::error::{fails_with, Error, ErrorModel};

verus! {

/// The results computed so far in one evaluation pass, one array per node
/// position, stored in position order.
pub struct WorkArea {
    arrays: Vec<Array>,
}

impl View for WorkArea {
    type V = Seq<Column>;

    closed spec fn view(&self) -> Seq<Column> {
        self.arrays@.map_values(|a: Array| a@)
    }
}

impl WorkArea {
    /// An empty context, as at the start of each batch.
    pub fn new() -> (r: WorkArea)
        ensures
            r@ == Seq::<Column>::empty(),
    {
        let r = WorkArea { arrays: Vec::new() };
        assert(r@ =~= Seq::<Column>::empty());
        r
    }

    /// The number of positions stored so far.
    pub fn len(&self) -> (r: usize)
        ensures
            r == self@.len(),
    {
        self.arrays.len()
    }

    /// Stores `array` as the result of node `position`. Positions are filled
    /// in order: any other position than the next one is refused.
    pub fn store(&mut self, position: usize, array: Array) -> (r: Result<(), Error>)
        ensures
            position == old(self)@.len() ==> r is Ok && final(self)@ == old(self)@.push(array@),
            position != old(self)@.len() ==> fails_with(
                r,
                ErrorModel::OrderingViolation { position: position as nat },
            ) && final(self)@ == old(self)@,
    {
        if position == self.arrays.len() {
            let ghost a = array@;
            self.arrays.push(array);
            assert(self@ =~= old(self)@.push(a));
            Ok(())
        } else {
            Err(Error::OrderingViolation { position })
        }
    }

    /// The array stored at `position`, or an ordering violation if that
    /// position has not been stored in this pass.
    pub fn lookup(&self, position: usize) -> (r: Result<&Array, Error>)
        ensures
            position < self@.len() ==> (r matches Ok(a) && a@ == self@[position as int]),
            position >= self@.len() ==> fails_with(
                r,
                ErrorModel::OrderingViolation { position: position as nat },
            ),
    {
        if position < self.arrays.len() {
            Ok(&self.arrays[position])
        } else {
            Err(Error::OrderingViolation { position })
        }
    }
}

} // verus!
