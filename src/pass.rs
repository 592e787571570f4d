use vstd::prelude::*;

use crate::array::Column;
use crate::error::{Error, ErrorModel};
use crate::evaluator::{eval_result, Evaluator};
use crate::work_area::WorkArea;

verus! {

/// What one evaluation pass yields: starting from the stored results `area`,
/// each evaluator in turn reads what is stored and its output is stored at
/// the next position; the first failure ends the pass.
pub open spec fn pass_result(evs: Seq<Evaluator>, area: Seq<Column>) -> Result<
    Seq<Column>,
    ErrorModel,
>
    decreases evs.len(),
{
    if evs.len() == 0 {
        Ok(area)
    } else {
        match pass_result(evs.drop_last(), area) {
            Err(e) => Err(e),
            Ok(a) => match eval_result(evs.last(), a) {
                Ok(c) => Ok(a.push(c)),
                Err(e) => Err(e),
            },
        }
    }
}

proof fn lemma_pass_error_persists(evs: Seq<Evaluator>, area: Seq<Column>, k: int)
    requires
        0 <= k <= evs.len(),
        pass_result(evs.take(k), area) is Err,
    ensures
        pass_result(evs, area) == pass_result(evs.take(k), area),
    decreases evs.len(),
{
    if k < evs.len() {
        assert(evs.drop_last().take(k) =~= evs.take(k));
        lemma_pass_error_persists(evs.drop_last(), area, k);
    } else {
        assert(evs.take(k) =~= evs);
    }
}

/// Runs the evaluators of a plan in their fixed order over one batch, storing
/// each output at the next position of `area`. On failure the pass stops and
/// its partial results are to be discarded.
pub fn run_pass(evs: &Vec<Evaluator>, area: &mut WorkArea) -> (r: Result<(), Error>)
    ensures
        match r {
            Ok(_) => pass_result(evs@, old(area)@) == Ok::<Seq<Column>, ErrorModel>(final(area)@),
            Err(e) => pass_result(evs@, old(area)@) == Err::<Seq<Column>, ErrorModel>(e@),
        },
{
    let ghost start = area@;
    let mut i: usize = 0;
    assert(evs@.take(0) =~= Seq::<Evaluator>::empty());
    while i < evs.len()
        invariant
            i <= evs@.len(),
            start == old(area)@,
            pass_result(evs@.take(i as int), start) == Ok::<Seq<Column>, ErrorModel>(area@),
        decreases evs@.len() - i,
    {
        assert(evs@.take(i + 1).drop_last() =~= evs@.take(i as int));
        assert(evs@.take(i + 1).last() == evs@[i as int]);
        let out = match evs[i].evaluate(area) {
            Ok(a) => a,
            Err(e) => {
                proof {
                    lemma_pass_error_persists(evs@, start, i + 1);
                }
                return Err(e);
            },
        };
        let position = area.len();
        let _ = area.store(position, out);
        i = i + 1;
    }
    assert(evs@.take(i as int) =~= evs@);
    Ok(())
}

} // verus!
