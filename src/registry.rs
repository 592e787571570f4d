use vstd::prelude::*;

use crate::array::Column;
use crate::error::{fails_with, result_model, Error, ErrorModel, Operation};
use crate::evaluator::{eval_result, info_bind, reads, Evaluator};
use crate::static_info::StaticInfo;

verus! {

/// The constructor registered under `name`, the latest entry winning.
pub open spec fn find(entries: Seq<(String, Operation)>, name: Seq<char>) -> Option<Operation>
    decreases entries.len(),
{
    if entries.len() == 0 {
        None
    } else if entries.last().0@ == name {
        Some(entries.last().1)
    } else {
        find(entries.drop_last(), name)
    }
}

/// The table from operation names to the constructors of their evaluators.
/// Filled once before any plan is built; read-only afterwards.
pub struct EvaluatorRegistry {
    entries: Vec<(String, Operation)>,
}

impl View for EvaluatorRegistry {
    type V = Map<Seq<char>, Operation>;

    closed spec fn view(&self) -> Map<Seq<char>, Operation> {
        Map::new(
            |k: Seq<char>| find(self.entries@, k) is Some,
            |k: Seq<char>| find(self.entries@, k).unwrap(),
        )
    }
}

/// What looking up `name` in the table `m` yields.
pub open spec fn get_result(m: Map<Seq<char>, Operation>, name: Seq<char>) -> Result<
    Operation,
    ErrorModel,
> {
    if m.contains_key(name) {
        Ok(m[name])
    } else {
        Err(ErrorModel::UnknownOperation(name))
    }
}

/// What building the evaluator of `info` against the table `m` yields.
pub open spec fn node_result(m: Map<Seq<char>, Operation>, info: StaticInfo) -> Result<
    Evaluator,
    ErrorModel,
> {
    match get_result(m, info.spec_name()) {
        Ok(op) => info_bind(op, info),
        Err(e) => Err(e),
    }
}

/// What building a whole plan yields: every node's evaluator in order, or
/// the error of the first node that fails.
pub open spec fn plan_result(m: Map<Seq<char>, Operation>, nodes: Seq<StaticInfo>) -> Result<
    Seq<Evaluator>,
    ErrorModel,
>
    decreases nodes.len(),
{
    if nodes.len() == 0 {
        Ok(Seq::empty())
    } else {
        match plan_result(m, nodes.drop_last()) {
            Err(e) => Err(e),
            Ok(v) => match node_result(m, nodes.last()) {
                Ok(e) => Ok(v.push(e)),
                Err(e) => Err(e),
            },
        }
    }
}

proof fn lemma_plan_error_persists(m: Map<Seq<char>, Operation>, nodes: Seq<StaticInfo>, k: int)
    requires
        0 <= k <= nodes.len(),
        plan_result(m, nodes.take(k)) is Err,
    ensures
        plan_result(m, nodes) == plan_result(m, nodes.take(k)),
    decreases nodes.len(),
{
    if k < nodes.len() {
        assert(nodes.drop_last().take(k) =~= nodes.take(k));
        lemma_plan_error_persists(m, nodes.drop_last(), k);
    } else {
        assert(nodes.take(k) =~= nodes);
    }
}

impl EvaluatorRegistry {
    /// An empty registry.
    pub fn new() -> (r: EvaluatorRegistry)
        ensures
            r@ == Map::<Seq<char>, Operation>::empty(),
    {
        let r = EvaluatorRegistry { entries: Vec::new() };
        assert(r@ =~= Map::<Seq<char>, Operation>::empty());
        r
    }

    /// A registry holding every built-in operation.
    pub fn with_builtins() -> (r: EvaluatorRegistry)
        ensures
            r@ == map!["len"@ => Operation::Len],
    {
        let mut r = EvaluatorRegistry::new();
        let name = "len".to_owned();
        let _ = r.register(name, Operation::Len);
        assert(r@ =~= map!["len"@ => Operation::Len]);
        r
    }

    /// The constructor registered under `name`, or an unknown-operation error
    /// that names it.
    pub fn get(&self, name: &String) -> (r: Result<Operation, Error>)
        ensures
            result_model(r) == get_result(self@, name@),
    {
        let ghost es = self.entries@;
        let mut i: usize = self.entries.len();
        assert(es.take(i as int) =~= es);
        while i > 0
            invariant
                i <= es.len(),
                es == self.entries@,
                find(es, name@) == find(es.take(i as int), name@),
            decreases i,
        {
            assert(es.take(i as int).last() == es[i - 1]);
            assert(es.take(i as int).drop_last() =~= es.take(i - 1));
            if self.entries[i - 1].0 == *name {
                return Ok(self.entries[i - 1].1);
            }
            i = i - 1;
        }
        Err(Error::UnknownOperation(name.clone()))
    }

    /// Registers `op` under `name`. A name may be registered once: a second
    /// registration is refused and leaves the registry unchanged.
    pub fn register(&mut self, name: String, op: Operation) -> (r: Result<(), Error>)
        ensures
            old(self)@.contains_key(name@) ==> fails_with(r, ErrorModel::DuplicateOperation(name@))
                && final(self)@ == old(self)@,
            !old(self)@.contains_key(name@) ==> r is Ok && final(self)@ == old(self)@.insert(
                name@,
                op,
            ),
    {
        if self.get(&name).is_ok() {
            return Err(Error::DuplicateOperation(name));
        }
        let ghost n = name@;
        let ghost before = self@;
        self.entries.push((name, op));
        assert(self.entries@.drop_last() =~= old(self).entries@);
        assert(self@ =~= before.insert(n, op));
        Ok(())
    }

    /// Builds the evaluator of every node, in order, stopping at the first
    /// node whose operation is unknown or whose arguments do not bind.
    pub fn build_plan(&self, nodes: Vec<StaticInfo>) -> (r: Result<Vec<Evaluator>, Error>)
        ensures
            match r {
                Ok(v) => plan_result(self@, nodes@) == Ok::<Seq<Evaluator>, ErrorModel>(v@),
                Err(e) => plan_result(self@, nodes@) == Err::<Seq<Evaluator>, ErrorModel>(e@),
            },
    {
        let ghost all = nodes@;
        let mut rest = nodes;
        let mut out: Vec<Evaluator> = Vec::new();
        let mut k: usize = 0;
        let total: usize = rest.len();
        assert(all.take(0) =~= Seq::<StaticInfo>::empty());
        assert(all.skip(0) =~= all);
        while rest.len() > 0
            invariant
                all == nodes@,
                all.len() == total,
                k + rest@.len() == all.len(),
                rest@ == all.skip(k as int),
                plan_result(self@, all.take(k as int)) == Ok::<Seq<Evaluator>, ErrorModel>(out@),
            decreases rest@.len(),
        {
            let info = rest.remove(0);
            assert(info == all[k as int]);
            assert(all.take(k + 1).drop_last() =~= all.take(k as int));
            assert(all.take(k + 1).last() == all[k as int]);
            let op = match self.get(info.name()) {
                Ok(op) => op,
                Err(e) => {
                    proof {
                        lemma_plan_error_persists(self@, all, k + 1);
                    }
                    return Err(e);
                },
            };
            match op.create(info) {
                Ok(ev) => {
                    out.push(ev);
                },
                Err(e) => {
                    proof {
                        lemma_plan_error_persists(self@, all, k + 1);
                    }
                    return Err(e);
                },
            }
            assert(rest@ =~= all.skip(k + 1));
            k = k + 1;
        }
        assert(all.take(k as int) =~= all);
        Ok(out)
    }
}

} // verus!
