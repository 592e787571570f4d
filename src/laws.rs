use vstd::prelude::*;

use crate::array::Column;
use crate::error::{ErrorModel, Operation};
use crate::evaluator::{eval_result, info_bind, reads, Evaluator};
use crate::registry::{get_result, node_result, plan_result, EvaluatorRegistry};
use crate::static_info::StaticInfo;

verus! {

/// After registering `op` under a name that was free, looking that name up
/// yields `op`.
pub proof fn law_get_after_register(
    before: EvaluatorRegistry,
    after: EvaluatorRegistry,
    name: Seq<char>,
    op: Operation,
)
    requires
        !before@.contains_key(name),
        after@ == before@.insert(name, op),
    ensures
        get_result(after@, name) == Ok::<Operation, ErrorModel>(op),
{
}

/// Looking up a name that was never registered fails with an
/// unknown-operation error that names it.
pub proof fn law_get_unregistered(registry: EvaluatorRegistry, name: Seq<char>)
    requires
        !registry@.contains_key(name),
    ensures
        get_result(registry@, name) == Err::<Operation, ErrorModel>(ErrorModel::UnknownOperation(name)),
{
}

/// A node with fewer arguments left than its operation takes fails to bind
/// with an arity error that names the node's operation.
pub proof fn law_too_few_arguments(op: Operation, info: StaticInfo)
    requires
        info.spec_args().len() < info.spec_consumed() + op.arity(),
    ensures
        info_bind(op, info) matches Err(ErrorModel::Arity { operation, .. }) && operation
            == info.spec_name(),
{
}

/// A node whose next argument is declared with another type than the one its
/// operation requires there fails to bind with a type mismatch that names
/// both types and the argument's position.
pub proof fn law_argument_type_mismatch(op: Operation, info: StaticInfo)
    requires
        info.spec_consumed() < info.spec_args().len(),
        info.spec_args()[info.spec_consumed() as int].data_type != op.argument_type(0),
    ensures
        info_bind(op, info) == Err::<Evaluator, ErrorModel>(
            ErrorModel::TypeMismatch {
                position: info.spec_args()[info.spec_consumed() as int].position as nat,
                expected: op.argument_type(0),
                actual: info.spec_args()[info.spec_consumed() as int].data_type,
            },
        ),
{
}

/// An evaluator keeps no state between runs: on two contexts that hold the
/// same arrays at the positions it reads, it yields the same result.
pub proof fn law_evaluate_depends_on_inputs_only(e: Evaluator, a1: Seq<Column>, a2: Seq<Column>)
    requires
        forall|p: nat|
            #[trigger] reads(e).contains(p) ==> (p < a1.len() <==> p < a2.len()) && (p < a1.len()
                ==> a1[p as int] == a2[p as int]),
    ensures
        eval_result(e, a1) == eval_result(e, a2),
{
    match e {
        Evaluator::Len(l) => {
            assert(reads(e).contains(l.input.spec_position()));
        },
    }
}

/// A built plan holds, at each place, the evaluator of the node at that
/// place and of nothing else.
pub proof fn lemma_plan_nodes(m: Map<Seq<char>, Operation>, nodes: Seq<StaticInfo>)
    requires
        plan_result(m, nodes) is Ok,
    ensures
        plan_result(m, nodes)->Ok_0.len() == nodes.len(),
        forall|i: int|
            0 <= i < nodes.len() ==> node_result(m, #[trigger] nodes[i]) == Ok::<
                Evaluator,
                ErrorModel,
            >(plan_result(m, nodes)->Ok_0[i]),
    decreases nodes.len(),
{
    if nodes.len() > 0 {
        lemma_plan_nodes(m, nodes.drop_last());
        assert forall|i: int| 0 <= i < nodes.len() - 1 implies nodes[i] == nodes.drop_last()[i] by {}
    }
}

/// The order in which nodes are built does not change how any node binds:
/// in two plans built from the same table, equal nodes get equal
/// evaluators, wherever they stand.
pub proof fn law_binding_independent_of_order(
    m: Map<Seq<char>, Operation>,
    p1: Seq<StaticInfo>,
    p2: Seq<StaticInfo>,
    i: int,
    j: int,
)
    requires
        plan_result(m, p1) is Ok,
        plan_result(m, p2) is Ok,
        0 <= i < p1.len(),
        0 <= j < p2.len(),
        p1[i] == p2[j],
    ensures
        plan_result(m, p1)->Ok_0[i] == plan_result(m, p2)->Ok_0[j],
{
    lemma_plan_nodes(m, p1);
    lemma_plan_nodes(m, p2);
}

} // verus!
