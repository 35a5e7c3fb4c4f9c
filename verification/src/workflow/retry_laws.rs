//! What holds of every retry.
use crate::text::texts;
use crate::workflow::compile::{
    compile_fault, compiled_from, node_index, CompiledNode, CompiledWorkflow,
};
use crate::workflow::compile_laws::node_ids;
use crate::workflow::model::WorkflowDefinition;
use crate::workflow::store::{
    blocked, downstream, feeds, is_blocked, is_path, next_resumable, node_over, node_ready,
    reset_from, state_among, state_of, NodeState, WorkflowNodeRecord, WorkflowRunSnapshot,
};
use vstd::prelude::*;

verus! {

proof fn lemma_found(nodes: Seq<CompiledNode>, i: int, k: int)
    requires
        0 <= i <= k < nodes.len(),
        forall|a: int, b: int|
            0 <= a < nodes.len() && 0 <= b < nodes.len() && (#[trigger] nodes[a]).id@ == (
            #[trigger] nodes[b]).id@ ==> a == b,
    ensures
        node_index(nodes, nodes[k].id@, i) == Some(k),
    decreases k - i,
{
    if i < k {
        lemma_found(nodes, i + 1, k);
    }
}

/// In a compiled workflow a node is found by its id.
proof fn lemma_place(workflow: CompiledWorkflow, definition: WorkflowDefinition, k: int)
    requires
        compile_fault(definition) is None,
        compiled_from(workflow, definition),
        0 <= k < workflow.nodes@.len(),
    ensures
        node_index(workflow.nodes@, workflow.nodes@[k].id@, 0) == Some(k),
{
    let nodes = workflow.nodes@;
    let ids = node_ids(workflow);
    crate::workflow::compile_laws::law_nodes_are_the_steps(workflow, definition);
    assert forall|a: int, b: int|
        0 <= a < nodes.len() && 0 <= b < nodes.len() && (#[trigger] nodes[a]).id@ == (
        #[trigger] nodes[b]).id@ implies a == b by {
        assert(ids[a] == ids[b]);
    }
    lemma_found(nodes, 0, k);
}

proof fn lemma_path_goes_on(
    workflow: CompiledWorkflow,
    definition: WorkflowDefinition,
    k: int,
    path: Seq<Seq<char>>,
    n: int,
)
    requires
        compile_fault(definition) is None,
        compiled_from(workflow, definition),
        0 <= k < workflow.nodes@.len(),
        is_path(workflow.nodes@, path),
        0 <= n < path.len(),
        path[0] == workflow.nodes@[k].id@,
    ensures
        exists|j: int|
            k <= j < workflow.nodes@.len() && (#[trigger] workflow.nodes@[j]).id@ == path[n] && (n
                > 0 ==> k < j),
    decreases n,
{
    let nodes = workflow.nodes@;
    if n == 0 {
        assert(nodes[k].id@ == path[0]);
    } else {
        lemma_path_goes_on(workflow, definition, k, path, n - 1);
        let i = choose|i: int|
            k <= i < nodes.len() && (#[trigger] nodes[i]).id@ == path[n - 1] && (n - 1 > 0 ==> k
                < i);
        lemma_place(workflow, definition, i);
        assert(feeds(nodes, path[n - 1], path[n - 1 + 1]));
        crate::workflow::compile_laws::law_dependents_come_later(
            workflow,
            definition,
            i,
            path[n],
        );
        let j = choose|j: int|
            i < j < nodes.len() && (#[trigger] nodes[j]).id@ == path[n] && texts(
                nodes[j].depends_on@,
            ).contains(nodes[i].id@);
        assert(k < j && nodes[j].id@ == path[n]);
    }
}

/// A retry reaches only the node itself and nodes behind it in the compiled order: nothing
/// that the node depends on is ever run again.
pub proof fn law_a_retry_resets_nothing_ahead(
    workflow: CompiledWorkflow,
    definition: WorkflowDefinition,
    k: int,
    j: int,
)
    requires
        compile_fault(definition) is None,
        compiled_from(workflow, definition),
        0 <= k < workflow.nodes@.len(),
        0 <= j < workflow.nodes@.len(),
        downstream(workflow.nodes@, workflow.nodes@[k].id@, workflow.nodes@[j].id@),
    ensures
        k <= j,
{
    let nodes = workflow.nodes@;
    let path = choose|path: Seq<Seq<char>>|
        path.len() > 0 && #[trigger] is_path(nodes, path) && path[0] == nodes[k].id@
            && path.last() == nodes[j].id@;
    lemma_path_goes_on(workflow, definition, k, path, path.len() - 1);
    let m = choose|m: int|
        k <= m < nodes.len() && (#[trigger] nodes[m]).id@ == path.last() && (path.len() - 1 > 0
            ==> k < m);
    lemma_place(workflow, definition, m);
    lemma_place(workflow, definition, j);
}

/// A retry leaves no stale work: whatever depends on a node that is reset is reset too.
pub proof fn law_a_retry_leaves_no_stale_work(
    workflow: CompiledWorkflow,
    definition: WorkflowDefinition,
    start: Seq<char>,
    a: int,
    b: int,
)
    requires
        compile_fault(definition) is None,
        compiled_from(workflow, definition),
        0 <= a < workflow.nodes@.len(),
        0 <= b < workflow.nodes@.len(),
        downstream(workflow.nodes@, start, workflow.nodes@[a].id@),
        texts(workflow.nodes@[b].depends_on@).contains(workflow.nodes@[a].id@),
    ensures
        downstream(workflow.nodes@, start, workflow.nodes@[b].id@),
{
    let nodes = workflow.nodes@;
    lemma_place(workflow, definition, a);
    crate::workflow::compile_laws::law_dependents_invert_dependencies(workflow, definition, a, b);
    assert(feeds(nodes, nodes[a].id@, nodes[b].id@));
    let step = seq![nodes[a].id@, nodes[b].id@];
    assert(is_path(nodes, step));
    assert(step[0] == nodes[a].id@ && step.last() == nodes[b].id@);
    assert(downstream(nodes, nodes[a].id@, nodes[b].id@));
    crate::workflow::store::law_downstream_is_transitive(
        nodes,
        start,
        nodes[a].id@,
        nodes[b].id@,
    );
}

/// Whether the records stand in the compiled order, one for each node.
pub open spec fn follows_graph(snapshot: WorkflowRunSnapshot, workflow: CompiledWorkflow) -> bool {
    &&& snapshot.nodes@.len() == workflow.nodes@.len()
    &&& forall|k: int|
        0 <= k < workflow.nodes@.len() ==> (#[trigger] snapshot.nodes@[k]).node_id@
            == workflow.nodes@[k].id@
}

proof fn lemma_state_at(
    workflow: CompiledWorkflow,
    definition: WorkflowDefinition,
    snapshot: WorkflowRunSnapshot,
    k: int,
    n: int,
)
    requires
        compile_fault(definition) is None,
        compiled_from(workflow, definition),
        follows_graph(snapshot, workflow),
        0 <= k < n <= workflow.nodes@.len(),
    ensures
        state_among(snapshot.nodes@, workflow.nodes@[k].id@, n) == Some(snapshot.nodes@[k].state),
    decreases n,
{
    if k < n - 1 {
        lemma_place(workflow, definition, k);
        lemma_place(workflow, definition, n - 1);
        assert(snapshot.nodes@[n - 1].node_id@ == workflow.nodes@[n - 1].id@);
        lemma_state_at(workflow, definition, snapshot, k, n - 1);
    } else {
        assert(snapshot.nodes@[k].node_id@ == workflow.nodes@[k].id@);
    }
}

proof fn lemma_downstream_of_itself(nodes: Seq<CompiledNode>, id: Seq<char>)
    ensures
        downstream(nodes, id, id),
{
    let path = seq![id];
    assert(is_path(nodes, path));
    assert(path[0] == id && path.last() == id);
}

/// A retried node is ready at once where its dependencies were completed: the retry does not
/// touch them.
pub proof fn law_a_retried_node_is_ready(
    workflow: CompiledWorkflow,
    definition: WorkflowDefinition,
    before: WorkflowRunSnapshot,
    after: WorkflowRunSnapshot,
    k: int,
)
    requires
        compile_fault(definition) is None,
        compiled_from(workflow, definition),
        follows_graph(before, workflow),
        0 <= k < workflow.nodes@.len(),
        reset_from(before.nodes@, after.nodes@, workflow.nodes@, workflow.nodes@[k].id@),
        forall|d: int|
            0 <= d < workflow.nodes@[k].depends_on@.len() ==> state_of(
                before,
                (#[trigger] workflow.nodes@[k].depends_on@[d])@,
            ) == Some(NodeState::Completed),
    ensures
        node_ready(workflow.nodes@[k], after),
{
    let nodes = workflow.nodes@;
    let node = nodes[k];
    let n = nodes.len() as int;
    assert forall|i: int| 0 <= i < n implies (#[trigger] after.nodes@[i]).node_id@
        == nodes[i].id@ by {
        assert(before.nodes@[i].node_id@ == nodes[i].id@);
    }
    assert(follows_graph(after, workflow));
    lemma_downstream_of_itself(nodes, node.id@);
    assert(before.nodes@[k].node_id@ == node.id@);
    assert(after.nodes@[k].state == NodeState::Pending);
    lemma_state_at(workflow, definition, after, k, n);
    assert forall|d: int| 0 <= d < node.depends_on@.len() implies state_of(
        after,
        (#[trigger] node.depends_on@[d])@,
    ) == Some(NodeState::Completed) by {
        let dep = node.depends_on@[d]@;
        assert(texts(node.depends_on@)[d] == dep);
        assert(texts(node.depends_on@).contains(dep));
        crate::workflow::compile_laws::law_dependencies_come_first(workflow, definition, k, dep);
        let ids = node_ids(workflow);
        let j = ids.take(k).index_of(dep);
        assert(ids.take(k)[j] == dep);
        assert(ids[j] == dep);
        assert(nodes[j].id@ == dep);
        if downstream(nodes, node.id@, dep) {
            law_a_retry_resets_nothing_ahead(workflow, definition, k, j);
        }
        assert(before.nodes@[j].node_id@ == nodes[j].id@);
        assert(after.nodes@[j] == before.nodes@[j]);
        lemma_state_at(workflow, definition, before, j, n);
        lemma_state_at(workflow, definition, after, j, n);
    }
}

proof fn lemma_next(
    records: Seq<WorkflowNodeRecord>,
    pairs: Seq<(Seq<char>, Seq<char>)>,
    i: int,
    k: int,
)
    requires
        0 <= i <= k < records.len(),
        forall|j: int|
            i <= j < k ==> node_over((#[trigger] records[j]).state) || is_blocked(
                pairs,
                records[j].node_id@,
            ),
        !node_over(records[k].state),
        !is_blocked(pairs, records[k].node_id@),
    ensures
        next_resumable(records, pairs, i) == Some(records[k].node_id@),
    decreases k - i,
{
    if i < k {
        assert(node_over(records[i].state) || is_blocked(pairs, records[i].node_id@));
        lemma_next(records, pairs, i + 1, k);
    }
}

/// A resume continues with the node that was retried, where everything ahead of it is
/// finished or blocked and nothing blocks it.
pub proof fn law_a_resume_continues_with_the_retried_node(
    workflow: CompiledWorkflow,
    definition: WorkflowDefinition,
    before: WorkflowRunSnapshot,
    after: WorkflowRunSnapshot,
    k: int,
)
    requires
        compile_fault(definition) is None,
        compiled_from(workflow, definition),
        follows_graph(before, workflow),
        0 <= k < workflow.nodes@.len(),
        reset_from(before.nodes@, after.nodes@, workflow.nodes@, workflow.nodes@[k].id@),
        forall|j: int|
            0 <= j < k ==> node_over((#[trigger] before.nodes@[j]).state) || is_blocked(
                blocked(workflow, after),
                before.nodes@[j].node_id@,
            ),
        !is_blocked(blocked(workflow, after), workflow.nodes@[k].id@),
    ensures
        next_resumable(after.nodes@, blocked(workflow, after), 0) == Some(
            workflow.nodes@[k].id@,
        ),
{
    let nodes = workflow.nodes@;
    let pairs = blocked(workflow, after);
    assert forall|j: int| 0 <= j < k implies node_over((#[trigger] after.nodes@[j]).state)
        || is_blocked(pairs, after.nodes@[j].node_id@) by {
        assert(before.nodes@[j].node_id@ == nodes[j].id@);
        if downstream(nodes, nodes[k].id@, nodes[j].id@) {
            law_a_retry_resets_nothing_ahead(workflow, definition, k, j);
        }
        assert(after.nodes@[j] == before.nodes@[j]);
    }
    lemma_downstream_of_itself(nodes, nodes[k].id@);
    assert(before.nodes@[k].node_id@ == nodes[k].id@);
    assert(after.nodes@[k].state == NodeState::Pending);
    lemma_next(after.nodes@, pairs, 0, k);
}

} // verus!
