//! What holds of every stored run.
use crate::workflow::compile::{CompiledNode, CompiledWorkflow};
use crate::workflow::json::JsonValue;
use crate::workflow::store::{
    NodeState, RunTable, StoredRun, WorkflowNodeRecord, WorkflowRunSnapshot, WorkflowStoreError,
};
use vstd::prelude::*;

verus! {

/// Whether no node is completed before its dependencies are.
pub open spec fn settled_in_order(compiled: CompiledWorkflow, snapshot: WorkflowRunSnapshot) -> bool {
    forall|k: int, d: int|
        0 <= k < compiled.nodes@.len() && 0 <= d < compiled.nodes@[k].depends_on@.len()
            && crate::workflow::store::state_of(snapshot, compiled.nodes@[k].id@) == Some(
            NodeState::Completed,
        ) ==> crate::workflow::store::state_of(
            snapshot,
            (#[trigger] compiled.nodes@[k].depends_on@[d])@,
        ) == Some(NodeState::Completed)
}

/// Whether some dependency of node `k`, from the `d`-th on, is not completed.
spec fn waits(nodes: Seq<CompiledNode>, snapshot: WorkflowRunSnapshot, k: int, d: int) -> bool {
    exists|e: int|
        d <= e < nodes[k].depends_on@.len() && crate::workflow::store::state_of(
            snapshot,
            (#[trigger] nodes[k].depends_on@[e])@,
        ) != Some(NodeState::Completed)
}

proof fn lemma_blocked_waits(
    compiled: CompiledWorkflow,
    snapshot: WorkflowRunSnapshot,
    k: int,
    d: int,
)
    requires
        settled_in_order(compiled, snapshot),
        0 <= k < compiled.nodes@.len(),
        0 <= d,
        crate::workflow::store::node_blocker(compiled.nodes@, snapshot, k, d) is Some,
    ensures
        waits(compiled.nodes@, snapshot, k, d),
    decreases k, 2int, compiled.nodes@[k].depends_on@.len() - d,
{
    let nodes = compiled.nodes@;
    let deps = nodes[k].depends_on@;
    if crate::workflow::store::dead_end(crate::workflow::store::state_of(snapshot, deps[d]@)) {
        assert(crate::workflow::store::state_of(snapshot, nodes[k].depends_on@[d]@) != Some(
            NodeState::Completed,
        ));
    } else if crate::workflow::store::blocker_among(nodes, snapshot, deps[d]@, k) is Some {
        lemma_blocker_waits(compiled, snapshot, deps[d]@, k);
        assert(crate::workflow::store::state_of(snapshot, nodes[k].depends_on@[d]@) != Some(
            NodeState::Completed,
        ));
    } else {
        lemma_blocked_waits(compiled, snapshot, k, d + 1);
    }
}

proof fn lemma_blocker_waits(
    compiled: CompiledWorkflow,
    snapshot: WorkflowRunSnapshot,
    id: Seq<char>,
    n: int,
)
    requires
        settled_in_order(compiled, snapshot),
        0 <= n <= compiled.nodes@.len(),
        crate::workflow::store::blocker_among(compiled.nodes@, snapshot, id, n) is Some,
    ensures
        crate::workflow::store::state_of(snapshot, id) != Some(NodeState::Completed),
    decreases n, 1int, 0int,
{
    let nodes = compiled.nodes@;
    if n > 0 {
        if nodes[n - 1].id@ == id && crate::workflow::store::node_blocker(nodes, snapshot, n - 1, 0) is Some {
            lemma_blocked_waits(compiled, snapshot, n - 1, 0);
            let e = choose|e: int|
                0 <= e < nodes[n - 1].depends_on@.len() && crate::workflow::store::state_of(
                    snapshot,
                    (#[trigger] nodes[n - 1].depends_on@[e])@,
                ) != Some(NodeState::Completed);
            assert(crate::workflow::store::state_of(
                snapshot,
                compiled.nodes@[n - 1].depends_on@[e]@,
            ) != Some(NodeState::Completed));
        } else {
            lemma_blocker_waits(compiled, snapshot, id, n - 1);
        }
    }
}

/// A blocked node is not ready: where nothing was completed ahead of its dependencies,
/// the frontier never surfaces a node that a failed or skipped ancestor blocks.
pub proof fn law_blocked_nodes_are_not_ready(
    compiled: CompiledWorkflow,
    snapshot: WorkflowRunSnapshot,
    k: int,
)
    requires
        settled_in_order(compiled, snapshot),
        0 <= k < compiled.nodes@.len(),
        crate::workflow::store::node_blocker(compiled.nodes@, snapshot, k, 0) is Some,
    ensures
        !crate::workflow::store::node_ready(compiled.nodes@[k], snapshot),
{
    lemma_blocked_waits(compiled, snapshot, k, 0);
    let nodes = compiled.nodes@;
    let e = choose|e: int|
        0 <= e < nodes[k].depends_on@.len() && crate::workflow::store::state_of(
            snapshot,
            (#[trigger] nodes[k].depends_on@[e])@,
        ) != Some(NodeState::Completed);
    assert(crate::workflow::store::state_of(snapshot, nodes[k].depends_on@[e]@) != Some(
        NodeState::Completed,
    ));
}

/// The frontier holds exactly the ids of ready nodes.
pub proof fn law_frontier_is_the_ready_set(
    nodes: Seq<CompiledNode>,
    snapshot: WorkflowRunSnapshot,
    n: int,
    id: Seq<char>,
)
    requires
        0 <= n <= nodes.len(),
    ensures
        crate::workflow::store::ready_ids(nodes, snapshot, n).contains(id) <==> exists|k: int|
            0 <= k < n && (#[trigger] nodes[k]).id@ == id && crate::workflow::store::node_ready(
                nodes[k],
                snapshot,
            ),
    decreases n,
{
    if n > 0 {
        law_frontier_is_the_ready_set(nodes, snapshot, n - 1, id);
        let before = crate::workflow::store::ready_ids(nodes, snapshot, n - 1);
        let now = crate::workflow::store::ready_ids(nodes, snapshot, n);
        if now.contains(id) {
            let i = now.index_of(id);
            if i < before.len() {
                assert(before[i] == id);
                assert(before.contains(id));
            } else {
                assert(nodes[n - 1].id@ == id);
            }
        }
        if exists|k: int|
            0 <= k < n && (#[trigger] nodes[k]).id@ == id && crate::workflow::store::node_ready(
                nodes[k],
                snapshot,
            ) {
            let k = choose|k: int|
                0 <= k < n && (#[trigger] nodes[k]).id@ == id
                    && crate::workflow::store::node_ready(nodes[k], snapshot);
            if k < n - 1 {
                assert(before.contains(id));
                let i = before.index_of(id);
                assert(now[i] == id);
            } else {
                assert(now[before.len() as int] == id);
            }
        }
    }
}

/// A finished node never runs again by itself: whatever is ready is pending, so no
/// completed, failed or skipped node is.
pub proof fn law_finished_nodes_are_not_ready(node: CompiledNode, snapshot: WorkflowRunSnapshot)
    requires
        crate::workflow::store::node_ready(node, snapshot),
    ensures
        crate::workflow::store::state_of(snapshot, node.id@) == Some(NodeState::Pending),
        !crate::workflow::store::node_over(
            crate::workflow::store::state_of(snapshot, node.id@)->0,
        ),
{
}

/// What a resume continues from is neither terminal nor blocked, and everything before
/// it is.
pub proof fn law_resume_skips_finished_and_blocked(
    nodes: Seq<WorkflowNodeRecord>,
    blocked: Seq<(Seq<char>, Seq<char>)>,
    k: int,
)
    requires
        0 <= k <= nodes.len(),
    ensures
        match crate::workflow::store::next_resumable(nodes, blocked, k) {
            Some(id) => exists|i: int|
                k <= i < nodes.len() && (#[trigger] nodes[i]).node_id@ == id
                    && !crate::workflow::store::node_over(nodes[i].state)
                    && !crate::workflow::store::is_blocked(blocked, id) && forall|j: int|
                    k <= j < i ==> crate::workflow::store::node_over((#[trigger] nodes[j]).state)
                        || crate::workflow::store::is_blocked(blocked, nodes[j].node_id@),
            None => forall|j: int|
                k <= j < nodes.len() ==> crate::workflow::store::node_over(
                    (#[trigger] nodes[j]).state,
                ) || crate::workflow::store::is_blocked(blocked, nodes[j].node_id@),
        },
    decreases nodes.len() - k,
{
    if k < nodes.len() {
        if !crate::workflow::store::node_over(nodes[k].state) && !crate::workflow::store::is_blocked(
            blocked,
            nodes[k].node_id@,
        ) {
            assert(nodes[k].node_id@ == nodes[k].node_id@);
        } else {
            law_resume_skips_finished_and_blocked(nodes, blocked, k + 1);
        }
    }
}

/// A run may always be continued with the graph it was created from.
pub proof fn law_created_run_accepts_its_graph(
    run: StoredRun,
    id: Seq<char>,
    compiled: CompiledWorkflow,
    run_id: Option<String>,
    inputs: JsonValue,
    manifest: Option<String>,
)
    requires
        crate::workflow::store::fresh_run(run, id, compiled, run_id, inputs, manifest),
    ensures
        crate::workflow::store::graph_fault(run.snapshot, compiled) is None,
{
}

proof fn lemma_fresh_states(run: StoredRun, compiled: CompiledWorkflow, id: Seq<char>, n: int)
    requires
        0 <= n <= run.snapshot.nodes@.len(),
        run.snapshot.nodes@.len() == compiled.nodes@.len(),
        forall|k: int|
            0 <= k < compiled.nodes@.len() ==> crate::workflow::store::fresh_record(
                #[trigger] run.snapshot.nodes@[k],
                compiled.nodes@[k],
            ),
    ensures
        crate::workflow::store::state_among(run.snapshot.nodes@, id, n) matches Some(s) ==> s
            == NodeState::Pending,
        (exists|k: int| 0 <= k < n && (#[trigger] compiled.nodes@[k]).id@ == id)
            ==> crate::workflow::store::state_among(run.snapshot.nodes@, id, n) is Some,
    decreases n,
{
    if n > 0 {
        lemma_fresh_states(run, compiled, id, n - 1);
        assert(crate::workflow::store::fresh_record(
            run.snapshot.nodes@[n - 1],
            compiled.nodes@[n - 1],
        ));
    }
}

/// In a fresh run exactly the nodes without dependencies are ready.
pub proof fn law_fresh_run_starts_at_the_sources(
    run: StoredRun,
    id: Seq<char>,
    compiled: CompiledWorkflow,
    run_id: Option<String>,
    inputs: JsonValue,
    manifest: Option<String>,
    k: int,
)
    requires
        crate::workflow::store::fresh_run(run, id, compiled, run_id, inputs, manifest),
        0 <= k < compiled.nodes@.len(),
    ensures
        crate::workflow::store::node_ready(compiled.nodes@[k], run.snapshot)
            <==> compiled.nodes@[k].depends_on@.len() == 0,
{
    let n = compiled.nodes@.len() as int;
    let node = compiled.nodes@[k];
    assert(compiled.nodes@[k].id@ == node.id@);
    lemma_fresh_states(run, compiled, node.id@, n);
    if node.depends_on@.len() > 0 {
        lemma_fresh_states(run, compiled, node.depends_on@[0]@, n);
        assert(crate::workflow::store::state_of(run.snapshot, node.depends_on@[0]@) != Some(
            NodeState::Completed,
        ));
    }
}

/// A transition stamps an end exactly when the node is in a terminal state, and never
/// moves a start that is already there.
pub proof fn law_transition_times(
    record: WorkflowNodeRecord,
    state: NodeState,
    attempt: u32,
    agent_run_id: Option<String>,
    cost: Option<JsonValue>,
    error: Option<String>,
    now: String,
)
    ensures
        ({
            let after = crate::workflow::store::transitioned(
                record,
                state,
                attempt,
                agent_run_id,
                cost,
                error,
                now,
            );
            &&& after.ended_at is Some <==> crate::workflow::store::node_over(state)
            &&& record.started_at is Some ==> after.started_at == record.started_at
            &&& agent_run_id is None ==> after.agent_run_id == record.agent_run_id
            &&& cost is None ==> after.cost == record.cost
        }),
{
}

proof fn lemma_run_appended(runs: Seq<StoredRun>, last: StoredRun, id: Seq<char>, i: int)
    requires
        0 <= i <= runs.len(),
    ensures
        crate::workflow::store::run_index(runs.push(last), id, i)
            == match crate::workflow::store::run_index(runs, id, i) {
            Some(k) => Some(k),
            None => if last.snapshot.run.id@ == id {
                Some(runs.len() as int)
            } else {
                None
            },
        },
    decreases runs.len() - i,
{
    if i < runs.len() {
        assert(runs.push(last)[i] == runs[i]);
        lemma_run_appended(runs, last, id, i + 1);
    } else {
        assert(runs.push(last)[i] == last);
        assert(crate::workflow::store::run_index(runs.push(last), id, i + 1) is None);
    }
}

/// A run that was created is read back as it was created, and every other run as before.
pub proof fn law_a_created_run_is_read_back(
    before: RunTable,
    after: RunTable,
    id: Seq<char>,
    other: Seq<char>,
    compiled: CompiledWorkflow,
    run_id: Option<String>,
    inputs: JsonValue,
    manifest: Option<String>,
    r: Result<String, WorkflowStoreError>,
)
    requires
        crate::workflow::store::created(before, after, id, compiled, run_id, inputs, manifest, r),
        r is Ok,
        other != id,
    ensures
        crate::workflow::store::run_in(after, id) matches Some(i)
            && crate::workflow::store::fresh_run(
            after.runs@[i],
            id,
            compiled,
            run_id,
            inputs,
            manifest,
        ),
        crate::workflow::store::run_in(after, other) == crate::workflow::store::run_in(
            before,
            other,
        ),
        crate::workflow::store::run_in(before, other) matches Some(i) ==> after.runs@[i]
            == before.runs@[i],
{
    let last = after.runs@.last();
    assert(after.runs@ =~= before.runs@.push(last));
    lemma_run_appended(before.runs@, last, id, 0);
    lemma_run_appended(before.runs@, last, other, 0);
    lemma_run_place(before.runs@, other, 0);
    if let Some(i) = crate::workflow::store::run_in(before, other) {
        assert(after.runs@.drop_last()[i] == before.runs@[i]);
    }
}

proof fn lemma_run_place(runs: Seq<StoredRun>, id: Seq<char>, i: int)
    requires
        0 <= i,
    ensures
        crate::workflow::store::run_index(runs, id, i) matches Some(k) ==> i <= k < runs.len()
            && runs[k].snapshot.run.id@ == id,
    decreases runs.len() - i,
{
    if i < runs.len() && runs[i].snapshot.run.id@ != id {
        lemma_run_place(runs, id, i + 1);
    }
}

/// A command that is delivered twice makes one run: the second delivery gives the same id and
/// changes nothing, whatever it carries.
pub proof fn law_a_second_delivery_changes_nothing(
    before: RunTable,
    between: RunTable,
    after: RunTable,
    key: Seq<char>,
    compiled: CompiledWorkflow,
    inputs: JsonValue,
    manifest: Option<String>,
    first: String,
    again: CompiledWorkflow,
    inputs_again: JsonValue,
    manifest_again: Option<String>,
    second: String,
)
    requires
        crate::workflow::store::delivered(
            before,
            between,
            key,
            compiled,
            inputs,
            manifest,
            first,
        ),
        crate::workflow::store::delivered(
            between,
            after,
            key,
            again,
            inputs_again,
            manifest_again,
            second,
        ),
    ensures
        second@ == first@,
        after == between,
{
    if crate::workflow::store::run_in(before, first@) is None {
        let last = between.runs@.last();
        assert(between.runs@ =~= before.runs@.push(last));
        lemma_run_appended(before.runs@, last, first@, 0);
    }
}

proof fn lemma_run_kept(before: Seq<StoredRun>, after: Seq<StoredRun>, id: Seq<char>, i: int)
    requires
        0 <= i,
        after.len() == before.len(),
        forall|k: int|
            0 <= k < before.len() ==> (#[trigger] after[k]).snapshot.run.id@
                == before[k].snapshot.run.id@,
    ensures
        crate::workflow::store::run_index(after, id, i) == crate::workflow::store::run_index(
            before,
            id,
            i,
        ),
    decreases before.len() - i,
{
    if i < before.len() {
        assert(after[i].snapshot.run.id@ == before[i].snapshot.run.id@);
        lemma_run_kept(before, after, id, i + 1);
    }
}

proof fn lemma_record_kept(
    before: Seq<WorkflowNodeRecord>,
    after: Seq<WorkflowNodeRecord>,
    id: Seq<char>,
    i: int,
)
    requires
        0 <= i,
        after.len() == before.len(),
        forall|k: int|
            0 <= k < before.len() ==> (#[trigger] after[k]).node_id@ == before[k].node_id@,
    ensures
        crate::workflow::store::record_index(after, id, i)
            == crate::workflow::store::record_index(before, id, i),
        crate::workflow::store::record_index(before, id, i) matches Some(k) ==> i <= k
            < before.len(),
    decreases before.len() - i,
{
    if i < before.len() {
        assert(after[i].node_id@ == before[i].node_id@);
        lemma_record_kept(before, after, id, i + 1);
    }
}

/// A node that was moved is read back as it was moved: it is found where it was, and holds what
/// the transition says.
pub proof fn law_a_moved_node_is_read_back(
    before: RunTable,
    after: RunTable,
    run_id: Seq<char>,
    node_id: Seq<char>,
    state: NodeState,
    attempt: u32,
    agent_run_id: Option<String>,
    cost: Option<JsonValue>,
    error: Option<String>,
    now: String,
    r: Result<(), WorkflowStoreError>,
)
    requires
        crate::workflow::store::node_moved(
            before,
            after,
            run_id,
            node_id,
            state,
            attempt,
            agent_run_id,
            cost,
            error,
            now,
            r,
        ),
        r is Ok,
    ensures
        crate::workflow::store::record_place(after, run_id, node_id)
            == crate::workflow::store::record_place(before, run_id, node_id),
        crate::workflow::store::record_place(before, run_id, node_id) matches Some((i, n))
            && after.runs@[i].snapshot.nodes@[n] == crate::workflow::store::transitioned(
            before.runs@[i].snapshot.nodes@[n],
            state,
            attempt,
            agent_run_id,
            cost,
            error,
            now,
        ),
{
    let (i, n) = crate::workflow::store::record_place(before, run_id, node_id)->0;
    lemma_run_place(before.runs@, run_id, 0);
    let old_nodes = before.runs@[i].snapshot.nodes@;
    let new_nodes = after.runs@[i].snapshot.nodes@;
    lemma_record_kept(old_nodes, old_nodes, node_id, 0);
    assert forall|k: int| 0 <= k < before.runs@.len() implies (
    #[trigger] after.runs@[k]).snapshot.run.id@ == before.runs@[k].snapshot.run.id@ by {
        if k != i {
            assert(after.runs@[k] == before.runs@[k]);
        }
    }
    lemma_run_kept(before.runs@, after.runs@, run_id, 0);
    assert forall|k: int| 0 <= k < old_nodes.len() implies (#[trigger] new_nodes[k]).node_id@
        == old_nodes[k].node_id@ by {
        if k != n {
            assert(new_nodes[k] == old_nodes[k]);
        }
    }
    lemma_record_kept(old_nodes, new_nodes, node_id, 0);
}

/// A checkpoint that was recorded is the latest of its run.
pub proof fn law_a_recorded_checkpoint_is_the_latest(
    before: RunTable,
    after: RunTable,
    run_id: Seq<char>,
    id: Seq<char>,
    graph_signature: Seq<char>,
    state_artifact_id: Option<String>,
    r: Result<String, WorkflowStoreError>,
)
    requires
        crate::workflow::store::checkpointed(
            before,
            after,
            run_id,
            id,
            graph_signature,
            state_artifact_id,
            r,
        ),
        r is Ok,
    ensures
        crate::workflow::store::run_in(after, run_id) matches Some(i)
            && after.runs@[i].checkpoints@.len() > 0 && after.runs@[i].checkpoints@.last().id@ == id
            && after.runs@[i].checkpoints@.last().graph_signature@ == graph_signature
            && after.runs@[i].checkpoints@.last().state_artifact_id == state_artifact_id,
{
    let i = crate::workflow::store::run_in(before, run_id)->0;
    lemma_run_place(before.runs@, run_id, 0);
    assert forall|k: int| 0 <= k < before.runs@.len() implies (
    #[trigger] after.runs@[k]).snapshot.run.id@ == before.runs@[k].snapshot.run.id@ by {
        if k != i {
            assert(after.runs@[k] == before.runs@[k]);
        }
    }
    lemma_run_kept(before.runs@, after.runs@, run_id, 0);
}

} // verus!
