//! What holds of every record of a run, and of every way to find, move or reset one.
use crate::workflow::compile::{CompiledNode, CompiledWorkflow};
use crate::workflow::drive::{recovery_resets, stepped, ActionModel, DriveEvent, DriveModel};
use crate::workflow::drive::{DrivePhase, ResetKind};
use crate::workflow::json::JsonValue;
use crate::workflow::store::{
    blocked_pairs, blocked_reset, blocker_among, graph_fault, incomplete, interrupted_reset,
    is_blocked, next_resumable, node_blocker, node_ready, ready_ids, record_index, retried,
    run_index, state_among, state_of, transitioned, NodeState, StoredRun, WorkflowNodeRecord,
    WorkflowRunSnapshot, WorkflowRunState,
};
use vstd::prelude::*;

verus! {

proof fn lemma_state(nodes: Seq<WorkflowNodeRecord>, id: Seq<char>, n: int)
    requires
        0 <= n <= nodes.len(),
    ensures
        match state_among(nodes, id, n) {
            Some(s) => exists|k: int|
                0 <= k < n && (#[trigger] nodes[k]).node_id@ == id && nodes[k].state == s && forall|
                    j: int,
                |
                    k < j < n ==> (#[trigger] nodes[j]).node_id@ != id,
            None => forall|k: int| 0 <= k < n ==> (#[trigger] nodes[k]).node_id@ != id,
        },
    decreases n,
{
    if n > 0 {
        if nodes[n - 1].node_id@ == id {
            assert(nodes[n - 1].node_id@ == id);
        } else {
            lemma_state(nodes, id, n - 1);
        }
    }
}

/// The state of a node is that of its record; a node without a record has none.
pub proof fn law_a_state_is_that_of_the_record(
    snapshot: WorkflowRunSnapshot,
    id: Seq<char>,
    k: int,
)
    requires
        0 <= k < snapshot.nodes@.len(),
        snapshot.nodes@[k].node_id@ == id,
        forall|j: int|
            0 <= j < snapshot.nodes@.len() && j != k ==> (#[trigger] snapshot.nodes@[j]).node_id@
                != id,
    ensures
        state_of(snapshot, id) == Some(snapshot.nodes@[k].state),
        record_index(snapshot.nodes@, id, 0) == Some(k),
{
    lemma_state(snapshot.nodes@, id, snapshot.nodes@.len() as int);
    lemma_record(snapshot.nodes@, id, 0);
}

/// A node that has no record has no state.
pub proof fn law_unrecorded_nodes_have_no_state(snapshot: WorkflowRunSnapshot, id: Seq<char>)
    requires
        forall|j: int|
            0 <= j < snapshot.nodes@.len() ==> (#[trigger] snapshot.nodes@[j]).node_id@ != id,
    ensures
        state_of(snapshot, id) is None,
        record_index(snapshot.nodes@, id, 0) is None,
{
    lemma_state(snapshot.nodes@, id, snapshot.nodes@.len() as int);
    lemma_record(snapshot.nodes@, id, 0);
}

proof fn lemma_record(nodes: Seq<WorkflowNodeRecord>, id: Seq<char>, i: int)
    requires
        0 <= i <= nodes.len(),
    ensures
        match record_index(nodes, id, i) {
            Some(k) => i <= k < nodes.len() && nodes[k].node_id@ == id && forall|j: int|
                i <= j < k ==> (#[trigger] nodes[j]).node_id@ != id,
            None => forall|j: int| i <= j < nodes.len() ==> (#[trigger] nodes[j]).node_id@ != id,
        },
    decreases nodes.len() - i,
{
    if i < nodes.len() && nodes[i].node_id@ != id {
        lemma_record(nodes, id, i + 1);
    }
}

/// A run is found by its id, and not found only where no run has it.
pub proof fn law_runs_are_found_by_id(runs: Seq<StoredRun>, id: Seq<char>, i: int)
    requires
        0 <= i <= runs.len(),
    ensures
        match run_index(runs, id, i) {
            Some(k) => i <= k < runs.len() && runs[k].snapshot.run.id@ == id && forall|j: int|
                i <= j < k ==> (#[trigger] runs[j]).snapshot.run.id@ != id,
            None => forall|j: int|
                i <= j < runs.len() ==> (#[trigger] runs[j]).snapshot.run.id@ != id,
        },
    decreases runs.len() - i,
{
    if i < runs.len() && runs[i].snapshot.run.id@ != id {
        law_runs_are_found_by_id(runs, id, i + 1);
    }
}

/// A transition records what it was given and keeps the rest: a missing agent run or cost leaves
/// the recorded one, the first start counts, and a node has an end exactly while it is completed,
/// failed or skipped.
pub proof fn law_a_transition_records_what_it_is_given(
    record: WorkflowNodeRecord,
    state: NodeState,
    attempt: u32,
    agent_run_id: Option<String>,
    cost: Option<JsonValue>,
    error: Option<String>,
    now: String,
)
    ensures
        ({
            let after = transitioned(record, state, attempt, agent_run_id, cost, error, now);
            &&& after.node_id == record.node_id
            &&& after.topo_order == record.topo_order
            &&& after.state == state
            &&& after.attempt == attempt
            &&& after.error == error
            &&& agent_run_id is Some ==> after.agent_run_id == agent_run_id
            &&& agent_run_id is None ==> after.agent_run_id == record.agent_run_id
            &&& cost is Some ==> after.cost == cost
            &&& cost is None ==> after.cost == record.cost
            &&& record.started_at is Some ==> after.started_at == record.started_at
            &&& record.started_at is None && state == NodeState::Running ==> after.started_at
                == Some(now)
            &&& record.started_at is None && state != NodeState::Running
                ==> after.started_at is None
            &&& state == NodeState::Completed || state == NodeState::Failed || state
                == NodeState::Skipped ==> after.ended_at == Some(now)
            &&& state == NodeState::Pending || state == NodeState::Running || state
                == NodeState::WaitingApproval || state == NodeState::Blocked
                ==> after.ended_at is None
        }),
{
}

/// A reset makes a node pending and keeps what it is: an interrupted one keeps its attempt and
/// nothing of the execution; a blocked one keeps what it spent and why it stopped, so that the
/// budget is judged by it; a retried one starts over.
pub proof fn law_a_reset_makes_a_node_pending(record: WorkflowNodeRecord, attempt: u32)
    ensures
        ({
            let again = interrupted_reset(record, attempt);
            &&& again.node_id == record.node_id && again.topo_order == record.topo_order
            &&& again.state == NodeState::Pending
            &&& again.attempt == attempt
            &&& again.started_at == record.started_at
            &&& again.agent_run_id is None && again.cost is None && again.error is None
            &&& again.ended_at is None
        }),
        ({
            let again = blocked_reset(record);
            &&& again.node_id == record.node_id && again.topo_order == record.topo_order
            &&& again.state == NodeState::Pending
            &&& again.attempt == record.attempt
            &&& again.cost == record.cost
            &&& again.error == record.error
            &&& again.agent_run_id == record.agent_run_id
            &&& again.started_at == record.started_at
            &&& again.ended_at is None
        }),
        ({
            let again = retried(record);
            &&& again.node_id == record.node_id && again.topo_order == record.topo_order
            &&& again.state == NodeState::Pending
            &&& again.attempt == 0
            &&& again.agent_run_id is None && again.cost is None && again.error is None
            &&& again.started_at is None && again.ended_at is None
        }),
{
}

/// Whether `at` lists places below `n` in ascending order, and all of those that `p` admits and
/// no others.
pub open spec fn picks(at: Seq<int>, n: int, p: spec_fn(int) -> bool) -> bool {
    &&& forall|a: int| 0 <= a < at.len() ==> 0 <= #[trigger] at[a] < n && p(at[a])
    &&& forall|a: int, b: int| 0 <= a < b < at.len() ==> #[trigger] at[a] < #[trigger] at[b]
    &&& forall|k: int| 0 <= k < n && #[trigger] p(k) ==> at.contains(k)
}

pub proof fn lemma_picks_more(at: Seq<int>, n: int, p: spec_fn(int) -> bool)
    requires
        0 <= n,
        picks(at, n, p),
    ensures
        p(n) ==> picks(at.push(n), n + 1, p),
        !p(n) ==> picks(at, n + 1, p),
{
    if p(n) {
        let more = at.push(n);
        assert forall|k: int| 0 <= k < n + 1 && #[trigger] p(k) implies more.contains(k) by {
            if k < n {
                let a = at.index_of(k);
                assert(more[a] == k);
            } else {
                assert(more[at.len() as int] == n);
            }
        }
    } else {
        assert forall|k: int| 0 <= k < n + 1 && #[trigger] p(k) implies at.contains(k) by {
            assert(k != n);
        }
    }
}

/// The places of the records whose node was under way: running, waiting for an approval, or
/// blocked.
pub open spec fn under_way(nodes: Seq<WorkflowNodeRecord>) -> spec_fn(int) -> bool {
    |k: int|
        nodes[k].state == NodeState::Running || nodes[k].state == NodeState::WaitingApproval
            || nodes[k].state == NodeState::Blocked
}

/// Whether `reset` is the one that a record asks for: under its node, with its attempt, and of the
/// kind for a blocked node where it is blocked.
pub open spec fn resets(reset: (Seq<char>, u32, ResetKind), record: WorkflowNodeRecord) -> bool {
    &&& reset.0 == record.node_id@
    &&& reset.1 == record.attempt
    &&& reset.2 == ResetKind::Blocked <==> record.state == NodeState::Blocked
    &&& reset.2 == ResetKind::Interrupted <==> record.state != NodeState::Blocked
}

proof fn lemma_resets(nodes: Seq<WorkflowNodeRecord>, n: int) -> (at: Seq<int>)
    requires
        0 <= n <= nodes.len(),
    ensures
        picks(at, n, under_way(nodes)),
        at.len() == recovery_resets(nodes, n).len(),
        forall|a: int|
            0 <= a < at.len() ==> resets(
                recovery_resets(nodes, n)[a],
                nodes[#[trigger] at[a]],
            ),
    decreases n,
{
    if n == 0 {
        Seq::empty()
    } else {
        let at = lemma_resets(nodes, n - 1);
        lemma_picks_more(at, n - 1, under_way(nodes));
        if under_way(nodes)(n - 1) {
            at.push(n - 1)
        } else {
            at
        }
    }
}

/// A drive that goes on with a run first resets exactly the nodes that were under way when it was
/// last driven: those recorded as running, as waiting for an approval, or as blocked, each with its
/// recorded attempt, in the order of the records.
pub proof fn law_a_drive_resets_what_was_under_way(
    m: DriveModel,
    compiled: CompiledWorkflow,
    run_id: Seq<char>,
    snapshot: WorkflowRunSnapshot,
)
    requires
        m.phase == DrivePhase::Entering,
        snapshot.run.graph_signature@ == crate::workflow::compile::signature_of(compiled),
        snapshot.run.state == WorkflowRunState::Pending || snapshot.run.state
            == WorkflowRunState::Running,
    ensures
        stepped(m, compiled, run_id, DriveEvent::Loaded(Some(snapshot))).1 matches ActionModel::Reset(
            list,
        ) && exists|at: Seq<int>|
            {
                &&& #[trigger] picks(at, snapshot.nodes@.len() as int, under_way(snapshot.nodes@))
                &&& at.len() == list.len()
                &&& forall|a: int|
                    0 <= a < at.len() ==> resets(list[a], snapshot.nodes@[#[trigger] at[a]])
            },
{
    let at = lemma_resets(snapshot.nodes@, snapshot.nodes@.len() as int);
    assert(picks(at, snapshot.nodes@.len() as int, under_way(snapshot.nodes@)));
}

/// A node that was under way is named by the resets, whatever else the run holds; one that is
/// pending, completed, failed or skipped is not named for its record.
pub proof fn law_no_interrupted_node_is_left_behind(
    m: DriveModel,
    compiled: CompiledWorkflow,
    run_id: Seq<char>,
    snapshot: WorkflowRunSnapshot,
    k: int,
)
    requires
        m.phase == DrivePhase::Entering,
        stepped(m, compiled, run_id, DriveEvent::Loaded(Some(snapshot))).1 is Reset,
        0 <= k < snapshot.nodes@.len(),
        forall|j: int|
            0 <= j < snapshot.nodes@.len() && j != k ==> (#[trigger] snapshot.nodes@[j]).node_id@
                != snapshot.nodes@[k].node_id@,
    ensures
        ({
            let list = stepped(m, compiled, run_id, DriveEvent::Loaded(Some(snapshot))).1->Reset_0;
            let record = snapshot.nodes@[k];
            &&& list.contains((record.node_id@, record.attempt, ResetKind::Interrupted))
                <==> record.state == NodeState::Running || record.state
                == NodeState::WaitingApproval
            &&& list.contains((record.node_id@, record.attempt, ResetKind::Blocked))
                <==> record.state == NodeState::Blocked
        }),
{
    let nodes = snapshot.nodes@;
    let n = nodes.len() as int;
    let at = lemma_resets(nodes, n);
    let list = recovery_resets(nodes, n);
    let record = nodes[k];
    let one = (record.node_id@, record.attempt, ResetKind::Interrupted);
    let other = (record.node_id@, record.attempt, ResetKind::Blocked);
    if under_way(nodes)(k) {
        assert(at.contains(k));
        let a = at.index_of(k);
        assert(resets(list[a], nodes[at[a]]));
        assert(list[a] == if record.state == NodeState::Blocked {
            other
        } else {
            one
        });
    }
    if list.contains(one) {
        let a = list.index_of(one);
        assert(resets(list[a], nodes[at[a]]));
        assert(nodes[at[a]].node_id@ == record.node_id@);
        assert(at[a] == k);
    }
    if list.contains(other) {
        let a = list.index_of(other);
        assert(resets(list[a], nodes[at[a]]));
        assert(nodes[at[a]].node_id@ == record.node_id@);
        assert(at[a] == k);
    }
}

/// Once the resets are applied every node is pending or done: none is left running, waiting or
/// blocked.
pub proof fn law_after_the_resets_nothing_is_under_way(
    before: Seq<WorkflowNodeRecord>,
    after: Seq<WorkflowNodeRecord>,
    k: int,
)
    requires
        after.len() == before.len(),
        0 <= k < before.len(),
        forall|i: int, j: int|
            0 <= i < j < before.len() ==> (#[trigger] before[i]).node_id@ != (
            #[trigger] before[j]).node_id@,
        // Each reset was applied to the record it names, and nothing else was.
        forall|j: int, r: (Seq<char>, u32, ResetKind)|
            0 <= j < before.len() && #[trigger] recovery_resets(
                before,
                before.len() as int,
            ).contains(r) && r.0 == (#[trigger] before[j]).node_id@ ==> after[j] == match r.2 {
                ResetKind::Interrupted => interrupted_reset(before[j], r.1),
                ResetKind::Blocked => blocked_reset(before[j]),
            },
        forall|j: int|
            0 <= j < before.len() && (forall|r: (Seq<char>, u32, ResetKind)|
                #[trigger] recovery_resets(before, before.len() as int).contains(r) ==> r.0
                    != before[j].node_id@) ==> #[trigger] after[j] == before[j],
    ensures
        after[k].state == NodeState::Pending || after[k].state == NodeState::Completed
            || after[k].state == NodeState::Failed || after[k].state == NodeState::Skipped,
        before[k].state == NodeState::Completed || before[k].state == NodeState::Failed
            || before[k].state == NodeState::Skipped ==> after[k] == before[k],
{
    let n = before.len() as int;
    let at = lemma_resets(before, n);
    let list = recovery_resets(before, n);
    if under_way(before)(k) {
        assert(at.contains(k));
        let a = at.index_of(k);
        assert(resets(list[a], before[at[a]]));
        assert(list.contains(list[a]));
        assert(list[a].0 == before[k].node_id@);
    } else {
        assert forall|r: (Seq<char>, u32, ResetKind)| #[trigger] list.contains(r) implies r.0
            != before[k].node_id@ by {
            let a = list.index_of(r);
            assert(resets(list[a], before[at[a]]));
            if at[a] < k {
                assert(before[at[a]].node_id@ != before[k].node_id@);
            } else if k < at[a] {
                assert(before[k].node_id@ != before[at[a]].node_id@);
            } else {
                assert(under_way(before)(at[a]));
            }
        }
        assert(after[k] == before[k]);
    }
}

/// A node is ready exactly when it is recorded as pending and everything it depends on as
/// completed.
pub proof fn law_ready_means_pending_and_nothing_outstanding(
    node: CompiledNode,
    snapshot: WorkflowRunSnapshot,
)
    ensures
        node_ready(node, snapshot) ==> state_of(snapshot, node.id@) == Some(NodeState::Pending),
        forall|d: int|
            node_ready(node, snapshot) && 0 <= d < node.depends_on@.len() ==> state_of(
                snapshot,
                (#[trigger] node.depends_on@[d])@,
            ) == Some(NodeState::Completed),
        state_of(snapshot, node.id@) == Some(NodeState::Pending) && (forall|d: int|
            0 <= d < node.depends_on@.len() ==> state_of(
                snapshot,
                (#[trigger] node.depends_on@[d])@,
            ) == Some(NodeState::Completed)) ==> node_ready(node, snapshot),
{
}

/// The places of the nodes that are recorded as pending and whose dependencies are all recorded
/// as completed.
pub open spec fn runnable(nodes: Seq<CompiledNode>, snapshot: WorkflowRunSnapshot) -> spec_fn(
    int,
) -> bool {
    |k: int|
        state_of(snapshot, nodes[k].id@) == Some(NodeState::Pending) && forall|d: int|
            0 <= d < nodes[k].depends_on@.len() ==> state_of(
                snapshot,
                (#[trigger] nodes[k].depends_on@[d])@,
            ) == Some(NodeState::Completed)
}

proof fn lemma_ready(nodes: Seq<CompiledNode>, snapshot: WorkflowRunSnapshot, n: int) -> (at: Seq<
    int,
>)
    requires
        0 <= n <= nodes.len(),
    ensures
        picks(at, n, runnable(nodes, snapshot)),
        at.len() == ready_ids(nodes, snapshot, n).len(),
        forall|a: int|
            0 <= a < at.len() ==> ready_ids(nodes, snapshot, n)[a] == nodes[#[trigger] at[a]].id@,
    decreases n,
{
    let p = runnable(nodes, snapshot);
    if n == 0 {
        Seq::empty()
    } else {
        let at = lemma_ready(nodes, snapshot, n - 1);
        lemma_picks_more(at, n - 1, p);
        if p(n - 1) {
            at.push(n - 1)
        } else {
            at
        }
    }
}

/// The frontier lists the ready nodes, each once, in compiled order.
pub proof fn law_the_frontier_is_in_compiled_order(
    compiled: CompiledWorkflow,
    snapshot: WorkflowRunSnapshot,
)
    ensures
        exists|at: Seq<int>|
            {
                &&& #[trigger] picks(
                    at,
                    compiled.nodes@.len() as int,
                    runnable(compiled.nodes@, snapshot),
                )
                &&& at.len() == crate::workflow::store::frontier(compiled, snapshot).len()
                &&& forall|a: int|
                    0 <= a < at.len() ==> crate::workflow::store::frontier(compiled, snapshot)[a]
                        == compiled.nodes@[#[trigger] at[a]].id@
            },
{
    let at = lemma_ready(compiled.nodes@, snapshot, compiled.nodes@.len() as int);
    assert(picks(
        at,
        compiled.nodes@.len() as int,
        runnable(compiled.nodes@, snapshot),
    ));
}

/// Runs that are still to be driven are those that are pending, running or paused; they are listed
/// in the order of the table.
pub proof fn law_incomplete_runs_are_those_still_open(runs: Seq<StoredRun>, n: int)
    requires
        0 <= n <= runs.len(),
    ensures
        picks(
            incomplete(runs, n),
            n,
            |k: int|
                runs[k].snapshot.run.state == WorkflowRunState::Pending
                    || runs[k].snapshot.run.state == WorkflowRunState::Running
                    || runs[k].snapshot.run.state == WorkflowRunState::Paused,
        ),
    decreases n,
{
    let p = |k: int|
        runs[k].snapshot.run.state == WorkflowRunState::Pending || runs[k].snapshot.run.state
            == WorkflowRunState::Running || runs[k].snapshot.run.state == WorkflowRunState::Paused;
    if n > 0 {
        law_incomplete_runs_are_those_still_open(runs, n - 1);
        lemma_picks_more(incomplete(runs, n - 1), n - 1, p);
    }
}

/// A resume goes on with the first node that is neither done nor blocked: everything recorded
/// before it is completed, failed or skipped, or can never become ready.
pub proof fn law_a_resume_goes_on_where_the_run_stopped(
    nodes: Seq<WorkflowNodeRecord>,
    blocked: Seq<(Seq<char>, Seq<char>)>,
    k: int,
)
    requires
        0 <= k < nodes.len(),
        nodes[k].state == NodeState::Pending || nodes[k].state == NodeState::Running
            || nodes[k].state == NodeState::WaitingApproval || nodes[k].state == NodeState::Blocked,
        forall|i: int| 0 <= i < blocked.len() ==> (#[trigger] blocked[i]).0 != nodes[k].node_id@,
        forall|j: int|
            0 <= j < k ==> (#[trigger] nodes[j]).state == NodeState::Completed || nodes[j].state
                == NodeState::Failed || nodes[j].state == NodeState::Skipped || exists|i: int|
                0 <= i < blocked.len() && (#[trigger] blocked[i]).0 == nodes[j].node_id@,
    ensures
        next_resumable(nodes, blocked, 0) == Some(nodes[k].node_id@),
{
    lemma_resumes(nodes, blocked, 0, k);
}

proof fn lemma_resumes(
    nodes: Seq<WorkflowNodeRecord>,
    blocked: Seq<(Seq<char>, Seq<char>)>,
    i: int,
    k: int,
)
    requires
        0 <= i <= k < nodes.len(),
        !crate::workflow::store::node_over(nodes[k].state),
        !is_blocked(blocked, nodes[k].node_id@),
        forall|j: int|
            0 <= j < k ==> crate::workflow::store::node_over((#[trigger] nodes[j]).state)
                || is_blocked(blocked, nodes[j].node_id@),
    ensures
        next_resumable(nodes, blocked, i) == Some(nodes[k].node_id@),
    decreases k - i,
{
    if i < k {
        assert(crate::workflow::store::node_over(nodes[i].state) || is_blocked(
            blocked,
            nodes[i].node_id@,
        ));
        lemma_resumes(nodes, blocked, i + 1, k);
    }
}

/// Nothing is left to resume only where every node is done or blocked.
pub proof fn law_nothing_to_resume_means_nothing_open(
    nodes: Seq<WorkflowNodeRecord>,
    blocked: Seq<(Seq<char>, Seq<char>)>,
    j: int,
)
    requires
        next_resumable(nodes, blocked, 0) is None,
        0 <= j < nodes.len(),
    ensures
        nodes[j].state == NodeState::Completed || nodes[j].state == NodeState::Failed
            || nodes[j].state == NodeState::Skipped || exists|i: int|
            0 <= i < blocked.len() && (#[trigger] blocked[i]).0 == nodes[j].node_id@,
{
    crate::workflow::store_laws::law_resume_skips_finished_and_blocked(nodes, blocked, 0);
}

/// A graph is refused exactly when its signature is not the recorded one, and the refusal names
/// both.
pub proof fn law_only_the_recorded_graph_is_accepted(
    snapshot: WorkflowRunSnapshot,
    compiled: CompiledWorkflow,
)
    ensures
        ({
            let recorded = snapshot.run.graph_signature@;
            let current = crate::workflow::compile::signature_of(compiled);
            &&& graph_fault(snapshot, compiled) is None <==> recorded == current
            &&& graph_fault(snapshot, compiled) matches Some(fault) ==> fault
                == (crate::workflow::store::StoreFault::GraphSignatureChanged {
                expected: recorded,
                found: current,
            })
        }),
{
}

/// A node is blocked where something it depends on failed or was skipped, and where something it
/// depends on is itself blocked by an earlier node.
pub proof fn law_failure_blocks_what_depends_on_it(
    nodes: Seq<CompiledNode>,
    snapshot: WorkflowRunSnapshot,
    k: int,
    d: int,
)
    requires
        0 <= k < nodes.len(),
        0 <= d < nodes[k].depends_on@.len(),
        ({
            let dep = nodes[k].depends_on@[d]@;
            ||| state_of(snapshot, dep) == Some(NodeState::Failed)
            ||| state_of(snapshot, dep) == Some(NodeState::Skipped)
            ||| exists|j: int|
                0 <= j < k && (#[trigger] nodes[j]).id@ == dep && node_blocker(
                    nodes,
                    snapshot,
                    j,
                    0,
                ) is Some
        }),
    ensures
        node_blocker(nodes, snapshot, k, 0) is Some,
{
    let dep = nodes[k].depends_on@[d]@;
    if !(state_of(snapshot, dep) == Some(NodeState::Failed) || state_of(snapshot, dep) == Some(
        NodeState::Skipped,
    )) {
        let j = choose|j: int|
            0 <= j < k && (#[trigger] nodes[j]).id@ == dep && node_blocker(
                nodes,
                snapshot,
                j,
                0,
            ) is Some;
        lemma_blocker_seen(nodes, snapshot, dep, j, k);
    }
    lemma_blocker_from(nodes, snapshot, k, 0, d);
}

proof fn lemma_blocker_seen(
    nodes: Seq<CompiledNode>,
    snapshot: WorkflowRunSnapshot,
    id: Seq<char>,
    j: int,
    n: int,
)
    requires
        0 <= j < n <= nodes.len(),
        nodes[j].id@ == id,
        node_blocker(nodes, snapshot, j, 0) is Some,
    ensures
        blocker_among(nodes, snapshot, id, n) is Some,
    decreases n,
{
    if j < n - 1 {
        lemma_blocker_seen(nodes, snapshot, id, j, n - 1);
    }
}

proof fn lemma_blocker_from(
    nodes: Seq<CompiledNode>,
    snapshot: WorkflowRunSnapshot,
    k: int,
    e: int,
    d: int,
)
    requires
        0 <= k < nodes.len(),
        0 <= e <= d < nodes[k].depends_on@.len(),
        state_of(snapshot, nodes[k].depends_on@[d]@) == Some(NodeState::Failed) || state_of(
            snapshot,
            nodes[k].depends_on@[d]@,
        ) == Some(NodeState::Skipped) || blocker_among(
            nodes,
            snapshot,
            nodes[k].depends_on@[d]@,
            k,
        ) is Some,
    ensures
        node_blocker(nodes, snapshot, k, e) is Some,
    decreases d - e,
{
    if e < d {
        lemma_blocker_from(nodes, snapshot, k, e + 1, d);
    }
}

/// Whether each node of a path depends on the next one.
pub open spec fn leads_back(nodes: Seq<CompiledNode>, path: Seq<Seq<char>>) -> bool {
    forall|i: int| #![trigger path[i]]
        0 <= i < path.len() - 1 ==> exists|k: int|
            0 <= k < nodes.len() && (#[trigger] nodes[k]).id@ == path[i] && crate::text::texts(
                nodes[k].depends_on@,
            ).contains(path[i + 1])
}

proof fn lemma_blame(
    nodes: Seq<CompiledNode>,
    snapshot: WorkflowRunSnapshot,
    k: int,
    d: int,
) -> (path: Seq<Seq<char>>)
    requires
        0 <= k < nodes.len(),
        0 <= d,
        node_blocker(nodes, snapshot, k, d) is Some,
    ensures
        path.len() >= 2,
        path[0] == nodes[k].id@,
        path.last() == node_blocker(nodes, snapshot, k, d)->0,
        leads_back(nodes, path),
        state_of(snapshot, path.last()) == Some(NodeState::Failed) || state_of(
            snapshot,
            path.last(),
        ) == Some(NodeState::Skipped),
    decreases k, 2int, nodes[k].depends_on@.len() - d,
{
    let deps = nodes[k].depends_on@;
    let names = crate::text::texts(deps);
    let dep = deps[d]@;
    if crate::workflow::store::dead_end(state_of(snapshot, dep)) {
        let path = seq![nodes[k].id@, dep];
        assert(names[d] == dep);
        assert forall|i: int| #![trigger path[i]] 0 <= i < path.len() - 1 implies exists|m: int|
            0 <= m < nodes.len() && (#[trigger] nodes[m]).id@ == path[i] && crate::text::texts(
                nodes[m].depends_on@,
            ).contains(path[i + 1]) by {
            assert(nodes[k].id@ == path[i]);
        }
        path
    } else if blocker_among(nodes, snapshot, dep, k) is Some {
        let rest = lemma_blame_among(nodes, snapshot, dep, k);
        let path = seq![nodes[k].id@] + rest;
        assert(names[d] == dep);
        assert forall|i: int| #![trigger path[i]] 0 <= i < path.len() - 1 implies exists|m: int|
            0 <= m < nodes.len() && (#[trigger] nodes[m]).id@ == path[i] && crate::text::texts(
                nodes[m].depends_on@,
            ).contains(path[i + 1]) by {
            if i == 0 {
                assert(nodes[k].id@ == path[0]);
                assert(path[1] == rest[0]);
            } else {
                assert(path[i] == rest[i - 1] && path[i + 1] == rest[i]);
            }
        }
        assert(path.last() == rest.last());
        path
    } else {
        lemma_blame(nodes, snapshot, k, d + 1)
    }
}

proof fn lemma_blame_among(
    nodes: Seq<CompiledNode>,
    snapshot: WorkflowRunSnapshot,
    id: Seq<char>,
    n: int,
) -> (path: Seq<Seq<char>>)
    requires
        0 <= n <= nodes.len(),
        blocker_among(nodes, snapshot, id, n) is Some,
    ensures
        path.len() >= 2,
        path[0] == id,
        path.last() == blocker_among(nodes, snapshot, id, n)->0,
        leads_back(nodes, path),
        state_of(snapshot, path.last()) == Some(NodeState::Failed) || state_of(
            snapshot,
            path.last(),
        ) == Some(NodeState::Skipped),
    decreases n, 1int, 0int,
{
    if nodes[n - 1].id@ == id && node_blocker(nodes, snapshot, n - 1, 0) is Some {
        lemma_blame(nodes, snapshot, n - 1, 0)
    } else {
        lemma_blame_among(nodes, snapshot, id, n - 1)
    }
}

/// What is blamed for a blocked node did fail or was skipped, and the node depends on it, directly
/// or through others.
pub proof fn law_a_blocker_is_to_blame(
    nodes: Seq<CompiledNode>,
    snapshot: WorkflowRunSnapshot,
    k: int,
)
    requires
        0 <= k < nodes.len(),
        node_blocker(nodes, snapshot, k, 0) is Some,
    ensures
        ({
            let blocker = node_blocker(nodes, snapshot, k, 0)->0;
            &&& state_of(snapshot, blocker) == Some(NodeState::Failed) || state_of(
                snapshot,
                blocker,
            ) == Some(NodeState::Skipped)
            &&& exists|path: Seq<Seq<char>>|
                path.len() >= 2 && path[0] == nodes[k].id@ && path.last() == blocker
                    && #[trigger] leads_back(nodes, path)
        }),
{
    let path = lemma_blame(nodes, snapshot, k, 0);
    assert(leads_back(nodes, path));
}

/// The blocked nodes that are reported are those with a blocker that are not done yet, each with
/// what blocks it, in compiled order.
pub proof fn law_every_blocked_node_is_reported(
    nodes: Seq<CompiledNode>,
    snapshot: WorkflowRunSnapshot,
    n: int,
) -> (at: Seq<int>)
    requires
        0 <= n <= nodes.len(),
    ensures
        picks(
            at,
            n,
            |k: int|
                node_blocker(nodes, snapshot, k, 0) is Some && (state_of(snapshot, nodes[k].id@)
                    == Some(NodeState::Pending) || state_of(snapshot, nodes[k].id@) == Some(
                    NodeState::Running,
                ) || state_of(snapshot, nodes[k].id@) == Some(NodeState::WaitingApproval)
                    || state_of(snapshot, nodes[k].id@) == Some(NodeState::Blocked)),
        ),
        at.len() == blocked_pairs(nodes, snapshot, n).len(),
        forall|a: int|
            0 <= a < at.len() ==> blocked_pairs(nodes, snapshot, n)[a] == (
                nodes[#[trigger] at[a]].id@,
                node_blocker(nodes, snapshot, at[a], 0)->0,
            ),
    decreases n,
{
    let p = |k: int|
        node_blocker(nodes, snapshot, k, 0) is Some && (state_of(snapshot, nodes[k].id@) == Some(
            NodeState::Pending,
        ) || state_of(snapshot, nodes[k].id@) == Some(NodeState::Running) || state_of(
            snapshot,
            nodes[k].id@,
        ) == Some(NodeState::WaitingApproval) || state_of(snapshot, nodes[k].id@) == Some(
            NodeState::Blocked,
        ));
    if n == 0 {
        Seq::empty()
    } else {
        let at = law_every_blocked_node_is_reported(nodes, snapshot, n - 1);
        lemma_picks_more(at, n - 1, p);
        if p(n - 1) {
            at.push(n - 1)
        } else {
            at
        }
    }
}

} // verus!
