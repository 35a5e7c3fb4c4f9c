//! What each step of a drive does, phase by phase.
use crate::workflow::compile::{node_index, CompiledNode, CompiledWorkflow};
use crate::workflow::drive::{
    current, stepped, ActionModel, DriveEvent, DriveModel, DrivePhase, NodeOutcome,
};
use crate::workflow::store::{NodeState, StoreFault, WorkflowRunSnapshot, WorkflowRunState};
use vstd::prelude::*;

verus! {

/// A run that was completed, failed, cancelled or paused is not driven: the drive ends with the
/// state it found. One that is pending or running is, if its graph is the recorded one. A run
/// that does not exist is refused, and so is another graph.
pub proof fn law_only_open_runs_are_driven(
    m: DriveModel,
    compiled: CompiledWorkflow,
    run_id: Seq<char>,
    snapshot: WorkflowRunSnapshot,
)
    requires
        m.phase == DrivePhase::Entering,
    ensures
        ({
            let (next, action) = stepped(
                m,
                compiled,
                run_id,
                DriveEvent::Loaded(Some(snapshot)),
            );
            let same = snapshot.run.graph_signature@ == crate::workflow::compile::signature_of(
                compiled,
            );
            let state = snapshot.run.state;
            &&& !same ==> action is Fail && next.phase == DrivePhase::Over
            &&& same && (state == WorkflowRunState::Completed || state == WorkflowRunState::Failed
                || state == WorkflowRunState::Cancelled || state == WorkflowRunState::Paused)
                ==> action == ActionModel::Finish(state) && next.phase == DrivePhase::Over
            &&& same && (state == WorkflowRunState::Pending || state == WorkflowRunState::Running)
                ==> action is Reset && next.phase == DrivePhase::Resetting
        }),
        stepped(m, compiled, run_id, DriveEvent::Loaded(None)).1 == ActionModel::Fail(
            StoreFault::NotFound(run_id),
        ),
{
}

/// Once the resets are applied the run is set running, from pending or running alone; and if that
/// succeeds the first round begins.
pub proof fn law_a_drive_starts_its_run(
    m: DriveModel,
    compiled: CompiledWorkflow,
    run_id: Seq<char>,
)
    requires
        m.phase == DrivePhase::Resetting,
    ensures
        ({
            let (starting, start) = stepped(m, compiled, run_id, DriveEvent::Done);
            let (round, action) = stepped(starting, compiled, run_id, DriveEvent::Affected(true));
            &&& start matches ActionModel::SetRunState { allowed, to } && to
                == WorkflowRunState::Running && forall|s: WorkflowRunState|
                #[trigger] allowed.contains(s) <==> s == WorkflowRunState::Pending || s
                    == WorkflowRunState::Running
            &&& action == ActionModel::Load
            &&& round.phase == DrivePhase::Round
        }),
{
    let allowed = seq![WorkflowRunState::Pending, WorkflowRunState::Running];
    assert(allowed[0] == WorkflowRunState::Pending);
    assert(allowed[1] == WorkflowRunState::Running);
}

/// A round stops for a pause and for a cancellation, and for nothing else: otherwise it takes up
/// every ready node, the first one first, or where none is ready asks how the run ended.
pub proof fn law_a_round_takes_up_every_ready_node(
    m: DriveModel,
    compiled: CompiledWorkflow,
    run_id: Seq<char>,
    snapshot: WorkflowRunSnapshot,
)
    requires
        m.phase == DrivePhase::Round,
    ensures
        ({
            let (next, action) = stepped(
                m,
                compiled,
                run_id,
                DriveEvent::Loaded(Some(snapshot)),
            );
            let ready = crate::workflow::store::frontier(compiled, snapshot);
            let state = snapshot.run.state;
            if state == WorkflowRunState::Paused || state == WorkflowRunState::Cancelled {
                action == ActionModel::Finish(state) && next.phase == DrivePhase::Over
            } else {
                &&& action == ActionModel::Load
                &&& ready.len() > 0 ==> next.phase == DrivePhase::Preparing && next.queue == ready
                    && next.at == 0
                &&& ready.len() == 0 ==> next.phase == DrivePhase::Finishing
            }
        }),
{
}

proof fn lemma_index(nodes: Seq<CompiledNode>, id: Seq<char>, k: int)
    requires
        0 <= k,
    ensures
        match node_index(nodes, id, k) {
            Some(i) => k <= i < nodes.len() && nodes[i].id@ == id,
            None => forall|i: int| k <= i < nodes.len() ==> (#[trigger] nodes[i]).id@ != id,
        },
    decreases nodes.len() - k,
{
    if k < nodes.len() && nodes[k].id@ != id {
        lemma_index(nodes, id, k + 1);
    }
}

/// A node is found by its id, and not found only where no node has it.
pub proof fn law_nodes_are_found_by_id(nodes: Seq<CompiledNode>, id: Seq<char>)
    ensures
        match node_index(nodes, id, 0) {
            Some(i) => 0 <= i < nodes.len() && nodes[i].id@ == id,
            None => forall|i: int| 0 <= i < nodes.len() ==> (#[trigger] nodes[i]).id@ != id,
        },
{
    lemma_index(nodes, id, 0);
}

/// A node is recorded as running before it is executed, and what is executed is the node of the
/// queue that the drive is at, under the recorded attempt.
pub proof fn law_a_node_is_recorded_before_it_runs(
    m: DriveModel,
    compiled: CompiledWorkflow,
    run_id: Seq<char>,
    loaded: Option<WorkflowRunSnapshot>,
)
    requires
        m.phase == DrivePhase::Preparing,
        crate::workflow::drive::on_track(m, compiled),
    ensures
        ({
            let (launching, record) = stepped(m, compiled, run_id, DriveEvent::Loaded(loaded));
            let (executing, execute) = stepped(launching, compiled, run_id, DriveEvent::Done);
            &&& record matches ActionModel::Record {
                node_id,
                state,
                attempt,
                cost,
                error,
                warnings,
                agent_run_id,
            } && node_id == m.queue[m.at] && state == NodeState::Running && attempt
                == launching.attempt && cost is None && error is None && warnings.len() == 0
                && agent_run_id is None
            &&& execute matches ActionModel::Execute { node, attempt } && 0 <= node
                < compiled.nodes@.len() && compiled.nodes@[node].id@ == m.queue[m.at] && attempt
                == launching.attempt
            &&& executing.phase == DrivePhase::Executing
            &&& executing.at == m.at && executing.queue == m.queue
            &&& launching.attempt >= 1
        }),
{
    lemma_index(compiled.nodes@, m.queue[m.at], 0);
    assert(node_index(compiled.nodes@, m.queue[m.at], 0) is Some);
}

/// A node that was never attempted starts with its first attempt.
pub proof fn law_the_first_attempt_is_the_first(
    m: DriveModel,
    compiled: CompiledWorkflow,
    run_id: Seq<char>,
    loaded: Option<WorkflowRunSnapshot>,
)
    requires
        m.phase == DrivePhase::Preparing,
        loaded matches Some(snapshot) ==> forall|k: int|
            0 <= k < snapshot.nodes@.len() && (#[trigger] snapshot.nodes@[k]).node_id@
                == m.queue[m.at] ==> snapshot.nodes@[k].attempt <= 1,
    ensures
        stepped(m, compiled, run_id, DriveEvent::Loaded(loaded)).0.attempt == 1,
{
    if let Some(snapshot) = loaded {
        lemma_record(snapshot.nodes@, m.queue[m.at], 0);
    }
}

proof fn lemma_record(
    nodes: Seq<crate::workflow::store::WorkflowNodeRecord>,
    id: Seq<char>,
    i: int,
)
    requires
        0 <= i,
    ensures
        crate::workflow::store::record_index(nodes, id, i) matches Some(k) ==> i <= k < nodes.len()
            && nodes[k].node_id@ == id,
    decreases nodes.len() - i,
{
    if i < nodes.len() && nodes[i].node_id@ != id {
        lemma_record(nodes, id, i + 1);
    }
}

/// An outcome is recorded as it came: a success with its agent run, its cost and its warnings, a
/// block with its reason and its cost, and a failure that is not retried with its error.
pub proof fn law_outcomes_are_recorded_as_they_came(
    m: DriveModel,
    compiled: CompiledWorkflow,
    run_id: Seq<char>,
    outcome: NodeOutcome,
)
    requires
        m.phase == DrivePhase::Executing,
    ensures
        ({
            let (next, action) = stepped(m, compiled, run_id, DriveEvent::Outcome(outcome));
            match outcome {
                NodeOutcome::Completed { agent_run_id, cost, warnings } => {
                    &&& action == (ActionModel::Record {
                        node_id: m.queue[m.at],
                        state: NodeState::Completed,
                        attempt: m.attempt,
                        cost,
                        error: None,
                        warnings: warnings@,
                        agent_run_id,
                    })
                    &&& next.phase == DrivePhase::Closing
                },
                NodeOutcome::Blocked { error, cost } => {
                    &&& action matches ActionModel::Record {
                        node_id,
                        state,
                        attempt,
                        cost: c,
                        error: e,
                        ..
                    } && node_id == m.queue[m.at] && state == NodeState::Blocked && attempt
                        == m.attempt && c == cost && e == Some(error)
                    &&& next.phase == DrivePhase::Blocking
                },
                NodeOutcome::Failed { error } => action !is Retry ==> {
                    &&& action matches ActionModel::Record {
                        node_id,
                        state,
                        attempt,
                        error: e,
                        ..
                    } && node_id == m.queue[m.at] && state == NodeState::Failed && attempt
                        == m.attempt && e == Some(error)
                    &&& next.phase == DrivePhase::Closing
                },
            }
        }),
        ({
            let (next, action) = stepped(m, compiled, run_id, DriveEvent::Outcome(outcome));
            next.queue == m.queue && next.at == m.at
        }),
{
}

/// A failed node is tried again as often as its policy says, at least once in all: after the
/// policy's pause it is recorded and executed again, one attempt further.
pub proof fn law_a_failure_is_retried_as_the_policy_says(
    m: DriveModel,
    compiled: CompiledWorkflow,
    run_id: Seq<char>,
    error: String,
    k: int,
)
    requires
        m.phase == DrivePhase::Executing,
        current(m, compiled) == k,
        m.attempt >= 1,
    ensures
        ({
            let policy = compiled.nodes@[k].retry;
            let (waiting, action) = stepped(
                m,
                compiled,
                run_id,
                DriveEvent::Outcome(NodeOutcome::Failed { error }),
            );
            &&& action is Retry <==> m.attempt < policy.attempts
            &&& action is Retry ==> {
                let (launching, record) = stepped(waiting, compiled, run_id, DriveEvent::Done);
                let (executing, execute) = stepped(launching, compiled, run_id, DriveEvent::Done);
                &&& action == (ActionModel::Retry {
                    node: k,
                    attempt: m.attempt,
                    error,
                    backoff_seconds: policy.backoff_seconds,
                })
                &&& record matches ActionModel::Record { node_id, state, attempt, .. } && node_id
                    == m.queue[m.at] && state == NodeState::Running && attempt == m.attempt + 1
                &&& execute matches ActionModel::Execute { node, attempt } && node == k && attempt
                    == m.attempt + 1
                &&& executing.phase == DrivePhase::Executing
            }
        }),
{
}

/// When a node is done with, the drive goes on to the next one of the round, or where it was the
/// last to the next round; no node of the round is passed over.
pub proof fn law_no_node_of_a_round_is_passed_over(
    m: DriveModel,
    compiled: CompiledWorkflow,
    run_id: Seq<char>,
    changed: bool,
)
    requires
        m.phase == DrivePhase::Closing || m.phase == DrivePhase::Pausing,
        0 <= m.at < m.queue.len(),
    ensures
        ({
            let event = if m.phase == DrivePhase::Closing {
                DriveEvent::Done
            } else {
                DriveEvent::Affected(changed)
            };
            let (next, action) = stepped(m, compiled, run_id, event);
            &&& action == ActionModel::Load
            &&& next.queue == m.queue
            &&& m.at + 1 < m.queue.len() ==> next.phase == DrivePhase::Preparing && next.at == m.at
                + 1
            &&& m.at + 1 == m.queue.len() ==> next.phase == DrivePhase::Round
        }),
{
}

/// A run with nothing left to do ends: it is recorded as completed where every node is completed
/// and as failed otherwise, from the running state alone, and that is what the drive reports.
pub proof fn law_a_run_ends_as_its_nodes_did(
    m: DriveModel,
    compiled: CompiledWorkflow,
    run_id: Seq<char>,
    snapshot: WorkflowRunSnapshot,
)
    requires
        m.phase == DrivePhase::Finishing,
    ensures
        ({
            let (settling, set) = stepped(
                m,
                compiled,
                run_id,
                DriveEvent::Loaded(Some(snapshot)),
            );
            let (next, action) = stepped(settling, compiled, run_id, DriveEvent::Affected(true));
            let all = forall|k: int|
                0 <= k < snapshot.nodes@.len() ==> (#[trigger] snapshot.nodes@[k]).state
                    == NodeState::Completed;
            let end = if all {
                WorkflowRunState::Completed
            } else {
                WorkflowRunState::Failed
            };
            &&& set matches ActionModel::SetRunState { allowed, to } && to == end && allowed
                == seq![WorkflowRunState::Running]
            &&& action == ActionModel::Finish(end)
            &&& next.phase == DrivePhase::Over
        }),
{
}

proof fn lemma_first_record(
    nodes: Seq<crate::workflow::store::WorkflowNodeRecord>,
    id: Seq<char>,
    i: int,
    k: int,
)
    requires
        0 <= i <= k < nodes.len(),
        nodes[k].node_id@ == id,
        forall|j: int| i <= j < k ==> (#[trigger] nodes[j]).node_id@ != id,
    ensures
        crate::workflow::store::record_index(nodes, id, i) == Some(k),
    decreases k - i,
{
    if i < k {
        assert(nodes[i].node_id@ != id);
        lemma_first_record(nodes, id, i + 1, k);
    }
}

/// A node that was attempted before goes on with the attempt that is recorded, and its record says
/// so.
pub proof fn law_a_node_goes_on_with_its_attempt(
    m: DriveModel,
    compiled: CompiledWorkflow,
    run_id: Seq<char>,
    snapshot: WorkflowRunSnapshot,
    k: int,
)
    requires
        m.phase == DrivePhase::Preparing,
        0 <= k < snapshot.nodes@.len(),
        snapshot.nodes@[k].node_id@ == m.queue[m.at],
        snapshot.nodes@[k].attempt >= 1,
        forall|j: int| 0 <= j < k ==> (#[trigger] snapshot.nodes@[j]).node_id@ != m.queue[m.at],
    ensures
        ({
            let (next, action) = stepped(
                m,
                compiled,
                run_id,
                DriveEvent::Loaded(Some(snapshot)),
            );
            &&& next.attempt == snapshot.nodes@[k].attempt
            &&& action matches ActionModel::Record { node_id, state, attempt, .. } && node_id
                == m.queue[m.at] && state is Running && attempt == snapshot.nodes@[k].attempt
        }),
{
    lemma_first_record(snapshot.nodes@, m.queue[m.at], 0, k);
}

} // verus!
