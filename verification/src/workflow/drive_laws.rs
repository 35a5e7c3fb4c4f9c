//! What holds of every drive.
use crate::workflow::compile::CompiledWorkflow;
use crate::workflow::drive::{ActionModel, DriveEvent, DriveModel, DrivePhase, NodeOutcome};
use crate::workflow::store::{NodeState, StoreFault, WorkflowRunSnapshot, WorkflowRunState};
use vstd::prelude::*;

verus! {

/// A run that is not pending or running is left alone: the drive ends at once and
/// reports the state it found. A changed graph and an unknown run end it at once too.
pub proof fn law_settled_runs_are_left_alone(
    m: DriveModel,
    compiled: CompiledWorkflow,
    run_id: Seq<char>,
    snapshot: WorkflowRunSnapshot,
)
    requires
        m.phase == DrivePhase::Entering,
    ensures
        ({
            let (next, action) = crate::workflow::drive::stepped(
                m,
                compiled,
                run_id,
                DriveEvent::Loaded(Some(snapshot)),
            );
            &&& crate::workflow::store::graph_fault(snapshot, compiled) matches Some(fault)
                ==> action == ActionModel::Fail(fault) && next.phase == DrivePhase::Over
            &&& crate::workflow::store::graph_fault(snapshot, compiled) is None
                && !crate::workflow::drive::drivable(snapshot.run.state) ==> action
                == ActionModel::Finish(snapshot.run.state) && next.phase == DrivePhase::Over
        }),
        ({
            let (next, action) = crate::workflow::drive::stepped(
                m,
                compiled,
                run_id,
                DriveEvent::Loaded(None),
            );
            action == ActionModel::Fail(StoreFault::NotFound(run_id)) && next.phase
                == DrivePhase::Over
        }),
{
}

/// A run that was paused or cancelled meanwhile stops the drive at the next round:
/// nothing more is launched, and the state stays as it was set.
pub proof fn law_a_stop_is_respected(
    m: DriveModel,
    compiled: CompiledWorkflow,
    run_id: Seq<char>,
    snapshot: WorkflowRunSnapshot,
)
    requires
        m.phase == DrivePhase::Round,
        crate::workflow::drive::stopped(snapshot.run.state),
    ensures
        ({
            let (next, action) = crate::workflow::drive::stepped(
                m,
                compiled,
                run_id,
                DriveEvent::Loaded(Some(snapshot)),
            );
            action == ActionModel::Finish(snapshot.run.state) && next.phase == DrivePhase::Over
        }),
{
}

/// The nodes of a round are those that were ready when it began; nothing else ever
/// enters the queue.
pub proof fn law_only_ready_nodes_are_queued(
    m: DriveModel,
    compiled: CompiledWorkflow,
    run_id: Seq<char>,
    event: DriveEvent,
)
    ensures
        ({
            let (next, action) = crate::workflow::drive::stepped(m, compiled, run_id, event);
            ||| next.queue == m.queue
            ||| {
                &&& m.phase == DrivePhase::Round
                &&& event matches DriveEvent::Loaded(Some(snapshot))
                &&& next.queue == crate::workflow::store::frontier(compiled, snapshot)
            }
        }),
{
}

/// Only the current node of the round is ever executed, at the attempt the drive is at,
/// and only after it was recorded as running.
pub proof fn law_only_the_current_node_is_executed(
    m: DriveModel,
    compiled: CompiledWorkflow,
    run_id: Seq<char>,
    event: DriveEvent,
)
    ensures
        crate::workflow::drive::stepped(m, compiled, run_id, event).1 matches ActionModel::Execute {
            node,
            attempt,
        } ==> m.phase == DrivePhase::Launching && node == crate::workflow::drive::current(
            m,
            compiled,
        ) && attempt == m.attempt,
{
}

/// A failed attempt is retried exactly while the node's policy allows another one, and
/// the next attempt is then within the policy. A node is attempted at least once.
pub proof fn law_retries_stay_within_the_policy(
    m: DriveModel,
    compiled: CompiledWorkflow,
    run_id: Seq<char>,
    error: String,
)
    requires
        m.phase == DrivePhase::Executing,
    ensures
        ({
            let node = crate::workflow::drive::current(m, compiled);
            let limit = crate::workflow::drive::attempt_limit(compiled.nodes@[node]);
            let (next, action) = crate::workflow::drive::stepped(
                m,
                compiled,
                run_id,
                DriveEvent::Outcome(NodeOutcome::Failed { error }),
            );
            &&& limit >= 1
            &&& action is Retry <==> m.attempt < limit
            &&& action is Retry ==> next.attempt == m.attempt + 1 && next.attempt <= limit
            &&& action !is Retry ==> (action matches ActionModel::Record { state, error: e, .. }
                && state == NodeState::Failed && e == Some(error))
        }),
{
}

/// A resumed node goes on from its recorded attempt, never from an earlier one.
pub proof fn law_attempts_never_regress(
    m: DriveModel,
    compiled: CompiledWorkflow,
    run_id: Seq<char>,
    snapshot: WorkflowRunSnapshot,
    k: int,
)
    requires
        m.phase == DrivePhase::Preparing,
        crate::workflow::store::record_index(snapshot.nodes@, m.queue[m.at], 0) == Some(k),
    ensures
        ({
            let (next, action) = crate::workflow::drive::stepped(
                m,
                compiled,
                run_id,
                DriveEvent::Loaded(Some(snapshot)),
            );
            &&& next.attempt >= snapshot.nodes@[k].attempt
            &&& next.attempt >= 1
            &&& snapshot.nodes@[k].attempt >= 1 ==> next.attempt == snapshot.nodes@[k].attempt
        }),
{
}

/// A blocked node is never retried: the block is recorded, the run is paused if it is
/// still running, and the drive goes on to the next node or the next round.
pub proof fn law_a_block_is_never_retried(
    m: DriveModel,
    compiled: CompiledWorkflow,
    run_id: Seq<char>,
    error: String,
    cost: Option<crate::workflow::json::JsonValue>,
    changed: bool,
)
    requires
        m.phase == DrivePhase::Executing,
        0 <= m.at < m.queue.len(),
    ensures
        ({
            let (blocking, record) = crate::workflow::drive::stepped(
                m,
                compiled,
                run_id,
                DriveEvent::Outcome(NodeOutcome::Blocked { error, cost }),
            );
            let (pausing, pause) = crate::workflow::drive::stepped(
                blocking,
                compiled,
                run_id,
                DriveEvent::Done,
            );
            let (next, action) = crate::workflow::drive::stepped(
                pausing,
                compiled,
                run_id,
                DriveEvent::Affected(changed),
            );
            &&& record matches ActionModel::Record { state, cost: c, error: e, .. } && state
                == NodeState::Blocked && c == cost && e == Some(error)
            &&& pause == (ActionModel::SetRunState {
                allowed: seq![WorkflowRunState::Running],
                to: WorkflowRunState::Paused,
            })
            &&& action == ActionModel::Load
            &&& next.phase == DrivePhase::Round || (next.phase == DrivePhase::Preparing && next.at
                == m.at + 1)
        }),
{
}

/// Whoever changes the run's state while it is driven wins: where the drive could not
/// set a state, it reads the run again and reports what it finds.
pub proof fn law_a_concurrent_change_wins(
    m: DriveModel,
    compiled: CompiledWorkflow,
    run_id: Seq<char>,
    snapshot: WorkflowRunSnapshot,
)
    requires
        m.phase == DrivePhase::Starting || m.phase == DrivePhase::Settling,
    ensures
        ({
            let (reporting, load) = crate::workflow::drive::stepped(
                m,
                compiled,
                run_id,
                DriveEvent::Affected(false),
            );
            let (next, action) = crate::workflow::drive::stepped(
                reporting,
                compiled,
                run_id,
                DriveEvent::Loaded(Some(snapshot)),
            );
            &&& load == ActionModel::Load
            &&& action == ActionModel::Finish(snapshot.run.state)
            &&& next.phase == DrivePhase::Over
        }),
{
}

/// A run is recorded as completed only when every one of its nodes is; and only from
/// the running state.
pub proof fn law_completed_means_all_completed(
    m: DriveModel,
    compiled: CompiledWorkflow,
    run_id: Seq<char>,
    snapshot: WorkflowRunSnapshot,
)
    requires
        m.phase == DrivePhase::Finishing,
    ensures
        crate::workflow::drive::stepped(
            m,
            compiled,
            run_id,
            DriveEvent::Loaded(Some(snapshot)),
        ).1 matches ActionModel::SetRunState { allowed, to } && allowed == seq![
            WorkflowRunState::Running,
        ] && (to == WorkflowRunState::Completed <==> forall|k: int|
            0 <= k < snapshot.nodes@.len() ==> (#[trigger] snapshot.nodes@[k]).state
                == NodeState::Completed) && (to != WorkflowRunState::Completed ==> to
            == WorkflowRunState::Failed),
{
}

/// A drive that has finished or failed waits for nothing more, and no other does.
pub proof fn law_a_drive_ends_exactly_once(
    m: DriveModel,
    compiled: CompiledWorkflow,
    run_id: Seq<char>,
    event: DriveEvent,
)
    requires
        crate::workflow::drive::awaits(m.phase, event),
    ensures
        ({
            let (next, action) = crate::workflow::drive::stepped(m, compiled, run_id, event);
            &&& next.phase == DrivePhase::Over <==> action is Finish || action is Fail
            &&& forall|e: DriveEvent| !#[trigger] crate::workflow::drive::awaits(DrivePhase::Over, e)
        }),
{
}

/// Whether `event` is what carrying out `action` brings back: the snapshot that was loaded,
/// word that something was recorded or reset, whether the run's state was changed, or how the
/// node ended. A drive that has finished or failed is brought nothing.
pub open spec fn answers(action: ActionModel, event: DriveEvent) -> bool {
    match action {
        ActionModel::Load => event is Loaded,
        ActionModel::Reset(_) | ActionModel::Record { .. } | ActionModel::Retry { .. } => event is Done,
        ActionModel::SetRunState { .. } => event is Affected,
        ActionModel::Execute { .. } => event is Outcome,
        ActionModel::Finish(_) | ActionModel::Fail(_) => false,
    }
}

/// After a step the drive awaits exactly the events that answer the action the step asked for.
/// A new drive awaits the answer to a load.
pub proof fn law_the_awaited_event_answers_the_action(
    m: DriveModel,
    compiled: CompiledWorkflow,
    run_id: Seq<char>,
    event: DriveEvent,
    answer: DriveEvent,
)
    requires
        crate::workflow::drive::awaits(m.phase, event),
    ensures
        ({
            let (next, action) = crate::workflow::drive::stepped(m, compiled, run_id, event);
            crate::workflow::drive::awaits(next.phase, answer) <==> answers(action, answer)
        }),
        crate::workflow::drive::awaits(DrivePhase::Entering, answer) <==> answers(
            ActionModel::Load,
            answer,
        ),
{
}

// ---------------------------------------------------------------------------
// Progress
// ---------------------------------------------------------------------------

/// What the records say of each node.
pub type Ledger = spec_fn(Seq<char>) -> Option<NodeState>;

/// What the records of a snapshot say.
pub open spec fn ledger_of(snapshot: WorkflowRunSnapshot) -> Ledger {
    |id: Seq<char>| crate::workflow::store::state_of(snapshot, id)
}

/// What the records say once an action has been carried out and nobody else has written.
pub open spec fn recorded(ledger: Ledger, action: ActionModel) -> Ledger {
    match action {
        ActionModel::Record { node_id, state, .. } => |id: Seq<char>|
            if id == node_id {
                Some(state)
            } else {
                ledger(id)
            },
        _ => ledger,
    }
}

/// Whether a node is done for this drive: completed, failed or blocked.
pub open spec fn settled(state: Option<NodeState>) -> bool {
    state == Some(NodeState::Completed) || state == Some(NodeState::Failed) || state == Some(
        NodeState::Blocked,
    )
}

/// Whether the end of the current node has been recorded.
pub open spec fn worked(phase: DrivePhase) -> bool {
    phase == DrivePhase::Closing || phase == DrivePhase::Blocking || phase == DrivePhase::Pausing
}

/// Whether, in a round that began with the records `before`, every node up to the current
/// one is settled, and no node outside the round was touched.
pub open spec fn under_way(m: DriveModel, before: Ledger, now: Ledger) -> bool {
    &&& m.queue.no_duplicates()
    &&& forall|k: int| 0 <= k < m.at ==> settled(now(#[trigger] m.queue[k]))
    &&& worked(m.phase) ==> settled(now(m.queue[m.at]))
    &&& forall|id: Seq<char>| !m.queue.contains(id) ==> #[trigger] now(id) == before(id)
}

/// Whether, in a round that began with the records `before`, every node is settled, and no
/// node outside the round was touched.
pub open spec fn round_over(queue: Seq<Seq<char>>, before: Ledger, now: Ledger) -> bool {
    &&& forall|k: int| 0 <= k < queue.len() ==> settled(now(#[trigger] queue[k]))
    &&& forall|id: Seq<char>| !queue.contains(id) ==> #[trigger] now(id) == before(id)
}

/// Whether the ids of the compiled nodes differ.
pub open spec fn distinct_nodes(compiled: CompiledWorkflow) -> bool {
    forall|i: int, j: int|
        0 <= i < j < compiled.nodes@.len() ==> (#[trigger] compiled.nodes@[i]).id@ != (
        #[trigger] compiled.nodes@[j]).id@
}

proof fn lemma_ready_ids(compiled: CompiledWorkflow, snapshot: WorkflowRunSnapshot, n: int)
    requires
        distinct_nodes(compiled),
        0 <= n <= compiled.nodes@.len(),
    ensures
        crate::workflow::store::ready_ids(compiled.nodes@, snapshot, n).no_duplicates(),
        forall|k: int|
            0 <= k < crate::workflow::store::ready_ids(compiled.nodes@, snapshot, n).len() ==> {
                let id = #[trigger] crate::workflow::store::ready_ids(
                    compiled.nodes@,
                    snapshot,
                    n,
                )[k];
                &&& crate::workflow::store::state_of(snapshot, id) == Some(NodeState::Pending)
                &&& exists|i: int| 0 <= i < n && (#[trigger] compiled.nodes@[i]).id@ == id
            },
    decreases n,
{
    if n > 0 {
        lemma_ready_ids(compiled, snapshot, n - 1);
        let rest = crate::workflow::store::ready_ids(compiled.nodes@, snapshot, n - 1);
        let all = crate::workflow::store::ready_ids(compiled.nodes@, snapshot, n);
        let last = compiled.nodes@[n - 1];
        assert forall|k: int| 0 <= k < rest.len() implies #[trigger] rest[k] != last.id@ by {
            let i = choose|i: int| 0 <= i < n - 1 && (#[trigger] compiled.nodes@[i]).id@ == rest[k];
            assert(compiled.nodes@[i].id@ != compiled.nodes@[n - 1].id@);
        }
        assert forall|k: int| 0 <= k < all.len() implies {
            let id = #[trigger] all[k];
            &&& crate::workflow::store::state_of(snapshot, id) == Some(NodeState::Pending)
            &&& exists|i: int| 0 <= i < n && (#[trigger] compiled.nodes@[i]).id@ == id
        } by {
            if k < rest.len() {
                assert(all[k] == rest[k]);
                let i = choose|i: int|
                    0 <= i < n - 1 && (#[trigger] compiled.nodes@[i]).id@ == rest[k];
                assert(compiled.nodes@[i].id@ == all[k]);
            } else {
                assert(compiled.nodes@[n - 1].id@ == all[k]);
            }
        }
        if crate::workflow::store::node_ready(last, snapshot) {
            assert forall|i: int, j: int|
                0 <= i < all.len() && 0 <= j < all.len() && i != j implies all[i] != all[j] by {
                if i < rest.len() && j < rest.len() {
                    assert(all[i] == rest[i] && all[j] == rest[j]);
                }
            }
        }
    }
}

/// A round begins with pending nodes only, none of them worked on yet.
pub proof fn law_a_round_begins_with_pending_nodes(
    m: DriveModel,
    compiled: CompiledWorkflow,
    run_id: Seq<char>,
    snapshot: WorkflowRunSnapshot,
)
    requires
        distinct_nodes(compiled),
        m.phase == DrivePhase::Round,
    ensures
        ({
            let (next, action) = crate::workflow::drive::stepped(
                m,
                compiled,
                run_id,
                DriveEvent::Loaded(Some(snapshot)),
            );
            let ledger = ledger_of(snapshot);
            crate::workflow::drive::in_round(next.phase) ==> {
                &&& next.queue.len() > 0
                &&& under_way(next, ledger, recorded(ledger, action))
                &&& forall|k: int|
                    0 <= k < next.queue.len() ==> ledger(#[trigger] next.queue[k]) == Some(
                        NodeState::Pending,
                    )
            }
        }),
{
    lemma_ready_ids(compiled, snapshot, compiled.nodes@.len() as int);
}

/// While a round goes on, each step keeps it under way, however its nodes turn out. When
/// it is over, every one of its nodes is completed, failed or blocked, and no other node
/// was touched.
pub proof fn law_a_round_settles_its_nodes(
    m: DriveModel,
    compiled: CompiledWorkflow,
    run_id: Seq<char>,
    event: DriveEvent,
    before: Ledger,
    now: Ledger,
)
    requires
        crate::workflow::drive::in_round(m.phase),
        crate::workflow::drive::awaits(m.phase, event),
        crate::workflow::drive::on_track(m, compiled),
        under_way(m, before, now),
    ensures
        ({
            let (next, action) = crate::workflow::drive::stepped(m, compiled, run_id, event);
            let then = recorded(now, action);
            &&& next.queue == m.queue
            &&& if crate::workflow::drive::in_round(next.phase) {
                under_way(next, before, then)
            } else {
                next.phase == DrivePhase::Round && round_over(m.queue, before, then)
            }
        }),
{
    let (next, action) = crate::workflow::drive::stepped(m, compiled, run_id, event);
    let then = recorded(now, action);
    let id = m.queue[m.at];
    assert(m.queue.contains(id));
    assert forall|k: int| 0 <= k < m.at implies settled(then(#[trigger] m.queue[k])) by {
        assert(m.queue[k] != id);
    }
    assert forall|other: Seq<char>| !m.queue.contains(other) implies #[trigger] then(other)
        == before(other) by {
        assert(other != id);
        assert(now(other) == before(other));
    }
}

/// A round that had something to do leaves fewer nodes pending: what is pending after it
/// was pending before it, and something that was is not any more. So a drive that nobody
/// disturbs runs out of rounds.
pub proof fn law_rounds_shrink_the_pending_set(
    queue: Seq<Seq<char>>,
    before: Ledger,
    after: Ledger,
)
    requires
        queue.len() > 0,
        forall|k: int| 0 <= k < queue.len() ==> before(#[trigger] queue[k]) == Some(NodeState::Pending),
        round_over(queue, before, after),
    ensures
        forall|id: Seq<char>| #[trigger]
            after(id) == Some(NodeState::Pending) ==> before(id) == Some(NodeState::Pending),
        exists|id: Seq<char>| #[trigger]
            after(id) != Some(NodeState::Pending) && before(id) == Some(NodeState::Pending),
{
    assert forall|id: Seq<char>| #[trigger] after(id) == Some(NodeState::Pending) implies before(id)
        == Some(NodeState::Pending) by {
        if queue.contains(id) {
            let k = queue.index_of(id);
            assert(settled(after(queue[k])));
        }
    }
    assert(settled(after(queue[0])));
    assert(before(queue[0]) == Some(NodeState::Pending));
}

} // verus!
