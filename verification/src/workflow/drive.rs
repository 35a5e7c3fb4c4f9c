//! Driving a workflow run to completion.
//!
//! A [`Drive`] is the loop that advances one run, cut at every point where something
//! outside has to happen: reading the run's records, writing them, executing a node,
//! waiting. [`WorkflowDriver::step`] takes what came back from the last such point and
//! says what to do next. A drive
//!
//! * refuses a changed graph before it writes anything;
//! * leaves a paused or finished run alone;
//! * makes nodes that an earlier drive left unfinished pending again;
//! * executes the ready frontier round by round, retrying a failed node as its policy
//!   says and never a blocked one;
//! * stops at the next round when the run was paused or cancelled meanwhile, and never
//!   overwrites a state that somebody else set.
use crate::workflow::budget::BudgetWarning;
use crate::workflow::compile::{CompiledNode, CompiledWorkflow};
use crate::workflow::json::JsonValue;
use crate::workflow::store::{
    guard_signature, ready_node_ids, NodeState, StoreFault, WorkflowNodeRecord, WorkflowRunSnapshot,
    WorkflowRunState, WorkflowStore, WorkflowStoreError,
};
use vstd::prelude::*;

verus! {

/// The outcome of executing one node attempt.
#[derive(Debug, Clone, PartialEq)]
pub enum NodeOutcome {
    /// The node's work succeeded, with what was measured of it and any budget warnings.
    Completed {
        agent_run_id: Option<String>,
        cost: Option<JsonValue>,
        warnings: Vec<BudgetWarning>,
    },
    /// The node's work failed; it is retried as its policy says.
    Failed { error: String },
    /// The node exhausted a budget: it is not retried, and the run pauses.
    Blocked { error: String, cost: Option<JsonValue> },
}

impl NodeOutcome {
    /// A bare success.
    pub fn completed() -> (r: Self)
        ensures
            r matches NodeOutcome::Completed { agent_run_id, cost, warnings } && agent_run_id is None
                && cost is None && warnings@.len() == 0,
    {
        NodeOutcome::Completed { agent_run_id: None, cost: None, warnings: Vec::new() }
    }

    /// A failure carrying an error message.
    pub fn failed(error: &str) -> (r: Self)
        ensures
            r matches NodeOutcome::Failed { error: e } && e@ == error@,
    {
        NodeOutcome::Failed { error: error.to_owned() }
    }

    /// A budget block carrying its reason and the measured cost.
    pub fn blocked(error: &str, cost: Option<JsonValue>) -> (r: Self)
        ensures
            r matches NodeOutcome::Blocked { error: e, cost: c } && e@ == error@ && c == cost,
    {
        NodeOutcome::Blocked { error: error.to_owned(), cost }
    }
}

/// What an executor is handed for one node attempt.
#[derive(Debug, Clone, Copy)]
pub struct NodeContext<'a> {
    /// The workflow run the node belongs to.
    pub workflow_run_id: &'a str,
    /// The compiled node being executed.
    pub node: &'a CompiledNode,
    /// The attempt number, counted from 1.
    pub attempt: u32,
}

/// The full detail of one node-state transition, as an observer sees it.
#[derive(Debug, Clone, PartialEq)]
pub struct NodeTransition {
    pub node_id: String,
    pub state: NodeState,
    pub attempt: u32,
    /// The node's measured cost, when the transition records one.
    pub cost: Option<JsonValue>,
    /// The failure or block reason, when the transition carries one.
    pub error: Option<String>,
    /// Budget dimensions that crossed their warning line.
    pub warnings: Vec<BudgetWarning>,
}

impl NodeTransition {
    /// A bare transition into `state` on `attempt`.
    pub fn new(node_id: &str, state: NodeState, attempt: u32) -> (r: Self)
        ensures
            r.node_id@ == node_id@,
            r.state == state,
            r.attempt == attempt,
            r.cost is None,
            r.error is None,
            r.warnings@.len() == 0,
    {
        NodeTransition {
            node_id: node_id.to_owned(),
            state,
            attempt,
            cost: None,
            error: None,
            warnings: Vec::new(),
        }
    }
}

/// Why an unfinished node is made pending again.
#[derive(Debug, Clone, Copy, PartialEq, Eq, Structural)]
pub enum ResetKind {
    /// Its execution, or its wait for approval, was interrupted.
    Interrupted,
    /// It was blocked on its budget.
    Blocked,
}

/// A node to make pending again.
#[derive(Debug, Clone, PartialEq, Eq)]
pub struct RecoveryReset {
    pub node_id: String,
    pub attempt: u32,
    pub kind: ResetKind,
}

impl View for RecoveryReset {
    type V = (Seq<char>, u32, ResetKind);

    open spec fn view(&self) -> (Seq<char>, u32, ResetKind) {
        (self.node_id@, self.attempt, self.kind)
    }
}

/// What a drive waits for.
#[derive(Debug, Clone, Copy, PartialEq, Eq, Structural)]
pub enum DrivePhase {
    /// The run's records, to decide whether to drive it at all.
    Entering,
    /// The resets to have been applied.
    Resetting,
    /// Whether the run could be set running.
    Starting,
    /// The run's records, to report the state somebody else set.
    Reporting,
    /// The run's records, to compute a round's frontier.
    Round,
    /// The run's records, to see which attempt a node is at.
    Preparing,
    /// A node to have been recorded as running.
    Launching,
    /// A node's outcome.
    Executing,
    /// A node's end to have been recorded.
    Closing,
    /// A node's block to have been recorded.
    Blocking,
    /// Whether the run could be paused.
    Pausing,
    /// The pause before a retry to be over.
    Waiting,
    /// The run's records, to decide how it ended.
    Finishing,
    /// Whether the run's end could be recorded.
    Settling,
    /// Nothing more.
    Over,
}

/// Where the drive of a run stands.
#[derive(Debug, Clone, PartialEq, Eq)]
pub struct Drive {
    pub phase: DrivePhase,
    /// The nodes of the current round.
    pub queue: Vec<String>,
    /// The place of the current node in the round.
    pub at: usize,
    /// The attempt the current node is at.
    pub attempt: u32,
    /// The state the run is to end in.
    pub ending: WorkflowRunState,
}

/// A [`Drive`] with its strings seen as characters.
pub struct DriveModel {
    pub phase: DrivePhase,
    pub queue: Seq<Seq<char>>,
    pub at: int,
    pub attempt: u32,
    pub ending: WorkflowRunState,
}

impl View for Drive {
    type V = DriveModel;

    open spec fn view(&self) -> DriveModel {
        DriveModel {
            phase: self.phase,
            queue: crate::text::texts(self.queue@),
            at: self.at as int,
            attempt: self.attempt,
            ending: self.ending,
        }
    }
}

/// What came back from the last action.
#[derive(Debug, Clone, PartialEq)]
pub enum DriveEvent {
    /// The run's records; `None` when there is no such run.
    Loaded(Option<WorkflowRunSnapshot>),
    /// The action was carried out.
    Done,
    /// Whether the run's state was changed.
    Affected(bool),
    /// How the node attempt ended.
    Outcome(NodeOutcome),
}

/// What to do next.
#[derive(Debug, Clone, PartialEq)]
pub enum DriveAction {
    /// Read the run's records.
    Load,
    /// Make these nodes pending again, and report each.
    Reset(Vec<RecoveryReset>),
    /// Set the run's state to `to` if it is one of `allowed`.
    SetRunState { allowed: Vec<WorkflowRunState>, to: WorkflowRunState },
    /// Record a node's transition, then report it and its warnings.
    Record { transition: NodeTransition, agent_run_id: Option<String> },
    /// Execute the node at this place of the compiled order.
    Execute { node: usize, attempt: u32 },
    /// Report a failed attempt that will be retried, then wait.
    Retry { node: usize, attempt: u32, error: String, backoff_seconds: u64 },
    /// The drive is over; this is the run's state.
    Finish(WorkflowRunState),
    /// The drive is refused.
    Fail(WorkflowStoreError),
}

/// A [`DriveAction`] with its strings seen as characters.
pub enum ActionModel {
    Load,
    Reset(Seq<(Seq<char>, u32, ResetKind)>),
    SetRunState { allowed: Seq<WorkflowRunState>, to: WorkflowRunState },
    Record {
        node_id: Seq<char>,
        state: NodeState,
        attempt: u32,
        cost: Option<JsonValue>,
        error: Option<String>,
        warnings: Seq<BudgetWarning>,
        agent_run_id: Option<String>,
    },
    Execute { node: int, attempt: u32 },
    Retry { node: int, attempt: u32, error: String, backoff_seconds: u64 },
    Finish(WorkflowRunState),
    Fail(StoreFault),
}

pub open spec fn reset_models(v: Seq<RecoveryReset>) -> Seq<(Seq<char>, u32, ResetKind)> {
    v.map_values(|r: RecoveryReset| r@)
}

impl View for DriveAction {
    type V = ActionModel;

    open spec fn view(&self) -> ActionModel {
        match *self {
            DriveAction::Load => ActionModel::Load,
            DriveAction::Reset(v) => ActionModel::Reset(reset_models(v@)),
            DriveAction::SetRunState { allowed, to } => ActionModel::SetRunState {
                allowed: allowed@,
                to,
            },
            DriveAction::Record { transition, agent_run_id } => ActionModel::Record {
                node_id: transition.node_id@,
                state: transition.state,
                attempt: transition.attempt,
                cost: transition.cost,
                error: transition.error,
                warnings: transition.warnings@,
                agent_run_id,
            },
            DriveAction::Execute { node, attempt } => ActionModel::Execute {
                node: node as int,
                attempt,
            },
            DriveAction::Retry { node, attempt, error, backoff_seconds } => ActionModel::Retry {
                node: node as int,
                attempt,
                error,
                backoff_seconds,
            },
            DriveAction::Finish(s) => ActionModel::Finish(s),
            DriveAction::Fail(e) => ActionModel::Fail(e@),
        }
    }
}

// ---------------------------------------------------------------------------
// The rules
// ---------------------------------------------------------------------------

/// The resets an entering drive applies, judging by the first `n` records.
pub open spec fn recovery_resets(nodes: Seq<WorkflowNodeRecord>, n: int) -> Seq<
    (Seq<char>, u32, ResetKind),
>
    decreases n,
{
    if n <= 0 {
        Seq::empty()
    } else {
        let rest = recovery_resets(nodes, n - 1);
        let record = nodes[n - 1];
        match record.state {
            NodeState::Running | NodeState::WaitingApproval => rest.push(
                (record.node_id@, record.attempt, ResetKind::Interrupted),
            ),
            NodeState::Blocked => rest.push((record.node_id@, record.attempt, ResetKind::Blocked)),
            _ => rest,
        }
    }
}

/// Whether a drive may advance a run in that state.
pub open spec fn drivable(s: WorkflowRunState) -> bool {
    s == WorkflowRunState::Pending || s == WorkflowRunState::Running
}

/// Whether a run in that state asks its drive to stop.
pub open spec fn stopped(s: WorkflowRunState) -> bool {
    s == WorkflowRunState::Paused || s == WorkflowRunState::Cancelled
}

/// How a run ends: completed if every node is, failed otherwise.
pub open spec fn ending_of(nodes: Seq<WorkflowNodeRecord>) -> WorkflowRunState {
    if forall|k: int| 0 <= k < nodes.len() ==> (#[trigger] nodes[k]).state == NodeState::Completed {
        WorkflowRunState::Completed
    } else {
        WorkflowRunState::Failed
    }
}

/// How often a node may be attempted: at least once.
pub open spec fn attempt_limit(node: CompiledNode) -> u32 {
    if node.retry.attempts < 1 {
        1
    } else {
        node.retry.attempts
    }
}

/// The attempt at which a node starts: the recorded one, or the first.
pub open spec fn starting_attempt(loaded: Option<WorkflowRunSnapshot>, id: Seq<char>) -> u32 {
    match loaded {
        Some(snapshot) => match crate::workflow::store::record_index(snapshot.nodes@, id, 0) {
            Some(k) => if snapshot.nodes@[k].attempt < 1 {
                1
            } else {
                snapshot.nodes@[k].attempt
            },
            None => 1,
        },
        None => 1,
    }
}

/// A bare transition of node `id`.
pub open spec fn bare_record(id: Seq<char>, state: NodeState, attempt: u32) -> ActionModel {
    ActionModel::Record {
        node_id: id,
        state,
        attempt,
        cost: None,
        error: None,
        warnings: Seq::empty(),
        agent_run_id: None,
    }
}

/// The node the drive is at.
pub open spec fn current(m: DriveModel, compiled: CompiledWorkflow) -> int {
    crate::workflow::compile::node_index(compiled.nodes@, m.queue[m.at], 0)->0
}

/// Goes on to the next node of the round, or to the next round.
pub open spec fn advanced(m: DriveModel) -> DriveModel {
    if m.at + 1 < m.queue.len() {
        DriveModel { phase: DrivePhase::Preparing, at: m.at + 1, ..m }
    } else {
        DriveModel { phase: DrivePhase::Round, ..m }
    }
}

/// The drive is over.
pub open spec fn over(m: DriveModel) -> DriveModel {
    DriveModel { phase: DrivePhase::Over, ..m }
}

/// Whether a drive in that phase waits for such an event.
pub open spec fn awaits(phase: DrivePhase, event: DriveEvent) -> bool {
    match phase {
        DrivePhase::Entering | DrivePhase::Reporting | DrivePhase::Round | DrivePhase::Preparing
        | DrivePhase::Finishing => event is Loaded,
        DrivePhase::Resetting | DrivePhase::Launching | DrivePhase::Closing | DrivePhase::Blocking
        | DrivePhase::Waiting => event is Done,
        DrivePhase::Starting | DrivePhase::Pausing | DrivePhase::Settling => event is Affected,
        DrivePhase::Executing => event is Outcome,
        DrivePhase::Over => false,
    }
}

/// What a drive does when its run's records have been read.
pub open spec fn on_loaded(
    m: DriveModel,
    compiled: CompiledWorkflow,
    run_id: Seq<char>,
    loaded: Option<WorkflowRunSnapshot>,
) -> (DriveModel, ActionModel) {
    match m.phase {
        DrivePhase::Preparing => {
            let attempt = starting_attempt(loaded, m.queue[m.at]);
            (
                DriveModel { phase: DrivePhase::Launching, attempt, ..m },
                bare_record(m.queue[m.at], NodeState::Running, attempt),
            )
        },
        _ => match loaded {
            None => (over(m), ActionModel::Fail(StoreFault::NotFound(run_id))),
            Some(snapshot) => match m.phase {
                DrivePhase::Entering => match crate::workflow::store::graph_fault(
                    snapshot,
                    compiled,
                ) {
                    Some(fault) => (over(m), ActionModel::Fail(fault)),
                    None => if drivable(snapshot.run.state) {
                        (
                            DriveModel { phase: DrivePhase::Resetting, ..m },
                            ActionModel::Reset(
                                recovery_resets(
                                    snapshot.nodes@,
                                    snapshot.nodes@.len() as int,
                                ),
                            ),
                        )
                    } else {
                        (over(m), ActionModel::Finish(snapshot.run.state))
                    },
                },
                DrivePhase::Round => {
                    let ready = crate::workflow::store::frontier(compiled, snapshot);
                    if stopped(snapshot.run.state) {
                        (over(m), ActionModel::Finish(snapshot.run.state))
                    } else if ready.len() == 0 {
                        (DriveModel { phase: DrivePhase::Finishing, ..m }, ActionModel::Load)
                    } else {
                        (
                            DriveModel { phase: DrivePhase::Preparing, queue: ready, at: 0, ..m },
                            ActionModel::Load,
                        )
                    }
                },
                DrivePhase::Finishing => {
                    let ending = ending_of(snapshot.nodes@);
                    (
                        DriveModel { phase: DrivePhase::Settling, ending, ..m },
                        ActionModel::SetRunState {
                            allowed: seq![WorkflowRunState::Running],
                            to: ending,
                        },
                    )
                },
                _ => (over(m), ActionModel::Finish(snapshot.run.state)),
            },
        },
    }
}

/// What a drive does when its last action has been carried out.
pub open spec fn on_done(m: DriveModel, compiled: CompiledWorkflow) -> (DriveModel, ActionModel) {
    match m.phase {
        DrivePhase::Resetting => (
            DriveModel { phase: DrivePhase::Starting, ..m },
            ActionModel::SetRunState {
                allowed: seq![WorkflowRunState::Pending, WorkflowRunState::Running],
                to: WorkflowRunState::Running,
            },
        ),
        DrivePhase::Launching => (
            DriveModel { phase: DrivePhase::Executing, ..m },
            ActionModel::Execute { node: current(m, compiled), attempt: m.attempt },
        ),
        DrivePhase::Waiting => (
            DriveModel { phase: DrivePhase::Launching, ..m },
            bare_record(m.queue[m.at], NodeState::Running, m.attempt),
        ),
        DrivePhase::Blocking => (
            DriveModel { phase: DrivePhase::Pausing, ..m },
            ActionModel::SetRunState {
                allowed: seq![WorkflowRunState::Running],
                to: WorkflowRunState::Paused,
            },
        ),
        _ => (advanced(m), ActionModel::Load),
    }
}

/// What a drive does when a run's state was, or was not, changed.
pub open spec fn on_affected(m: DriveModel, changed: bool) -> (DriveModel, ActionModel) {
    match m.phase {
        DrivePhase::Pausing => (advanced(m), ActionModel::Load),
        _ => if !changed {
            (DriveModel { phase: DrivePhase::Reporting, ..m }, ActionModel::Load)
        } else if m.phase == DrivePhase::Starting {
            (DriveModel { phase: DrivePhase::Round, ..m }, ActionModel::Load)
        } else {
            (over(m), ActionModel::Finish(m.ending))
        },
    }
}

/// What a drive does when a node attempt has ended.
pub open spec fn on_outcome(m: DriveModel, compiled: CompiledWorkflow, outcome: NodeOutcome) -> (
    DriveModel,
    ActionModel,
) {
    let node = current(m, compiled);
    match outcome {
        NodeOutcome::Completed { agent_run_id, cost, warnings } => (
            DriveModel { phase: DrivePhase::Closing, ..m },
            ActionModel::Record {
                node_id: m.queue[m.at],
                state: NodeState::Completed,
                attempt: m.attempt,
                cost,
                error: None,
                warnings: warnings@,
                agent_run_id,
            },
        ),
        NodeOutcome::Blocked { error, cost } => (
            DriveModel { phase: DrivePhase::Blocking, ..m },
            ActionModel::Record {
                node_id: m.queue[m.at],
                state: NodeState::Blocked,
                attempt: m.attempt,
                cost,
                error: Some(error),
                warnings: Seq::empty(),
                agent_run_id: None,
            },
        ),
        NodeOutcome::Failed { error } => if m.attempt < attempt_limit(compiled.nodes@[node]) {
            (
                DriveModel {
                    phase: DrivePhase::Waiting,
                    attempt: (m.attempt + 1) as u32,
                    ..m
                },
                ActionModel::Retry {
                    node,
                    attempt: m.attempt,
                    error,
                    backoff_seconds: compiled.nodes@[node].retry.backoff_seconds,
                },
            )
        } else {
            (
                DriveModel { phase: DrivePhase::Closing, ..m },
                ActionModel::Record {
                    node_id: m.queue[m.at],
                    state: NodeState::Failed,
                    attempt: m.attempt,
                    cost: None,
                    error: Some(error),
                    warnings: Seq::empty(),
                    agent_run_id: None,
                },
            )
        },
    }
}

/// One step of a drive: its next state and what to do.
pub open spec fn stepped(
    m: DriveModel,
    compiled: CompiledWorkflow,
    run_id: Seq<char>,
    event: DriveEvent,
) -> (DriveModel, ActionModel) {
    match event {
        DriveEvent::Loaded(loaded) => on_loaded(m, compiled, run_id, loaded),
        DriveEvent::Done => on_done(m, compiled),
        DriveEvent::Affected(changed) => on_affected(m, changed),
        DriveEvent::Outcome(outcome) => on_outcome(m, compiled, outcome),
    }
}

/// Whether every queued node is one of the compiled graph's and, where a node is being
/// worked on, the drive is at one of them.
pub open spec fn on_track(m: DriveModel, compiled: CompiledWorkflow) -> bool {
    &&& forall|k: int|
        0 <= k < m.queue.len() ==> crate::workflow::compile::node_index(
            compiled.nodes@,
            #[trigger] m.queue[k],
            0,
        ) is Some
    &&& in_round(m.phase) ==> 0 <= m.at < m.queue.len()
}

/// Whether a drive in that phase is working on a node.
pub open spec fn in_round(phase: DrivePhase) -> bool {
    match phase {
        DrivePhase::Preparing | DrivePhase::Launching | DrivePhase::Executing | DrivePhase::Closing
        | DrivePhase::Blocking | DrivePhase::Pausing | DrivePhase::Waiting => true,
        _ => false,
    }
}

// ---------------------------------------------------------------------------
// The driver
// ---------------------------------------------------------------------------

/// Drives a workflow run to a terminal state, one step at a time.
#[derive(Debug, Clone, Copy, PartialEq, Eq, Structural)]
pub struct WorkflowDriver {
    store: WorkflowStore,
}

impl Default for WorkflowDriver {
    fn default() -> (r: Self)
        ensures
            r == WorkflowDriver::fresh(),
    {
        WorkflowDriver { store: WorkflowStore }
    }
}

proof fn lemma_index_bound(nodes: Seq<CompiledNode>, id: Seq<char>, k: int)
    requires
        0 <= k,
    ensures
        crate::workflow::compile::node_index(nodes, id, k) matches Some(j) ==> k <= j < nodes.len()
            && nodes[j].id@ == id,
        (exists|j: int| k <= j < nodes.len() && (#[trigger] nodes[j]).id@ == id)
            ==> crate::workflow::compile::node_index(nodes, id, k) is Some,
    decreases nodes.len() - k,
{
    if k < nodes.len() && nodes[k].id@ != id {
        lemma_index_bound(nodes, id, k + 1);
    }
}

/// The place of the node `id`, which the graph has.
fn place_in(compiled: &CompiledWorkflow, id: &String) -> (r: usize)
    requires
        crate::workflow::compile::node_index(compiled.nodes@, id@, 0) is Some,
    ensures
        r < compiled.nodes@.len(),
        crate::workflow::compile::node_index(compiled.nodes@, id@, 0) == Some(r as int),
{
    let mut k: usize = 0;
    proof {
        lemma_index_bound(compiled.nodes@, id@, 0);
    }
    while k < compiled.nodes.len()
        invariant
            k <= compiled.nodes@.len(),
            crate::workflow::compile::node_index(compiled.nodes@, id@, 0) is Some,
            crate::workflow::compile::node_index(compiled.nodes@, id@, 0)
                == crate::workflow::compile::node_index(compiled.nodes@, id@, k as int),
        decreases compiled.nodes@.len() - k,
    {
        if compiled.nodes[k].id == *id {
            return k;
        }
        k = k + 1;
    }
    0
}

/// Every id of the frontier is one of the graph's nodes.
proof fn lemma_frontier_known(nodes: Seq<CompiledNode>, snapshot: WorkflowRunSnapshot, n: int)
    requires
        0 <= n <= nodes.len(),
    ensures
        forall|i: int|
            0 <= i < crate::workflow::store::ready_ids(nodes, snapshot, n).len()
                ==> crate::workflow::compile::node_index(
                nodes,
                #[trigger] crate::workflow::store::ready_ids(nodes, snapshot, n)[i],
                0,
            ) is Some,
    decreases n,
{
    if n > 0 {
        lemma_frontier_known(nodes, snapshot, n - 1);
        let before = crate::workflow::store::ready_ids(nodes, snapshot, n - 1);
        let now = crate::workflow::store::ready_ids(nodes, snapshot, n);
        assert forall|i: int| 0 <= i < now.len() implies crate::workflow::compile::node_index(
            nodes,
            #[trigger] now[i],
            0,
        ) is Some by {
            if i < before.len() {
                assert(now[i] == before[i]);
            } else {
                assert(nodes[n - 1].id@ == now[i]);
                lemma_index_bound(nodes, now[i], 0);
            }
        }
    }
}

fn collect_resets(nodes: &Vec<WorkflowNodeRecord>) -> (r: Vec<RecoveryReset>)
    ensures
        reset_models(r@) == recovery_resets(nodes@, nodes@.len() as int),
{
    let mut out: Vec<RecoveryReset> = Vec::new();
    let mut k: usize = 0;
    proof {
        assert(reset_models(out@) =~= Seq::<(Seq<char>, u32, ResetKind)>::empty());
    }
    while k < nodes.len()
        invariant
            k <= nodes@.len(),
            reset_models(out@) == recovery_resets(nodes@, k as int),
        decreases nodes@.len() - k,
    {
        let record: &WorkflowNodeRecord = &nodes[k];
        let kind: Option<ResetKind> = match record.state {
            NodeState::Running | NodeState::WaitingApproval => Some(ResetKind::Interrupted),
            NodeState::Blocked => Some(ResetKind::Blocked),
            _ => None,
        };
        if let Some(kind) = kind {
            let ghost before = out@;
            out.push(
                RecoveryReset { node_id: record.node_id.clone(), attempt: record.attempt, kind },
            );
            proof {
                assert(reset_models(out@) =~= reset_models(before).push(
                    (record.node_id@, record.attempt, kind),
                ));
            }
        }
        k = k + 1;
    }
    out
}

fn find_ending(nodes: &Vec<WorkflowNodeRecord>) -> (r: WorkflowRunState)
    ensures
        r == ending_of(nodes@),
{
    let mut k: usize = 0;
    while k < nodes.len()
        invariant
            k <= nodes@.len(),
            forall|j: int| 0 <= j < k ==> (#[trigger] nodes@[j]).state == NodeState::Completed,
        decreases nodes@.len() - k,
    {
        if nodes[k].state != NodeState::Completed {
            return WorkflowRunState::Failed;
        }
        k = k + 1;
    }
    WorkflowRunState::Completed
}

fn find_attempt(loaded: &Option<WorkflowRunSnapshot>, id: &String) -> (r: u32)
    ensures
        r == starting_attempt(*loaded, id@),
{
    match loaded {
        None => 1,
        Some(snapshot) => {
            let nodes: &Vec<WorkflowNodeRecord> = &snapshot.nodes;
            let mut k: usize = 0;
            while k < nodes.len()
                invariant
                    k <= nodes@.len(),
                    *nodes == snapshot.nodes,
                    *loaded == Some(*snapshot),
                    crate::workflow::store::record_index(nodes@, id@, 0)
                        == crate::workflow::store::record_index(nodes@, id@, k as int),
                decreases nodes@.len() - k,
            {
                if nodes[k].node_id == *id {
                    return if nodes[k].attempt < 1 {
                        1
                    } else {
                        nodes[k].attempt
                    };
                }
                k = k + 1;
            }
            1
        },
    }
}

impl Drive {
    /// Goes on to the next node of the round, or to the next round.
    fn advance(&mut self)
        requires
            in_round(old(self).phase),
            old(self).at < old(self).queue@.len(),
        ensures
            final(self)@ == advanced(old(self)@),
    {
        if self.at < self.queue.len() - 1 {
            self.at = self.at + 1;
            self.phase = DrivePhase::Preparing;
        } else {
            self.phase = DrivePhase::Round;
        }
    }

    /// The action that records the current node as running.
    fn launch(&self) -> (r: DriveAction)
        requires
            self.at < self.queue@.len(),
        ensures
            r@ == bare_record(self@.queue[self.at as int], NodeState::Running, self.attempt),
    {
        let transition: NodeTransition = NodeTransition::new(
            &self.queue[self.at],
            NodeState::Running,
            self.attempt,
        );
        proof {
            assert(transition.warnings@ =~= Seq::<BudgetWarning>::empty());
        }
        DriveAction::Record { transition, agent_run_id: None }
    }

    fn loaded(
        &mut self,
        compiled: &CompiledWorkflow,
        run_id: &str,
        loaded: Option<WorkflowRunSnapshot>,
    ) -> (r: DriveAction)
        requires
            awaits(old(self).phase, DriveEvent::Loaded(loaded)),
            on_track(old(self)@, *compiled),
        ensures
            (final(self)@, r@) == on_loaded(old(self)@, *compiled, run_id@, loaded),
            on_track(final(self)@, *compiled),
    {
        if let DrivePhase::Preparing = self.phase {
            self.attempt = find_attempt(&loaded, &self.queue[self.at]);
            self.phase = DrivePhase::Launching;
            return self.launch();
        }
        let snapshot: WorkflowRunSnapshot = match loaded {
            None => {
                self.phase = DrivePhase::Over;
                return DriveAction::Fail(WorkflowStoreError::NotFound(run_id.to_owned()));
            },
            Some(s) => s,
        };
        match self.phase {
            DrivePhase::Entering => {
                match guard_signature(&snapshot.run.graph_signature, compiled.signature()) {
                    Err(e) => {
                        self.phase = DrivePhase::Over;
                        DriveAction::Fail(e)
                    },
                    Ok(_) => {
                        if snapshot.run.state == WorkflowRunState::Pending || snapshot.run.state
                            == WorkflowRunState::Running {
                            self.phase = DrivePhase::Resetting;
                            DriveAction::Reset(collect_resets(&snapshot.nodes))
                        } else {
                            self.phase = DrivePhase::Over;
                            DriveAction::Finish(snapshot.run.state)
                        }
                    },
                }
            },
            DrivePhase::Round => {
                if snapshot.run.state == WorkflowRunState::Paused || snapshot.run.state
                    == WorkflowRunState::Cancelled {
                    self.phase = DrivePhase::Over;
                    return DriveAction::Finish(snapshot.run.state);
                }
                let ready: Vec<String> = ready_node_ids(compiled, &snapshot);
                proof {
                    lemma_frontier_known(
                        compiled.nodes@,
                        snapshot,
                        compiled.nodes@.len() as int,
                    );
                }
                if ready.len() == 0 {
                    self.phase = DrivePhase::Finishing;
                } else {
                    self.queue = ready;
                    self.at = 0;
                    self.phase = DrivePhase::Preparing;
                }
                DriveAction::Load
            },
            DrivePhase::Finishing => {
                let ending: WorkflowRunState = find_ending(&snapshot.nodes);
                self.ending = ending;
                self.phase = DrivePhase::Settling;
                let mut allowed: Vec<WorkflowRunState> = Vec::new();
                allowed.push(WorkflowRunState::Running);
                proof {
                    assert(allowed@ =~= seq![WorkflowRunState::Running]);
                }
                DriveAction::SetRunState { allowed, to: ending }
            },
            _ => {
                self.phase = DrivePhase::Over;
                DriveAction::Finish(snapshot.run.state)
            },
        }
    }

    fn done(&mut self, compiled: &CompiledWorkflow) -> (r: DriveAction)
        requires
            awaits(old(self).phase, DriveEvent::Done),
            on_track(old(self)@, *compiled),
        ensures
            (final(self)@, r@) == on_done(old(self)@, *compiled),
            on_track(final(self)@, *compiled),
    {
        match self.phase {
            DrivePhase::Resetting => {
                self.phase = DrivePhase::Starting;
                DriveAction::SetRunState { allowed: startable(), to: WorkflowRunState::Running }
            },
            DrivePhase::Launching => {
                proof {
                    assert(self@.queue[self.at as int] == self.queue@[self.at as int]@);
                }
                let node: usize = place_in(compiled, &self.queue[self.at]);
                self.phase = DrivePhase::Executing;
                DriveAction::Execute { node, attempt: self.attempt }
            },
            DrivePhase::Waiting => {
                self.phase = DrivePhase::Launching;
                self.launch()
            },
            DrivePhase::Blocking => {
                self.phase = DrivePhase::Pausing;
                let mut allowed: Vec<WorkflowRunState> = Vec::new();
                allowed.push(WorkflowRunState::Running);
                proof {
                    assert(allowed@ =~= seq![WorkflowRunState::Running]);
                }
                DriveAction::SetRunState { allowed, to: WorkflowRunState::Paused }
            },
            _ => {
                self.advance();
                DriveAction::Load
            },
        }
    }

    fn affected(&mut self, compiled: &CompiledWorkflow, changed: bool) -> (r: DriveAction)
        requires
            awaits(old(self).phase, DriveEvent::Affected(changed)),
            on_track(old(self)@, *compiled),
        ensures
            (final(self)@, r@) == on_affected(old(self)@, changed),
            on_track(final(self)@, *compiled),
    {
        match self.phase {
            DrivePhase::Pausing => {
                self.advance();
                DriveAction::Load
            },
            DrivePhase::Starting => {
                self.phase = if changed {
                    DrivePhase::Round
                } else {
                    DrivePhase::Reporting
                };
                DriveAction::Load
            },
            _ => {
                if changed {
                    self.phase = DrivePhase::Over;
                    DriveAction::Finish(self.ending)
                } else {
                    self.phase = DrivePhase::Reporting;
                    DriveAction::Load
                }
            },
        }
    }

    fn outcome(&mut self, compiled: &CompiledWorkflow, outcome: NodeOutcome) -> (r: DriveAction)
        requires
            awaits(old(self).phase, DriveEvent::Outcome(outcome)),
            on_track(old(self)@, *compiled),
        ensures
            (final(self)@, r@) == on_outcome(old(self)@, *compiled, outcome),
            on_track(final(self)@, *compiled),
    {
        proof {
            assert(self@.queue[self.at as int] == self.queue@[self.at as int]@);
        }
        let place: usize = place_in(compiled, &self.queue[self.at]);
        let node: &CompiledNode = &compiled.nodes[place];
        let node_id: String = self.queue[self.at].clone();
        match outcome {
            NodeOutcome::Completed { agent_run_id, cost, warnings } => {
                self.phase = DrivePhase::Closing;
                DriveAction::Record {
                    transition: NodeTransition {
                        node_id,
                        state: NodeState::Completed,
                        attempt: self.attempt,
                        cost,
                        error: None,
                        warnings,
                    },
                    agent_run_id,
                }
            },
            NodeOutcome::Blocked { error, cost } => {
                self.phase = DrivePhase::Blocking;
                let warnings: Vec<BudgetWarning> = Vec::new();
                proof {
                    assert(warnings@ =~= Seq::<BudgetWarning>::empty());
                }
                DriveAction::Record {
                    transition: NodeTransition {
                        node_id,
                        state: NodeState::Blocked,
                        attempt: self.attempt,
                        cost,
                        error: Some(error),
                        warnings,
                    },
                    agent_run_id: None,
                }
            },
            NodeOutcome::Failed { error } => {
                let limit: u32 = if node.retry.attempts < 1 {
                    1
                } else {
                    node.retry.attempts
                };
                let attempt: u32 = self.attempt;
                if attempt < limit {
                    self.attempt = attempt + 1;
                    self.phase = DrivePhase::Waiting;
                    DriveAction::Retry {
                        node: place,
                        attempt,
                        error,
                        backoff_seconds: node.retry.backoff_seconds,
                    }
                } else {
                    self.phase = DrivePhase::Closing;
                    let warnings: Vec<BudgetWarning> = Vec::new();
                    proof {
                        assert(warnings@ =~= Seq::<BudgetWarning>::empty());
                    }
                    DriveAction::Record {
                        transition: NodeTransition {
                            node_id,
                            state: NodeState::Failed,
                            attempt,
                            cost: None,
                            error: Some(error),
                            warnings,
                        },
                        agent_run_id: None,
                    }
                }
            },
        }
    }
}

fn startable() -> (r: Vec<WorkflowRunState>)
    ensures
        r@ == seq![WorkflowRunState::Pending, WorkflowRunState::Running],
{
    let mut r: Vec<WorkflowRunState> = Vec::new();
    r.push(WorkflowRunState::Pending);
    r.push(WorkflowRunState::Running);
    proof {
        assert(r@ =~= seq![WorkflowRunState::Pending, WorkflowRunState::Running]);
    }
    r
}

impl WorkflowDriver {
    /// The driver that every constructor gives.
    pub closed spec fn fresh() -> WorkflowDriver {
        WorkflowDriver { store: WorkflowStore }
    }

    /// A driver over a fresh store handle.
    pub fn new() -> (r: Self)
        ensures
            r == WorkflowDriver::fresh(),
    {
        WorkflowDriver { store: WorkflowStore::new() }
    }

    /// Sets a run that is pending or running to running. Returns whether it did: a run that
    /// somebody else has moved meanwhile is left as it is.
    pub fn try_transition_to_running(
        &self,
        table: &mut crate::workflow::store::RunTable,
        workflow_run_id: &str,
    ) -> (r: bool)
        ensures
            match crate::workflow::store::run_in(*old(table), workflow_run_id@) {
                Some(i) => {
                    let state = old(table).runs@[i].snapshot.run.state;
                    if state == WorkflowRunState::Pending || state == WorkflowRunState::Running {
                        r && final(table).runs@ == old(table).runs@.update(
                            i,
                            crate::workflow::store::with_state(
                                old(table).runs@[i],
                                WorkflowRunState::Running,
                            ),
                        )
                    } else {
                        !r && *final(table) == *old(table)
                    }
                },
                None => !r && *final(table) == *old(table),
            },
    {
        let allowed: Vec<WorkflowRunState> = startable();
        proof {
            assert(allowed@[0] == WorkflowRunState::Pending);
            assert(allowed@[1] == WorkflowRunState::Running);
        }
        let affected: usize = self.store.set_run_state_if_legal(
            table,
            workflow_run_id,
            &allowed,
            WorkflowRunState::Running,
        );
        affected > 0
    }

    /// Begins to drive a run. The first thing to do is to read its records.
    pub fn begin(&self) -> (r: Drive)
        ensures
            r.phase == DrivePhase::Entering,
            r@.queue == Seq::<Seq<char>>::empty(),
            r.at == 0,
            r.attempt == 0,
            r.ending == WorkflowRunState::Failed,
            forall|compiled: CompiledWorkflow| #[trigger] on_track(r@, compiled),
    {
        let r = Drive {
            phase: DrivePhase::Entering,
            queue: Vec::new(),
            at: 0,
            attempt: 0,
            ending: WorkflowRunState::Failed,
        };
        proof {
            assert(r@.queue =~= Seq::<Seq<char>>::empty());
        }
        r
    }

    /// Takes what came back from the last action and says what to do next.
    pub fn step(
        &self,
        drive: &mut Drive,
        compiled: &CompiledWorkflow,
        workflow_run_id: &str,
        event: DriveEvent,
    ) -> (r: DriveAction)
        requires
            awaits(old(drive).phase, event),
            on_track(old(drive)@, *compiled),
        ensures
            (final(drive)@, r@) == stepped(old(drive)@, *compiled, workflow_run_id@, event),
            on_track(final(drive)@, *compiled),
    {
        match event {
            DriveEvent::Loaded(loaded) => drive.loaded(compiled, workflow_run_id, loaded),
            DriveEvent::Done => drive.done(compiled),
            DriveEvent::Affected(changed) => drive.affected(compiled, changed),
            DriveEvent::Outcome(outcome) => drive.outcome(compiled, outcome),
        }
    }
}

} // verus!
