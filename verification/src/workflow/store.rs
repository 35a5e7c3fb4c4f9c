//! Workflow execution records: runs, node records and checkpoints, and the rules by
//! which they change.
//!
//! A run carries the signature of the graph it was created from; whatever continues a
//! run refuses a graph with another signature. The records are plain values: a caller
//! that keeps them in a database reads them, applies one of these operations and
//! writes the result back.
use crate::digest::{hex_encode, sha256};
use crate::stamp::{fresh_id, timestamp};
use crate::text::{concat2, concat3, same_text};
use crate::text_map::TextMap;
use crate::workflow::compile::{CompiledNode, CompiledWorkflow};
use crate::workflow::json::JsonValue;
use vstd::prelude::*;

verus! {

/// An error from the workflow store.
#[derive(Debug, Clone, PartialEq, Eq)]
pub enum WorkflowStoreError {
    /// The database refused, for the reason given.
    Database(String),
    /// A stored JSON text could not be read, for the reason given.
    Serde(String),
    /// No workflow run (or node) with the given id.
    NotFound(String),
    /// A stored value could not be decoded.
    Corrupt(String),
    /// Refused: the compiled graph differs from the one the run started on.
    GraphSignatureChanged { expected: String, found: String },
}

/// What a [`WorkflowStoreError`] says, with its strings seen as characters.
pub enum StoreFault {
    Database(Seq<char>),
    Serde(Seq<char>),
    NotFound(Seq<char>),
    Corrupt(Seq<char>),
    GraphSignatureChanged { expected: Seq<char>, found: Seq<char> },
}

impl View for WorkflowStoreError {
    type V = StoreFault;

    open spec fn view(&self) -> StoreFault {
        match *self {
            WorkflowStoreError::Database(s) => StoreFault::Database(s@),
            WorkflowStoreError::Serde(s) => StoreFault::Serde(s@),
            WorkflowStoreError::NotFound(s) => StoreFault::NotFound(s@),
            WorkflowStoreError::Corrupt(s) => StoreFault::Corrupt(s@),
            WorkflowStoreError::GraphSignatureChanged { expected, found } =>
                StoreFault::GraphSignatureChanged { expected: expected@, found: found@ },
        }
    }
}

/// Why the store refuses.
pub open spec fn store_message(fault: StoreFault) -> Seq<char> {
    match fault {
        StoreFault::Database(s) => s,
        StoreFault::Serde(s) => s,
        StoreFault::NotFound(s) => "no such workflow run: "@ + s,
        StoreFault::Corrupt(s) => "corrupt workflow row: "@ + s,
        StoreFault::GraphSignatureChanged { expected, found } =>
            "workflow graph changed since the run started (expected "@ + expected + ", found "@
                + found + ")"@,
    }
}

impl WorkflowStoreError {
    /// The error in words.
    pub fn message(&self) -> (r: String)
        ensures
            r@ == store_message(self@),
    {
        match self {
            WorkflowStoreError::Database(s) => s.clone(),
            WorkflowStoreError::Serde(s) => s.clone(),
            WorkflowStoreError::NotFound(s) => concat2("no such workflow run: ", s),
            WorkflowStoreError::Corrupt(s) => concat2("corrupt workflow row: ", s),
            WorkflowStoreError::GraphSignatureChanged { expected, found } => {
                let mut out: String = concat3(
                    "workflow graph changed since the run started (expected ",
                    expected,
                    ", found ",
                );
                out.append(found);
                out.append(")");
                out
            },
        }
    }
}

/// The lifecycle state of a workflow run.
#[derive(Debug, Clone, Copy, PartialEq, Eq, Structural)]
pub enum WorkflowRunState {
    Pending,
    Running,
    Paused,
    Completed,
    Failed,
    Cancelled,
}

pub open spec fn run_state_name(s: WorkflowRunState) -> Seq<char> {
    match s {
        WorkflowRunState::Pending => "pending"@,
        WorkflowRunState::Running => "running"@,
        WorkflowRunState::Paused => "paused"@,
        WorkflowRunState::Completed => "completed"@,
        WorkflowRunState::Failed => "failed"@,
        WorkflowRunState::Cancelled => "cancelled"@,
    }
}

/// Whether a run in that state is driven no further.
pub open spec fn run_over(s: WorkflowRunState) -> bool {
    s == WorkflowRunState::Completed || s == WorkflowRunState::Failed || s
        == WorkflowRunState::Cancelled
}

/// The run state with that name.
pub open spec fn run_state_named(s: Seq<char>) -> Option<WorkflowRunState> {
    if s == "pending"@ {
        Some(WorkflowRunState::Pending)
    } else if s == "running"@ {
        Some(WorkflowRunState::Running)
    } else if s == "paused"@ {
        Some(WorkflowRunState::Paused)
    } else if s == "completed"@ {
        Some(WorkflowRunState::Completed)
    } else if s == "failed"@ {
        Some(WorkflowRunState::Failed)
    } else if s == "cancelled"@ {
        Some(WorkflowRunState::Cancelled)
    } else {
        None
    }
}

impl WorkflowRunState {
    pub fn as_str(self) -> (r: &'static str)
        ensures
            r@ == run_state_name(self),
    {
        match self {
            WorkflowRunState::Pending => "pending",
            WorkflowRunState::Running => "running",
            WorkflowRunState::Paused => "paused",
            WorkflowRunState::Completed => "completed",
            WorkflowRunState::Failed => "failed",
            WorkflowRunState::Cancelled => "cancelled",
        }
    }

    /// Whether the run has reached a terminal state.
    pub fn is_terminal(self) -> (r: bool)
        ensures
            r == run_over(self),
    {
        matches!(
            self,
            WorkflowRunState::Completed | WorkflowRunState::Failed | WorkflowRunState::Cancelled
        )
    }

    /// The state with that name; any other string is a corrupt row.
    pub fn parse(s: &str) -> (r: Result<Self, WorkflowStoreError>)
        ensures
            match r {
                Ok(state) => run_state_named(s@) == Some(state),
                Err(e) => run_state_named(s@) is None && e@ == StoreFault::Corrupt(
                    "run state "@ + s@,
                ),
            },
    {
        if same_text(s, "pending") {
            Ok(WorkflowRunState::Pending)
        } else if same_text(s, "running") {
            Ok(WorkflowRunState::Running)
        } else if same_text(s, "paused") {
            Ok(WorkflowRunState::Paused)
        } else if same_text(s, "completed") {
            Ok(WorkflowRunState::Completed)
        } else if same_text(s, "failed") {
            Ok(WorkflowRunState::Failed)
        } else if same_text(s, "cancelled") {
            Ok(WorkflowRunState::Cancelled)
        } else {
            Err(WorkflowStoreError::Corrupt(concat2("run state ", s)))
        }
    }
}

/// Every run state's name is read back as that state.
pub proof fn law_run_state_names_round_trip(s: WorkflowRunState)
    ensures
        run_state_named(run_state_name(s)) == Some(s),
{
    reveal_strlit("pending");
    reveal_strlit("running");
    reveal_strlit("paused");
    reveal_strlit("completed");
    reveal_strlit("failed");
    reveal_strlit("cancelled");
    assert("pending"@[0] != "running"@[0]);
    assert("paused"@.len() != "pending"@.len());
    assert("paused"@.len() != "running"@.len());
    assert("failed"@[0] != "paused"@[0]);
    assert("completed"@[1] != "cancelled"@[1]);
    assert("completed"@.len() == 9 && "cancelled"@.len() == 9);
}

/// The lifecycle state of a single workflow node.
#[derive(Debug, Clone, Copy, PartialEq, Eq, Structural)]
pub enum NodeState {
    Pending,
    Running,
    WaitingApproval,
    Blocked,
    Completed,
    Failed,
    Skipped,
}

pub open spec fn node_state_name(s: NodeState) -> Seq<char> {
    match s {
        NodeState::Pending => "pending"@,
        NodeState::Running => "running"@,
        NodeState::WaitingApproval => "waiting_approval"@,
        NodeState::Blocked => "blocked"@,
        NodeState::Completed => "completed"@,
        NodeState::Failed => "failed"@,
        NodeState::Skipped => "skipped"@,
    }
}

/// Whether a node in that state has no further work.
pub open spec fn node_over(s: NodeState) -> bool {
    s == NodeState::Completed || s == NodeState::Failed || s == NodeState::Skipped
}

/// The node state with that name.
pub open spec fn node_state_named(s: Seq<char>) -> Option<NodeState> {
    if s == "pending"@ {
        Some(NodeState::Pending)
    } else if s == "running"@ {
        Some(NodeState::Running)
    } else if s == "waiting_approval"@ {
        Some(NodeState::WaitingApproval)
    } else if s == "blocked"@ {
        Some(NodeState::Blocked)
    } else if s == "completed"@ {
        Some(NodeState::Completed)
    } else if s == "failed"@ {
        Some(NodeState::Failed)
    } else if s == "skipped"@ {
        Some(NodeState::Skipped)
    } else {
        None
    }
}

impl NodeState {
    pub fn as_str(self) -> (r: &'static str)
        ensures
            r@ == node_state_name(self),
    {
        match self {
            NodeState::Pending => "pending",
            NodeState::Running => "running",
            NodeState::WaitingApproval => "waiting_approval",
            NodeState::Blocked => "blocked",
            NodeState::Completed => "completed",
            NodeState::Failed => "failed",
            NodeState::Skipped => "skipped",
        }
    }

    /// Whether the node has finished: completed, failed or skipped.
    pub fn is_terminal(self) -> (r: bool)
        ensures
            r == node_over(self),
    {
        matches!(self, NodeState::Completed | NodeState::Failed | NodeState::Skipped)
    }

    /// The state with that name; any other string is a corrupt row.
    pub fn parse(s: &str) -> (r: Result<Self, WorkflowStoreError>)
        ensures
            match r {
                Ok(state) => node_state_named(s@) == Some(state),
                Err(e) => node_state_named(s@) is None && e@ == StoreFault::Corrupt(
                    "node state "@ + s@,
                ),
            },
    {
        if same_text(s, "pending") {
            Ok(NodeState::Pending)
        } else if same_text(s, "running") {
            Ok(NodeState::Running)
        } else if same_text(s, "waiting_approval") {
            Ok(NodeState::WaitingApproval)
        } else if same_text(s, "blocked") {
            Ok(NodeState::Blocked)
        } else if same_text(s, "completed") {
            Ok(NodeState::Completed)
        } else if same_text(s, "failed") {
            Ok(NodeState::Failed)
        } else if same_text(s, "skipped") {
            Ok(NodeState::Skipped)
        } else {
            Err(WorkflowStoreError::Corrupt(concat2("node state ", s)))
        }
    }
}

/// Every node state's name is read back as that state.
pub proof fn law_node_state_names_round_trip(s: NodeState)
    ensures
        node_state_named(node_state_name(s)) == Some(s),
{
    reveal_strlit("pending");
    reveal_strlit("running");
    reveal_strlit("waiting_approval");
    reveal_strlit("blocked");
    reveal_strlit("completed");
    reveal_strlit("failed");
    reveal_strlit("skipped");
    assert("pending"@[0] != "running"@[0]);
    assert("pending"@[0] != "blocked"@[0]);
    assert("running"@[0] != "blocked"@[0]);
    assert("skipped"@[0] != "pending"@[0]);
    assert("skipped"@[0] != "running"@[0]);
    assert("skipped"@[0] != "blocked"@[0]);
    assert("completed"@.len() == 9 && "failed"@.len() == 6 && "waiting_approval"@.len() == 16);
}

/// A workflow run row.
#[derive(Debug, Clone, PartialEq)]
pub struct WorkflowRunRecord {
    pub id: String,
    pub workflow_id: String,
    pub workflow_version: u32,
    pub graph_signature: String,
    pub run_id: Option<String>,
    pub inputs: JsonValue,
    pub state: WorkflowRunState,
}

/// A workflow node row.
#[derive(Debug, Clone, PartialEq)]
pub struct WorkflowNodeRecord {
    pub node_id: String,
    pub state: NodeState,
    pub agent_run_id: Option<String>,
    pub attempt: u32,
    pub topo_order: usize,
    pub cost: Option<JsonValue>,
    /// Why the node failed or blocked last, if it did.
    pub error: Option<String>,
    /// When the node first ran.
    pub started_at: Option<String>,
    /// When the node reached a terminal state; absent while it is not in one.
    pub ended_at: Option<String>,
}

/// A run plus its node records, in topological order.
#[derive(Debug, Clone, PartialEq)]
pub struct WorkflowRunSnapshot {
    pub run: WorkflowRunRecord,
    pub nodes: Vec<WorkflowNodeRecord>,
}

/// A recorded checkpoint (its content artifact is referenced, not inlined).
#[derive(Debug, Clone, PartialEq, Eq)]
pub struct Checkpoint {
    pub id: String,
    pub graph_signature: String,
    pub state_artifact_id: Option<String>,
}

/// What the workflow was compiled from, the run, its nodes and its checkpoints, the
/// latest last.
#[derive(Debug, Clone, PartialEq)]
pub struct StoredRun {
    pub snapshot: WorkflowRunSnapshot,
    pub manifest: Option<String>,
    pub checkpoints: Vec<Checkpoint>,
}

/// Runs, the oldest first.
#[derive(Debug, Clone, PartialEq)]
pub struct RunTable {
    pub runs: Vec<StoredRun>,
}

/// What a resume continues from.
#[derive(Debug, Clone, PartialEq)]
pub struct ResumePlan<'a> {
    pub snapshot: &'a WorkflowRunSnapshot,
    /// The first non-terminal node that no failed or skipped ancestor blocks, or `None`
    /// when the run has no schedulable work left.
    pub next_node: Option<String>,
    /// Non-terminal nodes that can never become ready, each with the ancestor that
    /// blocks it.
    pub blocked_nodes: Vec<(String, String)>,
    pub latest_checkpoint: Option<&'a Checkpoint>,
}

// ---------------------------------------------------------------------------
// The frontier
// ---------------------------------------------------------------------------

/// The state of the node `id` among the first `n` records; the last record counts.
pub open spec fn state_among(nodes: Seq<WorkflowNodeRecord>, id: Seq<char>, n: int) -> Option<
    NodeState,
>
    decreases n,
{
    if n <= 0 {
        None
    } else if nodes[n - 1].node_id@ == id {
        Some(nodes[n - 1].state)
    } else {
        state_among(nodes, id, n - 1)
    }
}

/// The recorded state of the node `id`.
pub open spec fn state_of(snapshot: WorkflowRunSnapshot, id: Seq<char>) -> Option<NodeState> {
    state_among(snapshot.nodes@, id, snapshot.nodes@.len() as int)
}

/// Whether `node` is pending and all its dependencies are completed.
pub open spec fn node_ready(node: CompiledNode, snapshot: WorkflowRunSnapshot) -> bool {
    &&& state_of(snapshot, node.id@) == Some(NodeState::Pending)
    &&& forall|d: int|
        0 <= d < node.depends_on@.len() ==> state_of(
            snapshot,
            (#[trigger] node.depends_on@[d])@,
        ) == Some(NodeState::Completed)
}

/// The ids of the ready ones among the first `n` nodes, in compiled order.
pub open spec fn ready_ids(
    nodes: Seq<CompiledNode>,
    snapshot: WorkflowRunSnapshot,
    n: int,
) -> Seq<Seq<char>>
    decreases n,
{
    if n <= 0 {
        Seq::empty()
    } else if node_ready(nodes[n - 1], snapshot) {
        ready_ids(nodes, snapshot, n - 1).push(nodes[n - 1].id@)
    } else {
        ready_ids(nodes, snapshot, n - 1)
    }
}

/// The ready frontier of a snapshot.
pub open spec fn frontier(compiled: CompiledWorkflow, snapshot: WorkflowRunSnapshot) -> Seq<
    Seq<char>,
> {
    ready_ids(compiled.nodes@, snapshot, compiled.nodes@.len() as int)
}

fn find_state(snapshot: &WorkflowRunSnapshot, id: &String) -> (r: Option<NodeState>)
    ensures
        r == state_of(*snapshot, id@),
{
    let mut n: usize = snapshot.nodes.len();
    while n > 0
        invariant
            n <= snapshot.nodes@.len(),
            state_of(*snapshot, id@) == state_among(snapshot.nodes@, id@, n as int),
        decreases n,
    {
        if snapshot.nodes[n - 1].node_id == *id {
            return Some(snapshot.nodes[n - 1].state);
        }
        n = n - 1;
    }
    None
}

fn is_ready(node: &CompiledNode, snapshot: &WorkflowRunSnapshot) -> (r: bool)
    ensures
        r == node_ready(*node, *snapshot),
{
    match find_state(snapshot, &node.id) {
        Some(NodeState::Pending) => {},
        _ => {
            return false;
        },
    }
    let mut d: usize = 0;
    while d < node.depends_on.len()
        invariant
            d <= node.depends_on@.len(),
            forall|k: int|
                0 <= k < d ==> state_of(*snapshot, (#[trigger] node.depends_on@[k])@) == Some(
                    NodeState::Completed,
                ),
        decreases node.depends_on@.len() - d,
    {
        match find_state(snapshot, &node.depends_on[d]) {
            Some(NodeState::Completed) => {},
            _ => {
                return false;
            },
        }
        d = d + 1;
    }
    true
}

/// The ids of the nodes ready to run, in compiled order: those that are pending and
/// whose dependencies are all completed.
pub fn ready_node_ids(compiled: &CompiledWorkflow, snapshot: &WorkflowRunSnapshot) -> (r: Vec<
    String,
>)
    ensures
        crate::text::texts(r@) == frontier(*compiled, *snapshot),
{
    let mut out: Vec<String> = Vec::new();
    let mut k: usize = 0;
    proof {
        assert(crate::text::texts(out@) =~= Seq::<Seq<char>>::empty());
    }
    while k < compiled.nodes.len()
        invariant
            k <= compiled.nodes@.len(),
            crate::text::texts(out@) == ready_ids(compiled.nodes@, *snapshot, k as int),
        decreases compiled.nodes@.len() - k,
    {
        if is_ready(&compiled.nodes[k], snapshot) {
            let ghost before = out@;
            out.push(compiled.nodes[k].id.clone());
            proof {
                assert(crate::text::texts(out@) =~= crate::text::texts(before).push(
                    compiled.nodes@[k as int].id@,
                ));
            }
        }
        k = k + 1;
    }
    out
}

// ---------------------------------------------------------------------------
// Blocked nodes
// ---------------------------------------------------------------------------

/// Whether a state ends a node without completing it.
pub open spec fn dead_end(s: Option<NodeState>) -> bool {
    s == Some(NodeState::Failed) || s == Some(NodeState::Skipped)
}

/// The blocker of the last of the first `n` nodes with that id, where one of them has
/// one.
pub open spec fn blocker_among(
    nodes: Seq<CompiledNode>,
    snapshot: WorkflowRunSnapshot,
    id: Seq<char>,
    n: int,
) -> Option<Seq<char>>
    decreases n, 1int, 0int,
{
    if n <= 0 {
        None
    } else if nodes[n - 1].id@ == id && node_blocker(nodes, snapshot, n - 1, 0) is Some {
        node_blocker(nodes, snapshot, n - 1, 0)
    } else {
        blocker_among(nodes, snapshot, id, n - 1)
    }
}

/// What blocks node `k`, judging by its dependencies from the `d`-th on: the first that
/// failed or was skipped itself, or is blocked by something further up.
pub open spec fn node_blocker(
    nodes: Seq<CompiledNode>,
    snapshot: WorkflowRunSnapshot,
    k: int,
    d: int,
) -> Option<Seq<char>>
    decreases k, 2int, nodes[k].depends_on@.len() - d,
{
    let deps = nodes[k].depends_on@;
    if d < 0 || d >= deps.len() {
        None
    } else if dead_end(state_of(snapshot, deps[d]@)) {
        Some(deps[d]@)
    } else if k >= 0 && blocker_among(nodes, snapshot, deps[d]@, k) is Some {
        blocker_among(nodes, snapshot, deps[d]@, k)
    } else {
        node_blocker(nodes, snapshot, k, d + 1)
    }
}

/// Whether node `id` is recorded and not terminal.
pub open spec fn live(snapshot: WorkflowRunSnapshot, id: Seq<char>) -> bool {
    match state_of(snapshot, id) {
        Some(s) => !node_over(s),
        None => false,
    }
}

/// The live blocked ones among the first `n` nodes, each with its blocker.
pub open spec fn blocked_pairs(
    nodes: Seq<CompiledNode>,
    snapshot: WorkflowRunSnapshot,
    n: int,
) -> Seq<(Seq<char>, Seq<char>)>
    decreases n,
{
    if n <= 0 {
        Seq::empty()
    } else {
        let rest = blocked_pairs(nodes, snapshot, n - 1);
        match node_blocker(nodes, snapshot, n - 1, 0) {
            Some(b) => if live(snapshot, nodes[n - 1].id@) {
                rest.push((nodes[n - 1].id@, b))
            } else {
                rest
            },
            None => rest,
        }
    }
}

/// The blocked nodes of a snapshot.
pub open spec fn blocked(compiled: CompiledWorkflow, snapshot: WorkflowRunSnapshot) -> Seq<
    (Seq<char>, Seq<char>),
> {
    blocked_pairs(compiled.nodes@, snapshot, compiled.nodes@.len() as int)
}

pub open spec fn pair_texts(v: Seq<(String, String)>) -> Seq<(Seq<char>, Seq<char>)> {
    v.map_values(|p: (String, String)| (p.0@, p.1@))
}

/// Blockers found so far, by node place.
spec fn blockers_match(
    found: Seq<Option<String>>,
    nodes: Seq<CompiledNode>,
    snapshot: WorkflowRunSnapshot,
) -> bool {
    forall|k: int|
        0 <= k < found.len() ==> match #[trigger] found[k] {
            Some(b) => node_blocker(nodes, snapshot, k, 0) == Some(b@),
            None => node_blocker(nodes, snapshot, k, 0) is None,
        }
}

fn find_blocker(
    nodes: &Vec<CompiledNode>,
    found: &Vec<Option<String>>,
    Ghost(snapshot): Ghost<WorkflowRunSnapshot>,
    id: &String,
) -> (r: Option<String>)
    requires
        found@.len() <= nodes@.len(),
        blockers_match(found@, nodes@, snapshot),
    ensures
        match r {
            Some(b) => blocker_among(nodes@, snapshot, id@, found@.len() as int) == Some(b@),
            None => blocker_among(nodes@, snapshot, id@, found@.len() as int) is None,
        },
{
    let mut n: usize = found.len();
    while n > 0
        invariant
            n <= found@.len() <= nodes@.len(),
            blockers_match(found@, nodes@, snapshot),
            blocker_among(nodes@, snapshot, id@, found@.len() as int) == blocker_among(
                nodes@,
                snapshot,
                id@,
                n as int,
            ),
        decreases n,
    {
        if nodes[n - 1].id == *id {
            proof {
                assert(found@[n - 1] == found@[n - 1]);
            }
            if let Some(b) = &found[n - 1] {
                return Some(b.clone());
            }
        }
        n = n - 1;
    }
    None
}

/// The live nodes that can never become ready: a dependency, direct or transitive,
/// ended failed or skipped. Each is paired with the ancestor that blocks it.
pub fn blocked_node_ids(compiled: &CompiledWorkflow, snapshot: &WorkflowRunSnapshot) -> (r: Vec<
    (String, String),
>)
    ensures
        pair_texts(r@) == blocked(*compiled, *snapshot),
{
    let nodes: &Vec<CompiledNode> = &compiled.nodes;
    let mut found: Vec<Option<String>> = Vec::new();
    let mut out: Vec<(String, String)> = Vec::new();
    let mut k: usize = 0;
    proof {
        assert(pair_texts(out@) =~= Seq::<(Seq<char>, Seq<char>)>::empty());
    }
    while k < nodes.len()
        invariant
            k <= nodes@.len(),
            *nodes == compiled.nodes,
            found@.len() == k,
            blockers_match(found@, nodes@, *snapshot),
            pair_texts(out@) == blocked_pairs(nodes@, *snapshot, k as int),
        decreases nodes@.len() - k,
    {
        let node: &CompiledNode = &nodes[k];
        let mut blocker: Option<String> = None;
        let mut d: usize = 0;
        while d < node.depends_on.len() && blocker.is_none()
            invariant
                k < nodes@.len(),
                d <= node.depends_on@.len(),
                *node == nodes@[k as int],
                found@.len() == k,
                blockers_match(found@, nodes@, *snapshot),
                match blocker {
                    Some(b) => node_blocker(nodes@, *snapshot, k as int, 0) == Some(b@),
                    None => node_blocker(nodes@, *snapshot, k as int, 0) == node_blocker(
                        nodes@,
                        *snapshot,
                        k as int,
                        d as int,
                    ),
                },
            decreases node.depends_on@.len() - d,
        {
            let dep: &String = &node.depends_on[d];
            match find_state(snapshot, dep) {
                Some(NodeState::Failed) | Some(NodeState::Skipped) => {
                    blocker = Some(dep.clone());
                },
                _ => {
                    blocker = find_blocker(nodes, &found, Ghost(*snapshot), dep);
                },
            }
            d = d + 1;
        }
        if let Some(b) = &blocker {
            let alive: bool = match find_state(snapshot, &node.id) {
                Some(s) => !s.is_terminal(),
                None => false,
            };
            if alive {
                let ghost before = out@;
                out.push((node.id.clone(), b.clone()));
                proof {
                    assert(pair_texts(out@) =~= pair_texts(before).push((node.id@, b@)));
                }
            }
        }
        found.push(blocker);
        k = k + 1;
    }
    out
}

// ---------------------------------------------------------------------------
// Runs
// ---------------------------------------------------------------------------

/// The workflow store. Stateless; the table is passed to each method.
#[derive(Debug, Clone, Copy, PartialEq, Eq, Structural)]
pub struct WorkflowStore;

impl Default for WorkflowStore {
    fn default() -> (r: Self)
        ensures
            r == WorkflowStore,
    {
        WorkflowStore
    }
}

/// The place of the first run from `i` on with that id.
pub open spec fn run_index(runs: Seq<StoredRun>, id: Seq<char>, i: int) -> Option<int>
    decreases runs.len() - i,
{
    if i >= runs.len() {
        None
    } else if runs[i].snapshot.run.id@ == id {
        Some(i)
    } else {
        run_index(runs, id, i + 1)
    }
}

/// The run with that id.
pub open spec fn run_in(table: RunTable, id: Seq<char>) -> Option<int> {
    run_index(table.runs@, id, 0)
}

/// The place of the first record from `i` on for that node.
pub open spec fn record_index(nodes: Seq<WorkflowNodeRecord>, id: Seq<char>, i: int) -> Option<int>
    decreases nodes.len() - i,
{
    if i >= nodes.len() {
        None
    } else if nodes[i].node_id@ == id {
        Some(i)
    } else {
        record_index(nodes, id, i + 1)
    }
}

proof fn lemma_run_index(runs: Seq<StoredRun>, id: Seq<char>, i: int)
    requires
        0 <= i,
    ensures
        match run_index(runs, id, i) {
            Some(k) => i <= k < runs.len() && runs[k].snapshot.run.id@ == id,
            None => true,
        },
    decreases runs.len() - i,
{
    if i < runs.len() && runs[i].snapshot.run.id@ != id {
        lemma_run_index(runs, id, i + 1);
    }
}

fn find_run(table: &RunTable, id: &str) -> (r: Option<usize>)
    ensures
        match r {
            Some(i) => i < table.runs@.len() && run_in(*table, id@) == Some(i as int),
            None => run_in(*table, id@) is None,
        },
{
    let mut i: usize = 0;
    while i < table.runs.len()
        invariant
            i <= table.runs@.len(),
            run_in(*table, id@) == run_index(table.runs@, id@, i as int),
        decreases table.runs@.len() - i,
    {
        if same_text(&table.runs[i].snapshot.run.id, id) {
            return Some(i);
        }
        i = i + 1;
    }
    None
}

fn find_record(nodes: &Vec<WorkflowNodeRecord>, id: &str) -> (r: Option<usize>)
    ensures
        match r {
            Some(i) => i < nodes@.len() && record_index(nodes@, id@, 0) == Some(i as int),
            None => record_index(nodes@, id@, 0) is None,
        },
{
    let mut i: usize = 0;
    while i < nodes.len()
        invariant
            i <= nodes@.len(),
            record_index(nodes@, id@, 0) == record_index(nodes@, id@, i as int),
        decreases nodes@.len() - i,
    {
        if same_text(&nodes[i].node_id, id) {
            return Some(i);
        }
        i = i + 1;
    }
    None
}

/// The record a node starts with.
pub open spec fn fresh_record(record: WorkflowNodeRecord, node: CompiledNode) -> bool {
    &&& record.node_id@ == node.id@
    &&& record.state == NodeState::Pending
    &&& record.agent_run_id is None
    &&& record.attempt == 0
    &&& record.topo_order == node.topo_order
    &&& record.cost is None
    &&& record.error is None
    &&& record.started_at is None
    &&& record.ended_at is None
}

/// Whether `run` is what a compiled workflow is stored as when its run is created.
pub open spec fn fresh_run(
    run: StoredRun,
    id: Seq<char>,
    compiled: CompiledWorkflow,
    run_id: Option<String>,
    inputs: JsonValue,
    manifest: Option<String>,
) -> bool {
    let r = run.snapshot.run;
    &&& r.id@ == id
    &&& r.workflow_id@ == compiled.id@
    &&& r.workflow_version == compiled.version
    &&& r.graph_signature@ == crate::workflow::compile::signature_of(compiled)
    &&& r.run_id == run_id
    &&& r.inputs == inputs
    &&& r.state == WorkflowRunState::Pending
    &&& run.snapshot.nodes@.len() == compiled.nodes@.len()
    &&& forall|k: int|
        0 <= k < compiled.nodes@.len() ==> fresh_record(
            #[trigger] run.snapshot.nodes@[k],
            compiled.nodes@[k],
        )
    &&& run.manifest == manifest
    &&& run.checkpoints@.len() == 0
}

/// What adding a run under `id` leaves behind: the run, at the end of the table, or where
/// the id is in use a refusal and the table as it was.
pub open spec fn created(
    before: RunTable,
    after: RunTable,
    id: Seq<char>,
    compiled: CompiledWorkflow,
    run_id: Option<String>,
    inputs: JsonValue,
    manifest: Option<String>,
    r: Result<String, WorkflowStoreError>,
) -> bool {
    match run_in(before, id) {
        Some(_) => {
            &&& after == before
            &&& r matches Err(e) && e@ == StoreFault::Database(
                "UNIQUE constraint failed: workflow_runs.id"@,
            )
        },
        None => {
            &&& r matches Ok(given) && given@ == id
            &&& after.runs@.len() == before.runs@.len() + 1
            &&& after.runs@.drop_last() == before.runs@
            &&& fresh_run(after.runs@.last(), id, compiled, run_id, inputs, manifest)
        },
    }
}

/// What a keyed delivery leaves behind: the run that the key stands for, or where that is
/// already there the table as it was.
pub open spec fn delivered(
    before: RunTable,
    after: RunTable,
    key: Seq<char>,
    compiled: CompiledWorkflow,
    inputs: JsonValue,
    manifest: Option<String>,
    r: String,
) -> bool {
    &&& r@ == keyed_run_id(key)
    &&& match run_in(before, r@) {
        Some(_) => after == before,
        None => {
            &&& after.runs@.len() == before.runs@.len() + 1
            &&& after.runs@.drop_last() == before.runs@
            &&& fresh_run(after.runs@.last(), r@, compiled, None, inputs, manifest)
        },
    }
}

/// The run id that an idempotency key stands for.
pub open spec fn keyed_run_id(key: Seq<char>) -> Seq<char> {
    "wfrun-"@ + crate::digest::hex_text(
        crate::digest::sha256_of(
            vstd::utf8::encode_utf8("workflow-run\0"@) + vstd::utf8::encode_utf8(key),
        ).take(16),
    )
}

/// A workflow-run id derived from a command's idempotency key: the same key always
/// gives the same id.
pub fn deterministic_run_id(idempotency_key: &str) -> (r: String)
    ensures
        r@ == keyed_run_id(idempotency_key@),
{
    let mut bytes: Vec<u8> = "workflow-run\0".as_bytes_vec();
    let mut key: Vec<u8> = idempotency_key.as_bytes_vec();
    bytes.append(&mut key);
    let digest: Vec<u8> = sha256(&bytes);
    run_id_of_digest(&digest)
}

/// The run id made of a digest: a prefix and the first half of its 32 bytes.
pub fn run_id_of_digest(digest: &Vec<u8>) -> (r: String)
    requires
        digest@.len() == 32,
    ensures
        r@ == "wfrun-"@ + crate::digest::hex_text(digest@.take(16)),
{
    let mut head: Vec<u8> = Vec::new();
    let mut i: usize = 0;
    while i < 16
        invariant
            i <= 16,
            digest@.len() == 32,
            head@ == digest@.take(i as int),
        decreases 16 - i,
    {
        head.push(digest[i]);
        proof {
            assert(digest@.take(i + 1) =~= digest@.take(i as int).push(digest@[i as int]));
        }
        i = i + 1;
    }
    let text: String = hex_encode(&head);
    concat2("wfrun-", &text)
}

fn new_run(
    id: String,
    compiled: &CompiledWorkflow,
    run_id: Option<String>,
    inputs: JsonValue,
    manifest: Option<String>,
) -> (r: StoredRun)
    ensures
        fresh_run(r, id@, *compiled, run_id, inputs, manifest),
{
    let mut nodes: Vec<WorkflowNodeRecord> = Vec::new();
    let mut k: usize = 0;
    while k < compiled.nodes.len()
        invariant
            k <= compiled.nodes@.len(),
            nodes@.len() == k,
            forall|j: int| 0 <= j < k ==> fresh_record(#[trigger] nodes@[j], compiled.nodes@[j]),
        decreases compiled.nodes@.len() - k,
    {
        nodes.push(
            WorkflowNodeRecord {
                node_id: compiled.nodes[k].id.clone(),
                state: NodeState::Pending,
                agent_run_id: None,
                attempt: 0,
                topo_order: compiled.nodes[k].topo_order,
                cost: None,
                error: None,
                started_at: None,
                ended_at: None,
            },
        );
        k = k + 1;
    }
    StoredRun {
        snapshot: WorkflowRunSnapshot {
            run: WorkflowRunRecord {
                id,
                workflow_id: compiled.id.clone(),
                workflow_version: compiled.version,
                graph_signature: compiled.signature(),
                run_id,
                inputs,
                state: WorkflowRunState::Pending,
            },
            nodes,
        },
        manifest,
        checkpoints: Vec::new(),
    }
}

/// `a` if it is there, else `b`.
pub open spec fn or_else<T>(a: Option<T>, b: Option<T>) -> Option<T> {
    match a {
        Some(_) => a,
        None => b,
    }
}

/// A node record after a transition: the agent run and the cost are replaced where they
/// are given, the start is stamped the first time the node runs, the end while it is in
/// a terminal state, and the reason is that of this transition.
pub open spec fn transitioned(
    record: WorkflowNodeRecord,
    state: NodeState,
    attempt: u32,
    agent_run_id: Option<String>,
    cost: Option<JsonValue>,
    error: Option<String>,
    now: String,
) -> WorkflowNodeRecord {
    WorkflowNodeRecord {
        state,
        attempt,
        agent_run_id: or_else(agent_run_id, record.agent_run_id),
        cost: or_else(cost, record.cost),
        error,
        started_at: or_else(
            record.started_at,
            if state == NodeState::Running {
                Some(now)
            } else {
                None
            },
        ),
        ended_at: if node_over(state) {
            Some(now)
        } else {
            None
        },
        ..record
    }
}

/// What moving a node leaves behind: the record after the transition, or a refusal and the
/// table as it was where there is no such record.
pub open spec fn node_moved(
    before: RunTable,
    after: RunTable,
    run_id: Seq<char>,
    node_id: Seq<char>,
    state: NodeState,
    attempt: u32,
    agent_run_id: Option<String>,
    cost: Option<JsonValue>,
    error: Option<String>,
    now: String,
    r: Result<(), WorkflowStoreError>,
) -> bool {
    match record_place(before, run_id, node_id) {
        Some((i, n)) => {
            let record = before.runs@[i].snapshot.nodes@[n];
            &&& r is Ok
            &&& only_run(before, after, i)
            &&& with_record(
                before.runs@[i],
                after.runs@[i],
                n,
                transitioned(record, state, attempt, agent_run_id, cost, error, now),
            )
        },
        None => {
            &&& after == before
            &&& r matches Err(e) && e@ == StoreFault::NotFound(run_id + "/"@ + node_id)
        },
    }
}

/// The run and the record of a node.
pub open spec fn record_place(table: RunTable, run_id: Seq<char>, node_id: Seq<char>) -> Option<
    (int, int),
> {
    match run_in(table, run_id) {
        Some(i) => match record_index(table.runs@[i].snapshot.nodes@, node_id, 0) {
            Some(n) => Some((i, n)),
            None => None,
        },
        None => None,
    }
}

/// A node record reset by a retry: nothing of the earlier execution is left.
pub open spec fn retried(record: WorkflowNodeRecord) -> WorkflowNodeRecord {
    WorkflowNodeRecord {
        state: NodeState::Pending,
        attempt: 0,
        agent_run_id: None,
        cost: None,
        error: None,
        started_at: None,
        ended_at: None,
        ..record
    }
}

/// Whether the records differ exactly in that `node_id` and everything downstream of it were
/// reset by a retry.
pub open spec fn reset_from(
    before: Seq<WorkflowNodeRecord>,
    after: Seq<WorkflowNodeRecord>,
    nodes: Seq<CompiledNode>,
    node_id: Seq<char>,
) -> bool {
    &&& after.len() == before.len()
    &&& forall|k: int|
        0 <= k < before.len() ==> #[trigger] after[k] == if downstream(
            nodes,
            node_id,
            before[k].node_id@,
        ) {
            retried(before[k])
        } else {
            before[k]
        }
}

/// A node record whose execution was interrupted, made pending again: the attempt is
/// kept, its agent run, cost and reason are not.
pub open spec fn interrupted_reset(record: WorkflowNodeRecord, attempt: u32) -> WorkflowNodeRecord {
    WorkflowNodeRecord {
        state: NodeState::Pending,
        attempt,
        agent_run_id: None,
        cost: None,
        error: None,
        ended_at: None,
        ..record
    }
}

/// A blocked node record made pending again: its cost and reason are kept, so that the
/// budget is judged against the same consumption.
pub open spec fn blocked_reset(record: WorkflowNodeRecord) -> WorkflowNodeRecord {
    WorkflowNodeRecord { state: NodeState::Pending, ended_at: None, ..record }
}

/// `runs` with the record `n` of run `i` replaced.
pub open spec fn with_record(
    before: StoredRun,
    after: StoredRun,
    n: int,
    record: WorkflowNodeRecord,
) -> bool {
    &&& after.snapshot.run == before.snapshot.run
    &&& after.snapshot.nodes@ == before.snapshot.nodes@.update(n, record)
    &&& after.manifest == before.manifest
    &&& after.checkpoints == before.checkpoints
}

/// A run with another lifecycle state.
pub open spec fn with_state(run: StoredRun, state: WorkflowRunState) -> StoredRun {
    StoredRun {
        snapshot: WorkflowRunSnapshot {
            run: WorkflowRunRecord { state, ..run.snapshot.run },
            ..run.snapshot
        },
        ..run
    }
}

/// Whether the tables differ at most in run `i`.
pub open spec fn only_run(before: RunTable, after: RunTable, i: int) -> bool {
    &&& after.runs@.len() == before.runs@.len()
    &&& forall|k: int|
        0 <= k < before.runs@.len() && k != i ==> #[trigger] after.runs@[k] == before.runs@[k]
}

fn missing_node(run_id: &str, node_id: &str) -> (r: WorkflowStoreError)
    ensures
        r@ == StoreFault::NotFound(run_id@ + "/"@ + node_id@),
{
    WorkflowStoreError::NotFound(concat3(run_id, "/", node_id))
}

impl WorkflowStore {
    pub fn new() -> (r: Self)
        ensures
            r == WorkflowStore,
    {
        WorkflowStore
    }

    /// Adds a run for a compiled workflow under a new id: pending, stamped with the graph
    /// signature, with a pending record per node. Returns the id.
    pub fn create_run(
        &self,
        table: &mut RunTable,
        compiled: &CompiledWorkflow,
        run_id: Option<String>,
        inputs: JsonValue,
        manifest: Option<String>,
    ) -> (r: Result<String, WorkflowStoreError>)
        ensures
            exists|id: Seq<char>|
                crate::stamp::is_identifier(id) && #[trigger] created(
                    *old(table),
                    *final(table),
                    id,
                    *compiled,
                    run_id,
                    inputs,
                    manifest,
                    r,
                ),
    {
        let id: String = fresh_id();
        self.create_run_as(table, id, compiled, run_id, inputs, manifest)
    }

    /// Adds a run for a compiled workflow under the given id. An id that is in use is
    /// refused.
    pub fn create_run_as(
        &self,
        table: &mut RunTable,
        id: String,
        compiled: &CompiledWorkflow,
        run_id: Option<String>,
        inputs: JsonValue,
        manifest: Option<String>,
    ) -> (r: Result<String, WorkflowStoreError>)
        ensures
            created(*old(table), *final(table), id@, *compiled, run_id, inputs, manifest, r),
    {
        match find_run(table, &id) {
            Some(_) => Err(
                WorkflowStoreError::Database(
                    "UNIQUE constraint failed: workflow_runs.id".to_owned(),
                ),
            ),
            None => {
                let run: StoredRun = new_run(id.clone(), compiled, run_id, inputs, manifest);
                table.runs.push(run);
                proof {
                    assert(table.runs@.drop_last() =~= old(table).runs@);
                }
                Ok(id)
            },
        }
    }

    /// Adds a run keyed by a client's idempotency key. The id is derived from the key,
    /// so a second delivery of the same command changes nothing. Returns the id.
    pub fn create_run_idempotent(
        &self,
        table: &mut RunTable,
        compiled: &CompiledWorkflow,
        idempotency_key: &str,
        inputs: JsonValue,
        manifest: Option<String>,
    ) -> (r: String)
        ensures
            delivered(
                *old(table),
                *final(table),
                idempotency_key@,
                *compiled,
                inputs,
                manifest,
                r,
            ),
    {
        let id: String = deterministic_run_id(idempotency_key);
        match find_run(table, &id) {
            Some(_) => {},
            None => {
                let run: StoredRun = new_run(id.clone(), compiled, None, inputs, manifest);
                table.runs.push(run);
                proof {
                    assert(table.runs@.drop_last() =~= old(table).runs@);
                }
            },
        }
        id
    }

    /// Sets a run's lifecycle state.
    pub fn set_run_state(&self, table: &mut RunTable, workflow_run_id: &str, state: WorkflowRunState) -> (r:
        Result<(), WorkflowStoreError>)
        ensures
            match run_in(*old(table), workflow_run_id@) {
                Some(i) => {
                    &&& r is Ok
                    &&& final(table).runs@ == old(table).runs@.update(
                        i,
                        with_state(old(table).runs@[i], state),
                    )
                },
                None => {
                    &&& *final(table) == *old(table)
                    &&& r matches Err(e) && e@ == StoreFault::NotFound(workflow_run_id@)
                },
            },
    {
        match find_run(table, workflow_run_id) {
            None => Err(WorkflowStoreError::NotFound(workflow_run_id.to_owned())),
            Some(i) => {
                table.runs[i].snapshot.run.state = state;
                Ok(())
            },
        }
    }

    /// Sets a run's lifecycle state if its current one is among `allowed`. Returns how
    /// many runs changed.
    pub fn set_run_state_if_legal(
        &self,
        table: &mut RunTable,
        workflow_run_id: &str,
        allowed: &Vec<WorkflowRunState>,
        state: WorkflowRunState,
    ) -> (r: usize)
        ensures
            match run_in(*old(table), workflow_run_id@) {
                Some(i) => if allowed@.contains(old(table).runs@[i].snapshot.run.state) {
                    r == 1 && final(table).runs@ == old(table).runs@.update(
                        i,
                        with_state(old(table).runs@[i], state),
                    )
                } else {
                    r == 0 && *final(table) == *old(table)
                },
                None => r == 0 && *final(table) == *old(table),
            },
    {
        match find_run(table, workflow_run_id) {
            None => 0,
            Some(i) => {
                let current: WorkflowRunState = table.runs[i].snapshot.run.state;
                let mut k: usize = 0;
                let mut legal: bool = false;
                while k < allowed.len()
                    invariant
                        k <= allowed@.len(),
                        legal == allowed@.take(k as int).contains(current),
                    decreases allowed@.len() - k,
                {
                    proof {
                        let now = allowed@.take(k + 1);
                        let was = allowed@.take(k as int);
                        assert(now =~= was.push(allowed@[k as int]));
                        if was.contains(current) {
                            let j = was.index_of(current);
                            assert(now[j] == current);
                        }
                        if now.contains(current) && allowed@[k as int] != current {
                            let j = now.index_of(current);
                            assert(was[j] == current);
                        }
                        assert(now[k as int] == allowed@[k as int]);
                    }
                    if allowed[k] == current {
                        legal = true;
                    }
                    k = k + 1;
                }
                proof {
                    assert(allowed@.take(allowed@.len() as int) =~= allowed@);
                }
                if legal {
                    table.runs[i].snapshot.run.state = state;
                    1
                } else {
                    0
                }
            },
        }
    }

    /// Moves a node to `state` at the time `now`, with the reason for it.
    pub fn transition_node_at(
        &self,
        table: &mut RunTable,
        workflow_run_id: &str,
        node_id: &str,
        state: NodeState,
        attempt: u32,
        agent_run_id: Option<String>,
        cost: Option<JsonValue>,
        error: Option<String>,
        now: &String,
    ) -> (r: Result<(), WorkflowStoreError>)
        ensures
            node_moved(
                *old(table),
                *final(table),
                workflow_run_id@,
                node_id@,
                state,
                attempt,
                agent_run_id,
                cost,
                error,
                *now,
                r,
            ),
    {
        let i: usize = match find_run(table, workflow_run_id) {
            None => {
                return Err(missing_node(workflow_run_id, node_id));
            },
            Some(i) => i,
        };
        let n: usize = match find_record(&table.runs[i].snapshot.nodes, node_id) {
            None => {
                return Err(missing_node(workflow_run_id, node_id));
            },
            Some(n) => n,
        };
        let record: &mut WorkflowNodeRecord = &mut table.runs[i].snapshot.nodes[n];
        record.state = state;
        record.attempt = attempt;
        if agent_run_id.is_some() {
            record.agent_run_id = agent_run_id;
        }
        if cost.is_some() {
            record.cost = cost;
        }
        record.error = error;
        if record.started_at.is_none() && state == NodeState::Running {
            record.started_at = Some(now.clone());
        }
        record.ended_at = if state.is_terminal() {
            Some(now.clone())
        } else {
            None
        };
        Ok(())
    }
}

// ---------------------------------------------------------------------------
// What a retry resets
// ---------------------------------------------------------------------------

/// Whether the node `a` lists `b` among its dependents.
pub open spec fn feeds(nodes: Seq<CompiledNode>, a: Seq<char>, b: Seq<char>) -> bool {
    match crate::workflow::compile::node_index(nodes, a, 0) {
        Some(k) => crate::text::texts(nodes[k].dependents@).contains(b),
        None => false,
    }
}

/// Whether each element of `path` feeds the next.
pub open spec fn is_path(nodes: Seq<CompiledNode>, path: Seq<Seq<char>>) -> bool {
    forall|i: int| 0 <= i < path.len() - 1 ==> feeds(nodes, #[trigger] path[i], path[i + 1])
}

/// Whether `b` is `a` itself or transitively downstream of it.
pub open spec fn downstream(nodes: Seq<CompiledNode>, a: Seq<char>, b: Seq<char>) -> bool {
    exists|path: Seq<Seq<char>>|
        path.len() > 0 && #[trigger] is_path(nodes, path) && path[0] == a && path.last() == b
}

proof fn lemma_downstream_self(nodes: Seq<CompiledNode>, a: Seq<char>)
    ensures
        downstream(nodes, a, a),
{
    assert(is_path(nodes, seq![a]));
}

proof fn lemma_downstream_step(nodes: Seq<CompiledNode>, a: Seq<char>, m: Seq<char>, b: Seq<char>)
    requires
        downstream(nodes, a, m),
        feeds(nodes, m, b),
    ensures
        downstream(nodes, a, b),
{
    let path = choose|path: Seq<Seq<char>>|
        path.len() > 0 && #[trigger] is_path(nodes, path) && path[0] == a && path.last() == m;
    let longer = path.push(b);
    assert forall|i: int| 0 <= i < longer.len() - 1 implies feeds(
        nodes,
        #[trigger] longer[i],
        longer[i + 1],
    ) by {
        if i < path.len() - 1 {
            assert(feeds(nodes, path[i], path[i + 1]));
        }
    }
    assert(is_path(nodes, longer));
    assert(longer[0] == a && longer.last() == b);
}

/// A set that holds `a` and is closed under dependent edges holds all that is
/// downstream of `a`.
pub proof fn law_downstream_is_least(
    nodes: Seq<CompiledNode>,
    a: Seq<char>,
    b: Seq<char>,
    set: Set<Seq<char>>,
)
    requires
        set.contains(a),
        forall|x: Seq<char>, y: Seq<char>|
            set.contains(x) && #[trigger] feeds(nodes, x, y) ==> set.contains(y),
        downstream(nodes, a, b),
    ensures
        set.contains(b),
{
    let path = choose|path: Seq<Seq<char>>|
        path.len() > 0 && #[trigger] is_path(nodes, path) && path[0] == a && path.last() == b;
    lemma_path_closed(nodes, path, set, path.len() - 1);
}

proof fn lemma_path_closed(
    nodes: Seq<CompiledNode>,
    path: Seq<Seq<char>>,
    set: Set<Seq<char>>,
    n: int,
)
    requires
        0 <= n < path.len(),
        is_path(nodes, path),
        set.contains(path[0]),
        forall|x: Seq<char>, y: Seq<char>|
            set.contains(x) && #[trigger] feeds(nodes, x, y) ==> set.contains(y),
    ensures
        set.contains(path[n]),
    decreases n,
{
    if n > 0 {
        lemma_path_closed(nodes, path, set, n - 1);
        assert(feeds(nodes, path[n - 1], path[n - 1 + 1]));
    }
}

/// What is downstream of something downstream is downstream.
pub proof fn law_downstream_is_transitive(
    nodes: Seq<CompiledNode>,
    a: Seq<char>,
    b: Seq<char>,
    c: Seq<char>,
)
    requires
        downstream(nodes, a, b),
        downstream(nodes, b, c),
    ensures
        downstream(nodes, a, c),
{
    let set = Set::new(|x: Seq<char>| downstream(nodes, a, x));
    assert forall|x: Seq<char>, y: Seq<char>|
        set.contains(x) && #[trigger] feeds(nodes, x, y) implies set.contains(y) by {
        lemma_downstream_step(nodes, a, x, y);
    }
    law_downstream_is_least(nodes, b, c, set);
}

proof fn lemma_node_index(nodes: Seq<CompiledNode>, id: Seq<char>, k: int)
    requires
        0 <= k,
    ensures
        match crate::workflow::compile::node_index(nodes, id, k) {
            Some(j) => k <= j < nodes.len() && nodes[j].id@ == id,
            None => true,
        },
    decreases nodes.len() - k,
{
    if k < nodes.len() && nodes[k].id@ != id {
        lemma_node_index(nodes, id, k + 1);
    }
}

/// Every id that is `start` or some node's dependent, in order.
fn edge_ids(nodes: &Vec<CompiledNode>, start: &str) -> (r: TextMap<()>)
    ensures
        r@.dom().contains(start@),
        forall|a: Seq<char>, b: Seq<char>| #[trigger] feeds(nodes@, a, b) ==> r@.dom().contains(b),
{
    let mut ids: TextMap<()> = TextMap::new();
    ids.insert(start.to_owned(), ());
    let mut k: usize = 0;
    while k < nodes.len()
        invariant
            k <= nodes@.len(),
            ids@.dom().contains(start@),
            forall|j: int, e: int|
                0 <= j < k && 0 <= e < nodes@[j].dependents@.len() ==> ids@.dom().contains(
                    (#[trigger] nodes@[j].dependents@[e])@,
                ),
        decreases nodes@.len() - k,
    {
        let list: &Vec<String> = &nodes[k].dependents;
        let mut e: usize = 0;
        while e < list.len()
            invariant
                k < nodes@.len(),
                *list == nodes@[k as int].dependents,
                e <= list@.len(),
                ids@.dom().contains(start@),
                forall|j: int, x: int|
                    0 <= j < k && 0 <= x < nodes@[j].dependents@.len() ==> ids@.dom().contains(
                        (#[trigger] nodes@[j].dependents@[x])@,
                    ),
                forall|x: int| 0 <= x < e ==> ids@.dom().contains((#[trigger] list@[x])@),
            decreases list@.len() - e,
        {
            ids.insert(list[e].clone(), ());
            e = e + 1;
        }
        k = k + 1;
    }
    proof {
        assert forall|a: Seq<char>, b: Seq<char>| #[trigger] feeds(nodes@, a, b) implies ids@.dom().contains(
            b,
        ) by {
            lemma_node_index(nodes@, a, 0);
            let j = crate::workflow::compile::node_index(nodes@, a, 0)->0;
            let list = crate::text::texts(nodes@[j].dependents@);
            let e = list.index_of(b);
            assert(nodes@[j].dependents@[e]@ == b);
        }
    }
    ids
}

/// How many of the first `n` flags are not set.
spec fn unset(flags: Seq<bool>, n: int) -> nat
    decreases n,
{
    if n <= 0 {
        0
    } else {
        unset(flags, n - 1) + if flags[n - 1] {
            0nat
        } else {
            1nat
        }
    }
}

proof fn lemma_unset_drops(flags: Seq<bool>, i: int, n: int)
    requires
        0 <= i < flags.len(),
        !flags[i],
        0 <= n <= flags.len(),
    ensures
        unset(flags.update(i, true), n) == unset(flags, n) - if i < n {
            1int
        } else {
            0int
        },
    decreases n,
{
    if n > 0 {
        lemma_unset_drops(flags, i, n - 1);
    }
}

/// The place of `id` among the entries.
fn place_of(entries: &Vec<(String, ())>, id: &String) -> (r: usize)
    requires
        crate::text_map::entry_keys(entries@).contains(id@),
    ensures
        r < entries@.len(),
        entries@[r as int].0@ == id@,
{
    let mut i: usize = 0;
    let ghost keys = crate::text_map::entry_keys(entries@);
    proof {
        let j = keys.index_of(id@);
        assert(keys[j] == id@);
    }
    while i < entries.len()
        invariant
            i <= entries@.len(),
            keys == crate::text_map::entry_keys(entries@),
            keys.contains(id@),
            forall|k: int| 0 <= k < i ==> #[trigger] keys[k] != id@,
        decreases entries@.len() - i,
    {
        if entries[i].0 == *id {
            return i;
        }
        proof {
            assert(keys[i as int] != id@);
        }
        i = i + 1;
    }
    proof {
        let j = keys.index_of(id@);
        assert(keys[j] == id@);
    }
    0
}

/// Marks everything that a marked id feeds; says whether that marked anything new.
fn spread(
    compiled: &CompiledWorkflow,
    entries: &Vec<(String, ())>,
    flags: &mut Vec<bool>,
    i: usize,
    Ghost(start): Ghost<Seq<char>>,
) -> (grew: bool)
    requires
        i < entries@.len(),
        old(flags)@.len() == entries@.len(),
        old(flags)@[i as int],
        forall|a: Seq<char>, b: Seq<char>|
            #[trigger] feeds(compiled.nodes@, a, b) ==> crate::text_map::entry_keys(
                entries@,
            ).contains(b),
        forall|k: int|
            0 <= k < entries@.len() && old(flags)@[k] ==> downstream(
                compiled.nodes@,
                start,
                (#[trigger] entries@[k]).0@,
            ),
    ensures
        final(flags)@.len() == old(flags)@.len(),
        forall|k: int| 0 <= k < old(flags)@.len() && old(flags)@[k] ==> #[trigger] final(flags)@[k],
        forall|k: int|
            0 <= k < entries@.len() && final(flags)@[k] ==> downstream(
                compiled.nodes@,
                start,
                (#[trigger] entries@[k]).0@,
            ),
        !grew ==> final(flags)@ == old(flags)@,
        grew ==> unset(final(flags)@, final(flags)@.len() as int) < unset(
            old(flags)@,
            old(flags)@.len() as int,
        ),
        !grew ==> forall|k: int|
            0 <= k < entries@.len() && feeds(
                compiled.nodes@,
                entries@[i as int].0@,
                (#[trigger] entries@[k]).0@,
            ) ==> old(flags)@[k] || exists|k2: int|
                0 <= k2 < entries@.len() && entries@[k2].0@ == entries@[k].0@ && #[trigger] old(
                    flags,
                )@[k2],
{
    let ghost nodes = compiled.nodes@;
    let ghost id = entries@[i as int].0@;
    let ghost first = flags@;
    let mut grew: bool = false;
    match compiled.node(&entries[i].0) {
        None => {},
        Some(node) => {
            let list: &Vec<String> = &node.dependents;
            let mut e: usize = 0;
            proof {
                lemma_node_index(nodes, id, 0);
            }
            while e < list.len()
                invariant
                    i < entries@.len(),
                    nodes == compiled.nodes@,
                    id == entries@[i as int].0@,
                    crate::workflow::compile::node_index(nodes, id, 0) is Some,
                    *list == nodes[crate::workflow::compile::node_index(nodes, id, 0)->0].dependents,
                    e <= list@.len(),
                    flags@.len() == entries@.len(),
                    first.len() == entries@.len(),
                    downstream(nodes, start, id),
                    forall|a: Seq<char>, b: Seq<char>|
                        #[trigger] feeds(nodes, a, b) ==> crate::text_map::entry_keys(
                            entries@,
                        ).contains(b),
                    forall|k: int| 0 <= k < first.len() && first[k] ==> #[trigger] flags@[k],
                    forall|k: int|
                        0 <= k < entries@.len() && flags@[k] ==> downstream(
                            nodes,
                            start,
                            (#[trigger] entries@[k]).0@,
                        ),
                    !grew ==> flags@ == first,
                    grew ==> unset(flags@, flags@.len() as int) < unset(first, first.len() as int),
                    !grew ==> forall|x: int|
                        0 <= x < e ==> exists|k: int|
                            0 <= k < entries@.len() && entries@[k].0@ == (#[trigger] list@[x])@
                                && #[trigger] first[k],
                decreases list@.len() - e,
            {
                proof {
                    assert(crate::text::texts(list@)[e as int] == list@[e as int]@);
                    assert(feeds(nodes, id, list@[e as int]@));
                }
                let at: usize = place_of(entries, &list[e]);
                if !flags[at] {
                    proof {
                        lemma_downstream_step(nodes, start, id, list@[e as int]@);
                        lemma_unset_drops(flags@, at as int, flags@.len() as int);
                    }
                    flags.set(at, true);
                    grew = true;
                } else {
                    proof {
                        assert(flags@[at as int]);
                        if !grew {
                            assert(first[at as int]);
                        }
                    }
                }
                e = e + 1;
            }
            proof {
                if !grew {
                    assert forall|k: int|
                        0 <= k < entries@.len() && feeds(nodes, id, (#[trigger] entries@[k]).0@) implies first[k]
                        || exists|k2: int|
                        0 <= k2 < entries@.len() && entries@[k2].0@ == entries@[k].0@
                            && #[trigger] first[k2] by {
                        let names = crate::text::texts(list@);
                        let x = names.index_of(entries@[k].0@);
                        assert(list@[x]@ == entries@[k].0@);
                    }
                }
            }
        },
    }
    grew
}

/// The node and everything transitively downstream of it, sorted.
pub fn retry_set(compiled: &CompiledWorkflow, node_id: &str) -> (r: Vec<String>)
    ensures
        crate::text_map::ascending(crate::text::texts(r@)),
        forall|x: Seq<char>|
            #[trigger] crate::text::texts(r@).contains(x) <==> downstream(
                compiled.nodes@,
                node_id@,
                x,
            ),
{
    let ids: TextMap<()> = edge_ids(&compiled.nodes, node_id);
    let entries: &Vec<(String, ())> = ids.entries();
    let ghost keys = crate::text_map::entry_keys(entries@);
    let ghost nodes = compiled.nodes@;
    proof {
        ids.lemma_dom();
        assert(keys.contains(node_id@));
    }
    let start: String = node_id.to_owned();
    let first: usize = place_of(entries, &start);
    let mut flags: Vec<bool> = Vec::new();
    let mut i: usize = 0;
    while i < entries.len()
        invariant
            i <= entries@.len(),
            flags@.len() == i,
            forall|k: int| 0 <= k < i ==> (#[trigger] flags@[k] <==> k == first),
        decreases entries@.len() - i,
    {
        flags.push(i == first);
        i = i + 1;
    }
    proof {
        lemma_downstream_self(nodes, node_id@);
    }
    let mut settled: bool = false;
    while !settled
        invariant
            nodes == compiled.nodes@,
            keys == crate::text_map::entry_keys(entries@),
            flags@.len() == entries@.len(),
            first < entries@.len(),
            entries@[first as int].0@ == node_id@,
            flags@[first as int],
            forall|a: Seq<char>, b: Seq<char>| #[trigger] feeds(nodes, a, b) ==> keys.contains(b),
            forall|k: int|
                0 <= k < entries@.len() && flags@[k] ==> downstream(
                    nodes,
                    node_id@,
                    (#[trigger] entries@[k]).0@,
                ),
            settled ==> forall|a: int, k: int|
                0 <= a < entries@.len() && flags@[a] && 0 <= k < entries@.len() && #[trigger] feeds(
                    nodes,
                    entries@[a].0@,
                    entries@[k].0@,
                ) ==> exists|k2: int|
                    0 <= k2 < entries@.len() && entries@[k2].0@ == entries@[k].0@
                        && #[trigger] flags@[k2],
        decreases unset(flags@, flags@.len() as int) + if settled {
            0nat
        } else {
            1nat
        },
    {
        let mut changed: bool = false;
        let mut i: usize = 0;
        let ghost before = flags@;
        while i < entries.len() && !changed
            invariant
                i <= entries@.len(),
                nodes == compiled.nodes@,
                keys == crate::text_map::entry_keys(entries@),
                flags@.len() == entries@.len(),
                before.len() == entries@.len(),
                first < entries@.len(),
                flags@[first as int],
                forall|a: Seq<char>, b: Seq<char>|
                    #[trigger] feeds(nodes, a, b) ==> keys.contains(b),
                forall|k: int|
                    0 <= k < entries@.len() && flags@[k] ==> downstream(
                        nodes,
                        node_id@,
                        (#[trigger] entries@[k]).0@,
                    ),
                !changed ==> flags@ == before,
                changed ==> unset(flags@, flags@.len() as int) < unset(
                    before,
                    before.len() as int,
                ),
                !changed ==> forall|a: int, k: int|
                    0 <= a < i && flags@[a] && 0 <= k < entries@.len() && #[trigger] feeds(
                        nodes,
                        entries@[a].0@,
                        entries@[k].0@,
                    ) ==> exists|k2: int|
                        0 <= k2 < entries@.len() && entries@[k2].0@ == entries@[k].0@
                            && #[trigger] flags@[k2],
            decreases entries@.len() - i,
        {
            if flags[i] {
                let ghost held = flags@;
                changed = spread(compiled, entries, &mut flags, i, Ghost(node_id@));
                proof {
                    if !changed {
                        assert forall|a: int, k: int|
                            0 <= a < i + 1 && flags@[a] && 0 <= k < entries@.len()
                                && #[trigger] feeds(nodes, entries@[a].0@, entries@[k].0@) implies exists|
                            k2: int,
                        |
                            0 <= k2 < entries@.len() && entries@[k2].0@ == entries@[k].0@
                                && #[trigger] flags@[k2] by {
                            if a == i {
                                assert(feeds(nodes, entries@[i as int].0@, entries@[k].0@));
                                assert(flags@[k] || exists|k2: int|
                                    0 <= k2 < entries@.len() && entries@[k2].0@ == entries@[k].0@
                                        && #[trigger] held[k2]);
                            }
                        }
                    }
                }
            }
            i = i + 1;
        }
        settled = !changed;
    }
    let mut out: Vec<String> = Vec::new();
    let mut i: usize = 0;
    proof {
        assert(crate::text::texts(out@) =~= marked(keys, flags@, 0));
    }
    while i < entries.len()
        invariant
            i <= entries@.len(),
            keys == crate::text_map::entry_keys(entries@),
            flags@.len() == entries@.len(),
            crate::text::texts(out@) == marked(keys, flags@, i as int),
        decreases entries@.len() - i,
    {
        if flags[i] {
            let ghost before = out@;
            out.push(entries[i].0.clone());
            proof {
                assert(crate::text::texts(out@) =~= crate::text::texts(before).push(
                    keys[i as int],
                ));
            }
        }
        i = i + 1;
    }
    proof {
        lemma_marked(keys, flags@, keys.len() as int);
        let set = Set::new(|x: Seq<char>| marked(keys, flags@, keys.len() as int).contains(x));
        let done = marked(keys, flags@, keys.len() as int);
        assert forall|x: Seq<char>| #[trigger] done.contains(x) <==> downstream(nodes, node_id@, x) by {
            if done.contains(x) {
                let k = choose|k: int| 0 <= k < keys.len() && #[trigger] flags@[k] && keys[k] == x;
                assert(entries@[k].0@ == x);
            }
            if downstream(nodes, node_id@, x) {
                assert(set.contains(node_id@)) by {
                    assert(keys[first as int] == node_id@ && flags@[first as int]);
                }
                assert forall|a: Seq<char>, b: Seq<char>|
                    set.contains(a) && #[trigger] feeds(nodes, a, b) implies set.contains(b) by {
                    let i = choose|i: int|
                        0 <= i < keys.len() && #[trigger] flags@[i] && keys[i] == a;
                    assert(keys.contains(b));
                    let k = keys.index_of(b);
                    assert(feeds(nodes, entries@[i].0@, entries@[k].0@));
                    let k2 = choose|k2: int|
                        0 <= k2 < entries@.len() && entries@[k2].0@ == entries@[k].0@
                            && #[trigger] flags@[k2];
                    assert(keys[k2] == b && flags@[k2]);
                }
                law_downstream_is_least(nodes, node_id@, x, set);
            }
        }
    }
    out
}

/// The keys among the first `n` whose flag is set.
spec fn marked(keys: Seq<Seq<char>>, flags: Seq<bool>, n: int) -> Seq<Seq<char>>
    decreases n,
{
    if n <= 0 {
        Seq::empty()
    } else if flags[n - 1] {
        marked(keys, flags, n - 1).push(keys[n - 1])
    } else {
        marked(keys, flags, n - 1)
    }
}

proof fn lemma_marked(keys: Seq<Seq<char>>, flags: Seq<bool>, n: int)
    requires
        0 <= n <= keys.len(),
        flags.len() == keys.len(),
        crate::text_map::ascending(keys),
    ensures
        crate::text_map::ascending(marked(keys, flags, n)),
        forall|x: Seq<char>|
            #[trigger] marked(keys, flags, n).contains(x) <==> exists|k: int|
                0 <= k < n && #[trigger] flags[k] && keys[k] == x,
    decreases n,
{
    if n > 0 {
        lemma_marked(keys, flags, n - 1);
        let before = marked(keys, flags, n - 1);
        let now = marked(keys, flags, n);
        if flags[n - 1] {
            assert forall|i: int, j: int| 0 <= i < j < now.len() implies crate::text::text_lt(
                #[trigger] now[i],
                #[trigger] now[j],
            ) by {
                if j < before.len() {
                    assert(crate::text::text_lt(before[i], before[j]));
                } else {
                    assert(before.contains(before[i]));
                    let k = choose|k: int|
                        0 <= k < n - 1 && #[trigger] flags[k] && keys[k] == before[i];
                    assert(crate::text::text_lt(keys[k], keys[n - 1]));
                }
            }
        }
        assert forall|x: Seq<char>| #[trigger] now.contains(x) <==> exists|k: int|
            0 <= k < n && #[trigger] flags[k] && keys[k] == x by {
            if now.contains(x) {
                let i = now.index_of(x);
                if i < before.len() {
                    assert(before[i] == x);
                    assert(before.contains(x));
                } else {
                    assert(flags[n - 1] && keys[n - 1] == x);
                }
            }
            if exists|k: int| 0 <= k < n && #[trigger] flags[k] && keys[k] == x {
                let k = choose|k: int| 0 <= k < n && #[trigger] flags[k] && keys[k] == x;
                if k < n - 1 {
                    assert(before.contains(x));
                    let i = before.index_of(x);
                    assert(now[i] == x);
                } else {
                    assert(now[before.len() as int] == x);
                }
            }
        }
    }
}

// ---------------------------------------------------------------------------
// Reading and continuing runs
// ---------------------------------------------------------------------------

/// What refuses to continue a run against a compiled graph: an unknown run, or a graph
/// with another signature.
pub open spec fn continue_fault(
    table: RunTable,
    id: Seq<char>,
    compiled: CompiledWorkflow,
) -> Option<StoreFault> {
    match run_in(table, id) {
        None => Some(StoreFault::NotFound(id)),
        Some(i) => graph_fault(table.runs@[i].snapshot, compiled),
    }
}

/// What refuses to continue a snapshot against a compiled graph.
pub open spec fn graph_fault(
    snapshot: WorkflowRunSnapshot,
    compiled: CompiledWorkflow,
) -> Option<StoreFault> {
    if snapshot.run.graph_signature@ == crate::workflow::compile::signature_of(compiled) {
        None
    } else {
        Some(
            StoreFault::GraphSignatureChanged {
                expected: snapshot.run.graph_signature@,
                found: crate::workflow::compile::signature_of(compiled),
            },
        )
    }
}

/// Compares the signature a run carries with the current graph's.
pub fn guard_signature(stored: &str, current: String) -> (r: Result<(), WorkflowStoreError>)
    ensures
        match r {
            Ok(_) => stored@ == current@,
            Err(e) => stored@ != current@ && e@ == (StoreFault::GraphSignatureChanged {
                expected: stored@,
                found: current@,
            }),
        },
{
    if same_text(stored, &current) {
        Ok(())
    } else {
        Err(
            WorkflowStoreError::GraphSignatureChanged {
                expected: stored.to_owned(),
                found: current,
            },
        )
    }
}

/// The first node from `k` on that is not terminal and not among the blocked ones.
pub open spec fn next_resumable(
    nodes: Seq<WorkflowNodeRecord>,
    blocked: Seq<(Seq<char>, Seq<char>)>,
    k: int,
) -> Option<Seq<char>>
    decreases nodes.len() - k,
{
    if k >= nodes.len() {
        None
    } else if !node_over(nodes[k].state) && !is_blocked(blocked, nodes[k].node_id@) {
        Some(nodes[k].node_id@)
    } else {
        next_resumable(nodes, blocked, k + 1)
    }
}

/// Whether a node is among the blocked ones.
pub open spec fn is_blocked(blocked: Seq<(Seq<char>, Seq<char>)>, id: Seq<char>) -> bool {
    exists|i: int| 0 <= i < blocked.len() && (#[trigger] blocked[i]).0 == id
}

fn among_blocked(blocked: &Vec<(String, String)>, id: &String) -> (r: bool)
    ensures
        r == is_blocked(pair_texts(blocked@), id@),
{
    let ghost all = pair_texts(blocked@);
    let mut i: usize = 0;
    while i < blocked.len()
        invariant
            i <= blocked@.len(),
            all == pair_texts(blocked@),
            forall|k: int| 0 <= k < i ==> (#[trigger] all[k]).0 != id@,
        decreases blocked@.len() - i,
    {
        if blocked[i].0 == *id {
            proof {
                assert(all[i as int].0 == id@);
            }
            return true;
        }
        i = i + 1;
    }
    false
}

/// Whether the checkpoint `id` is among `list`.
pub open spec fn has_checkpoint(list: Seq<Checkpoint>, id: Seq<char>) -> bool {
    exists|k: int| 0 <= k < list.len() && (#[trigger] list[k]).id@ == id
}

/// Whether the checkpoint `id` is recorded for any run.
pub open spec fn checkpoint_taken(table: RunTable, id: Seq<char>) -> bool {
    exists|i: int|
        0 <= i < table.runs@.len() && has_checkpoint((#[trigger] table.runs@[i]).checkpoints@, id)
}

/// What recording a checkpoint leaves behind: the checkpoint, as the latest of its run, or
/// a refusal and the table as it was.
pub open spec fn checkpointed(
    before: RunTable,
    after: RunTable,
    run_id: Seq<char>,
    id: Seq<char>,
    graph_signature: Seq<char>,
    state_artifact_id: Option<String>,
    r: Result<String, WorkflowStoreError>,
) -> bool {
    if checkpoint_taken(before, id) {
        &&& after == before
        &&& r matches Err(e) && e@ == StoreFault::Database(
            "UNIQUE constraint failed: workflow_checkpoints.id"@,
        )
    } else {
        match run_in(before, run_id) {
            Some(i) => {
                let list = after.runs@[i].checkpoints@;
                &&& r matches Ok(given) && given@ == id
                &&& only_run(before, after, i)
                &&& after.runs@[i].snapshot == before.runs@[i].snapshot
                &&& after.runs@[i].manifest == before.runs@[i].manifest
                &&& list.len() == before.runs@[i].checkpoints@.len() + 1
                &&& list.drop_last() == before.runs@[i].checkpoints@
                &&& list.last().id@ == id
                &&& list.last().graph_signature@ == graph_signature
                &&& list.last().state_artifact_id == state_artifact_id
            },
            None => {
                &&& after == before
                &&& r matches Err(e) && e@ == StoreFault::Database(
                    "FOREIGN KEY constraint failed"@,
                )
            },
        }
    }
}

fn checkpoint_used(table: &RunTable, id: &str) -> (r: bool)
    ensures
        r == checkpoint_taken(*table, id@),
{
    let mut i: usize = 0;
    while i < table.runs.len()
        invariant
            i <= table.runs@.len(),
            forall|k: int|
                0 <= k < i ==> !has_checkpoint((#[trigger] table.runs@[k]).checkpoints@, id@),
        decreases table.runs@.len() - i,
    {
        let list: &Vec<Checkpoint> = &table.runs[i].checkpoints;
        let mut k: usize = 0;
        while k < list.len()
            invariant
                i < table.runs@.len(),
                *list == table.runs@[i as int].checkpoints,
                k <= list@.len(),
                forall|j: int| 0 <= j < k ==> (#[trigger] list@[j]).id@ != id@,
            decreases list@.len() - k,
        {
            if same_text(&list[k].id, id) {
                proof {
                    assert(list@[k as int].id@ == id@);
                    assert(has_checkpoint(table.runs@[i as int].checkpoints@, id@));
                }
                return true;
            }
            k = k + 1;
        }
        i = i + 1;
    }
    false
}

/// The places of the non-terminal ones among the first `n` runs.
pub open spec fn incomplete(runs: Seq<StoredRun>, n: int) -> Seq<int>
    decreases n,
{
    if n <= 0 {
        Seq::empty()
    } else if run_over(runs[n - 1].snapshot.run.state) {
        incomplete(runs, n - 1)
    } else {
        incomplete(runs, n - 1).push(n - 1)
    }
}

impl WorkflowStore {
    /// Moves a node to `state` now, with the reason for it.
    pub fn transition_node_with_error(
        &self,
        table: &mut RunTable,
        workflow_run_id: &str,
        node_id: &str,
        state: NodeState,
        attempt: u32,
        agent_run_id: Option<String>,
        cost: Option<JsonValue>,
        error: Option<String>,
    ) -> (r: Result<(), WorkflowStoreError>)
        ensures
            exists|now: String| #[trigger]
                node_moved(
                    *old(table),
                    *final(table),
                    workflow_run_id@,
                    node_id@,
                    state,
                    attempt,
                    agent_run_id,
                    cost,
                    error,
                    now,
                    r,
                ),
    {
        let now: String = timestamp();
        self.transition_node_at(
            table,
            workflow_run_id,
            node_id,
            state,
            attempt,
            agent_run_id,
            cost,
            error,
            &now,
        )
    }

    /// Moves a node to `state` now, with no reason attached.
    pub fn transition_node(
        &self,
        table: &mut RunTable,
        workflow_run_id: &str,
        node_id: &str,
        state: NodeState,
        attempt: u32,
        agent_run_id: Option<String>,
        cost: Option<JsonValue>,
    ) -> (r: Result<(), WorkflowStoreError>)
        ensures
            exists|now: String| #[trigger]
                node_moved(
                    *old(table),
                    *final(table),
                    workflow_run_id@,
                    node_id@,
                    state,
                    attempt,
                    agent_run_id,
                    cost,
                    None,
                    now,
                    r,
                ),
    {
        self.transition_node_with_error(
            table,
            workflow_run_id,
            node_id,
            state,
            attempt,
            agent_run_id,
            cost,
            None,
        )
    }

    /// Makes a node whose execution was interrupted pending again. A node that is not
    /// recorded is left alone.
    pub fn reset_interrupted_node(
        &self,
        table: &mut RunTable,
        workflow_run_id: &str,
        node_id: &str,
        attempt: u32,
    )
        ensures
            match record_place(*old(table), workflow_run_id@, node_id@) {
                Some((i, n)) => {
                    &&& only_run(*old(table), *final(table), i)
                    &&& with_record(
                        old(table).runs@[i],
                        final(table).runs@[i],
                        n,
                        interrupted_reset(old(table).runs@[i].snapshot.nodes@[n], attempt),
                    )
                },
                None => *final(table) == *old(table),
            },
    {
        if let Some(i) = find_run(table, workflow_run_id) {
            if let Some(n) = find_record(&table.runs[i].snapshot.nodes, node_id) {
                let record: &mut WorkflowNodeRecord = &mut table.runs[i].snapshot.nodes[n];
                record.state = NodeState::Pending;
                record.attempt = attempt;
                record.agent_run_id = None;
                record.cost = None;
                record.error = None;
                record.ended_at = None;
            }
        }
    }

    /// Makes a blocked node pending again, keeping its cost and reason. A node that is
    /// not recorded is left alone.
    pub fn reset_blocked_node(&self, table: &mut RunTable, workflow_run_id: &str, node_id: &str)
        ensures
            match record_place(*old(table), workflow_run_id@, node_id@) {
                Some((i, n)) => {
                    &&& only_run(*old(table), *final(table), i)
                    &&& with_record(
                        old(table).runs@[i],
                        final(table).runs@[i],
                        n,
                        blocked_reset(old(table).runs@[i].snapshot.nodes@[n]),
                    )
                },
                None => *final(table) == *old(table),
            },
    {
        if let Some(i) = find_run(table, workflow_run_id) {
            if let Some(n) = find_record(&table.runs[i].snapshot.nodes, node_id) {
                let record: &mut WorkflowNodeRecord = &mut table.runs[i].snapshot.nodes[n];
                record.state = NodeState::Pending;
                record.ended_at = None;
            }
        }
    }

    /// Records a checkpoint of a run under a new id. Returns the id.
    pub fn record_checkpoint(
        &self,
        table: &mut RunTable,
        workflow_run_id: &str,
        graph_signature: &str,
        state_artifact_id: Option<String>,
    ) -> (r: Result<String, WorkflowStoreError>)
        ensures
            exists|id: Seq<char>|
                crate::stamp::is_identifier(id) && #[trigger] checkpointed(
                    *old(table),
                    *final(table),
                    workflow_run_id@,
                    id,
                    graph_signature@,
                    state_artifact_id,
                    r,
                ),
    {
        let id: String = fresh_id();
        self.record_checkpoint_as(table, workflow_run_id, id, graph_signature, state_artifact_id)
    }

    /// Records a checkpoint of a run under the given id. An unknown run is refused, and so
    /// is an id that is in use.
    pub fn record_checkpoint_as(
        &self,
        table: &mut RunTable,
        workflow_run_id: &str,
        id: String,
        graph_signature: &str,
        state_artifact_id: Option<String>,
    ) -> (r: Result<String, WorkflowStoreError>)
        ensures
            checkpointed(
                *old(table),
                *final(table),
                workflow_run_id@,
                id@,
                graph_signature@,
                state_artifact_id,
                r,
            ),
    {
        if checkpoint_used(table, &id) {
            return Err(
                WorkflowStoreError::Database(
                    "UNIQUE constraint failed: workflow_checkpoints.id".to_owned(),
                ),
            );
        }
        match find_run(table, workflow_run_id) {
            None => Err(
                WorkflowStoreError::Database("FOREIGN KEY constraint failed".to_owned()),
            ),
            Some(i) => {
                table.runs[i].checkpoints.push(
                    Checkpoint {
                        id: id.clone(),
                        graph_signature: graph_signature.to_owned(),
                        state_artifact_id,
                    },
                );
                proof {
                    assert(table.runs@[i as int].checkpoints@.drop_last() =~= old(
                        table,
                    ).runs@[i as int].checkpoints@);
                }
                Ok(id)
            },
        }
    }

    /// The most recent checkpoint of a run, if any.
    pub fn latest_checkpoint<'a>(&self, table: &'a RunTable, workflow_run_id: &str) -> (r: Option<
        &'a Checkpoint,
    >)
        ensures
            match run_in(*table, workflow_run_id@) {
                Some(i) => if table.runs@[i].checkpoints@.len() == 0 {
                    r is None
                } else {
                    r == Some(&table.runs@[i].checkpoints@.last())
                },
                None => r is None,
            },
    {
        match find_run(table, workflow_run_id) {
            None => None,
            Some(i) => {
                let list: &Vec<Checkpoint> = &table.runs[i].checkpoints;
                if list.len() == 0 {
                    None
                } else {
                    Some(&list[list.len() - 1])
                }
            },
        }
    }

    /// Every run that is not in a terminal state, the oldest first, as places in the
    /// table.
    pub fn list_incomplete_runs(&self, table: &RunTable) -> (r: Vec<usize>)
        ensures
            crate::workflow::compile::ints(r@) == incomplete(
                table.runs@,
                table.runs@.len() as int,
            ),
            forall|k: int| 0 <= k < r@.len() ==> #[trigger] r@[k] < table.runs@.len(),
    {
        let mut out: Vec<usize> = Vec::new();
        let mut i: usize = 0;
        proof {
            assert(crate::workflow::compile::ints(out@) =~= Seq::<int>::empty());
        }
        while i < table.runs.len()
            invariant
                i <= table.runs@.len(),
                crate::workflow::compile::ints(out@) == incomplete(table.runs@, i as int),
                forall|k: int| 0 <= k < out@.len() ==> #[trigger] out@[k] < table.runs@.len(),
            decreases table.runs@.len() - i,
        {
            if !table.runs[i].snapshot.run.state.is_terminal() {
                let ghost before = out@;
                out.push(i);
                proof {
                    assert(crate::workflow::compile::ints(out@)
                        =~= crate::workflow::compile::ints(before).push(i as int));
                }
            }
            i = i + 1;
        }
        out
    }

    /// The text a run was compiled from, if one was recorded. An unknown run has none.
    pub fn manifest<'a>(&self, table: &'a RunTable, workflow_run_id: &str) -> (r: Option<&'a String>)
        ensures
            match run_in(*table, workflow_run_id@) {
                Some(i) => match table.runs@[i].manifest {
                    Some(text) => r == Some(&text),
                    None => r is None,
                },
                None => r is None,
            },
    {
        match find_run(table, workflow_run_id) {
            None => None,
            Some(i) => match &table.runs[i].manifest {
                Some(text) => Some(text),
                None => None,
            },
        }
    }

    /// The run and its node records, or `None` if the run does not exist.
    pub fn snapshot<'a>(&self, table: &'a RunTable, workflow_run_id: &str) -> (r: Option<
        &'a WorkflowRunSnapshot,
    >)
        ensures
            match run_in(*table, workflow_run_id@) {
                Some(i) => r == Some(&table.runs@[i].snapshot),
                None => r is None,
            },
    {
        match find_run(table, workflow_run_id) {
            None => None,
            Some(i) => Some(&table.runs[i].snapshot),
        }
    }

    /// The place of a run that may be continued against `compiled`.
    fn guarded(
        &self,
        table: &RunTable,
        workflow_run_id: &str,
        compiled: &CompiledWorkflow,
    ) -> (r: Result<usize, WorkflowStoreError>)
        ensures
            match r {
                Ok(i) => i < table.runs@.len() && run_in(*table, workflow_run_id@) == Some(i as int)
                    && continue_fault(*table, workflow_run_id@, *compiled) is None,
                Err(e) => continue_fault(*table, workflow_run_id@, *compiled) == Some(e@),
            },
    {
        match find_run(table, workflow_run_id) {
            None => Err(WorkflowStoreError::NotFound(workflow_run_id.to_owned())),
            Some(i) => match guard_signature(
                &table.runs[i].snapshot.run.graph_signature,
                compiled.signature(),
            ) {
                Ok(_) => Ok(i),
                Err(e) => Err(e),
            },
        }
    }

    /// The nodes ready to run now. Refuses a changed graph.
    pub fn ready_nodes(
        &self,
        table: &RunTable,
        workflow_run_id: &str,
        compiled: &CompiledWorkflow,
    ) -> (r: Result<Vec<String>, WorkflowStoreError>)
        ensures
            match r {
                Ok(ids) => {
                    &&& continue_fault(*table, workflow_run_id@, *compiled) is None
                    &&& crate::text::texts(ids@) == frontier(
                        *compiled,
                        table.runs@[run_in(*table, workflow_run_id@)->0].snapshot,
                    )
                },
                Err(e) => continue_fault(*table, workflow_run_id@, *compiled) == Some(e@),
            },
    {
        match self.guarded(table, workflow_run_id, compiled) {
            Ok(i) => Ok(ready_node_ids(compiled, &table.runs[i].snapshot)),
            Err(e) => Err(e),
        }
    }

    /// What to continue a run from. Refuses a changed graph.
    pub fn resume<'a>(
        &self,
        table: &'a RunTable,
        workflow_run_id: &str,
        compiled: &CompiledWorkflow,
    ) -> (r: Result<ResumePlan<'a>, WorkflowStoreError>)
        ensures
            match r {
                Ok(plan) => {
                    let run = table.runs@[run_in(*table, workflow_run_id@)->0];
                    &&& continue_fault(*table, workflow_run_id@, *compiled) is None
                    &&& *plan.snapshot == run.snapshot
                    &&& pair_texts(plan.blocked_nodes@) == blocked(*compiled, run.snapshot)
                    &&& next_resumable(
                        run.snapshot.nodes@,
                        blocked(*compiled, run.snapshot),
                        0,
                    ) == match plan.next_node {
                        Some(id) => Some(id@),
                        None => None,
                    }
                    &&& plan.latest_checkpoint == if run.checkpoints@.len() == 0 {
                        None
                    } else {
                        Some(&run.checkpoints@.last())
                    }
                },
                Err(e) => continue_fault(*table, workflow_run_id@, *compiled) == Some(e@),
            },
    {
        let i: usize = match self.guarded(table, workflow_run_id, compiled) {
            Ok(i) => i,
            Err(e) => {
                return Err(e);
            },
        };
        let snapshot: &'a WorkflowRunSnapshot = &table.runs[i].snapshot;
        let blocked_nodes: Vec<(String, String)> = blocked_node_ids(compiled, snapshot);
        let mut next_node: Option<String> = None;
        let mut k: usize = 0;
        while k < snapshot.nodes.len() && next_node.is_none()
            invariant
                k <= snapshot.nodes@.len(),
                pair_texts(blocked_nodes@) == blocked(*compiled, *snapshot),
                match next_node {
                    Some(id) => next_resumable(
                        snapshot.nodes@,
                        blocked(*compiled, *snapshot),
                        0,
                    ) == Some(id@),
                    None => next_resumable(snapshot.nodes@, blocked(*compiled, *snapshot), 0)
                        == next_resumable(
                        snapshot.nodes@,
                        blocked(*compiled, *snapshot),
                        k as int,
                    ),
                },
            decreases snapshot.nodes@.len() - k,
        {
            let node: &WorkflowNodeRecord = &snapshot.nodes[k];
            if !node.state.is_terminal() && !among_blocked(&blocked_nodes, &node.node_id) {
                next_node = Some(node.node_id.clone());
            }
            k = k + 1;
        }
        let latest_checkpoint: Option<&'a Checkpoint> = self.latest_checkpoint(
            table,
            workflow_run_id,
        );
        Ok(ResumePlan { snapshot, next_node, blocked_nodes, latest_checkpoint })
    }

    /// Makes `node_id` and everything transitively downstream of it pending again, with
    /// nothing left of the earlier execution, and the run running. Returns the reset
    /// ids, sorted. Refuses a changed graph and a node the graph does not have.
    pub fn retry_from_node(
        &self,
        table: &mut RunTable,
        workflow_run_id: &str,
        node_id: &str,
        compiled: &CompiledWorkflow,
    ) -> (r: Result<Vec<String>, WorkflowStoreError>)
        ensures
            match r {
                Ok(ids) => {
                    let i = run_in(*old(table), workflow_run_id@)->0;
                    let before = old(table).runs@[i];
                    let after = final(table).runs@[i];
                    &&& continue_fault(*old(table), workflow_run_id@, *compiled) is None
                    &&& crate::workflow::compile::node_index(compiled.nodes@, node_id@, 0) is Some
                    &&& crate::text_map::ascending(crate::text::texts(ids@))
                    &&& forall|x: Seq<char>|
                        #[trigger] crate::text::texts(ids@).contains(x) <==> downstream(
                            compiled.nodes@,
                            node_id@,
                            x,
                        )
                    &&& only_run(*old(table), *final(table), i)
                    &&& after.snapshot.run == (WorkflowRunRecord {
                        state: WorkflowRunState::Running,
                        ..before.snapshot.run
                    })
                    &&& after.manifest == before.manifest
                    &&& after.checkpoints == before.checkpoints
                    &&& reset_from(
                        before.snapshot.nodes@,
                        after.snapshot.nodes@,
                        compiled.nodes@,
                        node_id@,
                    )
                },
                Err(e) => {
                    &&& *final(table) == *old(table)
                    &&& match continue_fault(*old(table), workflow_run_id@, *compiled) {
                        Some(fault) => e@ == fault,
                        None => {
                            &&& crate::workflow::compile::node_index(
                                compiled.nodes@,
                                node_id@,
                                0,
                            ) is None
                            &&& e@ == StoreFault::NotFound(workflow_run_id@ + "/"@ + node_id@)
                        },
                    }
                },
            },
    {
        let i: usize = match self.guarded(table, workflow_run_id, compiled) {
            Ok(i) => i,
            Err(e) => {
                return Err(e);
            },
        };
        if compiled.node(node_id).is_none() {
            return Err(missing_node(workflow_run_id, node_id));
        }
        let ids: Vec<String> = retry_set(compiled, node_id);
        let ghost before = table.runs@[i as int];
        let run: &mut StoredRun = &mut table.runs[i];
        reset_records(&mut run.snapshot.nodes, &ids);
        run.snapshot.run.state = WorkflowRunState::Running;
        Ok(ids)
    }
}

/// Resets every record whose node is in `ids`.
fn reset_records(nodes: &mut Vec<WorkflowNodeRecord>, ids: &Vec<String>)
    ensures
        final(nodes)@.len() == old(nodes)@.len(),
        forall|k: int|
            0 <= k < old(nodes)@.len() ==> #[trigger] final(nodes)@[k] == if crate::text::texts(
                ids@,
            ).contains(old(nodes)@[k].node_id@) {
                retried(old(nodes)@[k])
            } else {
                old(nodes)@[k]
            },
{
    let ghost before = nodes@;
    let mut k: usize = 0;
    while k < nodes.len()
        invariant
            k <= nodes@.len(),
            nodes@.len() == before.len(),
            forall|j: int|
                0 <= j < k ==> #[trigger] nodes@[j] == if crate::text::texts(ids@).contains(
                    before[j].node_id@,
                ) {
                    retried(before[j])
                } else {
                    before[j]
                },
            forall|j: int| k <= j < nodes@.len() ==> #[trigger] nodes@[j] == before[j],
        decreases nodes@.len() - k,
    {
        if crate::workflow::compile::has_text(ids, &nodes[k].node_id) {
            let record: &mut WorkflowNodeRecord = &mut nodes[k];
            record.state = NodeState::Pending;
            record.attempt = 0;
            record.agent_run_id = None;
            record.cost = None;
            record.error = None;
            record.started_at = None;
            record.ended_at = None;
        }
        k = k + 1;
    }
}

} // verus!
