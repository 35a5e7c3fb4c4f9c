//! Compiling a [`WorkflowDefinition`] into an executable node graph.
//!
//! [`compile`] performs every semantic check the definition's shape cannot express on
//! its own and lowers it into a [`CompiledWorkflow`]: a topologically ordered list of
//! [`CompiledNode`]s with resolved dependency and dependent edges. What a definition
//! lacks is stated once, as [`compile_fault`]; the compiler reports exactly that.
use crate::digest::{hex_encode, hex_text, sha256, sha256_of};
use crate::text::{blank, is_blank, same_text, sort_texts, sorted, texts};
use crate::text_map::TextMap;
use crate::workflow::binding::{normalize_tool_name, normalized};
use crate::workflow::model::{
    single_attempt, ApprovalPolicy, OrchestrationReason, RetryPolicy, WorkflowBudget,
    WorkflowDefinition, WorkflowInput, WorkflowStep, WorkspaceMode, SUPPORTED_SCHEMA_VERSION,
};
use crate::workflow::registry::WorkflowRegistry;
use vstd::utf8::encode_utf8;
use vstd::prelude::*;

verus! {

/// A failure to compile a workflow definition. Each variant names the offending step,
/// or the whole-workflow property.
#[derive(Debug, Clone, PartialEq, Eq)]
pub enum CompileError {
    /// The definition declares a schema version this build does not understand.
    UnsupportedSchemaVersion { found: u32, supported: u32 },
    /// The workflow id is empty.
    EmptyId,
    /// The workflow version is below the minimum (`1`).
    InvalidVersion(u32),
    /// The workflow has no steps.
    NoSteps,
    /// A step's id is empty.
    EmptyStepId,
    /// Two steps share an id.
    DuplicateStepId(String),
    /// A step declares neither an agent nor a tool action.
    StepMissingAction(String),
    /// A step declares both an agent and a tool action.
    StepAmbiguousAction(String),
    /// A step declares a skill without an agent to apply it.
    SkillWithoutAgent(String),
    /// A step depends on itself.
    SelfDependency(String),
    /// A step depends on a step that does not exist.
    UnknownDependency { step: String, depends_on: String },
    /// The dependency graph has a cycle. The payload lists the steps that could not be
    /// ordered (those on or downstream of the cycle), sorted.
    Cycle(Vec<String>),
    /// A budget field is not sane.
    InvalidBudget(&'static str),
    /// The workflow uses multiple agents but does not declare why.
    MissingOrchestrationReason { agent_steps: usize },
    /// A tool step names a tool the registry does not know.
    UnknownTool { step: String, tool: String },
    /// An agent step names a skill the registry does not know.
    UnknownSkill { step: String, skill: String },
    /// An agent step names a role no loaded profile fulfils.
    UnknownAgentRole { step: String, role: String },
}

/// What a [`CompileError`] says, with its strings seen as character sequences.
pub enum CompileFault {
    UnsupportedSchemaVersion { found: u32, supported: u32 },
    EmptyId,
    InvalidVersion(u32),
    NoSteps,
    EmptyStepId,
    DuplicateStepId(Seq<char>),
    StepMissingAction(Seq<char>),
    StepAmbiguousAction(Seq<char>),
    SkillWithoutAgent(Seq<char>),
    SelfDependency(Seq<char>),
    UnknownDependency { step: Seq<char>, depends_on: Seq<char> },
    Cycle(Seq<Seq<char>>),
    InvalidBudget(Seq<char>),
    MissingOrchestrationReason { agent_steps: int },
    UnknownTool { step: Seq<char>, tool: Seq<char> },
    UnknownSkill { step: Seq<char>, skill: Seq<char> },
    UnknownAgentRole { step: Seq<char>, role: Seq<char> },
}

impl View for CompileError {
    type V = CompileFault;

    open spec fn view(&self) -> CompileFault {
        match *self {
            CompileError::UnsupportedSchemaVersion { found, supported } =>
                CompileFault::UnsupportedSchemaVersion { found, supported },
            CompileError::EmptyId => CompileFault::EmptyId,
            CompileError::InvalidVersion(v) => CompileFault::InvalidVersion(v),
            CompileError::NoSteps => CompileFault::NoSteps,
            CompileError::EmptyStepId => CompileFault::EmptyStepId,
            CompileError::DuplicateStepId(s) => CompileFault::DuplicateStepId(s@),
            CompileError::StepMissingAction(s) => CompileFault::StepMissingAction(s@),
            CompileError::StepAmbiguousAction(s) => CompileFault::StepAmbiguousAction(s@),
            CompileError::SkillWithoutAgent(s) => CompileFault::SkillWithoutAgent(s@),
            CompileError::SelfDependency(s) => CompileFault::SelfDependency(s@),
            CompileError::UnknownDependency { step, depends_on } =>
                CompileFault::UnknownDependency { step: step@, depends_on: depends_on@ },
            CompileError::Cycle(v) => CompileFault::Cycle(texts(v@)),
            CompileError::InvalidBudget(s) => CompileFault::InvalidBudget(s@),
            CompileError::MissingOrchestrationReason { agent_steps } =>
                CompileFault::MissingOrchestrationReason { agent_steps: agent_steps as int },
            CompileError::UnknownTool { step, tool } =>
                CompileFault::UnknownTool { step: step@, tool: tool@ },
            CompileError::UnknownSkill { step, skill } =>
                CompileFault::UnknownSkill { step: step@, skill: skill@ },
            CompileError::UnknownAgentRole { step, role } =>
                CompileFault::UnknownAgentRole { step: step@, role: role@ },
        }
    }
}

/// A validated, executable workflow: its metadata plus a topologically ordered node
/// graph.
#[derive(Debug, Clone, PartialEq)]
pub struct CompiledWorkflow {
    /// The workflow id.
    pub id: String,
    /// The workflow version.
    pub version: u32,
    /// The typed inputs, keyed by name.
    pub inputs: TextMap<WorkflowInput>,
    /// The validated budget envelope.
    pub budget: WorkflowBudget,
    /// The declared orchestration reason, if any.
    pub orchestration_reason: Option<OrchestrationReason>,
    /// The nodes, in a valid execution order.
    pub nodes: Vec<CompiledNode>,
}

/// A validated workflow node.
#[derive(Debug, Clone, PartialEq)]
pub struct CompiledNode {
    /// The node's id.
    pub id: String,
    /// The single action the node performs.
    pub action: NodeAction,
    /// The nodes this one depends on (deduplicated).
    pub depends_on: Vec<String>,
    /// The nodes that depend on this one (deduplicated), in definition order.
    pub dependents: Vec<String>,
    /// How the node's workspace is provisioned.
    pub workspace_mode: WorkspaceMode,
    /// The node's approval policy, if any.
    pub approval: Option<ApprovalPolicy>,
    /// The node's retry policy.
    pub retry: RetryPolicy,
    /// The artifact kinds the node is declared to produce.
    pub outputs: Vec<String>,
    /// The node's position in the compiled topological order.
    pub topo_order: usize,
}

/// The single action a node performs.
#[derive(Debug, Clone, PartialEq, Eq)]
pub enum NodeAction {
    /// An agent step, optionally applying a skill.
    Agent { role: String, model_policy: Option<String>, skill: Option<String> },
    /// A tool step.
    Tool { name: String },
}

// ---------------------------------------------------------------------------
// What a definition lacks
// ---------------------------------------------------------------------------

/// The ids of the steps, in definition order.
pub open spec fn step_ids(steps: Seq<WorkflowStep>) -> Seq<Seq<char>> {
    Seq::new(steps.len(), |i: int| steps[i].id@)
}

/// The first blank or repeated id among the steps from `i` on.
pub open spec fn id_fault(steps: Seq<WorkflowStep>, i: int) -> Option<CompileFault>
    decreases steps.len() - i,
{
    if i >= steps.len() {
        None
    } else if blank(steps[i].id@) {
        Some(CompileFault::EmptyStepId)
    } else if step_ids(steps).take(i).contains(steps[i].id@) {
        Some(CompileFault::DuplicateStepId(steps[i].id@))
    } else {
        id_fault(steps, i + 1)
    }
}

/// What is wrong with one step's action: a step has an agent or a tool, not both, and a
/// skill only beside an agent.
pub open spec fn step_action_fault(step: WorkflowStep) -> Option<CompileFault> {
    if step.agent is None && step.tool is None {
        Some(CompileFault::StepMissingAction(step.id@))
    } else if step.agent is Some && step.tool is Some {
        Some(CompileFault::StepAmbiguousAction(step.id@))
    } else if step.skill is Some && step.agent is None {
        Some(CompileFault::SkillWithoutAgent(step.id@))
    } else {
        None
    }
}

/// The first action fault among the steps from `i` on.
pub open spec fn action_fault(steps: Seq<WorkflowStep>, i: int) -> Option<CompileFault>
    decreases steps.len() - i,
{
    if i >= steps.len() {
        None
    } else if step_action_fault(steps[i]) is Some {
        step_action_fault(steps[i])
    } else {
        action_fault(steps, i + 1)
    }
}

/// How many of the first `n` steps are agent steps.
pub open spec fn agent_steps(steps: Seq<WorkflowStep>, n: int) -> nat
    decreases n,
{
    if n <= 0 {
        0
    } else {
        agent_steps(steps, n - 1) + if steps[n - 1].agent is Some {
            1nat
        } else {
            0nat
        }
    }
}

/// The first edge of step `i`, from its `k`-th on, that leads to the step itself or to
/// no step.
pub open spec fn edge_fault(steps: Seq<WorkflowStep>, i: int, k: int) -> Option<CompileFault>
    decreases steps[i].depends_on@.len() - k,
{
    let step = steps[i];
    if k >= step.depends_on@.len() {
        None
    } else if step.depends_on@[k]@ == step.id@ {
        Some(CompileFault::SelfDependency(step.id@))
    } else if !step_ids(steps).contains(step.depends_on@[k]@) {
        Some(
            CompileFault::UnknownDependency { step: step.id@, depends_on: step.depends_on@[k]@ },
        )
    } else {
        edge_fault(steps, i, k + 1)
    }
}

/// The first faulty edge among the steps from `i` on.
pub open spec fn dependency_fault(steps: Seq<WorkflowStep>, i: int) -> Option<CompileFault>
    decreases steps.len() - i,
{
    if i >= steps.len() {
        None
    } else if edge_fault(steps, i, 0) is Some {
        edge_fault(steps, i, 0)
    } else {
        dependency_fault(steps, i + 1)
    }
}

/// What is not sane about a budget for a workflow with that many agent steps.
pub open spec fn budget_fault(budget: WorkflowBudget, agents: nat) -> Option<CompileFault> {
    if budget.maximum_cost_usd is Some && !budget.maximum_cost_usd->0.positive_finite() {
        Some(CompileFault::InvalidBudget("maximum_cost_usd must be a positive number"@))
    } else if budget.maximum_duration_seconds == Some(0u64) {
        Some(CompileFault::InvalidBudget("maximum_duration_seconds must be greater than zero"@))
    } else if budget.maximum_agents == Some(0u32) {
        Some(CompileFault::InvalidBudget("maximum_agents must be at least 1"@))
    } else if budget.maximum_agents is None && agents > 0 {
        Some(
            CompileFault::InvalidBudget(
                "maximum_agents is required when the workflow has agent steps"@,
            ),
        )
    } else {
        None
    }
}

/// Whether step `i` names step `j` among its dependencies.
pub open spec fn depends(steps: Seq<WorkflowStep>, i: int, j: int) -> bool {
    texts(steps[i].depends_on@).contains(steps[j].id@)
}

/// Whether step `i` has not been emitted and all steps it depends on have.
pub open spec fn ready(steps: Seq<WorkflowStep>, done: Seq<int>, i: int) -> bool {
    &&& !done.contains(i)
    &&& forall|j: int| 0 <= j < steps.len() && #[trigger] depends(steps, i, j) ==> done.contains(j)
}

/// The first ready step from `i` on.
pub open spec fn next_ready(steps: Seq<WorkflowStep>, done: Seq<int>, i: int) -> Option<int>
    decreases steps.len() - i,
{
    if i >= steps.len() {
        None
    } else if ready(steps, done, i) {
        Some(i)
    } else {
        next_ready(steps, done, i + 1)
    }
}

/// The emission order that continues `done`: as long as a step is ready, the first such
/// step in definition order follows.
pub open spec fn emission(steps: Seq<WorkflowStep>, done: Seq<int>) -> Seq<int>
    decreases steps.len() - done.len(),
{
    if done.len() >= steps.len() {
        done
    } else {
        match next_ready(steps, done, 0) {
            Some(i) => emission(steps, done.push(i)),
            None => done,
        }
    }
}

/// The order in which the steps are emitted; shorter than the list of steps when the
/// graph has a cycle.
pub open spec fn emission_order(steps: Seq<WorkflowStep>) -> Seq<int> {
    emission(steps, Seq::empty())
}

/// The ids of those of the first `n` steps that are not in `done`.
pub open spec fn left_over(steps: Seq<WorkflowStep>, done: Seq<int>, n: int) -> Seq<Seq<char>>
    decreases n,
{
    if n <= 0 {
        Seq::empty()
    } else if done.contains(n - 1) {
        left_over(steps, done, n - 1)
    } else {
        left_over(steps, done, n - 1).push(steps[n - 1].id@)
    }
}

/// Why a definition does not compile; `None` if it does.
pub open spec fn compile_fault(definition: WorkflowDefinition) -> Option<CompileFault> {
    let steps = definition.steps@;
    let agents = agent_steps(steps, steps.len() as int);
    if definition.schema_version != SUPPORTED_SCHEMA_VERSION {
        Some(
            CompileFault::UnsupportedSchemaVersion {
                found: definition.schema_version,
                supported: SUPPORTED_SCHEMA_VERSION,
            },
        )
    } else if blank(definition.id@) {
        Some(CompileFault::EmptyId)
    } else if definition.version < 1 {
        Some(CompileFault::InvalidVersion(definition.version))
    } else if steps.len() == 0 {
        Some(CompileFault::NoSteps)
    } else if id_fault(steps, 0) is Some {
        id_fault(steps, 0)
    } else if action_fault(steps, 0) is Some {
        action_fault(steps, 0)
    } else if dependency_fault(steps, 0) is Some {
        dependency_fault(steps, 0)
    } else if budget_fault(definition.budget, agents) is Some {
        budget_fault(definition.budget, agents)
    } else if agents >= 2 && definition.orchestration_reason is None {
        Some(CompileFault::MissingOrchestrationReason { agent_steps: agents as int })
    } else if emission_order(steps).len() != steps.len() {
        Some(
            CompileFault::Cycle(
                sorted(left_over(steps, emission_order(steps), steps.len() as int)),
            ),
        )
    } else {
        None
    }
}

// ---------------------------------------------------------------------------
// What a definition compiles to
// ---------------------------------------------------------------------------

/// The elements of `s` without repetitions, each at its first place.
pub open spec fn unique(s: Seq<Seq<char>>) -> Seq<Seq<char>>
    decreases s.len(),
{
    if s.len() == 0 {
        Seq::empty()
    } else if unique(s.drop_last()).contains(s.last()) {
        unique(s.drop_last())
    } else {
        unique(s.drop_last()).push(s.last())
    }
}

/// The ids of those of the first `n` steps that depend on `id`, in definition order.
pub open spec fn dependent_ids(steps: Seq<WorkflowStep>, id: Seq<char>, n: int) -> Seq<Seq<char>>
    decreases n,
{
    if n <= 0 {
        Seq::empty()
    } else if texts(steps[n - 1].depends_on@).contains(id) {
        dependent_ids(steps, id, n - 1).push(steps[n - 1].id@)
    } else {
        dependent_ids(steps, id, n - 1)
    }
}

/// The action of a step that has exactly one.
pub open spec fn action_of(step: WorkflowStep) -> NodeAction {
    match step.agent {
        Some(agent) => NodeAction::Agent {
            role: agent.role,
            model_policy: agent.model_policy,
            skill: step.skill,
        },
        None => NodeAction::Tool { name: step.tool->0 },
    }
}

/// Whether `node`, at place `k` of the compiled order, is what step `i` lowers to.
pub open spec fn lowered(node: CompiledNode, steps: Seq<WorkflowStep>, i: int, k: int) -> bool {
    let step = steps[i];
    &&& node.id@ == step.id@
    &&& node.action == action_of(step)
    &&& texts(node.depends_on@) == unique(texts(step.depends_on@))
    &&& texts(node.dependents@) == dependent_ids(steps, step.id@, steps.len() as int)
    &&& node.workspace_mode == match step.workspace {
        Some(w) => w.mode,
        None => WorkspaceMode::SharedWorktree,
    }
    &&& node.approval == step.approval
    &&& node.retry == match step.retry {
        Some(r) => r,
        None => single_attempt(),
    }
    &&& node.outputs@ == step.outputs@
    &&& node.topo_order == k
}

/// Whether `workflow` is what `definition` compiles to.
pub open spec fn compiled_from(workflow: CompiledWorkflow, definition: WorkflowDefinition) -> bool {
    let steps = definition.steps@;
    let order = emission_order(steps);
    &&& workflow.id == definition.id
    &&& workflow.version == definition.version
    &&& workflow.inputs@ == definition.inputs@
    &&& workflow.budget == definition.budget
    &&& workflow.orchestration_reason == definition.orchestration_reason
    &&& workflow.nodes@.len() == order.len()
    &&& forall|k: int|
        0 <= k < order.len() ==> lowered(#[trigger] workflow.nodes@[k], steps, order[k], k)
}

// ---------------------------------------------------------------------------
// The checks
// ---------------------------------------------------------------------------

/// Whether `id` is among the ids of the first `n` steps.
fn id_among(steps: &Vec<WorkflowStep>, n: usize, id: &String) -> (r: bool)
    requires
        n <= steps@.len(),
    ensures
        r == step_ids(steps@).take(n as int).contains(id@),
{
    let mut j: usize = 0;
    let ghost head = step_ids(steps@).take(n as int);
    while j < n
        invariant
            j <= n <= steps@.len(),
            head == step_ids(steps@).take(n as int),
            forall|m: int| 0 <= m < j ==> #[trigger] head[m] != id@,
        decreases n - j,
    {
        if steps[j].id == *id {
            proof {
                assert(head[j as int] == id@);
            }
            return true;
        }
        j = j + 1;
    }
    false
}

fn check_ids(steps: &Vec<WorkflowStep>) -> (r: Result<(), CompileError>)
    ensures
        match r {
            Ok(_) => id_fault(steps@, 0) is None,
            Err(e) => id_fault(steps@, 0) == Some(e@),
        },
{
    let mut i: usize = 0;
    while i < steps.len()
        invariant
            i <= steps@.len(),
            id_fault(steps@, 0) == id_fault(steps@, i as int),
        decreases steps@.len() - i,
    {
        if is_blank(&steps[i].id) {
            return Err(CompileError::EmptyStepId);
        }
        if id_among(steps, i, &steps[i].id) {
            return Err(CompileError::DuplicateStepId(steps[i].id.clone()));
        }
        i = i + 1;
    }
    Ok(())
}

/// Checks every step's action and counts the agent steps.
fn check_actions(steps: &Vec<WorkflowStep>) -> (r: Result<usize, CompileError>)
    ensures
        match r {
            Ok(n) => action_fault(steps@, 0) is None && n == agent_steps(
                steps@,
                steps@.len() as int,
            ),
            Err(e) => action_fault(steps@, 0) == Some(e@),
        },
{
    let mut count: usize = 0;
    let mut i: usize = 0;
    while i < steps.len()
        invariant
            i <= steps@.len(),
            count == agent_steps(steps@, i as int),
            count <= i,
            action_fault(steps@, 0) == action_fault(steps@, i as int),
        decreases steps@.len() - i,
    {
        let step: &WorkflowStep = &steps[i];
        if step.agent.is_none() && step.tool.is_none() {
            return Err(CompileError::StepMissingAction(step.id.clone()));
        }
        if step.agent.is_some() && step.tool.is_some() {
            return Err(CompileError::StepAmbiguousAction(step.id.clone()));
        }
        if step.skill.is_some() && step.agent.is_none() {
            return Err(CompileError::SkillWithoutAgent(step.id.clone()));
        }
        if step.agent.is_some() {
            count = count + 1;
        }
        i = i + 1;
    }
    Ok(count)
}

fn check_edges(steps: &Vec<WorkflowStep>, i: usize) -> (r: Result<(), CompileError>)
    requires
        i < steps@.len(),
    ensures
        match r {
            Ok(_) => edge_fault(steps@, i as int, 0) is None,
            Err(e) => edge_fault(steps@, i as int, 0) == Some(e@),
        },
{
    let step: &WorkflowStep = &steps[i];
    let mut k: usize = 0;
    proof {
        assert(step_ids(steps@).take(steps@.len() as int) =~= step_ids(steps@));
    }
    while k < step.depends_on.len()
        invariant
            i < steps@.len(),
            *step == steps@[i as int],
            k <= step.depends_on@.len(),
            step_ids(steps@).take(steps@.len() as int) == step_ids(steps@),
            edge_fault(steps@, i as int, 0) == edge_fault(steps@, i as int, k as int),
        decreases step.depends_on@.len() - k,
    {
        let dep: &String = &step.depends_on[k];
        if *dep == step.id {
            return Err(CompileError::SelfDependency(step.id.clone()));
        }
        if !id_among(steps, steps.len(), dep) {
            return Err(
                CompileError::UnknownDependency { step: step.id.clone(), depends_on: dep.clone() },
            );
        }
        k = k + 1;
    }
    Ok(())
}

fn check_dependencies(steps: &Vec<WorkflowStep>) -> (r: Result<(), CompileError>)
    ensures
        match r {
            Ok(_) => dependency_fault(steps@, 0) is None,
            Err(e) => dependency_fault(steps@, 0) == Some(e@),
        },
{
    let mut i: usize = 0;
    while i < steps.len()
        invariant
            i <= steps@.len(),
            dependency_fault(steps@, 0) == dependency_fault(steps@, i as int),
        decreases steps@.len() - i,
    {
        match check_edges(steps, i) {
            Ok(_) => {},
            Err(e) => {
                return Err(e);
            },
        }
        i = i + 1;
    }
    Ok(())
}

/// Checks that whatever budget fields are present are sane, and that a workflow with
/// agent steps caps its concurrency.
pub fn validate_budget(budget: &WorkflowBudget, agents: usize) -> (r: Result<(), CompileError>)
    ensures
        match r {
            Ok(_) => budget_fault(*budget, agents as nat) is None,
            Err(e) => budget_fault(*budget, agents as nat) == Some(e@),
        },
{
    if let Some(cost) = budget.maximum_cost_usd {
        if !cost.is_positive_finite() {
            return Err(CompileError::InvalidBudget("maximum_cost_usd must be a positive number"));
        }
    }
    if let Some(seconds) = budget.maximum_duration_seconds {
        if seconds == 0 {
            return Err(
                CompileError::InvalidBudget("maximum_duration_seconds must be greater than zero"),
            );
        }
    }
    match budget.maximum_agents {
        Some(cap) => {
            if cap == 0 {
                return Err(CompileError::InvalidBudget("maximum_agents must be at least 1"));
            }
        },
        None => {
            if agents > 0 {
                return Err(
                    CompileError::InvalidBudget(
                        "maximum_agents is required when the workflow has agent steps",
                    ),
                );
            }
        },
    }
    Ok(())
}

// ---------------------------------------------------------------------------
// The order
// ---------------------------------------------------------------------------

/// Whether `name` is one of `items`.
pub(crate) fn has_text(items: &Vec<String>, name: &String) -> (r: bool)
    ensures
        r == texts(items@).contains(name@),
{
    let mut k: usize = 0;
    while k < items.len()
        invariant
            k <= items@.len(),
            forall|m: int| 0 <= m < k ==> #[trigger] texts(items@)[m] != name@,
        decreases items@.len() - k,
    {
        if items[k] == *name {
            proof {
                assert(texts(items@)[k as int] == name@);
            }
            return true;
        }
        k = k + 1;
    }
    false
}

/// For each step the indexes of the steps it depends on.
fn dependency_indexes(steps: &Vec<WorkflowStep>) -> (r: Vec<Vec<usize>>)
    ensures
        r@.len() == steps@.len(),
        forall|i: int, j: usize|
            0 <= i < steps@.len() ==> (#[trigger] r@[i]@.contains(j) <==> j < steps@.len() && depends(
                steps@,
                i,
                j as int,
            )),
{
    let mut out: Vec<Vec<usize>> = Vec::new();
    let mut i: usize = 0;
    while i < steps.len()
        invariant
            i <= steps@.len(),
            out@.len() == i,
            forall|a: int, j: usize|
                0 <= a < i ==> (#[trigger] out@[a]@.contains(j) <==> j < steps@.len() && depends(
                    steps@,
                    a,
                    j as int,
                )),
        decreases steps@.len() - i,
    {
        let mut row: Vec<usize> = Vec::new();
        let mut j: usize = 0;
        while j < steps.len()
            invariant
                i < steps@.len(),
                j <= steps@.len(),
                forall|m: usize|
                    (#[trigger] row@.contains(m) <==> m < j && depends(steps@, i as int, m as int)),
            decreases steps@.len() - j,
        {
            let ghost before = row@;
            if has_text(&steps[i].depends_on, &steps[j].id) {
                row.push(j);
                proof {
                    assert forall|m: usize| #[trigger] row@.contains(m) <==> m < j + 1 && depends(
                        steps@,
                        i as int,
                        m as int,
                    ) by {
                        assert(row@[before.len() as int] == j);
                        if before.contains(m) {
                            let q = before.index_of(m);
                            assert(row@[q] == m);
                        }
                        if row@.contains(m) && m != j {
                            let q = row@.index_of(m);
                            assert(before[q] == m);
                        }
                    }
                }
            }
            j = j + 1;
        }
        out.push(row);
        i = i + 1;
    }
    out
}

/// The emitted steps as a set of flags.
spec fn flags_match(flags: Seq<bool>, order: Seq<usize>, n: int) -> bool {
    &&& flags.len() == n
    &&& forall|i: int| 0 <= i < n ==> (#[trigger] flags[i] <==> ints(order).contains(i))
    &&& forall|k: int| 0 <= k < order.len() ==> #[trigger] order[k] < n
}

/// Indexes as mathematical integers.
pub open spec fn ints(s: Seq<usize>) -> Seq<int> {
    Seq::new(s.len(), |k: int| s[k] as int)
}

/// Whether the step with dependency row `row` is ready.
fn row_done(row: &Vec<usize>, flags: &Vec<bool>) -> (r: bool)
    requires
        forall|k: int| 0 <= k < row@.len() ==> #[trigger] row@[k] < flags@.len(),
    ensures
        r <==> forall|k: int| 0 <= k < row@.len() ==> flags@[#[trigger] row@[k] as int],
{
    let mut k: usize = 0;
    while k < row.len()
        invariant
            k <= row@.len(),
            forall|m: int| 0 <= m < row@.len() ==> #[trigger] row@[m] < flags@.len(),
            forall|m: int| 0 <= m < k ==> flags@[#[trigger] row@[m] as int],
        decreases row@.len() - k,
    {
        if !flags[row[k]] {
            return false;
        }
        k = k + 1;
    }
    true
}

/// The first ready step, given the steps emitted so far.
fn find_ready(
    steps: &Vec<WorkflowStep>,
    rows: &Vec<Vec<usize>>,
    flags: &Vec<bool>,
    order: &Vec<usize>,
) -> (r: Option<usize>)
    requires
        flags_match(flags@, order@, steps@.len() as int),
        rows@.len() == steps@.len(),
        forall|i: int, j: usize|
            0 <= i < steps@.len() ==> (#[trigger] rows@[i]@.contains(j) <==> j < steps@.len()
                && depends(steps@, i, j as int)),
    ensures
        match r {
            Some(i) => i < steps@.len() && next_ready(steps@, ints(order@), 0) == Some(i as int),
            None => next_ready(steps@, ints(order@), 0) is None,
        },
{
    let ghost done = ints(order@);
    let mut i: usize = 0;
    while i < steps.len()
        invariant
            i <= steps@.len(),
            done == ints(order@),
            flags_match(flags@, order@, steps@.len() as int),
            rows@.len() == steps@.len(),
            forall|a: int, j: usize|
                0 <= a < steps@.len() ==> (#[trigger] rows@[a]@.contains(j) <==> j < steps@.len()
                    && depends(steps@, a, j as int)),
            next_ready(steps@, done, 0) == next_ready(steps@, done, i as int),
        decreases steps@.len() - i,
    {
        let row: &Vec<usize> = &rows[i];
        proof {
            assert forall|k: int| 0 <= k < row@.len() implies #[trigger] row@[k] < flags@.len() by {
                assert(rows@[i as int]@.contains(row@[k]));
            }
        }
        if !flags[i] && row_done(row, flags) {
            proof {
                assert forall|j: int|
                    0 <= j < steps@.len() && #[trigger] depends(
                        steps@,
                        i as int,
                        j,
                    ) implies done.contains(j) by {
                    assert(rows@[i as int]@.contains(j as usize));
                    let k = row@.index_of(j as usize);
                    assert(flags@[row@[k] as int]);
                }
                assert(ready(steps@, done, i as int));
            }
            return Some(i);
        }
        proof {
            if !flags@[i as int] {
                let k = choose|k: int| 0 <= k < row@.len() && !flags@[#[trigger] row@[k] as int];
                assert(rows@[i as int]@.contains(row@[k]));
                assert(depends(steps@, i as int, row@[k] as int));
                assert(!done.contains(row@[k] as int));
            }
            assert(!ready(steps@, done, i as int));
        }
        i = i + 1;
    }
    None
}

proof fn lemma_next_ready(steps: Seq<WorkflowStep>, done: Seq<int>, i: int)
    requires
        0 <= i,
    ensures
        match next_ready(steps, done, i) {
            Some(k) => {
                &&& i <= k < steps.len()
                &&& ready(steps, done, k)
                &&& forall|j: int| i <= j < k ==> !#[trigger] ready(steps, done, j)
            },
            None => forall|j: int| i <= j < steps.len() ==> !#[trigger] ready(steps, done, j),
        },
    decreases steps.len() - i,
{
    if i < steps.len() && !ready(steps, done, i) {
        lemma_next_ready(steps, done, i + 1);
    }
}

/// Takes the steps one by one, each time the first in definition order whose
/// dependencies have all been taken. When none is left to take and some remain, the
/// graph has a cycle, and the remaining ids are reported in order.
pub fn topological_order(steps: &Vec<WorkflowStep>) -> (r: Result<Vec<usize>, CompileError>)
    ensures
        match r {
            Ok(order) => {
                &&& ints(order@) == emission_order(steps@)
                &&& order@.len() == steps@.len()
                &&& forall|k: int| 0 <= k < order@.len() ==> #[trigger] order@[k] < steps@.len()
            },
            Err(e) => {
                &&& emission_order(steps@).len() != steps@.len()
                &&& e@ == CompileFault::Cycle(
                    sorted(left_over(steps@, emission_order(steps@), steps@.len() as int)),
                )
            },
        },
{
    let rows: Vec<Vec<usize>> = dependency_indexes(steps);
    let n: usize = steps.len();
    let mut flags: Vec<bool> = Vec::new();
    let mut i: usize = 0;
    while i < n
        invariant
            i <= n,
            flags@.len() == i,
            forall|k: int| 0 <= k < i ==> !#[trigger] flags@[k],
        decreases n - i,
    {
        flags.push(false);
        i = i + 1;
    }
    let mut order: Vec<usize> = Vec::new();
    proof {
        assert(ints(order@) =~= Seq::<int>::empty());
    }
    let mut stuck: bool = false;
    while order.len() < n && !stuck
        invariant
            n == steps@.len(),
            rows@.len() == steps@.len(),
            forall|a: int, j: usize|
                0 <= a < steps@.len() ==> (#[trigger] rows@[a]@.contains(j) <==> j < steps@.len()
                    && depends(steps@, a, j as int)),
            flags_match(flags@, order@, n as int),
            order@.len() <= n,
            emission_order(steps@) == emission(steps@, ints(order@)),
            stuck ==> emission_order(steps@) == ints(order@) && order@.len() < n,
        decreases n - order@.len() + if stuck { 0int } else { 1int },
    {
        match find_ready(steps, &rows, &flags, &order) {
            Some(k) => {
                let ghost old_order = order@;
                proof {
                    lemma_next_ready(steps@, ints(order@), 0);
                }
                order.push(k);
                flags.set(k, true);
                proof {
                    assert(ints(order@) =~= ints(old_order).push(k as int));
                    assert forall|m: int| 0 <= m < n implies (#[trigger] flags@[m] <==> ints(
                        order@,
                    ).contains(m)) by {
                        let now = ints(order@);
                        let was = ints(old_order);
                        if was.contains(m) {
                            let q = was.index_of(m);
                            assert(now[q] == m);
                        }
                        assert(now[was.len() as int] == k as int);
                        if now.contains(m) && m != k {
                            let q = now.index_of(m);
                            assert(was[q] == m);
                        }
                    }
                }
            },
            None => {
                stuck = true;
            },
        }
    }
    if stuck {
        let mut left: Vec<String> = Vec::new();
        let mut i: usize = 0;
        proof {
            assert(texts(left@) =~= left_over(steps@, ints(order@), 0));
        }
        while i < n
            invariant
                i <= n,
                n == steps@.len(),
                flags_match(flags@, order@, n as int),
                texts(left@) == left_over(steps@, ints(order@), i as int),
            decreases n - i,
        {
            if !flags[i] {
                let ghost before = left@;
                left.push(steps[i].id.clone());
                proof {
                    assert(texts(left@) =~= texts(before).push(steps@[i as int].id@));
                }
            }
            i = i + 1;
        }
        let cycle: Vec<String> = sort_texts(&left);
        return Err(CompileError::Cycle(cycle));
    }
    Ok(order)
}

// ---------------------------------------------------------------------------
// Lowering
// ---------------------------------------------------------------------------

/// The strings without repetitions, each at its first place.
fn deduplicated(items: &Vec<String>) -> (r: Vec<String>)
    ensures
        texts(r@) == unique(texts(items@)),
{
    let mut out: Vec<String> = Vec::new();
    let mut k: usize = 0;
    let ghost all = texts(items@);
    proof {
        assert(texts(out@) =~= unique(all.take(0)));
    }
    while k < items.len()
        invariant
            k <= items@.len(),
            all == texts(items@),
            texts(out@) == unique(all.take(k as int)),
        decreases items@.len() - k,
    {
        proof {
            assert(all.take(k + 1).drop_last() =~= all.take(k as int));
        }
        if !has_text(&out, &items[k]) {
            let ghost before = out@;
            out.push(items[k].clone());
            proof {
                assert(texts(out@) =~= texts(before).push(all[k as int]));
            }
        }
        k = k + 1;
    }
    proof {
        assert(all.take(all.len() as int) =~= all);
    }
    out
}

/// Inverts the dependency edges of one step: the steps that depend on it, in definition
/// order.
pub fn dependents_of(steps: &Vec<WorkflowStep>, id: &String) -> (r: Vec<String>)
    ensures
        texts(r@) == dependent_ids(steps@, id@, steps@.len() as int),
{
    let mut out: Vec<String> = Vec::new();
    let mut k: usize = 0;
    proof {
        assert(texts(out@) =~= dependent_ids(steps@, id@, 0));
    }
    while k < steps.len()
        invariant
            k <= steps@.len(),
            texts(out@) == dependent_ids(steps@, id@, k as int),
        decreases steps@.len() - k,
    {
        if has_text(&steps[k].depends_on, id) {
            let ghost before = out@;
            out.push(steps[k].id.clone());
            proof {
                assert(texts(out@) =~= texts(before).push(steps@[k as int].id@));
            }
        }
        k = k + 1;
    }
    out
}

/// Lowers step `i` to the node at place `k` of the order.
fn lower(steps: &Vec<WorkflowStep>, i: usize, k: usize) -> (r: CompiledNode)
    requires
        i < steps@.len(),
        steps@[i as int].agent is Some || steps@[i as int].tool is Some,
    ensures
        lowered(r, steps@, i as int, k as int),
{
    let step: &WorkflowStep = &steps[i];
    let action: NodeAction = match &step.agent {
        Some(agent) => NodeAction::Agent {
            role: agent.role.clone(),
            model_policy: agent.model_policy.clone(),
            skill: step.skill.clone(),
        },
        None => NodeAction::Tool { name: step.tool.as_ref().unwrap().clone() },
    };
    let workspace_mode: WorkspaceMode = match step.workspace {
        Some(w) => w.mode,
        None => WorkspaceMode::SharedWorktree,
    };
    let retry: RetryPolicy = match step.retry {
        Some(r) => r,
        None => RetryPolicy::default(),
    };
    let outputs: Vec<String> = step.outputs.clone();
    proof {
        assert(outputs@ =~= step.outputs@);
    }
    CompiledNode {
        id: step.id.clone(),
        action,
        depends_on: deduplicated(&step.depends_on),
        dependents: dependents_of(steps, &step.id),
        workspace_mode,
        approval: step.approval,
        retry,
        outputs,
        topo_order: k,
    }
}

/// A definition whose actions pass has an action in every step.
proof fn lemma_actions_present(steps: Seq<WorkflowStep>, i: int, k: int)
    requires
        action_fault(steps, i) is None,
        0 <= i <= k < steps.len(),
    ensures
        steps[k].agent is Some || steps[k].tool is Some,
    decreases steps.len() - i,
{
    if i < k {
        lemma_actions_present(steps, i + 1, k);
    }
}

/// Validates `definition` and lowers it into a [`CompiledWorkflow`].
pub fn compile(definition: &WorkflowDefinition) -> (r: Result<CompiledWorkflow, CompileError>)
    ensures
        match r {
            Ok(workflow) => compile_fault(*definition) is None && compiled_from(
                workflow,
                *definition,
            ),
            Err(e) => compile_fault(*definition) == Some(e@),
        },
{
    if definition.schema_version != SUPPORTED_SCHEMA_VERSION {
        return Err(
            CompileError::UnsupportedSchemaVersion {
                found: definition.schema_version,
                supported: SUPPORTED_SCHEMA_VERSION,
            },
        );
    }
    if is_blank(&definition.id) {
        return Err(CompileError::EmptyId);
    }
    if definition.version < 1 {
        return Err(CompileError::InvalidVersion(definition.version));
    }
    let steps: &Vec<WorkflowStep> = &definition.steps;
    if steps.len() == 0 {
        return Err(CompileError::NoSteps);
    }
    match check_ids(steps) {
        Ok(_) => {},
        Err(e) => {
            return Err(e);
        },
    }
    let agents: usize = match check_actions(steps) {
        Ok(n) => n,
        Err(e) => {
            return Err(e);
        },
    };
    match check_dependencies(steps) {
        Ok(_) => {},
        Err(e) => {
            return Err(e);
        },
    }
    match validate_budget(&definition.budget, agents) {
        Ok(_) => {},
        Err(e) => {
            return Err(e);
        },
    }
    if agents >= 2 && definition.orchestration_reason.is_none() {
        return Err(CompileError::MissingOrchestrationReason { agent_steps: agents });
    }
    let order: Vec<usize> = match topological_order(steps) {
        Ok(order) => order,
        Err(e) => {
            return Err(e);
        },
    };
    let mut nodes: Vec<CompiledNode> = Vec::new();
    let mut k: usize = 0;
    while k < order.len()
        invariant
            k <= order@.len(),
            nodes@.len() == k,
            *steps == definition.steps,
            action_fault(steps@, 0) is None,
            forall|m: int| 0 <= m < order@.len() ==> #[trigger] order@[m] < steps@.len(),
            forall|m: int|
                0 <= m < k ==> lowered(#[trigger] nodes@[m], steps@, order@[m] as int, m),
        decreases order@.len() - k,
    {
        proof {
            assert(order@[k as int] < steps@.len());
            lemma_actions_present(steps@, 0, order@[k as int] as int);
        }
        nodes.push(lower(steps, order[k], k));
        k = k + 1;
    }
    let inputs: TextMap<WorkflowInput> = definition.inputs.clone();
    proof {
        assert(inputs.listed() =~= definition.inputs.listed());
        let spec_order = emission_order(steps@);
        assert forall|m: int| 0 <= m < spec_order.len() implies lowered(
            #[trigger] nodes@[m],
            steps@,
            spec_order[m],
            m,
        ) by {
            assert(ints(order@)[m] == order@[m] as int);
        }
    }
    Ok(
        CompiledWorkflow {
            id: definition.id.clone(),
            version: definition.version,
            inputs,
            budget: definition.budget,
            orchestration_reason: definition.orchestration_reason,
            nodes,
        },
    )
}

// ---------------------------------------------------------------------------
// Queries on a compiled workflow
// ---------------------------------------------------------------------------

/// The place of the first node from `k` on with that id.
pub open spec fn node_index(nodes: Seq<CompiledNode>, id: Seq<char>, k: int) -> Option<int>
    decreases nodes.len() - k,
{
    if k >= nodes.len() {
        None
    } else if nodes[k].id@ == id {
        Some(k)
    } else {
        node_index(nodes, id, k + 1)
    }
}

/// How many of the first `n` nodes are agent nodes.
pub open spec fn agent_nodes(nodes: Seq<CompiledNode>, n: int) -> nat
    decreases n,
{
    if n <= 0 {
        0
    } else {
        agent_nodes(nodes, n - 1) + if nodes[n - 1].action is Agent {
            1nat
        } else {
            0nat
        }
    }
}

/// The four bytes of `v`, the lowest first.
pub open spec fn le_bytes(v: u32) -> Seq<u8> {
    seq![
        (v % 256) as u8,
        (v / 256 % 256) as u8,
        (v / 65536 % 256) as u8,
        (v / 16777216) as u8,
    ]
}

/// The bytes that name an action's kind.
pub open spec fn kind_bytes(action: NodeAction) -> Seq<u8> {
    match action {
        NodeAction::Agent { .. } => encode_utf8("agent"@),
        NodeAction::Tool { .. } => encode_utf8("tool"@),
    }
}

/// What the signature hashes of a list of dependencies.
pub open spec fn edge_bytes(deps: Seq<Seq<char>>) -> Seq<u8>
    decreases deps.len(),
{
    if deps.len() == 0 {
        Seq::empty()
    } else {
        edge_bytes(deps.drop_last()) + seq![1u8] + encode_utf8(deps.last())
    }
}

/// What the signature hashes of one node: its id, its action's kind and its sorted
/// dependencies.
pub open spec fn node_bytes(node: CompiledNode) -> Seq<u8> {
    seq![0xffu8] + encode_utf8(node.id@) + kind_bytes(node.action) + edge_bytes(
        sorted(texts(node.depends_on@)),
    )
}

/// What the signature hashes of the first `n` nodes.
pub open spec fn nodes_bytes(nodes: Seq<CompiledNode>, n: int) -> Seq<u8>
    decreases n,
{
    if n <= 0 {
        Seq::empty()
    } else {
        nodes_bytes(nodes, n - 1) + node_bytes(nodes[n - 1])
    }
}

/// The bytes whose digest is the signature.
pub open spec fn shape_bytes(workflow: CompiledWorkflow) -> Seq<u8> {
    encode_utf8(workflow.id@) + seq![0u8] + le_bytes(workflow.version) + nodes_bytes(
        workflow.nodes@,
        workflow.nodes@.len() as int,
    )
}

/// The signature of a workflow's shape.
pub open spec fn signature_of(workflow: CompiledWorkflow) -> Seq<char> {
    hex_text(sha256_of(shape_bytes(workflow)))
}

/// What the registry lacks for one node.
pub open spec fn node_reference_fault<R: WorkflowRegistry + ?Sized>(
    node: CompiledNode,
    registry: &R,
) -> Option<CompileFault> {
    match node.action {
        NodeAction::Tool { name } => if registry.knows_tool(name@) || registry.knows_tool(
            normalized(name@),
        ) {
            None
        } else {
            Some(CompileFault::UnknownTool { step: node.id@, tool: name@ })
        },
        NodeAction::Agent { role, model_policy, skill } => if !registry.knows_agent_role(role@) {
            Some(CompileFault::UnknownAgentRole { step: node.id@, role: role@ })
        } else if skill is Some && !registry.knows_skill(skill->0@) {
            Some(CompileFault::UnknownSkill { step: node.id@, skill: skill->0@ })
        } else {
            None
        },
    }
}

/// The first reference, in compiled order from `k` on, that the registry cannot resolve.
pub open spec fn reference_fault<R: WorkflowRegistry + ?Sized>(
    nodes: Seq<CompiledNode>,
    registry: &R,
    k: int,
) -> Option<CompileFault>
    decreases nodes.len() - k,
{
    if k >= nodes.len() {
        None
    } else if node_reference_fault(nodes[k], registry) is Some {
        node_reference_fault(nodes[k], registry)
    } else {
        reference_fault(nodes, registry, k + 1)
    }
}

/// Appends the bytes of `s`.
fn append_text(out: &mut Vec<u8>, s: &str)
    ensures
        final(out)@ == old(out)@ + encode_utf8(s@),
{
    let bytes: &[u8] = s.as_bytes();
    let mut k: usize = 0;
    let ghost before = out@;
    proof {
        assert(before + bytes@.take(0) =~= before);
    }
    while k < bytes.len()
        invariant
            k <= bytes@.len(),
            out@ == before + bytes@.take(k as int),
        decreases bytes@.len() - k,
    {
        out.push(bytes[k]);
        proof {
            assert(bytes@.take(k + 1) =~= bytes@.take(k as int).push(bytes@[k as int]));
            assert(out@ =~= before + bytes@.take(k + 1));
        }
        k = k + 1;
    }
    proof {
        assert(bytes@.take(bytes@.len() as int) =~= bytes@);
    }
}

/// Appends what the signature hashes of one node.
fn append_node(out: &mut Vec<u8>, node: &CompiledNode)
    ensures
        final(out)@ == old(out)@ + node_bytes(*node),
{
    let ghost start = out@;
    out.push(0xff);
    append_text(out, &node.id);
    match &node.action {
        NodeAction::Agent { .. } => append_text(out, "agent"),
        NodeAction::Tool { .. } => append_text(out, "tool"),
    }
    let ghost head = out@;
    let deps: Vec<String> = sort_texts(&node.depends_on);
    let ghost all = texts(deps@);
    let mut k: usize = 0;
    proof {
        assert(head + edge_bytes(all.take(0)) =~= head);
    }
    while k < deps.len()
        invariant
            k <= deps@.len(),
            all == texts(deps@),
            out@ == head + edge_bytes(all.take(k as int)),
        decreases deps@.len() - k,
    {
        proof {
            assert(all.take(k + 1).drop_last() =~= all.take(k as int));
        }
        out.push(1);
        append_text(out, &deps[k]);
        proof {
            assert(out@ =~= head + edge_bytes(all.take(k + 1)));
        }
        k = k + 1;
    }
    proof {
        assert(all.take(all.len() as int) =~= all);
        assert(out@ =~= start + node_bytes(*node));
    }
}

impl CompiledWorkflow {
    /// The node with the given id, if present.
    pub fn node(&self, id: &str) -> (r: Option<&CompiledNode>)
        ensures
            match r {
                Some(n) => node_index(self.nodes@, id@, 0) is Some && *n == self.nodes@[node_index(
                    self.nodes@,
                    id@,
                    0,
                )->0],
                None => node_index(self.nodes@, id@, 0) is None,
            },
    {
        let mut k: usize = 0;
        while k < self.nodes.len()
            invariant
                k <= self.nodes@.len(),
                node_index(self.nodes@, id@, 0) == node_index(self.nodes@, id@, k as int),
            decreases self.nodes@.len() - k,
        {
            if same_text(&self.nodes[k].id, id) {
                return Some(&self.nodes[k]);
            }
            k = k + 1;
        }
        None
    }

    /// The number of agent nodes.
    pub fn agent_node_count(&self) -> (r: usize)
        ensures
            r == agent_nodes(self.nodes@, self.nodes@.len() as int),
    {
        let mut count: usize = 0;
        let mut k: usize = 0;
        while k < self.nodes.len()
            invariant
                k <= self.nodes@.len(),
                count == agent_nodes(self.nodes@, k as int),
                count <= k,
            decreases self.nodes@.len() - k,
        {
            if matches!(self.nodes[k].action, NodeAction::Agent { .. }) {
                count = count + 1;
            }
            k = k + 1;
        }
        count
    }

    /// The bytes that stand for the graph's shape: the workflow id and version, then each
    /// node's id, action kind and sorted dependencies, in compiled order.
    pub fn shape(&self) -> (out: Vec<u8>)
        ensures
            out@ == shape_bytes(*self),
    {
        let mut out: Vec<u8> = Vec::new();
        append_text(&mut out, &self.id);
        out.push(0);
        let v: u32 = self.version;
        out.push((v % 256) as u8);
        out.push((v / 256 % 256) as u8);
        out.push((v / 65536 % 256) as u8);
        out.push((v / 16777216) as u8);
        let ghost head = out@;
        proof {
            assert(head =~= encode_utf8(self.id@) + seq![0u8] + le_bytes(v));
            assert(head + nodes_bytes(self.nodes@, 0) =~= head);
        }
        let mut k: usize = 0;
        while k < self.nodes.len()
            invariant
                k <= self.nodes@.len(),
                out@ == head + nodes_bytes(self.nodes@, k as int),
            decreases self.nodes@.len() - k,
        {
            append_node(&mut out, &self.nodes[k]);
            proof {
                assert(out@ =~= head + nodes_bytes(self.nodes@, k + 1));
            }
            k = k + 1;
        }
        out
    }

    /// A stable hash of the graph's shape, as sixty-four lower-case hexadecimal digits. A
    /// durable run stores it, so that a resume can refuse a graph that has changed under it.
    pub fn signature(&self) -> (r: String)
        ensures
            r@ == signature_of(*self),
            r@.len() == 64,
            forall|i: int| 0 <= i < 64 ==> crate::stamp::is_hex_digit(#[trigger] r@[i]),
    {
        let digest: Vec<u8> = sha256(&self.shape());
        proof {
            crate::digest::lemma_hex_text(digest@);
        }
        hex_encode(&digest)
    }

    /// Checks that every tool, skill and agent role the nodes name is known to
    /// `registry`. A tool may be registered under its own name or its normalized one.
    pub fn validate_references<R: WorkflowRegistry + ?Sized>(&self, registry: &R) -> (r: Result<
        (),
        CompileError,
    >)
        ensures
            match r {
                Ok(_) => reference_fault(self.nodes@, registry, 0) is None,
                Err(e) => reference_fault(self.nodes@, registry, 0) == Some(e@),
            },
    {
        let mut k: usize = 0;
        while k < self.nodes.len()
            invariant
                k <= self.nodes@.len(),
                reference_fault(self.nodes@, registry, 0) == reference_fault(
                    self.nodes@,
                    registry,
                    k as int,
                ),
            decreases self.nodes@.len() - k,
        {
            let node: &CompiledNode = &self.nodes[k];
            match &node.action {
                NodeAction::Tool { name } => {
                    if !registry.has_tool(name) && !registry.has_tool(&normalize_tool_name(name)) {
                        return Err(
                            CompileError::UnknownTool { step: node.id.clone(), tool: name.clone() },
                        );
                    }
                },
                NodeAction::Agent { role, model_policy: _, skill } => {
                    if !registry.has_agent_role(role) {
                        return Err(
                            CompileError::UnknownAgentRole {
                                step: node.id.clone(),
                                role: role.clone(),
                            },
                        );
                    }
                    if let Some(name) = skill {
                        if !registry.has_skill(name) {
                            return Err(
                                CompileError::UnknownSkill {
                                    step: node.id.clone(),
                                    skill: name.clone(),
                                },
                            );
                        }
                    }
                },
            }
            k = k + 1;
        }
        Ok(())
    }
}

/// Compiles `definition` and then checks its references against `registry`.
pub fn compile_with_registry<R: WorkflowRegistry + ?Sized>(
    definition: &WorkflowDefinition,
    registry: &R,
) -> (r: Result<CompiledWorkflow, CompileError>)
    ensures
        match r {
            Ok(workflow) => {
                &&& compile_fault(*definition) is None
                &&& compiled_from(workflow, *definition)
                &&& reference_fault(workflow.nodes@, registry, 0) is None
            },
            Err(e) => {
                ||| compile_fault(*definition) == Some(e@)
                ||| {
                    &&& compile_fault(*definition) is None
                    &&& exists|workflow: CompiledWorkflow|
                        compiled_from(workflow, *definition) && #[trigger] reference_fault(
                            workflow.nodes@,
                            registry,
                            0,
                        ) == Some(e@)
                }
            },
        },
{
    let workflow: CompiledWorkflow = match compile(definition) {
        Ok(w) => w,
        Err(e) => {
            return Err(e);
        },
    };
    match workflow.validate_references(registry) {
        Ok(_) => Ok(workflow),
        Err(e) => {
            proof {
                assert(compiled_from(workflow, *definition) && reference_fault(
                    workflow.nodes@,
                    registry,
                    0,
                ) == Some(e@));
            }
            Err(e)
        },
    }
}

} // verus!
