//! The declarative workflow definition, before validation.
//!
//! A definition is a plain value: nothing here is checked beyond what the types say.
//! [`crate::workflow::compile`] performs the semantic checks.
use crate::number::Double;
use crate::text_map::TextMap;
use vstd::prelude::*;

verus! {

/// The schema version this build understands. A definition that declares another one
/// is rejected by the compiler.
pub const SUPPORTED_SCHEMA_VERSION: u32 = 1;

/// A declarative workflow, as authored.
#[derive(Debug, Clone, PartialEq)]
pub struct WorkflowDefinition {
    /// Must be [`SUPPORTED_SCHEMA_VERSION`].
    pub schema_version: u32,
    /// The workflow's stable identifier.
    pub id: String,
    /// The workflow's own version, at least 1.
    pub version: u32,
    /// A human description.
    pub description: Option<String>,
    /// Typed inputs, keyed by name.
    pub inputs: TextMap<WorkflowInput>,
    /// The workflow-level budget envelope.
    pub budget: WorkflowBudget,
    /// The steps (nodes) of the workflow.
    pub steps: Vec<WorkflowStep>,
    /// Why the workflow uses more than one agent; required once it has two agent steps.
    pub orchestration_reason: Option<OrchestrationReason>,
}

/// A typed workflow input.
#[derive(Debug, PartialEq, Eq)]
pub struct WorkflowInput {
    /// The input's type name.
    pub input_type: String,
    /// Whether the input must be supplied.
    pub required: bool,
}

impl Clone for WorkflowInput {
    fn clone(&self) -> (r: Self)
        ensures
            r == *self,
    {
        WorkflowInput { input_type: self.input_type.clone(), required: self.required }
    }
}

/// The workflow-level budget envelope. Every field is optional.
#[derive(Debug, Clone, Copy, PartialEq, Eq, Structural)]
pub struct WorkflowBudget {
    /// Ceiling on total spend, in US dollars.
    pub maximum_cost_usd: Option<Double>,
    /// Ceiling on wall-clock duration, in seconds.
    pub maximum_duration_seconds: Option<u64>,
    /// Ceiling on concurrently running agents.
    pub maximum_agents: Option<u32>,
}

impl Default for WorkflowBudget {
    /// No ceiling at all.
    fn default() -> (r: Self)
        ensures
            r.maximum_cost_usd is None,
            r.maximum_duration_seconds is None,
            r.maximum_agents is None,
    {
        WorkflowBudget { maximum_cost_usd: None, maximum_duration_seconds: None, maximum_agents: None }
    }
}

/// One step (node) of a workflow: either an `agent` step, optionally with a `skill`, or
/// a `tool` step.
#[derive(Debug, Clone, PartialEq)]
pub struct WorkflowStep {
    /// Unique within the workflow and referenced by `depends_on`.
    pub id: String,
    /// The steps that must complete before this one runs.
    pub depends_on: Vec<String>,
    /// The agent that performs this step, if it is an agent step.
    pub agent: Option<AgentRef>,
    /// The tool that performs this step, if it is a tool step.
    pub tool: Option<String>,
    /// A skill the agent applies.
    pub skill: Option<String>,
    /// The workspace the step runs in.
    pub workspace: Option<WorkspaceSpec>,
    /// The approval policy that gates this step's effects.
    pub approval: Option<ApprovalPolicy>,
    /// The retry policy for this step.
    pub retry: Option<RetryPolicy>,
    /// The artifact kinds this step is declared to produce.
    pub outputs: Vec<String>,
}

/// An agent reference on an agent step.
#[derive(Debug, PartialEq, Eq)]
pub struct AgentRef {
    /// The agent role, resolved to an agent profile at execution time.
    pub role: String,
    /// The model-selection policy for the agent.
    pub model_policy: Option<String>,
}

impl Clone for AgentRef {
    fn clone(&self) -> (r: Self)
        ensures
            r == *self,
    {
        AgentRef { role: self.role.clone(), model_policy: self.model_policy.clone() }
    }
}

/// A step's workspace.
#[derive(Debug, Clone, Copy, PartialEq, Eq, Structural)]
pub struct WorkspaceSpec {
    /// How the step's workspace is provisioned.
    pub mode: WorkspaceMode,
}

/// How a step's workspace is provisioned.
#[derive(Debug, Clone, Copy, PartialEq, Eq, Structural)]
pub enum WorkspaceMode {
    /// Runs in the shared repository worktree.
    SharedWorktree,
    /// Runs in a dedicated, isolated worktree.
    IsolatedWorktree,
}

/// The approval policy that gates a step's effects.
#[derive(Debug, Clone, Copy, PartialEq, Eq, Structural)]
pub enum ApprovalPolicy {
    /// Require approval before the step performs any write.
    BeforeWrite,
    /// Require approval before the step runs at all.
    Always,
}

/// A step's retry policy.
#[derive(Debug, Clone, Copy, PartialEq, Eq, Structural)]
pub struct RetryPolicy {
    /// How many times to attempt the step in all.
    pub attempts: u32,
    /// Backoff between attempts, in seconds.
    pub backoff_seconds: u64,
}

/// One attempt and no backoff.
pub open spec fn single_attempt() -> RetryPolicy {
    RetryPolicy { attempts: 1, backoff_seconds: 0 }
}

impl Default for RetryPolicy {
    /// The default policy runs a step once with no backoff.
    fn default() -> (r: Self)
        ensures
            r == single_attempt(),
    {
        RetryPolicy { attempts: 1, backoff_seconds: 0 }
    }
}

/// Why a workflow uses more than one agent.
#[derive(Debug, Clone, Copy, PartialEq, Eq, Structural)]
pub enum OrchestrationReason {
    /// Independent work is run in parallel for throughput.
    Parallelism,
    /// A separate agent reviews another's work for independence.
    IndependentReview,
    /// Steps are separated so each holds only the access it needs.
    AccessSeparation,
    /// Distinct specialists handle distinct sub-problems.
    Specialist,
}

} // verus!
