//! Errors in words.
use crate::text::{concat2, concat3, decimal_text, join};
use crate::workflow::agent::AgentProfileError;
use crate::workflow::blackboard::{BlackboardError, BoardFault};
use crate::workflow::compile::{CompileError, CompileFault};
use crate::workflow::conductor::{ConductorError, ConductorFault, WorkflowError, WorkflowFault};
use crate::workflow::resolve::AgentProfileSetError;
use vstd::prelude::*;

verus! {

/// Why a definition does not compile.
pub open spec fn compile_message(fault: CompileFault) -> Seq<char> {
    match fault {
        CompileFault::UnsupportedSchemaVersion { found, supported } => "unsupported schema_version "@
            + crate::text::decimal(found as nat) + " (this build supports "@
            + crate::text::decimal(supported as nat) + ")"@,
        CompileFault::EmptyId => "workflow id must not be empty"@,
        CompileFault::InvalidVersion(v) => "workflow version must be >= 1, got "@
            + crate::text::decimal(v as nat),
        CompileFault::NoSteps => "workflow has no steps"@,
        CompileFault::EmptyStepId => "a step has an empty id"@,
        CompileFault::DuplicateStepId(s) => "duplicate step id: "@ + s,
        CompileFault::StepMissingAction(s) => "step "@ + s
            + " has no action (needs exactly one of `agent` or `tool`)"@,
        CompileFault::StepAmbiguousAction(s) => "step "@ + s
            + " has both `agent` and `tool` (a step performs exactly one action)"@,
        CompileFault::SkillWithoutAgent(s) => "step "@ + s
            + " declares a `skill` but has no `agent` to apply it"@,
        CompileFault::SelfDependency(s) => "step "@ + s + " depends on itself"@,
        CompileFault::UnknownDependency { step, depends_on } => "step "@ + step
            + " depends on unknown step "@ + depends_on,
        CompileFault::Cycle(steps) => "workflow dependency graph has a cycle among: "@
            + crate::text::joined(steps, ", "@),
        CompileFault::InvalidBudget(why) => "invalid budget: "@ + why,
        CompileFault::MissingOrchestrationReason { agent_steps } => "a multi-agent workflow ("@
            + crate::text::decimal(agent_steps as nat)
            + " agent steps) must declare an `orchestration_reason`"@,
        CompileFault::UnknownTool { step, tool } => "step "@ + step + " names unknown tool "@ + tool,
        CompileFault::UnknownSkill { step, skill } => "step "@ + step + " names unknown skill "@
            + skill,
        CompileFault::UnknownAgentRole { step, role } => "step "@ + step
            + " names unknown agent role "@ + role,
    }
}

impl CompileError {
    /// The error in words.
    pub fn message(&self) -> (r: String)
        ensures
            r@ == compile_message(self@),
    {
        match self {
            CompileError::UnsupportedSchemaVersion { found, supported } => {
                let mut out: String = concat3(
                    "unsupported schema_version ",
                    &decimal_text(*found as u64),
                    " (this build supports ",
                );
                out.append(&decimal_text(*supported as u64));
                out.append(")");
                out
            },
            CompileError::EmptyId => "workflow id must not be empty".to_owned(),
            CompileError::InvalidVersion(v) => concat2(
                "workflow version must be >= 1, got ",
                &decimal_text(*v as u64),
            ),
            CompileError::NoSteps => "workflow has no steps".to_owned(),
            CompileError::EmptyStepId => "a step has an empty id".to_owned(),
            CompileError::DuplicateStepId(s) => concat2("duplicate step id: ", s),
            CompileError::StepMissingAction(s) => concat3(
                "step ",
                s,
                " has no action (needs exactly one of `agent` or `tool`)",
            ),
            CompileError::StepAmbiguousAction(s) => concat3(
                "step ",
                s,
                " has both `agent` and `tool` (a step performs exactly one action)",
            ),
            CompileError::SkillWithoutAgent(s) => concat3(
                "step ",
                s,
                " declares a `skill` but has no `agent` to apply it",
            ),
            CompileError::SelfDependency(s) => concat3("step ", s, " depends on itself"),
            CompileError::UnknownDependency { step, depends_on } => {
                let mut out: String = concat3("step ", step, " depends on unknown step ");
                out.append(depends_on);
                out
            },
            CompileError::Cycle(steps) => concat2(
                "workflow dependency graph has a cycle among: ",
                &join(steps, ", "),
            ),
            CompileError::InvalidBudget(why) => concat2("invalid budget: ", why),
            CompileError::MissingOrchestrationReason { agent_steps } => concat3(
                "a multi-agent workflow (",
                &decimal_text(*agent_steps as u64),
                " agent steps) must declare an `orchestration_reason`",
            ),
            CompileError::UnknownTool { step, tool } => {
                let mut out: String = concat3("step ", step, " names unknown tool ");
                out.append(tool);
                out
            },
            CompileError::UnknownSkill { step, skill } => {
                let mut out: String = concat3("step ", step, " names unknown skill ");
                out.append(skill);
                out
            },
            CompileError::UnknownAgentRole { step, role } => {
                let mut out: String = concat3("step ", step, " names unknown agent role ");
                out.append(role);
                out
            },
        }
    }
}

impl AgentProfileError {
    /// The error in words.
    pub fn message(&self) -> (r: String)
        ensures
            r@ == match *self {
                AgentProfileError::UnsupportedSchemaVersion { found, supported } =>
                    "unsupported agent schema_version "@ + crate::text::decimal(found as nat)
                        + " (this build supports "@ + crate::text::decimal(supported as nat) + ")"@,
                AgentProfileError::EmptyId => "agent profile id must not be empty"@,
            },
    {
        match self {
            AgentProfileError::UnsupportedSchemaVersion { found, supported } => {
                let mut out: String = concat3(
                    "unsupported agent schema_version ",
                    &decimal_text(*found as u64),
                    " (this build supports ",
                );
                out.append(&decimal_text(*supported as u64));
                out.append(")");
                out
            },
            AgentProfileError::EmptyId => "agent profile id must not be empty".to_owned(),
        }
    }
}

impl AgentProfileSetError {
    /// The error in words.
    pub fn message(&self) -> (r: String)
        ensures
            r@ == match *self {
                AgentProfileSetError::AmbiguousRole { role, first, second } => "agent role `"@
                    + role@ + "` is fulfilled by two profiles ("@ + first@ + " and "@ + second@
                    + "); a role must resolve to exactly one profile"@,
            },
    {
        match self {
            AgentProfileSetError::AmbiguousRole { role, first, second } => {
                let mut out: String = concat3(
                    "agent role `",
                    role,
                    "` is fulfilled by two profiles (",
                );
                out.append(first);
                out.append(" and ");
                out.append(second);
                out.append("); a role must resolve to exactly one profile");
                out
            },
        }
    }
}

impl BlackboardError {
    /// The error in words.
    pub fn message(&self) -> (r: String)
        ensures
            r@ == match self@ {
                BoardFault::Database(s) => s,
                BoardFault::Serde(s) => s,
                BoardFault::EvidenceRequired(kind) => "a "@ + kind
                    + " must carry at least one evidence reference"@,
                BoardFault::NotFound(s) => "no such blackboard item: "@ + s,
                BoardFault::AlreadySuperseded(s) => "blackboard item "@ + s
                    + " has already been superseded"@,
            },
    {
        match self {
            BlackboardError::Database(s) => s.clone(),
            BlackboardError::Serde(s) => s.clone(),
            BlackboardError::EvidenceRequired(kind) => concat3(
                "a ",
                kind,
                " must carry at least one evidence reference",
            ),
            BlackboardError::NotFound(s) => concat2("no such blackboard item: ", s),
            BlackboardError::AlreadySuperseded(s) => concat3(
                "blackboard item ",
                s,
                " has already been superseded",
            ),
        }
    }
}

/// Why a text is not turned into a graph.
pub open spec fn workflow_message(fault: WorkflowFault) -> Seq<char> {
    match fault {
        WorkflowFault::Parse(why) => "invalid workflow manifest: "@ + why,
        WorkflowFault::Compile(e) => compile_message(e),
    }
}

impl WorkflowError {
    /// The error in words.
    pub fn message(&self) -> (r: String)
        ensures
            r@ == workflow_message(self@),
    {
        match self {
            WorkflowError::Parse(why) => concat2("invalid workflow manifest: ", why),
            WorkflowError::Compile(e) => e.message(),
        }
    }
}

impl ConductorError {
    /// The error in words.
    pub fn message(&self) -> (r: String)
        ensures
            r@ == match self@ {
                ConductorFault::Store(e) => crate::workflow::store::store_message(e),
                ConductorFault::NoManifest(s) => "workflow run "@ + s
                    + " has no stored manifest to recompile"@,
                ConductorFault::Compile(e) => "stored workflow manifest no longer compiles: "@
                    + workflow_message(e),
                ConductorFault::NotFound(s) => "no such workflow run: "@ + s,
                ConductorFault::IllegalTransition { action, state } => "workflow run cannot be "@
                    + action + ": it is "@ + state,
            },
    {
        match self {
            ConductorError::Store(e) => e.message(),
            ConductorError::NoManifest(s) => concat3(
                "workflow run ",
                s,
                " has no stored manifest to recompile",
            ),
            ConductorError::Compile(e) => concat2(
                "stored workflow manifest no longer compiles: ",
                &e.message(),
            ),
            ConductorError::NotFound(s) => concat2("no such workflow run: ", s),
            ConductorError::IllegalTransition { action, state } => {
                let mut out: String = concat3("workflow run cannot be ", action, ": it is ");
                out.append(state);
                out
            },
        }
    }
}

} // verus!
