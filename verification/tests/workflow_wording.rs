//! Errors in words.
use codypendent::workflow::agent::AgentProfileError;
use codypendent::workflow::blackboard::BlackboardError;
use codypendent::workflow::compile::CompileError;
use codypendent::workflow::conductor::{ConductorError, WorkflowError};
use codypendent::workflow::resolve::AgentProfileSetError;
use codypendent::workflow::store::WorkflowStoreError;

fn s(text: &str) -> String {
    text.to_owned()
}

#[test]
fn compile_errors_are_worded() {
    let cases = [
        (
            CompileError::UnsupportedSchemaVersion {
                found: 99,
                supported: 1,
            },
            "unsupported schema_version 99 (this build supports 1)",
        ),
        (CompileError::EmptyId, "workflow id must not be empty"),
        (
            CompileError::InvalidVersion(0),
            "workflow version must be >= 1, got 0",
        ),
        (CompileError::NoSteps, "workflow has no steps"),
        (CompileError::EmptyStepId, "a step has an empty id"),
        (
            CompileError::DuplicateStepId(s("a")),
            "duplicate step id: a",
        ),
        (
            CompileError::StepMissingAction(s("a")),
            "step a has no action (needs exactly one of `agent` or `tool`)",
        ),
        (
            CompileError::StepAmbiguousAction(s("a")),
            "step a has both `agent` and `tool` (a step performs exactly one action)",
        ),
        (
            CompileError::SkillWithoutAgent(s("a")),
            "step a declares a `skill` but has no `agent` to apply it",
        ),
        (
            CompileError::SelfDependency(s("a")),
            "step a depends on itself",
        ),
        (
            CompileError::UnknownDependency {
                step: s("a"),
                depends_on: s("b"),
            },
            "step a depends on unknown step b",
        ),
        (
            CompileError::Cycle(vec![s("a"), s("b")]),
            "workflow dependency graph has a cycle among: a, b",
        ),
        (
            CompileError::InvalidBudget("too low"),
            "invalid budget: too low",
        ),
        (
            CompileError::MissingOrchestrationReason { agent_steps: 2 },
            "a multi-agent workflow (2 agent steps) must declare an `orchestration_reason`",
        ),
        (
            CompileError::UnknownTool {
                step: s("a"),
                tool: s("t"),
            },
            "step a names unknown tool t",
        ),
        (
            CompileError::UnknownSkill {
                step: s("a"),
                skill: s("k"),
            },
            "step a names unknown skill k",
        ),
        (
            CompileError::UnknownAgentRole {
                step: s("a"),
                role: s("r"),
            },
            "step a names unknown agent role r",
        ),
    ];
    for (error, words) in cases {
        assert_eq!(error.message(), words);
    }
}

#[test]
fn profile_errors_are_worded() {
    assert_eq!(
        AgentProfileError::UnsupportedSchemaVersion {
            found: 2,
            supported: 1
        }
        .message(),
        "unsupported agent schema_version 2 (this build supports 1)"
    );
    assert_eq!(
        AgentProfileError::EmptyId.message(),
        "agent profile id must not be empty"
    );
    let twice = AgentProfileSetError::AmbiguousRole {
        role: s("r"),
        first: s("a.r"),
        second: s("b.r"),
    };
    assert_eq!(
        twice.message(),
        "agent role `r` is fulfilled by two profiles (a.r and b.r); \
         a role must resolve to exactly one profile"
    );
}

#[test]
fn blackboard_errors_are_worded() {
    assert_eq!(
        BlackboardError::EvidenceRequired("finding").message(),
        "a finding must carry at least one evidence reference"
    );
    assert_eq!(
        BlackboardError::NotFound(s("i")).message(),
        "no such blackboard item: i"
    );
    assert_eq!(
        BlackboardError::AlreadySuperseded(s("i")).message(),
        "blackboard item i has already been superseded"
    );
    assert_eq!(BlackboardError::Database(s("full")).message(), "full");
    assert_eq!(BlackboardError::Serde(s("bad json")).message(), "bad json");
}

#[test]
fn conductor_errors_are_worded() {
    assert_eq!(
        ConductorError::NoManifest(s("r")).message(),
        "workflow run r has no stored manifest to recompile"
    );
    assert_eq!(
        ConductorError::NotFound(s("r")).message(),
        "no such workflow run: r"
    );
    assert_eq!(
        ConductorError::IllegalTransition {
            action: "paused",
            state: "completed"
        }
        .message(),
        "workflow run cannot be paused: it is completed"
    );
    assert_eq!(
        ConductorError::Store(WorkflowStoreError::Serde(s("bad json"))).message(),
        "bad json"
    );
    assert_eq!(
        ConductorError::Store(WorkflowStoreError::Database(s("locked"))).message(),
        "locked"
    );
    assert_eq!(
        ConductorError::Compile(WorkflowError::Parse(s("bad indent"))).message(),
        "stored workflow manifest no longer compiles: invalid workflow manifest: bad indent"
    );
    assert_eq!(
        WorkflowError::Compile(CompileError::NoSteps).message(),
        "workflow has no steps"
    );
}
