//! Compiling definitions, and what they refer to.
use codypendent::number::Double;
use codypendent::text_map::TextMap;
use codypendent::workflow::agent::{
    validate_agent_profile, AgentBudget, AgentCompletion, AgentPermissions, AgentProfile,
    AgentProfileError,
};
use codypendent::workflow::compile::{
    compile, compile_with_registry, CompileError, CompiledWorkflow, NodeAction,
};
use codypendent::workflow::model::{
    AgentRef, ApprovalPolicy, OrchestrationReason, RetryPolicy, WorkflowBudget, WorkflowDefinition,
    WorkflowInput, WorkflowStep, WorkspaceMode, WorkspaceSpec,
};
use codypendent::workflow::registry::{SetRegistry, WorkflowRegistry};
use codypendent::workflow::resolve::{AgentProfileSet, AgentProfileSetError};
use codypendent::workflow::source::{
    Candidate, WorkflowScope, WorkflowSourceError, WorkflowSourceRegistry, REPAIR_GITHUB_CHECK_ID,
};

fn usd(value: f64) -> Double {
    Double {
        bits: value.to_bits(),
    }
}

fn owned(names: &[&str]) -> Vec<String> {
    names.iter().map(|n| (*n).to_owned()).collect()
}

fn agent_step(id: &str, depends_on: &[&str]) -> WorkflowStep {
    WorkflowStep {
        id: id.to_owned(),
        depends_on: owned(depends_on),
        agent: Some(AgentRef {
            role: "worker".to_owned(),
            model_policy: None,
        }),
        tool: None,
        skill: None,
        workspace: None,
        approval: None,
        retry: None,
        outputs: Vec::new(),
    }
}

fn tool_step(id: &str, depends_on: &[&str]) -> WorkflowStep {
    WorkflowStep {
        id: id.to_owned(),
        depends_on: owned(depends_on),
        agent: None,
        tool: Some("repository.test".to_owned()),
        skill: None,
        workspace: None,
        approval: None,
        retry: None,
        outputs: Vec::new(),
    }
}

fn definition(steps: Vec<WorkflowStep>) -> WorkflowDefinition {
    WorkflowDefinition {
        schema_version: 1,
        id: "wf".to_owned(),
        version: 1,
        description: None,
        inputs: TextMap::new(),
        budget: WorkflowBudget {
            maximum_cost_usd: Some(usd(1.0)),
            maximum_duration_seconds: Some(60),
            maximum_agents: Some(2),
        },
        steps,
        orchestration_reason: None,
    }
}

fn order(compiled: &CompiledWorkflow) -> Vec<&str> {
    compiled.nodes.iter().map(|n| n.id.as_str()).collect()
}

#[test]
fn compiles_a_linear_pipeline_in_topological_order() {
    let def = definition(vec![
        tool_step("c", &["b"]),
        tool_step("a", &[]),
        tool_step("b", &["a"]),
    ]);
    let compiled = compile(&def).unwrap();
    assert_eq!(order(&compiled), ["a", "b", "c"]);
    assert_eq!(compiled.node("a").unwrap().dependents, vec!["b"]);
    assert_eq!(compiled.node("c").unwrap().depends_on, vec!["b"]);
    assert_eq!(compiled.node("c").unwrap().topo_order, 2);
    assert!(compiled.node("ghost").is_none());
}

#[test]
fn rejects_a_cycle() {
    let def = definition(vec![tool_step("a", &["b"]), tool_step("b", &["a"])]);
    let err = compile(&def).unwrap_err();
    match err {
        CompileError::Cycle(nodes) => assert_eq!(nodes, vec!["a", "b"]),
        other => panic!("expected Cycle, got {other:?}"),
    }
}

#[test]
fn rejects_an_unknown_dependency() {
    let def = definition(vec![tool_step("a", &["ghost"])]);
    assert_eq!(
        compile(&def).unwrap_err(),
        CompileError::UnknownDependency {
            step: "a".to_owned(),
            depends_on: "ghost".to_owned(),
        }
    );
}

#[test]
fn rejects_a_self_dependency() {
    let def = definition(vec![tool_step("a", &["a"])]);
    assert_eq!(
        compile(&def).unwrap_err(),
        CompileError::SelfDependency("a".to_owned())
    );
}

#[test]
fn rejects_a_duplicate_step_id() {
    let def = definition(vec![tool_step("a", &[]), tool_step("a", &[])]);
    assert_eq!(
        compile(&def).unwrap_err(),
        CompileError::DuplicateStepId("a".to_owned())
    );
}

#[test]
fn rejects_a_step_with_no_action_or_two_actions() {
    let mut none = tool_step("a", &[]);
    none.tool = None;
    assert_eq!(
        compile(&definition(vec![none])).unwrap_err(),
        CompileError::StepMissingAction("a".to_owned())
    );

    let mut both = tool_step("a", &[]);
    both.agent = Some(AgentRef {
        role: "worker".to_owned(),
        model_policy: None,
    });
    assert_eq!(
        compile(&definition(vec![both])).unwrap_err(),
        CompileError::StepAmbiguousAction("a".to_owned())
    );
}

#[test]
fn rejects_a_skill_without_an_agent() {
    let mut step = tool_step("a", &[]);
    step.skill = Some("code.repair".to_owned());
    assert_eq!(
        compile(&definition(vec![step])).unwrap_err(),
        CompileError::SkillWithoutAgent("a".to_owned())
    );
}

#[test]
fn compile_rejects_an_unsupported_schema_version() {
    let mut def = definition(vec![tool_step("a", &[])]);
    def.schema_version = 99;
    assert_eq!(
        compile(&def).unwrap_err(),
        CompileError::UnsupportedSchemaVersion {
            found: 99,
            supported: 1,
        }
    );
}

#[test]
fn rejects_what_has_no_name_no_version_or_no_steps() {
    let mut def = definition(vec![tool_step("a", &[])]);
    def.id = "  ".to_owned();
    assert_eq!(compile(&def).unwrap_err(), CompileError::EmptyId);
    let mut def = definition(vec![tool_step("a", &[])]);
    def.version = 0;
    assert_eq!(compile(&def).unwrap_err(), CompileError::InvalidVersion(0));
    assert_eq!(
        compile(&definition(vec![])).unwrap_err(),
        CompileError::NoSteps
    );
    assert_eq!(
        compile(&definition(vec![tool_step(" ", &[])])).unwrap_err(),
        CompileError::EmptyStepId
    );
}

#[test]
fn requires_maximum_agents_when_there_are_agent_steps() {
    let mut def = definition(vec![agent_step("a", &[])]);
    def.budget.maximum_agents = None;
    assert!(matches!(
        compile(&def).unwrap_err(),
        CompileError::InvalidBudget(_)
    ));
}

#[test]
fn rejects_a_non_positive_cost_budget() {
    for value in [0.0, -1.0, f64::NAN, f64::INFINITY] {
        let mut def = definition(vec![tool_step("a", &[])]);
        def.budget.maximum_cost_usd = Some(usd(value));
        assert!(
            matches!(compile(&def).unwrap_err(), CompileError::InvalidBudget(_)),
            "{value}"
        );
    }
}

#[test]
fn multi_agent_workflow_requires_an_orchestration_reason() {
    let def = definition(vec![agent_step("a", &[]), agent_step("b", &["a"])]);
    assert_eq!(
        compile(&def).unwrap_err(),
        CompileError::MissingOrchestrationReason { agent_steps: 2 }
    );

    let mut ok = definition(vec![agent_step("a", &[]), agent_step("b", &["a"])]);
    ok.orchestration_reason = Some(OrchestrationReason::IndependentReview);
    assert!(compile(&ok).is_ok());
}

#[test]
fn single_agent_workflow_needs_no_orchestration_reason() {
    let def = definition(vec![agent_step("only", &[])]);
    assert!(compile(&def).is_ok());
}

#[test]
fn a_duplicate_dependency_edge_does_not_distort_ordering() {
    let mut b = tool_step("b", &["a"]);
    b.depends_on.push("a".to_owned());
    let def = definition(vec![tool_step("a", &[]), b]);
    let compiled = compile(&def).unwrap();
    assert_eq!(compiled.node("b").unwrap().depends_on, vec!["a"]);
    assert_eq!(order(&compiled), ["a", "b"]);
}

#[test]
fn carries_workspace_approval_and_retry_onto_the_node() {
    let mut step = agent_step("build", &[]);
    step.workspace = Some(WorkspaceSpec {
        mode: WorkspaceMode::IsolatedWorktree,
    });
    step.approval = Some(ApprovalPolicy::BeforeWrite);
    step.retry = Some(RetryPolicy {
        attempts: 3,
        backoff_seconds: 5,
    });
    let compiled = compile(&definition(vec![step])).unwrap();
    let node = compiled.node("build").unwrap();
    assert_eq!(node.workspace_mode, WorkspaceMode::IsolatedWorktree);
    assert_eq!(node.approval, Some(ApprovalPolicy::BeforeWrite));
    assert_eq!(node.retry.attempts, 3);
    let plain = compile(&definition(vec![tool_step("t", &[])])).unwrap();
    assert_eq!(plain.node("t").unwrap().retry, RetryPolicy::default());
}

#[test]
fn steps_that_are_free_at_once_come_in_declared_order() {
    let compiled = compile(&definition(vec![
        tool_step("z", &[]),
        tool_step("m", &["z"]),
        tool_step("a", &[]),
        tool_step("b", &["a", "z"]),
    ]))
    .unwrap();
    for (i, node) in compiled.nodes.iter().enumerate() {
        assert_eq!(node.topo_order, i);
        for dep in &node.depends_on {
            let before = compiled.node(dep).unwrap();
            assert!(before.topo_order < i);
            assert!(before.dependents.contains(&node.id));
        }
    }
}

#[test]
fn the_signature_hashes_the_shape() {
    let one = compile(&definition(vec![tool_step("a", &[]), tool_step("b", &["a"])])).unwrap();
    let same = compile(&definition(vec![tool_step("a", &[]), tool_step("b", &["a"])])).unwrap();
    let other = compile(&definition(vec![tool_step("a", &[]), tool_step("b", &[])])).unwrap();
    assert_eq!(one.signature(), same.signature());
    assert_ne!(one.signature(), other.signature());
    assert_eq!(one.signature().len(), 64);
    let digest = <sha2::Sha256 as sha2::Digest>::digest(one.shape());
    assert_eq!(one.signature(), hex::encode(digest));
    // What is no part of the graph does not count.
    let mut cheap = definition(vec![tool_step("a", &[]), tool_step("b", &["a"])]);
    cheap.budget.maximum_cost_usd = Some(usd(9.0));
    cheap.description = Some("another".to_owned());
    assert_eq!(compile(&cheap).unwrap().signature(), one.signature());
}

#[test]
fn set_registry_reports_membership() {
    let registry = SetRegistry::new()
        .with_tool("repository.test")
        .with_skill("code.repair")
        .with_agent_role("implementer");
    assert!(registry.has_tool("repository.test"));
    assert!(!registry.has_tool("code.repair"));
    assert!(registry.has_skill("code.repair"));
    assert!(registry.has_agent_role("implementer"));
    assert!(!registry.has_agent_role("ghost"));
}

#[test]
fn borrowed_registry_defers_to_the_owner() {
    let owned = SetRegistry::new().with_tool("t");
    let borrowed = &owned;
    assert!(WorkflowRegistry::has_tool(&borrowed, "t"));
}

#[test]
fn names_are_added_in_bulk() {
    let mut registry = SetRegistry::default();
    registry.add_tools(owned(&["b", "a", "b"]));
    registry.add_skills(owned(&["s"]));
    registry.add_agent_roles(owned(&["r"]));
    assert!(registry.has_tool("a") && registry.has_tool("b"));
    assert!(!registry.has_tool("s"));
    assert!(registry.has_skill("s") && registry.has_agent_role("r"));
}

fn repair(version: u32, agents: u32) -> WorkflowDefinition {
    let mut inputs = TextMap::new();
    inputs.insert(
        "pull_request".to_owned(),
        WorkflowInput {
            input_type: "github_pull_request".to_owned(),
            required: true,
        },
    );
    let role = |name: &str| {
        Some(AgentRef {
            role: name.to_owned(),
            model_policy: None,
        })
    };
    let mut inspect = agent_step("inspect", &[]);
    inspect.agent = role("investigator");
    inspect.skill = Some("github.inspect-failed-check".to_owned());
    let mut patch = agent_step("patch", &["inspect"]);
    patch.agent = role("implementer");
    patch.skill = Some("code.repair".to_owned());
    patch.workspace = Some(WorkspaceSpec {
        mode: WorkspaceMode::IsolatedWorktree,
    });
    patch.approval = Some(ApprovalPolicy::BeforeWrite);
    let mut verify = tool_step("verify", &["patch"]);
    verify.retry = Some(RetryPolicy {
        attempts: 2,
        backoff_seconds: 5,
    });
    let mut review = agent_step("review", &["verify"]);
    review.agent = role("auditor");
    let mut publish = tool_step("publish", &["review"]);
    publish.tool = Some("github.update-pull-request".to_owned());
    publish.approval = Some(ApprovalPolicy::Always);
    WorkflowDefinition {
        schema_version: 1,
        id: REPAIR_GITHUB_CHECK_ID.to_owned(),
        version,
        description: None,
        inputs,
        budget: WorkflowBudget {
            maximum_cost_usd: Some(usd(5.0)),
            maximum_duration_seconds: Some(3600),
            maximum_agents: Some(agents),
        },
        steps: vec![inspect, patch, verify, review, publish],
        orchestration_reason: Some(OrchestrationReason::IndependentReview),
    }
}

fn repair_github_check_registry() -> SetRegistry {
    SetRegistry::new()
        .with_agent_role("investigator")
        .with_agent_role("implementer")
        .with_agent_role("auditor")
        .with_skill("github.inspect-failed-check")
        .with_skill("code.repair")
        .with_tool("repository.test")
        .with_tool("github.update-pull-request")
}

#[test]
fn the_canonical_manifest_compiles() {
    let workflow = compile(&repair(1, 2)).expect("the canonical manifest must compile");

    assert_eq!(workflow.id, "repair-github-check");
    assert_eq!(workflow.version, 1);
    assert_eq!(
        workflow.orchestration_reason,
        Some(OrchestrationReason::IndependentReview)
    );
    let input = workflow
        .inputs
        .get("pull_request")
        .expect("pull_request input");
    assert_eq!(input.input_type, "github_pull_request");
    assert!(input.required);
    assert_eq!(workflow.budget.maximum_agents, Some(2));
    assert_eq!(
        order(&workflow),
        ["inspect", "patch", "verify", "review", "publish"]
    );
    assert_eq!(workflow.agent_node_count(), 3);
    match &workflow.node("inspect").unwrap().action {
        NodeAction::Agent { role, skill, .. } => {
            assert_eq!(role, "investigator");
            assert_eq!(skill.as_deref(), Some("github.inspect-failed-check"));
        }
        other => panic!("expected an agent action, got {other:?}"),
    }
    let patch = workflow.node("patch").unwrap();
    assert_eq!(patch.workspace_mode, WorkspaceMode::IsolatedWorktree);
    assert_eq!(patch.approval, Some(ApprovalPolicy::BeforeWrite));
    assert_eq!(patch.depends_on, vec!["inspect"]);
    let verify = workflow.node("verify").unwrap();
    assert!(matches!(&verify.action, NodeAction::Tool { name } if name == "repository.test"));
    assert_eq!(verify.retry.attempts, 2);
    assert_eq!(verify.retry.backoff_seconds, 5);
    let publish = workflow.node("publish").unwrap();
    assert_eq!(publish.approval, Some(ApprovalPolicy::Always));
    assert!(publish.dependents.is_empty());
}

#[test]
fn the_canonical_manifest_cross_checks_against_a_matching_registry() {
    let registry = repair_github_check_registry();
    let workflow = compile_with_registry(&repair(1, 2), &registry)
        .expect("the canonical manifest must cross-check against its registry");
    assert_eq!(workflow.id, "repair-github-check");
}

#[test]
fn a_missing_skill_fails_the_cross_check() {
    let registry = SetRegistry::new()
        .with_agent_role("investigator")
        .with_agent_role("implementer")
        .with_agent_role("auditor")
        .with_skill("github.inspect-failed-check")
        .with_tool("repository.test")
        .with_tool("github.update-pull-request");
    match compile_with_registry(&repair(1, 2), &registry).unwrap_err() {
        CompileError::UnknownSkill { step, skill } => {
            assert_eq!(step, "patch");
            assert_eq!(skill, "code.repair");
        }
        other => panic!("expected an UnknownSkill compile error, got {other:?}"),
    }
}

#[test]
fn a_missing_tool_fails_the_cross_check() {
    let registry = SetRegistry::new()
        .with_agent_role("investigator")
        .with_agent_role("implementer")
        .with_agent_role("auditor")
        .with_skill("github.inspect-failed-check")
        .with_skill("code.repair");
    match compile_with_registry(&repair(1, 2), &registry).unwrap_err() {
        CompileError::UnknownTool { step, tool } => {
            assert_eq!(step, "verify");
            assert_eq!(tool, "repository.test");
        }
        other => panic!("expected an UnknownTool compile error, got {other:?}"),
    }
}

#[test]
fn a_missing_role_fails_the_cross_check() {
    let registry = SetRegistry::new();
    assert_eq!(
        compile_with_registry(&repair(1, 2), &registry).unwrap_err(),
        CompileError::UnknownAgentRole {
            step: "inspect".to_owned(),
            role: "investigator".to_owned(),
        }
    );
}

fn profile(schema_version: u32, id: &str, role: Option<&str>) -> AgentProfile {
    AgentProfile {
        schema_version,
        id: id.to_owned(),
        name: id.to_owned(),
        description: None,
        role: role.map(str::to_owned),
        scope: None,
        mode: Some("build".to_owned()),
        autonomy: None,
        model_policy: None,
        skills: owned(&["code.implement"]),
        tools: owned(&["workspace.apply_patch"]),
        permissions: AgentPermissions {
            filesystem_read: vec![],
            filesystem_write: owned(&["$WORKTREE"]),
            commands: owned(&["cargo"]),
            network: vec![],
            delegate_agents: false,
        },
        budget: AgentBudget {
            maximum_cost_usd: None,
            maximum_duration_seconds: None,
            maximum_tool_calls: Some(80),
        },
        completion: AgentCompletion {
            requires_all: owned(&["targeted-tests-pass"]),
        },
    }
}

#[test]
fn fulfilled_role_defaults_to_the_last_dotted_id_segment() {
    let profile = validate_agent_profile(profile(1, "code.implementer", None)).unwrap();
    assert_eq!(profile.role, None);
    assert_eq!(profile.fulfilled_role(), "implementer");
    assert_eq!(profile.budget.maximum_tool_calls, Some(80));
}

#[test]
fn an_explicit_role_overrides_the_id_suffix() {
    let named = validate_agent_profile(profile(1, "code.impl", Some("implementer"))).unwrap();
    assert_eq!(named.fulfilled_role(), "implementer");
    let dotless = validate_agent_profile(profile(1, "auditor", None)).unwrap();
    assert_eq!(dotless.fulfilled_role(), "auditor");
}

#[test]
fn agent_rejects_an_unsupported_schema_version() {
    assert!(matches!(
        validate_agent_profile(profile(99, "a", None)),
        Err(AgentProfileError::UnsupportedSchemaVersion { found: 99, .. })
    ));
}

#[test]
fn rejects_an_empty_id() {
    assert!(matches!(
        validate_agent_profile(profile(1, "", None)),
        Err(AgentProfileError::EmptyId)
    ));
}

#[test]
fn two_profiles_for_one_role_is_ambiguous() {
    let mut set = AgentProfileSet::new();
    assert!(set.is_empty());
    set.insert(profile(1, "code.auditor", None)).unwrap();
    match set.insert(profile(1, "security.auditor", None)) {
        Err(AgentProfileSetError::AmbiguousRole { role, .. }) => assert_eq!(role, "auditor"),
        other => panic!("expected an ambiguous-role error, got {other:?}"),
    }
    assert_eq!(set.len(), 1);
    assert_eq!(set.resolve("auditor").unwrap().id, "code.auditor");
}

#[test]
fn a_profile_set_has_as_many_profiles_as_roles() {
    let mut set = AgentProfileSet::default();
    assert_eq!(set.len(), 0);
    assert!(set.is_empty());
    for (k, id) in ["z.one", "a.two", "m.three"].into_iter().enumerate() {
        set.insert(profile(1, id, None)).unwrap();
        assert_eq!(set.len(), k + 1);
        assert_eq!(set.roles().len(), set.len());
        assert!(!set.is_empty());
    }
    assert!(set.insert(profile(1, "other.two", None)).is_err());
    assert_eq!(set.len(), 3);
}

#[test]
fn load_dir_indexes_profiles_by_fulfilled_role() {
    let mut set = AgentProfileSet::new();
    set.insert(profile(1, "code.implementer", None)).unwrap();
    set.insert(profile(1, "agents.scout", Some("investigator")))
        .unwrap();
    assert_eq!(set.len(), 2);
    assert!(set.has_role("implementer"));
    assert_eq!(set.resolve("implementer").unwrap().id, "code.implementer");
    assert_eq!(set.resolve("investigator").unwrap().id, "agents.scout");
    assert!(!set.has_role("auditor"));
    assert_eq!(set.roles(), ["implementer", "investigator"]);
}

#[test]
fn unresolved_roles_lists_agent_steps_without_a_profile() {
    let mut inspect = agent_step("inspect", &[]);
    inspect.agent = Some(AgentRef {
        role: "investigator".to_owned(),
        model_policy: None,
    });
    let mut patch = agent_step("patch", &["inspect"]);
    patch.agent = Some(AgentRef {
        role: "implementer".to_owned(),
        model_policy: None,
    });
    let mut def = definition(vec![inspect, patch, tool_step("verify", &["patch"])]);
    def.orchestration_reason = Some(OrchestrationReason::IndependentReview);
    let compiled = compile(&def).unwrap();

    let mut set = AgentProfileSet::new();
    set.insert(profile(1, "code.implementer", None)).unwrap();
    let unresolved = set.unresolved_roles(&compiled);
    assert_eq!(unresolved.len(), 1);
    assert_eq!(unresolved[0].step, "inspect");
    assert_eq!(unresolved[0].role, "investigator");

    set.insert(profile(1, "agents.investigator", None)).unwrap();
    assert!(set.unresolved_roles(&compiled).is_empty());
}

fn candidate(scope: WorkflowScope, source: &str, version: u32, agents: u32) -> Candidate {
    Candidate {
        scope,
        source: source.to_owned(),
        definition: repair(version, agents),
        raw: format!("{source} v{version}"),
    }
}

fn built_in() -> Candidate {
    candidate(WorkflowScope::BuiltIn, "<built-in>", 1, 2)
}

#[test]
fn an_unknown_workflow_is_a_legible_error() {
    let registry = WorkflowSourceRegistry::new(vec![built_in()]);
    let error = registry.resolve("no-such-workflow").unwrap_err();
    assert_eq!(error.code(), "workflow.unknown-workflow");
    assert!(error.message().contains("no-such-workflow"));
}

#[test]
fn a_same_version_content_change_is_a_collision() {
    let changed = candidate(WorkflowScope::Repository, "repair.yaml", 1, 3);
    let registry = WorkflowSourceRegistry::new(vec![built_in(), changed]);
    let error = registry.resolve(REPAIR_GITHUB_CHECK_ID).unwrap_err();
    assert_eq!(error.code(), "workflow.version-collision");
    match error {
        WorkflowSourceError::VersionCollision { id, version, .. } => {
            assert_eq!(id, REPAIR_GITHUB_CHECK_ID);
            assert_eq!(version, 1);
        }
        other => panic!("expected a version collision, got {other:?}"),
    }
}

#[test]
fn an_identical_redeclaration_is_not_a_collision() {
    let copy = candidate(WorkflowScope::Repository, "repair.yaml", 1, 2);
    let registry = WorkflowSourceRegistry::new(vec![built_in(), copy]);
    assert_eq!(
        registry.resolve(REPAIR_GITHUB_CHECK_ID),
        Ok("repair.yaml v1")
    );
}

#[test]
fn a_repository_file_shadows_the_built_in_by_bumping_the_version() {
    let shadow = candidate(WorkflowScope::Repository, "repair.yaml", 2, 2);
    let registry = WorkflowSourceRegistry::new(vec![built_in(), shadow]);
    assert_eq!(
        registry.resolve(REPAIR_GITHUB_CHECK_ID),
        Ok("repair.yaml v2")
    );
}

#[test]
fn repository_scope_outranks_the_user_directory() {
    let registry = WorkflowSourceRegistry::new(vec![
        built_in(),
        candidate(WorkflowScope::User, "user.yaml", 2, 2),
        candidate(WorkflowScope::Repository, "repo.yaml", 3, 2),
    ]);
    assert_eq!(registry.resolve(REPAIR_GITHUB_CHECK_ID), Ok("repo.yaml v3"));
}

#[test]
fn broken_or_missing_sources_fall_back_to_the_built_in() {
    let registry = WorkflowSourceRegistry::new(vec![built_in()]);
    assert_eq!(
        registry.resolve(REPAIR_GITHUB_CHECK_ID),
        Ok("<built-in> v1")
    );
}

#[test]
fn the_order_of_dependencies_does_not_count() {
    let steps = |last: &[&str]| vec![tool_step("a", &[]), tool_step("b", &[]), tool_step("c", last)];
    let one = compile(&definition(steps(&["a", "b"]))).unwrap();
    let other = compile(&definition(steps(&["b", "a", "b"]))).unwrap();
    assert_eq!(one.signature(), other.signature());
    assert_eq!(other.nodes[2].depends_on, owned(&["b", "a"]));
    assert!(one
        .signature()
        .chars()
        .all(|c| c.is_ascii_digit() || ('a'..='f').contains(&c)));
    let fewer = compile(&definition(steps(&["a"]))).unwrap();
    assert_ne!(one.signature(), fewer.signature());
}
