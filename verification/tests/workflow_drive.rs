//! Driving, recovering and controlling runs over a table in memory.
use codypendent::number::Double;
use codypendent::text_map::TextMap;
use codypendent::workflow::budget::{BudgetDimension, BudgetScope, BudgetWarning};
use codypendent::workflow::compile::{compile, CompileError, CompiledNode, CompiledWorkflow};
use codypendent::workflow::conductor::{
    recovers, recovery_outcome, report_of, ConductorError, RecoveryOutcome, RecoveryReport,
    WorkflowConductor, WorkflowError,
};
use codypendent::workflow::drive::{
    DriveAction, DriveEvent, DrivePhase, NodeOutcome, NodeTransition, ResetKind, WorkflowDriver,
};
use codypendent::workflow::json::{JsonNumber, JsonValue};
use codypendent::workflow::model::{
    RetryPolicy, WorkflowBudget, WorkflowDefinition, WorkflowStep,
};
use codypendent::workflow::store::{
    NodeState, RunTable, WorkflowNodeRecord, WorkflowRunState, WorkflowStore, WorkflowStoreError,
};

struct Step {
    id: &'static str,
    depends_on: &'static [&'static str],
    attempts: u32,
    backoff: u64,
}

fn step(id: &'static str, depends_on: &'static [&'static str], attempts: u32) -> Step {
    Step {
        id,
        depends_on,
        attempts,
        backoff: 0,
    }
}

fn graph(id: &str, steps: Vec<Step>) -> CompiledWorkflow {
    let steps = steps
        .into_iter()
        .map(|s| WorkflowStep {
            id: s.id.to_owned(),
            depends_on: s.depends_on.iter().map(|d| (*d).to_owned()).collect(),
            agent: None,
            tool: Some("repository.test".to_owned()),
            skill: None,
            workspace: None,
            approval: None,
            retry: Some(RetryPolicy {
                attempts: s.attempts,
                backoff_seconds: s.backoff,
            }),
            outputs: Vec::new(),
        })
        .collect();
    compile(&WorkflowDefinition {
        schema_version: 1,
        id: id.to_owned(),
        version: 1,
        description: None,
        inputs: TextMap::new(),
        budget: WorkflowBudget {
            maximum_cost_usd: Some(Double {
                bits: 5.0f64.to_bits(),
            }),
            maximum_duration_seconds: None,
            maximum_agents: None,
        },
        steps,
        orchestration_reason: None,
    })
    .unwrap()
}

fn linear() -> CompiledWorkflow {
    graph(
        "linear",
        vec![step("a", &[], 1), step("b", &["a"], 1), step("c", &["b"], 1)],
    )
}

fn diamond() -> CompiledWorkflow {
    graph(
        "diamond",
        vec![
            step("a", &[], 1),
            step("b", &["a"], 1),
            step("c", &["a"], 1),
            step("d", &["b", "c"], 1),
        ],
    )
}

fn empty_object() -> JsonValue {
    JsonValue::Object(Vec::new())
}

fn usd(text: &str) -> JsonValue {
    JsonValue::Object(vec![(
        "usd".to_owned(),
        JsonValue::Number(JsonNumber::Real(text.to_owned())),
    )])
}

fn empty_table() -> RunTable {
    RunTable { runs: Vec::new() }
}

fn create(table: &mut RunTable, compiled: &CompiledWorkflow, manifest: Option<&str>) -> String {
    WorkflowStore::new()
        .create_run(
            table,
            compiled,
            None,
            empty_object(),
            manifest.map(str::to_owned),
        )
        .unwrap()
}

fn node(table: &RunTable, run: &str, id: &str) -> WorkflowNodeRecord {
    let store = WorkflowStore::new();
    let snapshot = store.snapshot(table, run).unwrap();
    snapshot
        .nodes
        .iter()
        .find(|n| n.node_id == id)
        .unwrap()
        .clone()
}

fn run_state(table: &RunTable, run: &str) -> WorkflowRunState {
    WorkflowStore::new().snapshot(table, run).unwrap().run.state
}

fn all_completed(table: &RunTable, run: &str) -> bool {
    let store = WorkflowStore::new();
    let snapshot = store.snapshot(table, run).unwrap();
    snapshot.nodes.iter().all(|n| n.state == NodeState::Completed)
}

/// Scripted outcomes per node and attempt; a node or attempt without one completes. A run
/// may be paused as a chosen node's work ends.
#[derive(Default)]
struct Script {
    outcomes: Vec<(String, Vec<NodeOutcome>)>,
    pause_after: Option<String>,
    calls: Vec<String>,
}

impl Script {
    fn with(mut self, node: &str, outcomes: Vec<NodeOutcome>) -> Self {
        self.outcomes.push((node.to_owned(), outcomes));
        self
    }

    fn pausing_after(node: &str) -> Self {
        Script {
            pause_after: Some(node.to_owned()),
            ..Script::default()
        }
    }

    fn calls_for(&self, node: &str) -> usize {
        self.calls.iter().filter(|id| *id == node).count()
    }

    fn ran(&self, node: &str) -> bool {
        self.calls_for(node) > 0
    }

    fn execute(
        &mut self,
        table: &mut RunTable,
        run: &str,
        node: &CompiledNode,
        attempt: u32,
    ) -> NodeOutcome {
        self.calls.push(node.id.clone());
        if self.pause_after.as_deref() == Some(node.id.as_str()) {
            WorkflowStore::new()
                .set_run_state(table, run, WorkflowRunState::Paused)
                .unwrap();
        }
        self.outcomes
            .iter()
            .find(|(id, _)| *id == node.id)
            .and_then(|(_, list)| list.get((attempt - 1) as usize).cloned())
            .unwrap_or_else(NodeOutcome::completed)
    }
}

#[derive(Default)]
struct Seen {
    transitions: Vec<(String, NodeState, u32)>,
    warnings: Vec<(String, BudgetWarning, u32)>,
    attempt_failures: Vec<(String, u32, String)>,
    recovery_resets: Vec<(String, u32)>,
    waits: Vec<u64>,
}

fn drive_observed(
    table: &mut RunTable,
    run: &str,
    compiled: &CompiledWorkflow,
    script: &mut Script,
    seen: &mut Seen,
) -> Result<WorkflowRunState, WorkflowStoreError> {
    let store = WorkflowStore::new();
    let driver = WorkflowDriver::new();
    let mut drive = driver.begin();
    let mut action = DriveAction::Load;
    for _ in 0..1000 {
        let event = match action {
            DriveAction::Load => DriveEvent::Loaded(store.snapshot(table, run).cloned()),
            DriveAction::Reset(resets) => {
                for reset in &resets {
                    match reset.kind {
                        ResetKind::Interrupted => {
                            store.reset_interrupted_node(table, run, &reset.node_id, reset.attempt)
                        }
                        ResetKind::Blocked => store.reset_blocked_node(table, run, &reset.node_id),
                    }
                    seen.recovery_resets
                        .push((reset.node_id.clone(), reset.attempt));
                }
                DriveEvent::Done
            }
            DriveAction::SetRunState { allowed, to } => {
                DriveEvent::Affected(store.set_run_state_if_legal(table, run, &allowed, to) > 0)
            }
            DriveAction::Record {
                transition,
                agent_run_id,
            } => {
                store.transition_node_with_error(
                    table,
                    run,
                    &transition.node_id,
                    transition.state,
                    transition.attempt,
                    agent_run_id,
                    transition.cost.clone(),
                    transition.error.clone(),
                )?;
                seen.transitions.push((
                    transition.node_id.clone(),
                    transition.state,
                    transition.attempt,
                ));
                for warning in &transition.warnings {
                    seen.warnings.push((
                        transition.node_id.clone(),
                        warning.clone(),
                        transition.attempt,
                    ));
                }
                DriveEvent::Done
            }
            DriveAction::Execute { node, attempt } => {
                DriveEvent::Outcome(script.execute(table, run, &compiled.nodes[node], attempt))
            }
            DriveAction::Retry {
                node,
                attempt,
                error,
                backoff_seconds,
            } => {
                seen.attempt_failures
                    .push((compiled.nodes[node].id.clone(), attempt, error));
                seen.waits.push(backoff_seconds);
                DriveEvent::Done
            }
            DriveAction::Finish(state) => return Ok(state),
            DriveAction::Fail(error) => return Err(error),
        };
        action = driver.step(&mut drive, compiled, run, event);
    }
    panic!("the drive did not end");
}

fn drive(
    table: &mut RunTable,
    run: &str,
    compiled: &CompiledWorkflow,
    script: &mut Script,
) -> WorkflowRunState {
    drive_observed(table, run, compiled, script, &mut Seen::default()).unwrap()
}

#[test]
fn drives_a_linear_workflow_to_completion() {
    let mut table = empty_table();
    let compiled = linear();
    let run = create(&mut table, &compiled, None);
    let mut script = Script::default().with(
        "b",
        vec![NodeOutcome::Completed {
            agent_run_id: Some("run-b".to_owned()),
            cost: Some(usd("0.02")),
            warnings: Vec::new(),
        }],
    );
    let end = drive(&mut table, &run, &compiled, &mut script);
    assert_eq!(end, WorkflowRunState::Completed);
    assert!(all_completed(&table, &run));
    let b = node(&table, &run, "b");
    assert_eq!(b.agent_run_id.as_deref(), Some("run-b"));
    assert_eq!(b.cost, Some(usd("0.02")));
}

#[test]
fn a_failing_node_fails_the_run_and_blocks_its_dependents() {
    let mut table = empty_table();
    let compiled = linear();
    let run = create(&mut table, &compiled, None);
    let mut script = Script::default().with("b", vec![NodeOutcome::failed("boom")]);
    let end = drive(&mut table, &run, &compiled, &mut script);
    assert_eq!(end, WorkflowRunState::Failed);
    assert_eq!(node(&table, &run, "a").state, NodeState::Completed);
    assert_eq!(node(&table, &run, "b").state, NodeState::Failed);
    assert_eq!(node(&table, &run, "c").state, NodeState::Pending);
    assert!(!script.ran("c"));
}

#[test]
fn retries_a_flaky_node_up_to_its_policy() {
    let mut table = empty_table();
    let compiled = graph("flaky", vec![step("a", &[], 1), step("b", &["a"], 2)]);
    let run = create(&mut table, &compiled, None);
    let mut script = Script::default().with(
        "b",
        vec![NodeOutcome::failed("transient"), NodeOutcome::completed()],
    );
    let end = drive(&mut table, &run, &compiled, &mut script);
    assert_eq!(end, WorkflowRunState::Completed);
    assert_eq!(script.calls_for("b"), 2, "b ran twice (fail then succeed)");
    let b = node(&table, &run, "b");
    assert_eq!(b.state, NodeState::Completed);
    assert_eq!(b.attempt, 2, "the durable record shows the second attempt");
}

#[test]
fn resume_honors_the_persisted_attempt_count() {
    let mut table = empty_table();
    let compiled = graph("flaky", vec![step("a", &[], 2)]);
    let run = create(&mut table, &compiled, None);
    WorkflowStore::new()
        .transition_node(&mut table, &run, "a", NodeState::Running, 2, None, None)
        .unwrap();
    let mut script = Script::default().with(
        "a",
        vec![
            NodeOutcome::failed("still broken"),
            NodeOutcome::failed("still broken"),
        ],
    );
    let end = drive(&mut table, &run, &compiled, &mut script);
    assert_eq!(end, WorkflowRunState::Failed);
    assert_eq!(
        script.calls_for("a"),
        1,
        "a runs once more (attempt 2), not a fresh attempt 1 + 2"
    );
    let a = node(&table, &run, "a");
    assert_eq!(a.state, NodeState::Failed);
    assert_eq!(a.attempt, 2);
}

#[test]
fn resume_after_failure_does_not_re_run_completed_nodes() {
    let mut table = empty_table();
    let compiled = linear();
    let run = create(&mut table, &compiled, None);
    let mut first = Script::default().with("b", vec![NodeOutcome::failed("boom")]);
    assert_eq!(
        drive(&mut table, &run, &compiled, &mut first),
        WorkflowRunState::Failed
    );
    WorkflowStore::new()
        .retry_from_node(&mut table, &run, "b", &compiled)
        .unwrap();
    let mut second = Script::default();
    assert_eq!(
        drive(&mut table, &run, &compiled, &mut second),
        WorkflowRunState::Completed
    );
    assert!(!second.ran("a"), "completed node a must not re-run");
    assert!(second.ran("b"));
    assert!(second.ran("c"));
}

#[test]
fn a_pause_mid_drive_stops_the_frontier_and_preserves_progress() {
    let mut table = empty_table();
    let compiled = linear();
    let run = create(&mut table, &compiled, None);
    let mut script = Script::pausing_after("a");
    let end = drive(&mut table, &run, &compiled, &mut script);
    assert_eq!(end, WorkflowRunState::Paused);
    assert_eq!(run_state(&table, &run), WorkflowRunState::Paused);
    assert_eq!(node(&table, &run, "a").state, NodeState::Completed);
    assert_eq!(
        node(&table, &run, "b").state,
        NodeState::Pending,
        "b must not start after pause"
    );
    assert_eq!(node(&table, &run, "c").state, NodeState::Pending);
    assert_eq!(
        script.calls,
        ["a"],
        "only a ran before the pause took effect"
    );
}

#[test]
fn a_diamond_runs_both_branches_before_the_join() {
    let mut table = empty_table();
    let compiled = diamond();
    let run = create(&mut table, &compiled, None);
    let mut script = Script::default();
    let mut seen = Seen::default();
    let end = drive_observed(&mut table, &run, &compiled, &mut script, &mut seen).unwrap();
    assert_eq!(end, WorkflowRunState::Completed);
    assert!(script.ran("b") && script.ran("c") && script.ran("d"));
    let completions: Vec<String> = seen
        .transitions
        .iter()
        .filter(|(_, state, _)| *state == NodeState::Completed)
        .map(|(id, _, _)| id.clone())
        .collect();
    let pos = |id: &str| completions.iter().position(|c| c == id).unwrap();
    assert!(pos("a") < pos("b"), "a completes before b");
    assert!(pos("a") < pos("c"), "a completes before c");
    assert!(pos("b") < pos("d") && pos("c") < pos("d"), "d joins last");
}

#[test]
fn driving_a_paused_run_directly_is_a_no_op() {
    let mut table = empty_table();
    let compiled = linear();
    let run = create(&mut table, &compiled, None);
    WorkflowStore::new()
        .set_run_state(&mut table, &run, WorkflowRunState::Paused)
        .unwrap();
    let mut script = Script::default();
    let end = drive(&mut table, &run, &compiled, &mut script);
    assert_eq!(
        end,
        WorkflowRunState::Paused,
        "reported unchanged, not resurrected to Running/Completed"
    );
    assert!(!script.ran("a"), "a paused run must not execute any node");
    assert_eq!(
        run_state(&table, &run),
        WorkflowRunState::Paused,
        "the persisted state is untouched"
    );
}

#[test]
fn driving_a_terminal_run_directly_is_a_no_op() {
    for terminal in [
        WorkflowRunState::Completed,
        WorkflowRunState::Failed,
        WorkflowRunState::Cancelled,
    ] {
        let mut table = empty_table();
        let compiled = linear();
        let run = create(&mut table, &compiled, None);
        WorkflowStore::new()
            .set_run_state(&mut table, &run, terminal)
            .unwrap();
        let mut script = Script::default();
        let end = drive(&mut table, &run, &compiled, &mut script);
        assert_eq!(end, terminal, "{terminal:?} reported unchanged");
        assert!(!script.ran("a"), "{terminal:?} must not execute any node");
        assert_eq!(
            run_state(&table, &run),
            terminal,
            "{terminal:?} persisted state is untouched"
        );
    }
}

#[test]
fn crash_recovery_reset_explicitly_clears_a_stale_agent_run_id() {
    let mut table = empty_table();
    let compiled = linear();
    let store = WorkflowStore::new();
    let run = create(&mut table, &compiled, None);
    store
        .transition_node(
            &mut table,
            &run,
            "a",
            NodeState::Running,
            1,
            Some("ghost-agent-run".to_owned()),
            Some(usd("0.5")),
        )
        .unwrap();
    store
        .set_run_state(&mut table, &run, WorkflowRunState::Running)
        .unwrap();
    let end = drive(&mut table, &run, &compiled, &mut Script::default());
    assert_eq!(end, WorkflowRunState::Completed);
    let a = node(&table, &run, "a");
    assert_eq!(
        a.agent_run_id, None,
        "the crash-recovery reset must not leave the stale agent_run_id in place"
    );
    assert_eq!(
        a.cost, None,
        "the crash-recovery reset must not leave the stale cost in place"
    );
}

#[test]
fn try_transition_to_running_refuses_a_run_that_moved_since_the_initial_read() {
    let mut table = empty_table();
    let run = create(&mut table, &linear(), None);
    WorkflowStore::new()
        .set_run_state(&mut table, &run, WorkflowRunState::Paused)
        .unwrap();
    let transitioned = WorkflowDriver::new().try_transition_to_running(&mut table, &run);
    assert!(!transitioned, "must not transition once the run has moved");
    assert_eq!(
        run_state(&table, &run),
        WorkflowRunState::Paused,
        "the run must still be Paused, never clobbered back to Running"
    );
}

#[test]
fn try_transition_to_running_applies_when_nothing_raced_in() {
    let mut table = empty_table();
    let run = create(&mut table, &linear(), None);
    assert!(WorkflowDriver::new().try_transition_to_running(&mut table, &run));
    assert_eq!(run_state(&table, &run), WorkflowRunState::Running);
    assert!(!WorkflowDriver::new().try_transition_to_running(&mut table, "nope"));
}

fn answer_to(action: &DriveAction) -> &'static str {
    match action {
        DriveAction::Load => "loaded",
        DriveAction::Reset(_) | DriveAction::Record { .. } | DriveAction::Retry { .. } => "done",
        DriveAction::SetRunState { .. } => "affected",
        DriveAction::Execute { .. } => "outcome",
        DriveAction::Finish(_) | DriveAction::Fail(_) => "nothing",
    }
}

fn awaited_in(phase: DrivePhase) -> &'static str {
    match phase {
        DrivePhase::Entering
        | DrivePhase::Reporting
        | DrivePhase::Round
        | DrivePhase::Preparing
        | DrivePhase::Finishing => "loaded",
        DrivePhase::Resetting
        | DrivePhase::Launching
        | DrivePhase::Closing
        | DrivePhase::Blocking
        | DrivePhase::Waiting => "done",
        DrivePhase::Starting | DrivePhase::Pausing | DrivePhase::Settling => "affected",
        DrivePhase::Executing => "outcome",
        DrivePhase::Over => "nothing",
    }
}

#[test]
fn what_a_drive_awaits_answers_what_it_asked_for() {
    let compiled = graph("g", vec![step("a", &[], 2)]);
    let store = WorkflowStore::new();
    let driver = WorkflowDriver::new();
    let failed = || NodeOutcome::failed("flaky");
    for outcomes in [
        vec![failed(), NodeOutcome::completed()],
        vec![failed(), failed()],
        vec![NodeOutcome::blocked("spent", None)],
    ] {
        let mut table = empty_table();
        let run = create(&mut table, &compiled, None);
        let mut outcomes = outcomes.into_iter();
        let mut drive = driver.begin();
        let mut action = DriveAction::Load;
        let mut asked = vec![answer_to(&action)];
        assert_eq!(awaited_in(drive.phase), "loaded");
        for _ in 0..100 {
            let event = match &action {
                DriveAction::Load => DriveEvent::Loaded(store.snapshot(&table, &run).cloned()),
                DriveAction::Reset(_) | DriveAction::Retry { .. } => DriveEvent::Done,
                DriveAction::SetRunState { allowed, to } => DriveEvent::Affected(
                    store.set_run_state_if_legal(&mut table, &run, allowed, *to) > 0,
                ),
                DriveAction::Record { transition, .. } => {
                    store
                        .transition_node(
                            &mut table,
                            &run,
                            &transition.node_id,
                            transition.state,
                            transition.attempt,
                            None,
                            None,
                        )
                        .unwrap();
                    DriveEvent::Done
                }
                DriveAction::Execute { .. } => DriveEvent::Outcome(outcomes.next().unwrap()),
                DriveAction::Finish(_) | DriveAction::Fail(_) => break,
            };
            action = driver.step(&mut drive, &compiled, &run, event);
            assert_eq!(awaited_in(drive.phase), answer_to(&action), "{action:?}");
            asked.push(answer_to(&action));
        }
        for kind in ["loaded", "done", "affected", "outcome", "nothing"] {
            assert!(asked.contains(&kind), "{kind}");
        }
    }
}

#[test]
fn a_pause_between_the_read_and_the_start_wins() {
    let mut table = empty_table();
    let compiled = linear();
    let store = WorkflowStore::new();
    let run = create(&mut table, &compiled, None);
    let driver = WorkflowDriver::new();
    let mut drive = driver.begin();
    let read = DriveEvent::Loaded(store.snapshot(&table, &run).cloned());
    let reset = driver.step(&mut drive, &compiled, &run, read);
    assert_eq!(reset, DriveAction::Reset(Vec::new()));
    let start = driver.step(&mut drive, &compiled, &run, DriveEvent::Done);
    store
        .set_run_state(&mut table, &run, WorkflowRunState::Paused)
        .unwrap();
    let event = match start {
        DriveAction::SetRunState { allowed, to } => {
            DriveEvent::Affected(store.set_run_state_if_legal(&mut table, &run, &allowed, to) > 0)
        }
        other => panic!("expected a start, got {other:?}"),
    };
    assert_eq!(event, DriveEvent::Affected(false));
    let again = driver.step(&mut drive, &compiled, &run, event);
    assert_eq!(again, DriveAction::Load);
    let read = DriveEvent::Loaded(store.snapshot(&table, &run).cloned());
    let end = driver.step(&mut drive, &compiled, &run, read);
    assert_eq!(end, DriveAction::Finish(WorkflowRunState::Paused));
}

#[test]
fn a_blocked_outcome_records_the_node_blocked_and_pauses_the_run() {
    let mut table = empty_table();
    let compiled = graph(
        "linear",
        vec![step("a", &[], 1), step("b", &["a"], 2), step("c", &["b"], 1)],
    );
    let run = create(&mut table, &compiled, None);
    let cost = JsonValue::Object(vec![
        (
            "tool_calls".to_owned(),
            JsonValue::Number(JsonNumber::Unsigned(9)),
        ),
        (
            "wall_time_secs".to_owned(),
            JsonValue::Number(JsonNumber::Unsigned(1)),
        ),
    ]);
    let blocked = || {
        NodeOutcome::blocked(
            "workflow.budget-exceeded: node budget for `tool_calls` exceeded",
            Some(cost.clone()),
        )
    };
    let mut script = Script::default().with("b", vec![blocked(), blocked()]);
    let mut seen = Seen::default();
    let end = drive_observed(&mut table, &run, &compiled, &mut script, &mut seen).unwrap();
    assert_eq!(
        end,
        WorkflowRunState::Paused,
        "a budget block pauses the run for a human decision"
    );
    assert_eq!(
        script.calls_for("b"),
        1,
        "a block is never retried, even under attempts:2"
    );
    let b = node(&table, &run, "b");
    assert_eq!(b.state, NodeState::Blocked);
    assert!(
        b.error.as_deref().unwrap_or_default().contains("budget"),
        "the block reason is persisted: {:?}",
        b.error
    );
    assert_eq!(
        b.cost,
        Some(cost.clone()),
        "the measured cost that tipped the node over is recorded"
    );
    assert_eq!(node(&table, &run, "c").state, NodeState::Pending);
    assert!(seen
        .transitions
        .iter()
        .any(|(id, state, _)| id == "b" && *state == NodeState::Blocked));

    // A resumed drive takes the block up again, with what it had cost.
    WorkflowConductor::new()
        .prepare_resume(&mut table, &run)
        .unwrap();
    let mut seen = Seen::default();
    let end = drive_observed(
        &mut table,
        &run,
        &compiled,
        &mut Script::default(),
        &mut seen,
    )
    .unwrap();
    assert_eq!(end, WorkflowRunState::Completed);
    assert_eq!(seen.recovery_resets, [("b".to_owned(), 1)]);
    assert_eq!(node(&table, &run, "b").cost, Some(cost.clone()));
}

#[test]
fn an_intermediate_retry_failure_is_reported_to_the_observer() {
    let mut table = empty_table();
    let compiled = graph(
        "flaky",
        vec![Step {
            id: "a",
            depends_on: &[],
            attempts: 2,
            backoff: 7,
        }],
    );
    let run = create(&mut table, &compiled, None);
    let mut script = Script::default().with(
        "a",
        vec![
            NodeOutcome::failed("transient boom"),
            NodeOutcome::completed(),
        ],
    );
    let mut seen = Seen::default();
    let end = drive_observed(&mut table, &run, &compiled, &mut script, &mut seen).unwrap();
    assert_eq!(end, WorkflowRunState::Completed);
    assert_eq!(
        seen.attempt_failures.len(),
        1,
        "the one intermediate failure reported"
    );
    assert_eq!(seen.attempt_failures[0].0, "a");
    assert_eq!(seen.attempt_failures[0].1, 1, "reported at attempt 1");
    assert!(seen.attempt_failures[0].2.contains("transient"));
    assert_eq!(seen.waits, [7]);
    assert_eq!(node(&table, &run, "a").error, None);
}

#[test]
fn a_terminal_failure_persists_its_reason_and_reports_no_intermediate() {
    let mut table = empty_table();
    let compiled = linear();
    let run = create(&mut table, &compiled, None);
    let mut script = Script::default().with("b", vec![NodeOutcome::failed("boom")]);
    let mut seen = Seen::default();
    let end = drive_observed(&mut table, &run, &compiled, &mut script, &mut seen).unwrap();
    assert_eq!(end, WorkflowRunState::Failed);
    let b = node(&table, &run, "b");
    assert_eq!(b.state, NodeState::Failed);
    assert_eq!(
        b.error.as_deref(),
        Some("boom"),
        "the terminal failure reason is persisted"
    );
    assert!(
        seen.attempt_failures.is_empty(),
        "a single-attempt failure is terminal, not an intermediate retry"
    );
}

#[test]
fn a_recovery_reset_is_reported_to_the_observer() {
    let mut table = empty_table();
    let compiled = linear();
    let store = WorkflowStore::new();
    let run = create(&mut table, &compiled, None);
    store
        .transition_node(&mut table, &run, "a", NodeState::Running, 1, None, None)
        .unwrap();
    store
        .set_run_state(&mut table, &run, WorkflowRunState::Running)
        .unwrap();
    let mut seen = Seen::default();
    let end = drive_observed(
        &mut table,
        &run,
        &compiled,
        &mut Script::default(),
        &mut seen,
    )
    .unwrap();
    assert_eq!(end, WorkflowRunState::Completed);
    assert_eq!(
        seen.recovery_resets.len(),
        1,
        "the interrupted node's reset reported"
    );
    assert_eq!(seen.recovery_resets[0], ("a".to_owned(), 1));
}

#[test]
fn warnings_reach_the_observer_with_the_completion() {
    let mut table = empty_table();
    let compiled = graph("one", vec![step("a", &[], 1)]);
    let run = create(&mut table, &compiled, None);
    let warning = BudgetWarning {
        dimension: BudgetDimension::ToolCalls,
        scope: BudgetScope::Node,
        used: 4,
        limit: 5,
    };
    let mut script = Script::default().with(
        "a",
        vec![NodeOutcome::Completed {
            agent_run_id: None,
            cost: None,
            warnings: vec![warning.clone()],
        }],
    );
    let mut seen = Seen::default();
    drive_observed(&mut table, &run, &compiled, &mut script, &mut seen).unwrap();
    assert_eq!(seen.warnings, [("a".to_owned(), warning, 1)]);
}

#[test]
fn a_drive_of_another_graph_or_of_no_run_is_refused() {
    let mut table = empty_table();
    let run = create(&mut table, &linear(), None);
    let changed = drive_observed(
        &mut table,
        &run,
        &diamond(),
        &mut Script::default(),
        &mut Seen::default(),
    );
    assert!(matches!(
        changed,
        Err(WorkflowStoreError::GraphSignatureChanged { .. })
    ));
    let missing = drive_observed(
        &mut table,
        "nope",
        &linear(),
        &mut Script::default(),
        &mut Seen::default(),
    );
    assert_eq!(
        missing,
        Err(WorkflowStoreError::NotFound("nope".to_owned()))
    );
}

#[test]
fn a_bare_transition_carries_nothing_else() {
    let t = NodeTransition::new("a", NodeState::Running, 3);
    assert_eq!(t.node_id, "a");
    assert_eq!((t.state, t.attempt), (NodeState::Running, 3));
    assert_eq!((t.cost, t.error), (None, None));
    assert!(t.warnings.is_empty());
}

/// The graph that a stored manifest names.
fn recompile(table: &RunTable, run: &str) -> Result<CompiledWorkflow, ConductorError> {
    match WorkflowConductor::new().stored_manifest(table, run)?.as_str() {
        "linear" => Ok(linear()),
        "diamond" => Ok(diamond()),
        _ => Err(ConductorError::Compile(WorkflowError::Compile(
            CompileError::NoSteps,
        ))),
    }
}

fn conduct(
    table: &mut RunTable,
    run: &str,
    script: &mut Script,
) -> Result<WorkflowRunState, ConductorError> {
    let compiled = recompile(table, run)?;
    drive_observed(table, run, &compiled, script, &mut Seen::default())
        .map_err(ConductorError::Store)
}

fn recover(table: &mut RunTable, script: &mut Script) -> RecoveryReport {
    let store = WorkflowStore::new();
    let mut outcomes = Vec::new();
    for place in store.list_incomplete_runs(table) {
        let run = table.runs[place].snapshot.run.clone();
        if !recovers(run.state) {
            outcomes.push(RecoveryOutcome::LeftPaused);
            continue;
        }
        let result = conduct(table, &run.id, script);
        outcomes.push(recovery_outcome(&result));
    }
    report_of(&outcomes)
}

#[test]
fn drive_runs_a_created_run_to_completion() {
    let mut table = empty_table();
    let run = create(&mut table, &linear(), Some("linear"));
    let end = conduct(&mut table, &run, &mut Script::default()).unwrap();
    assert_eq!(end, WorkflowRunState::Completed);
    assert!(all_completed(&table, &run));
}

#[test]
fn drive_without_a_manifest_is_a_clean_no_manifest_error() {
    let mut table = empty_table();
    let run = create(&mut table, &linear(), None);
    let err = conduct(&mut table, &run, &mut Script::default()).unwrap_err();
    assert!(matches!(err, ConductorError::NoManifest(id) if id == run));
}

#[test]
fn driving_or_retrying_a_nonexistent_run_is_not_found_not_no_manifest() {
    let mut table = empty_table();
    let err = conduct(&mut table, "wfrun-does-not-exist", &mut Script::default()).unwrap_err();
    assert!(
        matches!(&err, ConductorError::NotFound(id) if id == "wfrun-does-not-exist"),
        "expected NotFound, got {err:?}"
    );
    let err = recompile(&table, "wfrun-does-not-exist").unwrap_err();
    assert!(
        matches!(&err, ConductorError::NotFound(id) if id == "wfrun-does-not-exist"),
        "expected NotFound, got {err:?}"
    );
}

#[test]
fn recover_incomplete_drives_pending_runs_and_leaves_paused_ones() {
    let mut table = empty_table();
    let pending = create(&mut table, &linear(), Some("linear"));
    let paused = create(&mut table, &linear(), Some("linear"));
    WorkflowStore::new()
        .set_run_state(&mut table, &paused, WorkflowRunState::Paused)
        .unwrap();
    let no_manifest = create(&mut table, &linear(), None);

    let report = recover(&mut table, &mut Script::default());
    assert_eq!(report.considered, 3);
    assert_eq!(report.driven, 1);
    assert_eq!(report.left_paused, 1);
    assert_eq!(report.skipped_no_manifest, 1);
    assert_eq!(run_state(&table, &pending), WorkflowRunState::Completed);
    assert_eq!(run_state(&table, &paused), WorkflowRunState::Paused);
    assert_eq!(run_state(&table, &no_manifest), WorkflowRunState::Pending);
}

#[test]
fn every_way_a_recovery_can_go_is_counted() {
    let mut table = empty_table();
    create(&mut table, &linear(), Some("diamond"));
    create(&mut table, &linear(), Some("garbage"));
    let report = recover(&mut table, &mut Script::default());
    assert_eq!(report.considered, 2);
    assert_eq!(report.signature_changed, 1);
    assert_eq!(report.skipped_uncompilable, 1);
    assert_eq!(report.errored, 0);
    let lost = Err(ConductorError::Store(WorkflowStoreError::Corrupt(
        "odd".to_owned(),
    )));
    assert_eq!(report_of(&vec![recovery_outcome(&lost)]).errored, 1);
}

#[test]
fn recover_resets_and_re_drives_an_interrupted_running_node() {
    let mut table = empty_table();
    let store = WorkflowStore::new();
    let run = create(&mut table, &linear(), Some("linear"));
    store
        .set_run_state(&mut table, &run, WorkflowRunState::Running)
        .unwrap();
    store
        .transition_node(&mut table, &run, "a", NodeState::Running, 1, None, None)
        .unwrap();
    let report = recover(&mut table, &mut Script::default());
    assert_eq!(report.driven, 1);
    assert_eq!(run_state(&table, &run), WorkflowRunState::Completed);
    assert!(all_completed(&table, &run));
}

#[test]
fn pause_then_resume_completes_the_run() {
    let mut table = empty_table();
    let conductor = WorkflowConductor::new();
    let run = create(&mut table, &linear(), Some("linear"));
    let mut pauser = Script::pausing_after("a");
    let state = conduct(&mut table, &run, &mut pauser).unwrap();
    assert_eq!(state, WorkflowRunState::Paused);
    assert!(pauser.ran("a") && !pauser.ran("b"));

    conductor.prepare_resume(&mut table, &run).unwrap();
    let mut resumer = Script::default();
    let state = conduct(&mut table, &run, &mut resumer).unwrap();
    assert_eq!(state, WorkflowRunState::Completed);
    assert!(!resumer.ran("a"), "the completed node a must not re-run");
    assert!(resumer.ran("b") && resumer.ran("c"));
    assert!(all_completed(&table, &run));
}

#[test]
fn pause_a_terminal_run_is_rejected() {
    let mut table = empty_table();
    let run = create(&mut table, &linear(), Some("linear"));
    conduct(&mut table, &run, &mut Script::default()).unwrap();
    let err = WorkflowConductor::new()
        .pause(&mut table, &run)
        .unwrap_err();
    assert!(matches!(
        err,
        ConductorError::IllegalTransition {
            action: "paused",
            state: "completed"
        }
    ));
}

#[test]
fn pausing_twice_is_pausing_once() {
    let mut table = empty_table();
    let conductor = WorkflowConductor::new();
    let run = create(&mut table, &linear(), Some("linear"));
    conductor.pause(&mut table, &run).unwrap();
    let once = table.clone();
    conductor.pause(&mut table, &run).unwrap();
    assert_eq!(table, once);
    assert_eq!(
        conductor.state(&table, &run).unwrap(),
        WorkflowRunState::Paused
    );
    assert!(matches!(
        conductor.pause(&mut table, "nope"),
        Err(ConductorError::NotFound(_))
    ));
}

#[test]
fn resume_a_run_that_is_not_paused_is_rejected() {
    let mut table = empty_table();
    let run = create(&mut table, &linear(), Some("linear"));
    let err = WorkflowConductor::new()
        .prepare_resume(&mut table, &run)
        .unwrap_err();
    assert!(matches!(
        err,
        ConductorError::IllegalTransition {
            action: "resumed",
            state: "pending"
        }
    ));
}

#[test]
fn retry_from_re_drives_a_failed_node_and_its_dependents() {
    let mut table = empty_table();
    let conductor = WorkflowConductor::new();
    let run = create(&mut table, &linear(), Some("linear"));
    let mut failing = Script::default().with("b", vec![NodeOutcome::failed("boom")]);
    let state = conduct(&mut table, &run, &mut failing).unwrap();
    assert_eq!(state, WorkflowRunState::Failed);
    assert_eq!(node(&table, &run, "b").state, NodeState::Failed);
    assert_eq!(node(&table, &run, "c").state, NodeState::Pending);

    conductor
        .prepare_retry(&mut table, &run, "b", &linear())
        .unwrap();
    let mut retry = Script::default();
    let state = conduct(&mut table, &run, &mut retry).unwrap();
    assert_eq!(state, WorkflowRunState::Completed);
    assert!(!retry.ran("a"), "completed upstream node a must not re-run");
    assert!(retry.ran("b") && retry.ran("c"));
    assert!(matches!(
        conductor.prepare_retry(&mut table, &run, "ghost", &linear()),
        Err(ConductorError::Store(WorkflowStoreError::NotFound(_)))
    ));
}
