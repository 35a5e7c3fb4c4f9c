//! Runs, node records and checkpoints.
use codypendent::number::Double;
use codypendent::text_map::TextMap;
use codypendent::workflow::compile::{compile, CompiledWorkflow};
use codypendent::workflow::json::{JsonNumber, JsonValue};
use codypendent::workflow::model::{WorkflowBudget, WorkflowDefinition, WorkflowStep};
use codypendent::workflow::store::{
    blocked_node_ids, deterministic_run_id, guard_signature, ready_node_ids, retry_set, NodeState,
    RunTable, WorkflowNodeRecord, WorkflowRunState, WorkflowStore, WorkflowStoreError,
};

fn graph(id: &str, steps: &[(&str, &[&str])]) -> CompiledWorkflow {
    let steps = steps
        .iter()
        .map(|(id, depends_on)| WorkflowStep {
            id: (*id).to_owned(),
            depends_on: depends_on.iter().map(|d| (*d).to_owned()).collect(),
            agent: None,
            tool: Some("repository.test".to_owned()),
            skill: None,
            workspace: None,
            approval: None,
            retry: None,
            outputs: Vec::new(),
        })
        .collect();
    compile(&WorkflowDefinition {
        schema_version: 1,
        id: id.to_owned(),
        version: 1,
        description: None,
        inputs: TextMap::new(),
        budget: WorkflowBudget {
            maximum_cost_usd: Some(Double {
                bits: 5.0f64.to_bits(),
            }),
            maximum_duration_seconds: None,
            maximum_agents: None,
        },
        steps,
        orchestration_reason: None,
    })
    .unwrap()
}

fn pipeline() -> CompiledWorkflow {
    graph("pipeline", &[("a", &[]), ("b", &["a"]), ("c", &["b"])])
}

fn longer_pipeline() -> CompiledWorkflow {
    graph(
        "pipeline",
        &[("a", &[]), ("b", &["a"]), ("c", &["b"]), ("d", &["c"])],
    )
}

/// `a` fans out to `b` and `c`, which both feed `d`.
fn diamond() -> CompiledWorkflow {
    graph(
        "diamond",
        &[("a", &[]), ("b", &["a"]), ("c", &["a"]), ("d", &["b", "c"])],
    )
}

fn empty_table() -> RunTable {
    RunTable { runs: Vec::new() }
}

fn empty_object() -> JsonValue {
    JsonValue::Object(Vec::new())
}

fn x_is_one() -> JsonValue {
    JsonValue::Object(vec![(
        "x".to_owned(),
        JsonValue::Number(JsonNumber::Unsigned(1)),
    )])
}

fn usd(text: &str) -> JsonValue {
    JsonValue::Object(vec![(
        "usd".to_owned(),
        JsonValue::Number(JsonNumber::Real(text.to_owned())),
    )])
}

fn create(table: &mut RunTable, compiled: &CompiledWorkflow) -> String {
    WorkflowStore::new()
        .create_run(table, compiled, None, empty_object(), None)
        .unwrap()
}

fn advance(table: &mut RunTable, id: &str, node: &str, state: NodeState) {
    WorkflowStore::new()
        .transition_node(table, id, node, state, 1, None, None)
        .unwrap();
}

fn record(table: &RunTable, id: &str, node: &str) -> WorkflowNodeRecord {
    let store = WorkflowStore::new();
    let snapshot = store.snapshot(table, id).unwrap();
    snapshot
        .nodes
        .iter()
        .find(|n| n.node_id == node)
        .unwrap()
        .clone()
}

#[test]
fn manifest_round_trips_and_is_none_when_absent() {
    let mut table = empty_table();
    let compiled = pipeline();
    let store = WorkflowStore::new();
    let text = "schema_version: 1\nid: pipeline\n";
    let with_manifest = store
        .create_run(
            &mut table,
            &compiled,
            None,
            empty_object(),
            Some(text.to_owned()),
        )
        .unwrap();
    assert_eq!(
        store.manifest(&table, &with_manifest).map(String::as_str),
        Some(text)
    );
    let without = create(&mut table, &compiled);
    assert_eq!(store.manifest(&table, &without), None);
    assert_eq!(store.manifest(&table, "nope"), None);
}

#[test]
fn create_run_seeds_pending_nodes_in_topological_order() {
    let mut table = empty_table();
    let compiled = pipeline();
    let store = WorkflowStore::new();
    let id = store
        .create_run(
            &mut table,
            &compiled,
            Some("run-1".to_owned()),
            empty_object(),
            None,
        )
        .unwrap();
    let snap = store.snapshot(&table, &id).unwrap();
    assert_eq!(snap.run.workflow_id, "pipeline");
    assert_eq!(snap.run.state, WorkflowRunState::Pending);
    assert_eq!(snap.run.run_id.as_deref(), Some("run-1"));
    let order: Vec<&str> = snap.nodes.iter().map(|n| n.node_id.as_str()).collect();
    assert_eq!(order, ["a", "b", "c"]);
    assert!(snap.nodes.iter().all(|n| n.state == NodeState::Pending));
    assert!(store.snapshot(&table, "nope").is_none());
}

#[test]
fn new_ids_are_hyphenated_and_differ() {
    let mut table = empty_table();
    let compiled = pipeline();
    let first = create(&mut table, &compiled);
    let second = create(&mut table, &compiled);
    assert_ne!(first, second);
    for id in [&first, &second] {
        assert_eq!(id.len(), 36);
        for (i, c) in id.chars().enumerate() {
            match i {
                8 | 13 | 18 | 23 => assert_eq!(c, '-'),
                14 => assert_eq!(c, '7'),
                _ => assert!(c.is_ascii_digit() || ('a'..='f').contains(&c)),
            }
        }
    }
}

#[test]
fn an_id_in_use_is_refused() {
    let mut table = empty_table();
    let compiled = pipeline();
    let store = WorkflowStore::new();
    let first = store.create_run_as(
        &mut table,
        "r".to_owned(),
        &compiled,
        None,
        empty_object(),
        None,
    );
    assert_eq!(first, Ok("r".to_owned()));
    let before = table.clone();
    let second = store.create_run_as(
        &mut table,
        "r".to_owned(),
        &compiled,
        None,
        empty_object(),
        None,
    );
    assert!(matches!(second, Err(WorkflowStoreError::Database(_))));
    assert_eq!(table, before);
}

#[test]
fn create_run_idempotent_dedups_by_key() {
    let mut table = empty_table();
    let compiled = pipeline();
    let store = WorkflowStore::new();
    let first = store.create_run_idempotent(&mut table, &compiled, "cmd-42", x_is_one(), None);
    let second = store.create_run_idempotent(&mut table, &compiled, "cmd-42", x_is_one(), None);
    assert_eq!(first, second, "same key, same run id");
    assert_eq!(store.list_incomplete_runs(&table).len(), 1);
    assert_eq!(store.snapshot(&table, &first).unwrap().nodes.len(), 3);
    let other = store.create_run_idempotent(&mut table, &compiled, "cmd-99", x_is_one(), None);
    assert_ne!(first, other);
    assert_eq!(store.list_incomplete_runs(&table).len(), 2);
}

#[test]
fn a_key_stands_for_half_a_digest() {
    let digest = <sha2::Sha256 as sha2::Digest>::digest(b"workflow-run\x00cmd-42");
    assert_eq!(
        deterministic_run_id("cmd-42"),
        format!("wfrun-{}", hex::encode(&digest[..16]))
    );
}

#[test]
fn transitions_record_state_attempt_and_cost() {
    let mut table = empty_table();
    let compiled = pipeline();
    let store = WorkflowStore::new();
    let id = create(&mut table, &compiled);
    store
        .transition_node(
            &mut table,
            &id,
            "a",
            NodeState::Running,
            1,
            Some("agent-run-7".to_owned()),
            None,
        )
        .unwrap();
    store
        .transition_node(
            &mut table,
            &id,
            "a",
            NodeState::Completed,
            1,
            None,
            Some(usd("0.4")),
        )
        .unwrap();
    let a = record(&table, &id, "a");
    assert_eq!(a.state, NodeState::Completed);
    assert_eq!(a.attempt, 1);
    assert_eq!(a.agent_run_id.as_deref(), Some("agent-run-7"));
    assert_eq!(a.cost, Some(usd("0.4")));
}

#[test]
fn transitions_stamp_the_first_start_and_the_last_end() {
    let mut table = empty_table();
    let compiled = pipeline();
    let store = WorkflowStore::new();
    let id = create(&mut table, &compiled);
    let mut at = |table: &mut RunTable, state: NodeState, now: &str| {
        store
            .transition_node_at(
                table,
                &id,
                "a",
                state,
                1,
                None,
                None,
                Some("why".to_owned()),
                &now.to_owned(),
            )
            .unwrap();
    };
    at(&mut table, NodeState::Running, "t1");
    at(&mut table, NodeState::Failed, "t2");
    let failed = record(&table, &id, "a");
    assert_eq!(failed.started_at.as_deref(), Some("t1"));
    assert_eq!(failed.ended_at.as_deref(), Some("t2"));
    assert_eq!(failed.error.as_deref(), Some("why"));
    at(&mut table, NodeState::Running, "t3");
    let again = record(&table, &id, "a");
    assert_eq!(again.started_at.as_deref(), Some("t1"));
    assert_eq!(again.ended_at, None);
    store
        .transition_node(&mut table, &id, "a", NodeState::Completed, 2, None, None)
        .unwrap();
    let done = record(&table, &id, "a");
    assert!(done.ended_at.unwrap().contains('T'));
    assert_eq!(done.error, None);
}

#[test]
fn resume_continues_from_the_first_incomplete_node() {
    let mut table = empty_table();
    let compiled = pipeline();
    let store = WorkflowStore::new();
    let id = create(&mut table, &compiled);
    advance(&mut table, &id, "a", NodeState::Completed);
    assert_eq!(store.latest_checkpoint(&table, &id), None);
    let checkpoint = store
        .record_checkpoint(
            &mut table,
            &id,
            &compiled.signature(),
            Some("artifact-1".to_owned()),
        )
        .unwrap();

    let plan = store.resume(&table, &id, &compiled).unwrap();
    assert_eq!(plan.next_node.as_deref(), Some("b"));
    let latest = plan.latest_checkpoint.unwrap();
    assert_eq!(latest.id, checkpoint);
    assert_eq!(latest.state_artifact_id.as_deref(), Some("artifact-1"));

    for node in ["b", "c"] {
        advance(&mut table, &id, node, NodeState::Completed);
    }
    let done = store.resume(&table, &id, &compiled).unwrap();
    assert_eq!(done.next_node, None);
}

#[test]
fn a_checkpoint_needs_its_run_and_its_own_id() {
    let mut table = empty_table();
    let compiled = pipeline();
    let store = WorkflowStore::new();
    let id = create(&mut table, &compiled);
    let before = table.clone();
    let orphan = store.record_checkpoint(&mut table, "nope", "sig", None);
    assert!(matches!(orphan, Err(WorkflowStoreError::Database(_))));
    assert_eq!(table, before);
    store
        .record_checkpoint_as(&mut table, &id, "c".to_owned(), "sig", None)
        .unwrap();
    let twice = store.record_checkpoint_as(&mut table, &id, "c".to_owned(), "sig", None);
    assert!(matches!(twice, Err(WorkflowStoreError::Database(_))));
    store
        .record_checkpoint_as(&mut table, &id, "d".to_owned(), "sig", None)
        .unwrap();
    assert_eq!(store.latest_checkpoint(&table, &id).unwrap().id, "d");
}

#[test]
fn resume_refuses_a_changed_graph_signature() {
    let mut table = empty_table();
    let first = pipeline();
    let store = WorkflowStore::new();
    let id = create(&mut table, &first);
    let changed = longer_pipeline();
    assert_ne!(first.signature(), changed.signature());
    assert!(matches!(
        store.resume(&table, &id, &changed).unwrap_err(),
        WorkflowStoreError::GraphSignatureChanged { .. }
    ));
}

#[test]
fn retry_from_node_resets_the_node_and_everything_downstream() {
    let mut table = empty_table();
    let compiled = pipeline();
    let store = WorkflowStore::new();
    let id = create(&mut table, &compiled);
    for node in ["a", "b", "c"] {
        store
            .transition_node(
                &mut table,
                &id,
                node,
                NodeState::Running,
                1,
                Some("agent-x".to_owned()),
                None,
            )
            .unwrap();
        store
            .transition_node(
                &mut table,
                &id,
                node,
                NodeState::Completed,
                1,
                None,
                Some(usd("0.2")),
            )
            .unwrap();
    }
    store
        .set_run_state(&mut table, &id, WorkflowRunState::Completed)
        .unwrap();

    let reset = store
        .retry_from_node(&mut table, &id, "b", &compiled)
        .unwrap();
    assert_eq!(reset, vec!["b".to_string(), "c".to_string()]);
    assert_eq!(
        store.snapshot(&table, &id).unwrap().run.state,
        WorkflowRunState::Running
    );
    let a = record(&table, &id, "a");
    assert_eq!(a.state, NodeState::Completed);
    assert_eq!(a.cost, Some(usd("0.2")));
    for n in ["b", "c"] {
        let r = record(&table, &id, n);
        assert_eq!(r.state, NodeState::Pending, "{n} reset to pending");
        assert_eq!(r.attempt, 0, "{n} attempt cleared");
        assert_eq!(r.cost, None, "{n} cost cleared");
        assert_eq!(r.agent_run_id, None, "{n} agent-run id cleared");
        assert_eq!(r.started_at, None, "{n} start cleared");
        assert_eq!(r.ended_at, None, "{n} end cleared");
    }
    let plan = store.resume(&table, &id, &compiled).unwrap();
    assert_eq!(plan.next_node.as_deref(), Some("b"));
}

#[test]
fn retry_from_node_refuses_a_changed_graph_or_unknown_node() {
    let mut table = empty_table();
    let first = pipeline();
    let store = WorkflowStore::new();
    let id = create(&mut table, &first);
    let changed = longer_pipeline();
    assert!(matches!(
        store
            .retry_from_node(&mut table, &id, "b", &changed)
            .unwrap_err(),
        WorkflowStoreError::GraphSignatureChanged { .. }
    ));
    let missing = store
        .retry_from_node(&mut table, &id, "ghost", &first)
        .unwrap_err();
    assert_eq!(
        missing,
        WorkflowStoreError::NotFound(format!("{id}/ghost"))
    );
    assert_eq!(
        missing.message(),
        format!("no such workflow run: {id}/ghost")
    );
}

#[test]
fn ready_nodes_is_the_parallel_frontier() {
    let mut table = empty_table();
    let compiled = diamond();
    let store = WorkflowStore::new();
    let id = create(&mut table, &compiled);
    assert_eq!(store.ready_nodes(&table, &id, &compiled).unwrap(), ["a"]);
    advance(&mut table, &id, "a", NodeState::Completed);
    assert_eq!(
        store.ready_nodes(&table, &id, &compiled).unwrap(),
        ["b", "c"]
    );
    advance(&mut table, &id, "b", NodeState::Completed);
    assert_eq!(store.ready_nodes(&table, &id, &compiled).unwrap(), ["c"]);
    advance(&mut table, &id, "c", NodeState::Completed);
    assert_eq!(store.ready_nodes(&table, &id, &compiled).unwrap(), ["d"]);
    advance(&mut table, &id, "d", NodeState::Completed);
    assert!(store.ready_nodes(&table, &id, &compiled).unwrap().is_empty());
}

#[test]
fn a_failed_dependency_blocks_the_dependent() {
    let mut table = empty_table();
    let compiled = diamond();
    let store = WorkflowStore::new();
    let id = create(&mut table, &compiled);
    advance(&mut table, &id, "a", NodeState::Completed);
    advance(&mut table, &id, "b", NodeState::Failed);
    advance(&mut table, &id, "c", NodeState::Completed);
    assert!(
        store.ready_nodes(&table, &id, &compiled).unwrap().is_empty(),
        "d must stay blocked while its dependency b is failed"
    );
    let plan = store.resume(&table, &id, &compiled).unwrap();
    assert_eq!(
        plan.next_node, None,
        "a node stranded behind a failure is not resumable"
    );
    assert_eq!(
        plan.blocked_nodes,
        vec![("d".to_string(), "b".to_string())],
        "the stranded node and its blocking ancestor are reported"
    );
    let snapshot = store.snapshot(&table, &id).unwrap();
    assert!(ready_node_ids(&compiled, snapshot).is_empty());
    assert_eq!(blocked_node_ids(&compiled, snapshot).len(), 1);
}

#[test]
fn a_block_is_passed_on_downstream() {
    let mut table = empty_table();
    let compiled = pipeline();
    let store = WorkflowStore::new();
    let id = create(&mut table, &compiled);
    advance(&mut table, &id, "a", NodeState::Skipped);
    let snapshot = store.snapshot(&table, &id).unwrap();
    assert_eq!(
        blocked_node_ids(&compiled, snapshot),
        vec![
            ("b".to_owned(), "a".to_owned()),
            ("c".to_owned(), "a".to_owned())
        ]
    );
}

#[test]
fn ready_nodes_refuses_a_changed_graph_signature() {
    let mut table = empty_table();
    let store = WorkflowStore::new();
    let id = create(&mut table, &pipeline());
    assert!(matches!(
        store.ready_nodes(&table, &id, &diamond()).unwrap_err(),
        WorkflowStoreError::GraphSignatureChanged { .. }
    ));
    assert_eq!(
        store.ready_nodes(&table, "nope", &diamond()).unwrap_err(),
        WorkflowStoreError::NotFound("nope".to_owned())
    );
}

#[test]
fn list_incomplete_runs_returns_only_non_terminal_runs() {
    let mut table = empty_table();
    let compiled = pipeline();
    let store = WorkflowStore::new();
    let mut start = |table: &mut RunTable, name: &str| {
        store
            .create_run(
                table,
                &compiled,
                Some(name.to_owned()),
                empty_object(),
                None,
            )
            .unwrap()
    };
    let pending = start(&mut table, "pending");
    let running = start(&mut table, "running");
    let completed = start(&mut table, "done");
    store
        .set_run_state(&mut table, &running, WorkflowRunState::Running)
        .unwrap();
    store
        .set_run_state(&mut table, &completed, WorkflowRunState::Completed)
        .unwrap();

    let incomplete = store.list_incomplete_runs(&table);
    let ids: Vec<&str> = incomplete
        .iter()
        .map(|i| table.runs[*i].snapshot.run.id.as_str())
        .collect();
    assert_eq!(ids, vec![pending.as_str(), running.as_str()]);
    let second = &table.runs[incomplete[1]].snapshot.run;
    assert_eq!(second.run_id.as_deref(), Some("running"));
    assert_eq!(second.graph_signature, compiled.signature());
}

#[test]
fn run_state_transitions_persist() {
    let mut table = empty_table();
    let store = WorkflowStore::new();
    let id = create(&mut table, &pipeline());
    store
        .set_run_state(&mut table, &id, WorkflowRunState::Running)
        .unwrap();
    assert_eq!(
        store.snapshot(&table, &id).unwrap().run.state,
        WorkflowRunState::Running
    );
    assert!(matches!(
        store
            .set_run_state(&mut table, "nope", WorkflowRunState::Failed)
            .unwrap_err(),
        WorkflowStoreError::NotFound(_)
    ));
}

#[test]
fn a_state_changes_only_from_where_it_may() {
    let mut table = empty_table();
    let store = WorkflowStore::new();
    let id = create(&mut table, &pipeline());
    let from = vec![WorkflowRunState::Running, WorkflowRunState::Paused];
    let to = WorkflowRunState::Failed;
    assert_eq!(
        store.set_run_state_if_legal(&mut table, &id, &from, to),
        0
    );
    store
        .set_run_state(&mut table, &id, WorkflowRunState::Paused)
        .unwrap();
    assert_eq!(
        store.set_run_state_if_legal(&mut table, &id, &from, to),
        1
    );
    assert_eq!(
        store.set_run_state_if_legal(&mut table, "nope", &from, to),
        0
    );
    assert_eq!(store.snapshot(&table, &id).unwrap().run.state, to);
}

#[test]
fn resets_keep_what_they_should() {
    let mut table = empty_table();
    let store = WorkflowStore::new();
    let id = create(&mut table, &pipeline());
    store
        .transition_node_with_error(
            &mut table,
            &id,
            "a",
            NodeState::Blocked,
            2,
            Some("agent".to_owned()),
            Some(usd("1.5")),
            Some("over".to_owned()),
        )
        .unwrap();
    store.reset_blocked_node(&mut table, &id, "a");
    let kept = record(&table, &id, "a");
    assert_eq!(kept.state, NodeState::Pending);
    assert_eq!(kept.cost, Some(usd("1.5")));
    assert_eq!(kept.error.as_deref(), Some("over"));
    assert_eq!(kept.attempt, 2);
    store.reset_interrupted_node(&mut table, &id, "a", 2);
    let cleared = record(&table, &id, "a");
    assert_eq!(cleared.agent_run_id, None);
    assert_eq!(cleared.cost, None);
    assert_eq!(cleared.error, None);
    assert_eq!(cleared.attempt, 2);
    let before = table.clone();
    store.reset_interrupted_node(&mut table, &id, "ghost", 1);
    store.reset_blocked_node(&mut table, "nope", "a");
    assert_eq!(table, before);
}

#[test]
fn states_are_spelled_and_read_back() {
    for state in [
        WorkflowRunState::Pending,
        WorkflowRunState::Running,
        WorkflowRunState::Paused,
        WorkflowRunState::Completed,
        WorkflowRunState::Failed,
        WorkflowRunState::Cancelled,
    ] {
        assert_eq!(WorkflowRunState::parse(state.as_str()), Ok(state));
    }
    for state in [
        NodeState::Pending,
        NodeState::Running,
        NodeState::WaitingApproval,
        NodeState::Blocked,
        NodeState::Completed,
        NodeState::Failed,
        NodeState::Skipped,
    ] {
        assert_eq!(NodeState::parse(state.as_str()), Ok(state));
    }
    let bad = WorkflowRunState::parse("odd").unwrap_err();
    assert_eq!(bad, WorkflowStoreError::Corrupt("run state odd".to_owned()));
    assert_eq!(bad.message(), "corrupt workflow row: run state odd");
    assert_eq!(
        NodeState::parse("odd").unwrap_err().message(),
        "corrupt workflow row: node state odd"
    );
}

#[test]
fn a_retry_takes_everything_downstream_once() {
    assert_eq!(retry_set(&diamond(), "a"), ["a", "b", "c", "d"]);
    assert_eq!(retry_set(&diamond(), "c"), ["c", "d"]);
    assert_eq!(retry_set(&diamond(), "d"), ["d"]);
}

#[test]
fn signatures_are_compared_whole() {
    assert_eq!(guard_signature("s", "s".to_owned()), Ok(()));
    let changed = guard_signature("s", "t".to_owned()).unwrap_err();
    assert_eq!(
        changed.message(),
        "workflow graph changed since the run started (expected s, found t)"
    );
}

#[test]
fn what_is_written_is_read_back() {
    let mut table = empty_table();
    let compiled = pipeline();
    let store = WorkflowStore::new();
    let first = create(&mut table, &compiled);
    let before = store.snapshot(&table, &first).unwrap().clone();
    let second = store
        .create_run(&mut table, &compiled, None, x_is_one(), Some("text".to_owned()))
        .unwrap();
    assert_eq!(store.snapshot(&table, &first), Some(&before));
    let fresh = store.snapshot(&table, &second).unwrap();
    assert_eq!(fresh.run.inputs, x_is_one());
    assert_eq!(fresh.run.graph_signature, compiled.signature());
    assert_eq!(store.manifest(&table, &second), Some(&"text".to_owned()));

    store
        .transition_node_at(
            &mut table,
            &second,
            "b",
            NodeState::Running,
            2,
            Some("agent".to_owned()),
            None,
            None,
            &"noon".to_owned(),
        )
        .unwrap();
    let moved = record(&table, &second, "b");
    assert_eq!(moved.state, NodeState::Running);
    assert_eq!(moved.attempt, 2);
    assert_eq!(moved.agent_run_id.as_deref(), Some("agent"));
    assert_eq!(moved.started_at.as_deref(), Some("noon"));
    assert_eq!(store.snapshot(&table, &first), Some(&before));

    let mark = store
        .record_checkpoint(&mut table, &second, "sig", Some("state".to_owned()))
        .unwrap();
    let latest = store.latest_checkpoint(&table, &second).unwrap();
    assert_eq!(latest.id, mark);
    assert_eq!(latest.graph_signature, "sig");
    assert_eq!(latest.state_artifact_id.as_deref(), Some("state"));
}

#[test]
fn a_retried_node_is_ready_and_nothing_ahead_of_it_is_reset() {
    let mut table = empty_table();
    let compiled = diamond();
    let store = WorkflowStore::new();
    let id = create(&mut table, &compiled);
    for node in ["a", "b", "c", "d"] {
        advance(&mut table, &id, node, NodeState::Completed);
    }
    let reset = store
        .retry_from_node(&mut table, &id, "c", &compiled)
        .unwrap();
    assert_eq!(reset, vec!["c".to_owned(), "d".to_owned()]);
    assert_eq!(record(&table, &id, "a").state, NodeState::Completed);
    assert_eq!(record(&table, &id, "b").state, NodeState::Completed);
    assert_eq!(
        store.ready_nodes(&table, &id, &compiled),
        Ok(vec!["c".to_owned()])
    );
    let plan = store.resume(&table, &id, &compiled).unwrap();
    assert_eq!(plan.next_node.as_deref(), Some("c"));
}
