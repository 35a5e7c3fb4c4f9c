//! What pausing, resuming, recovering, creating and checkpointing a run do.
use crate::workflow::compile::CompiledWorkflow;
use crate::workflow::conductor::{
    handling, pause_of, resume_of, tally, ConductorError, ConductorFault, RecoveryOutcome,
};
use crate::workflow::json::JsonValue;
use crate::workflow::store::{
    checkpointed, created, delivered, fresh_run, keyed_run_id, run_in, with_state, NodeState,
    RunTable, StoredRun, WorkflowRunState, WorkflowStoreError,
};
use vstd::prelude::*;

verus! {

/// A run that is pending or running can be paused, and is then paused; one that is paused stays
/// so; one that is over is refused, and the refusal names its state.
pub proof fn law_open_runs_can_be_paused(state: WorkflowRunState)
    ensures
        state == WorkflowRunState::Pending || state == WorkflowRunState::Running ==> pause_of(state)
            == Ok::<_, ConductorFault>(Some(WorkflowRunState::Paused)),
        state == WorkflowRunState::Paused ==> pause_of(state) == Ok::<_, ConductorFault>(
            None::<WorkflowRunState>,
        ),
        state == WorkflowRunState::Completed || state == WorkflowRunState::Failed || state
            == WorkflowRunState::Cancelled ==> (pause_of(state) matches Err(
            ConductorFault::IllegalTransition { action, state: name },
        ) && action == "paused"@ && name == crate::workflow::store::run_state_name(state)),
{
}

/// Only a paused run can be resumed, and is then running; any other is refused, and the refusal
/// names its state.
pub proof fn law_only_paused_runs_can_be_resumed(state: WorkflowRunState)
    ensures
        state == WorkflowRunState::Paused ==> resume_of(state) == Ok::<_, ConductorFault>(
            WorkflowRunState::Running,
        ),
        state != WorkflowRunState::Paused ==> (resume_of(state) matches Err(
            ConductorFault::IllegalTransition { action, state: name },
        ) && action == "resumed"@ && name == crate::workflow::store::run_state_name(state)),
{
}

/// Setting a run's state changes nothing else of it.
pub proof fn law_only_the_state_is_set(run: StoredRun, state: WorkflowRunState)
    ensures
        ({
            let after = with_state(run, state);
            &&& after.snapshot.run.state == state
            &&& after.snapshot.run.id == run.snapshot.run.id
            &&& after.snapshot.run.workflow_id == run.snapshot.run.workflow_id
            &&& after.snapshot.run.workflow_version == run.snapshot.run.workflow_version
            &&& after.snapshot.run.graph_signature == run.snapshot.run.graph_signature
            &&& after.snapshot.run.run_id == run.snapshot.run.run_id
            &&& after.snapshot.run.inputs == run.snapshot.run.inputs
            &&& after.snapshot.nodes == run.snapshot.nodes
            &&& after.manifest == run.manifest
            &&& after.checkpoints == run.checkpoints
        }),
{
}

/// A recovery counts a run by how its drive ended: one that has no text, no longer compiles or
/// met another graph is told apart from any other error, and only one that was driven counts as
/// driven.
pub proof fn law_a_recovery_counts_each_run_by_its_end(
    result: Result<WorkflowRunState, ConductorError>,
)
    ensures
        handling(result) == RecoveryOutcome::Driven <==> result is Ok,
        handling(result) == RecoveryOutcome::SkippedNoManifest <==> (result matches Err(e)
            && e is NoManifest),
        handling(result) == RecoveryOutcome::SkippedUncompilable <==> (result matches Err(e)
            && e is Compile),
        handling(result) == RecoveryOutcome::SignatureChanged <==> (result matches Err(
            ConductorError::Store(e),
        ) && e is GraphSignatureChanged),
        handling(result) == RecoveryOutcome::Errored <==> (result matches Err(e) && (e is NotFound
            || e is IllegalTransition || (e matches ConductorError::Store(s)
            && s !is GraphSignatureChanged))),
{
}

/// A count is the number of runs that were handled that way.
pub proof fn law_a_tally_counts_the_runs(
    outcomes: Seq<RecoveryOutcome>,
    kind: RecoveryOutcome,
    n: int,
)
    requires
        0 <= n <= outcomes.len(),
    ensures
        Set::new(|i: int| 0 <= i < n && outcomes[i] == kind).finite(),
        tally(outcomes, kind, n) == Set::new(|i: int| 0 <= i < n && outcomes[i] == kind).len(),
    decreases n,
{
    let now = Set::new(|i: int| 0 <= i < n && outcomes[i] == kind);
    if n == 0 {
        assert(now =~= Set::empty());
    } else {
        law_a_tally_counts_the_runs(outcomes, kind, n - 1);
        let was = Set::new(|i: int| 0 <= i < n - 1 && outcomes[i] == kind);
        if outcomes[n - 1] == kind {
            assert(now =~= was.insert(n - 1));
        } else {
            assert(now =~= was);
        }
    }
}

/// A new run is pending and so is each of its nodes, in the compiled order; nothing was attempted,
/// spent or recorded yet, and the run carries the graph's signature, its inputs and its text.
pub proof fn law_a_new_run_is_untouched(
    run: StoredRun,
    id: Seq<char>,
    compiled: CompiledWorkflow,
    run_id: Option<String>,
    inputs: JsonValue,
    manifest: Option<String>,
    k: int,
)
    requires
        fresh_run(run, id, compiled, run_id, inputs, manifest),
    ensures
        run.snapshot.run.id@ == id,
        run.snapshot.run.workflow_id@ == compiled.id@,
        run.snapshot.run.workflow_version == compiled.version,
        run.snapshot.run.graph_signature@ == crate::workflow::compile::signature_of(compiled),
        run.snapshot.run.run_id == run_id,
        run.snapshot.run.inputs == inputs,
        run.snapshot.run.state == WorkflowRunState::Pending,
        run.manifest == manifest,
        run.checkpoints@.len() == 0,
        run.snapshot.nodes@.len() == compiled.nodes@.len(),
        0 <= k < compiled.nodes@.len() ==> {
            let record = run.snapshot.nodes@[k];
            &&& record.node_id@ == compiled.nodes@[k].id@
            &&& record.topo_order == compiled.nodes@[k].topo_order
            &&& record.state == NodeState::Pending
            &&& record.attempt == 0
            &&& record.agent_run_id is None && record.cost is None && record.error is None
            &&& record.started_at is None && record.ended_at is None
        },
{
    if 0 <= k < compiled.nodes@.len() {
        assert(crate::workflow::store::fresh_record(run.snapshot.nodes@[k], compiled.nodes@[k]));
    }
}

/// A run is created exactly where its id is not in use, and then stands at the end of the table;
/// what was there stays as it was.
pub proof fn law_a_run_is_created_where_its_id_is_free(
    before: RunTable,
    after: RunTable,
    id: Seq<char>,
    compiled: CompiledWorkflow,
    run_id: Option<String>,
    inputs: JsonValue,
    manifest: Option<String>,
    r: Result<String, WorkflowStoreError>,
    i: int,
)
    requires
        created(before, after, id, compiled, run_id, inputs, manifest, r),
    ensures
        r is Ok <==> forall|k: int|
            0 <= k < before.runs@.len() ==> (#[trigger] before.runs@[k]).snapshot.run.id@ != id,
        r is Err ==> after == before,
        r is Ok ==> r->Ok_0@ == id && after.runs@.len() == before.runs@.len() + 1 && fresh_run(
            after.runs@[before.runs@.len() as int],
            id,
            compiled,
            run_id,
            inputs,
            manifest,
        ),
        0 <= i < before.runs@.len() ==> after.runs@[i] == before.runs@[i],
{
    crate::workflow::record_laws::law_runs_are_found_by_id(before.runs@, id, 0);
    if let Some(k) = run_in(before, id) {
        assert(before.runs@[k].snapshot.run.id@ == id);
    }
    if r is Ok && 0 <= i < before.runs@.len() {
        assert(after.runs@.drop_last()[i] == after.runs@[i]);
    }
}

/// A keyed delivery gives the id that its key stands for, and afterwards there is a run of that
/// id; it adds at most this one and changes none.
pub proof fn law_a_delivery_gives_the_run_of_its_key(
    before: RunTable,
    after: RunTable,
    key: Seq<char>,
    compiled: CompiledWorkflow,
    inputs: JsonValue,
    manifest: Option<String>,
    r: String,
    i: int,
)
    requires
        delivered(before, after, key, compiled, inputs, manifest, r),
    ensures
        r@ == keyed_run_id(key),
        exists|k: int|
            0 <= k < after.runs@.len() && (#[trigger] after.runs@[k]).snapshot.run.id@ == r@,
        before.runs@.len() <= after.runs@.len() <= before.runs@.len() + 1,
        0 <= i < before.runs@.len() ==> after.runs@[i] == before.runs@[i],
        (forall|k: int|
            0 <= k < before.runs@.len() ==> (#[trigger] before.runs@[k]).snapshot.run.id@ != r@)
            ==> fresh_run(
            after.runs@[before.runs@.len() as int],
            r@,
            compiled,
            None,
            inputs,
            manifest,
        ),
{
    crate::workflow::record_laws::law_runs_are_found_by_id(before.runs@, r@, 0);
    match run_in(before, r@) {
        Some(k) => {
            assert(after.runs@[k].snapshot.run.id@ == r@);
        },
        None => {
            assert(after.runs@[before.runs@.len() as int].snapshot.run.id@ == r@);
            if 0 <= i < before.runs@.len() {
                assert(after.runs@.drop_last()[i] == after.runs@[i]);
            }
        },
    }
}

/// The id of a keyed run is `wfrun-` and 32 hexadecimal digits.
pub proof fn law_keyed_ids_have_a_fixed_shape(key: Seq<char>, digest: Seq<u8>)
    requires
        digest == crate::digest::sha256_of(
            vstd::utf8::encode_utf8("workflow-run\0"@) + vstd::utf8::encode_utf8(key),
        ),
        digest.len() == 32,
    ensures
        keyed_run_id(key).len() == 38,
        keyed_run_id(key).take(6) == seq!['w', 'f', 'r', 'u', 'n', '-'],
        forall|i: int|
            6 <= i < 38 ==> crate::stamp::is_hex_digit(#[trigger] keyed_run_id(key)[i]),
{
    reveal_strlit("wfrun-");
    let text = crate::digest::hex_text(digest.take(16));
    crate::digest::lemma_hex_text(digest.take(16));
    assert(keyed_run_id(key) == "wfrun-"@ + text);
    assert(keyed_run_id(key).take(6) =~= seq!['w', 'f', 'r', 'u', 'n', '-']);
    assert forall|i: int| 6 <= i < 38 implies crate::stamp::is_hex_digit(
        #[trigger] keyed_run_id(key)[i],
    ) by {
        assert(keyed_run_id(key)[i] == text[i - 6]);
    }
}

/// Each byte is written as its two hexadecimal digits, the high one first, so the bytes can be
/// read back.
pub proof fn law_hexadecimal_is_read_back(data: Seq<u8>, i: int)
    requires
        0 <= i < data.len(),
    ensures
        ({
            let text = crate::digest::hex_text(data);
            &&& text.len() == 2 * data.len()
            &&& data[i] == 16 * digit_value(text[2 * i]) + digit_value(text[2 * i + 1])
        }),
{
    assert((2 * i) / 2 == i && (2 * i) % 2 == 0);
    assert((2 * i + 1) / 2 == i && (2 * i + 1) % 2 == 1);
}

/// The value of a hexadecimal digit.
pub open spec fn digit_value(c: char) -> int {
    if '0' <= c <= '9' {
        c as int - '0' as int
    } else {
        c as int - 'a' as int + 10
    }
}

/// A checkpoint is recorded for a run that exists, under an id that is free, and is then its last;
/// the run's records, its text, its earlier checkpoints and every other run stay as they were. Any
/// other is refused and changes nothing.
pub proof fn law_a_checkpoint_is_added_to_its_run(
    before: RunTable,
    after: RunTable,
    run_id: Seq<char>,
    id: Seq<char>,
    graph_signature: Seq<char>,
    state_artifact_id: Option<String>,
    r: Result<String, WorkflowStoreError>,
    i: int,
)
    requires
        checkpointed(before, after, run_id, id, graph_signature, state_artifact_id, r),
        run_in(before, run_id) == Some(i),
        forall|k: int, c: int|
            0 <= k < before.runs@.len() && 0 <= c < before.runs@[k].checkpoints@.len() ==> (
            #[trigger] before.runs@[k].checkpoints@[c]).id@ != id,
    ensures
        r matches Ok(given) && given@ == id,
        after.runs@.len() == before.runs@.len(),
        forall|k: int| 0 <= k < before.runs@.len() && k != i ==> #[trigger] after.runs@[k]
            == before.runs@[k],
        after.runs@[i].snapshot == before.runs@[i].snapshot,
        after.runs@[i].manifest == before.runs@[i].manifest,
        ({
            let was = before.runs@[i].checkpoints@;
            let now = after.runs@[i].checkpoints@;
            &&& now.len() == was.len() + 1
            &&& now.drop_last() == was
            &&& now.last().id@ == id
            &&& now.last().graph_signature@ == graph_signature
            &&& now.last().state_artifact_id == state_artifact_id
        }),
{
    if crate::workflow::store::checkpoint_taken(before, id) {
        let k = choose|k: int|
            0 <= k < before.runs@.len() && crate::workflow::store::has_checkpoint(
                (#[trigger] before.runs@[k]).checkpoints@,
                id,
            );
        let list = before.runs@[k].checkpoints@;
        let c = choose|c: int| 0 <= c < list.len() && (#[trigger] list[c]).id@ == id;
        assert(before.runs@[k].checkpoints@[c].id@ == id);
    }
}

} // verus!
