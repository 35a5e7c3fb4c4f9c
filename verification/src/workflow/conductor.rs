//! The run lifecycle above the store and the driver: which commands are legal in which
//! state, and what a recovery pass did.
use crate::workflow::compile::{CompileError, CompileFault, CompiledWorkflow};
use crate::workflow::drive::WorkflowDriver;
use crate::workflow::store::{
    RunTable, StoreFault, WorkflowRunRecord, WorkflowRunState, WorkflowStore, WorkflowStoreError,
};
use vstd::prelude::*;

verus! {

/// A failure to turn a stored text back into a graph.
#[derive(Debug, Clone, PartialEq, Eq)]
pub enum WorkflowError {
    /// The text did not parse into a definition.
    Parse(String),
    /// The definition parsed but failed validation.
    Compile(CompileError),
}

/// What a [`WorkflowError`] says, with its strings seen as characters.
pub enum WorkflowFault {
    Parse(Seq<char>),
    Compile(CompileFault),
}

impl View for WorkflowError {
    type V = WorkflowFault;

    open spec fn view(&self) -> WorkflowFault {
        match *self {
            WorkflowError::Parse(why) => WorkflowFault::Parse(why@),
            WorkflowError::Compile(e) => WorkflowFault::Compile(e@),
        }
    }
}

/// A failure from the conductor.
#[derive(Debug, Clone, PartialEq, Eq)]
pub enum ConductorError {
    /// An error from the underlying store.
    Store(WorkflowStoreError),
    /// The run exists but has no stored text to recompile.
    NoManifest(String),
    /// The run's stored text no longer compiles.
    Compile(WorkflowError),
    /// No workflow run with the given id.
    NotFound(String),
    /// The run is in a state from which the requested action is not allowed.
    IllegalTransition { action: &'static str, state: &'static str },
}

/// What a [`ConductorError`] says, with its strings seen as characters.
pub enum ConductorFault {
    Store(StoreFault),
    NoManifest(Seq<char>),
    Compile(WorkflowFault),
    NotFound(Seq<char>),
    IllegalTransition { action: Seq<char>, state: Seq<char> },
}

impl View for ConductorError {
    type V = ConductorFault;

    open spec fn view(&self) -> ConductorFault {
        match *self {
            ConductorError::Store(e) => ConductorFault::Store(e@),
            ConductorError::NoManifest(s) => ConductorFault::NoManifest(s@),
            ConductorError::Compile(e) => ConductorFault::Compile(e@),
            ConductorError::NotFound(s) => ConductorFault::NotFound(s@),
            ConductorError::IllegalTransition { action, state } =>
                ConductorFault::IllegalTransition { action: action@, state: state@ },
        }
    }
}

/// How a recovery pass handled one run.
#[derive(Debug, Clone, Copy, PartialEq, Eq, Structural)]
pub enum RecoveryOutcome {
    Driven,
    LeftPaused,
    SkippedNoManifest,
    SkippedUncompilable,
    SignatureChanged,
    Errored,
}

/// What a recovery pass did: every run that was not over is `considered`, and counted
/// once more by how it was handled.
#[derive(Debug, Clone, Copy, PartialEq, Eq, Structural)]
pub struct RecoveryReport {
    /// Runs examined.
    pub considered: usize,
    /// Runs driven this pass.
    pub driven: usize,
    /// Paused runs left for an explicit resume.
    pub left_paused: usize,
    /// Runs skipped because they carry no stored text.
    pub skipped_no_manifest: usize,
    /// Runs skipped because their stored text no longer compiles.
    pub skipped_uncompilable: usize,
    /// Runs skipped because their graph changed under them.
    pub signature_changed: usize,
    /// Runs that hit an unexpected error.
    pub errored: usize,
}

impl Default for RecoveryReport {
    fn default() -> (r: Self)
        ensures
            r == (RecoveryReport {
                considered: 0,
                driven: 0,
                left_paused: 0,
                skipped_no_manifest: 0,
                skipped_uncompilable: 0,
                signature_changed: 0,
                errored: 0,
            }),
    {
        RecoveryReport {
            considered: 0,
            driven: 0,
            left_paused: 0,
            skipped_no_manifest: 0,
            skipped_uncompilable: 0,
            signature_changed: 0,
            errored: 0,
        }
    }
}

/// How many of the first `n` outcomes are `kind`.
pub open spec fn tally(outcomes: Seq<RecoveryOutcome>, kind: RecoveryOutcome, n: int) -> nat
    decreases n,
{
    if n <= 0 {
        0
    } else {
        tally(outcomes, kind, n - 1) + if outcomes[n - 1] == kind {
            1nat
        } else {
            0nat
        }
    }
}

/// Whether a report counts the first `n` outcomes.
pub open spec fn counts(report: RecoveryReport, outcomes: Seq<RecoveryOutcome>, n: int) -> bool {
    &&& report.considered == n
    &&& report.driven == tally(outcomes, RecoveryOutcome::Driven, n)
    &&& report.left_paused == tally(outcomes, RecoveryOutcome::LeftPaused, n)
    &&& report.skipped_no_manifest == tally(outcomes, RecoveryOutcome::SkippedNoManifest, n)
    &&& report.skipped_uncompilable == tally(outcomes, RecoveryOutcome::SkippedUncompilable, n)
    &&& report.signature_changed == tally(outcomes, RecoveryOutcome::SignatureChanged, n)
    &&& report.errored == tally(outcomes, RecoveryOutcome::Errored, n)
}

/// No run is dropped silently: the counts by handling add up to the runs considered.
pub proof fn law_every_run_is_accounted_for(outcomes: Seq<RecoveryOutcome>, n: int)
    requires
        0 <= n <= outcomes.len(),
    ensures
        tally(outcomes, RecoveryOutcome::Driven, n) + tally(
            outcomes,
            RecoveryOutcome::LeftPaused,
            n,
        ) + tally(outcomes, RecoveryOutcome::SkippedNoManifest, n) + tally(
            outcomes,
            RecoveryOutcome::SkippedUncompilable,
            n,
        ) + tally(outcomes, RecoveryOutcome::SignatureChanged, n) + tally(
            outcomes,
            RecoveryOutcome::Errored,
            n,
        ) == n,
    decreases n,
{
    if n > 0 {
        law_every_run_is_accounted_for(outcomes, n - 1);
    }
}

/// How a finished attempt to drive a run is counted.
pub open spec fn handling(result: Result<WorkflowRunState, ConductorError>) -> RecoveryOutcome {
    match result {
        Ok(_) => RecoveryOutcome::Driven,
        Err(ConductorError::NoManifest(_)) => RecoveryOutcome::SkippedNoManifest,
        Err(ConductorError::Compile(_)) => RecoveryOutcome::SkippedUncompilable,
        Err(ConductorError::Store(WorkflowStoreError::GraphSignatureChanged { .. })) =>
            RecoveryOutcome::SignatureChanged,
        Err(_) => RecoveryOutcome::Errored,
    }
}

/// Whether a recovery pass drives a run in that state: a paused one waits for an
/// explicit resume.
pub fn recovers(state: WorkflowRunState) -> (r: bool)
    ensures
        r == (state != WorkflowRunState::Paused),
{
    match state {
        WorkflowRunState::Paused => false,
        _ => true,
    }
}

/// How a finished attempt to drive a run is counted.
pub fn recovery_outcome(result: &Result<WorkflowRunState, ConductorError>) -> (r: RecoveryOutcome)
    ensures
        r == handling(*result),
{
    match result {
        Ok(_) => RecoveryOutcome::Driven,
        Err(ConductorError::NoManifest(_)) => RecoveryOutcome::SkippedNoManifest,
        Err(ConductorError::Compile(_)) => RecoveryOutcome::SkippedUncompilable,
        Err(ConductorError::Store(WorkflowStoreError::GraphSignatureChanged { .. })) =>
            RecoveryOutcome::SignatureChanged,
        Err(_) => RecoveryOutcome::Errored,
    }
}

proof fn lemma_tally_bound(outcomes: Seq<RecoveryOutcome>, kind: RecoveryOutcome, n: int)
    requires
        0 <= n,
    ensures
        tally(outcomes, kind, n) <= n,
    decreases n,
{
    if n > 0 {
        lemma_tally_bound(outcomes, kind, n - 1);
    }
}

/// The report of a recovery pass that handled its runs like this.
pub fn report_of(outcomes: &Vec<RecoveryOutcome>) -> (r: RecoveryReport)
    ensures
        counts(r, outcomes@, outcomes@.len() as int),
{
    let mut report: RecoveryReport = RecoveryReport::default();
    let mut i: usize = 0;
    while i < outcomes.len()
        invariant
            i <= outcomes@.len(),
            counts(report, outcomes@, i as int),
        decreases outcomes@.len() - i,
    {
        proof {
            lemma_tally_bound(outcomes@, outcomes@[i as int], i as int);
        }
        match outcomes[i] {
            RecoveryOutcome::Driven => {
                report.driven = report.driven + 1;
            },
            RecoveryOutcome::LeftPaused => {
                report.left_paused = report.left_paused + 1;
            },
            RecoveryOutcome::SkippedNoManifest => {
                report.skipped_no_manifest = report.skipped_no_manifest + 1;
            },
            RecoveryOutcome::SkippedUncompilable => {
                report.skipped_uncompilable = report.skipped_uncompilable + 1;
            },
            RecoveryOutcome::SignatureChanged => {
                report.signature_changed = report.signature_changed + 1;
            },
            RecoveryOutcome::Errored => {
                report.errored = report.errored + 1;
            },
        }
        report.considered = report.considered + 1;
        i = i + 1;
    }
    report
}

/// The state a pause sets from `state`, `None` where the run is already paused; or the
/// refusal.
pub open spec fn pause_of(state: WorkflowRunState) -> Result<
    Option<WorkflowRunState>,
    ConductorFault,
> {
    match state {
        WorkflowRunState::Pending | WorkflowRunState::Running => Ok(Some(WorkflowRunState::Paused)),
        WorkflowRunState::Paused => Ok(None),
        _ => Err(
            ConductorFault::IllegalTransition {
                action: "paused"@,
                state: crate::workflow::store::run_state_name(state),
            },
        ),
    }
}

/// The state a resume sets from `state`; or the refusal.
pub open spec fn resume_of(state: WorkflowRunState) -> Result<WorkflowRunState, ConductorFault> {
    match state {
        WorkflowRunState::Paused => Ok(WorkflowRunState::Running),
        _ => Err(
            ConductorFault::IllegalTransition {
                action: "resumed"@,
                state: crate::workflow::store::run_state_name(state),
            },
        ),
    }
}

/// Pausing twice is pausing once, a paused run can be resumed, and a finished run can be
/// neither paused nor resumed.
pub proof fn law_pause_and_resume(state: WorkflowRunState)
    ensures
        pause_of(state) matches Ok(Some(next)) ==> pause_of(next) == Ok::<
            Option<WorkflowRunState>,
            ConductorFault,
        >(None)
            && resume_of(next) == Ok::<_, ConductorFault>(WorkflowRunState::Running),
        crate::workflow::store::run_over(state) ==> pause_of(state) is Err && resume_of(
            state,
        ) is Err,
        resume_of(state) is Ok <==> state == WorkflowRunState::Paused,
{
}

/// Recompiles, drives, recovers and controls runs through the store and the driver.
#[derive(Debug, Clone, Copy, PartialEq, Eq, Structural)]
pub struct WorkflowConductor {
    store: WorkflowStore,
    driver: WorkflowDriver,
}

impl Default for WorkflowConductor {
    fn default() -> (r: Self)
        ensures
            r == WorkflowConductor::fresh(),
    {
        WorkflowConductor::new()
    }
}

impl WorkflowConductor {
    /// The conductor that every constructor gives.
    pub closed spec fn fresh() -> WorkflowConductor {
        WorkflowConductor { store: WorkflowStore, driver: WorkflowDriver::fresh() }
    }

    /// A conductor over fresh store and driver handles.
    pub fn new() -> (r: Self)
        ensures
            r == WorkflowConductor::fresh(),
    {
        WorkflowConductor { store: WorkflowStore::new(), driver: WorkflowDriver::new() }
    }

    /// The run's current lifecycle state.
    pub fn state(&self, table: &RunTable, workflow_run_id: &str) -> (r: Result<
        WorkflowRunState,
        ConductorError,
    >)
        ensures
            match crate::workflow::store::run_in(*table, workflow_run_id@) {
                Some(i) => r == Ok::<_, ConductorError>(table.runs@[i].snapshot.run.state),
                None => r matches Err(e) && e@ == ConductorFault::NotFound(workflow_run_id@),
            },
    {
        match self.store.snapshot(table, workflow_run_id) {
            Some(snapshot) => Ok(snapshot.run.state),
            None => Err(ConductorError::NotFound(workflow_run_id.to_owned())),
        }
    }

    /// Pauses a run, so that a live drive launches no further node. Pausing a paused run
    /// does nothing; a finished run is refused.
    pub fn pause(&self, table: &mut RunTable, workflow_run_id: &str) -> (r: Result<
        (),
        ConductorError,
    >)
        ensures
            match crate::workflow::store::run_in(*old(table), workflow_run_id@) {
                Some(i) => match pause_of(old(table).runs@[i].snapshot.run.state) {
                    Ok(Some(state)) => r is Ok && final(table).runs@ == old(table).runs@.update(
                        i,
                        crate::workflow::store::with_state(old(table).runs@[i], state),
                    ),
                    Ok(None) => r is Ok && *final(table) == *old(table),
                    Err(fault) => *final(table) == *old(table) && (r matches Err(e) && e@ == fault),
                },
                None => *final(table) == *old(table) && (r matches Err(e) && e@
                    == ConductorFault::NotFound(workflow_run_id@)),
            },
    {
        let state: WorkflowRunState = match self.state(table, workflow_run_id) {
            Ok(s) => s,
            Err(e) => {
                return Err(e);
            },
        };
        match state {
            WorkflowRunState::Pending | WorkflowRunState::Running => {
                match self.store.set_run_state(table, workflow_run_id, WorkflowRunState::Paused) {
                    Ok(_) => Ok(()),
                    Err(e) => Err(ConductorError::Store(e)),
                }
            },
            WorkflowRunState::Paused => Ok(()),
            terminal => Err(
                ConductorError::IllegalTransition { action: "paused", state: terminal.as_str() },
            ),
        }
    }

    /// Sets a paused run running, so that it may be driven again. Any other run is
    /// refused, so that a resume never drives a run that is already advancing.
    pub fn prepare_resume(&self, table: &mut RunTable, workflow_run_id: &str) -> (r: Result<
        (),
        ConductorError,
    >)
        ensures
            match crate::workflow::store::run_in(*old(table), workflow_run_id@) {
                Some(i) => match resume_of(old(table).runs@[i].snapshot.run.state) {
                    Ok(state) => r is Ok && final(table).runs@ == old(table).runs@.update(
                        i,
                        crate::workflow::store::with_state(old(table).runs@[i], state),
                    ),
                    Err(fault) => *final(table) == *old(table) && (r matches Err(e) && e@ == fault),
                },
                None => *final(table) == *old(table) && (r matches Err(e) && e@
                    == ConductorFault::NotFound(workflow_run_id@)),
            },
    {
        let state: WorkflowRunState = match self.state(table, workflow_run_id) {
            Ok(s) => s,
            Err(e) => {
                return Err(e);
            },
        };
        match state {
            WorkflowRunState::Paused => {
                match self.store.set_run_state(table, workflow_run_id, WorkflowRunState::Running) {
                    Ok(_) => Ok(()),
                    Err(e) => Err(ConductorError::Store(e)),
                }
            },
            other => Err(
                ConductorError::IllegalTransition { action: "resumed", state: other.as_str() },
            ),
        }
    }

    /// The text to recompile a run from. An unknown run is told apart from one that has
    /// no text.
    pub fn stored_manifest<'a>(&self, table: &'a RunTable, workflow_run_id: &str) -> (r: Result<
        &'a String,
        ConductorError,
    >)
        ensures
            match crate::workflow::store::run_in(*table, workflow_run_id@) {
                Some(i) => match table.runs@[i].manifest {
                    Some(text) => r == Ok::<_, ConductorError>(&text),
                    None => r matches Err(e) && e@ == ConductorFault::NoManifest(workflow_run_id@),
                },
                None => r matches Err(e) && e@ == ConductorFault::NotFound(workflow_run_id@),
            },
    {
        if self.store.snapshot(table, workflow_run_id).is_none() {
            return Err(ConductorError::NotFound(workflow_run_id.to_owned()));
        }
        match self.store.manifest(table, workflow_run_id) {
            Some(text) => Ok(text),
            None => Err(ConductorError::NoManifest(workflow_run_id.to_owned())),
        }
    }

    /// Resets a run for a retry from `node_id`, without driving it.
    pub fn prepare_retry(
        &self,
        table: &mut RunTable,
        workflow_run_id: &str,
        node_id: &str,
        compiled: &CompiledWorkflow,
    ) -> (r: Result<(), ConductorError>)
        ensures
            match r {
                Ok(_) => {
                    let i = crate::workflow::store::run_in(*old(table), workflow_run_id@)->0;
                    let before = old(table).runs@[i];
                    let after = final(table).runs@[i];
                    &&& crate::workflow::store::continue_fault(
                        *old(table),
                        workflow_run_id@,
                        *compiled,
                    ) is None
                    &&& crate::workflow::compile::node_index(compiled.nodes@, node_id@, 0) is Some
                    &&& crate::workflow::store::only_run(*old(table), *final(table), i)
                    &&& after.snapshot.run == (WorkflowRunRecord {
                        state: WorkflowRunState::Running,
                        ..before.snapshot.run
                    })
                    &&& after.manifest == before.manifest
                    &&& after.checkpoints == before.checkpoints
                    &&& crate::workflow::store::reset_from(
                        before.snapshot.nodes@,
                        after.snapshot.nodes@,
                        compiled.nodes@,
                        node_id@,
                    )
                },
                Err(e) => {
                    &&& *final(table) == *old(table)
                    &&& match crate::workflow::store::continue_fault(
                        *old(table),
                        workflow_run_id@,
                        *compiled,
                    ) {
                        Some(fault) => e@ == ConductorFault::Store(fault),
                        None => {
                            &&& crate::workflow::compile::node_index(
                                compiled.nodes@,
                                node_id@,
                                0,
                            ) is None
                            &&& e@ == ConductorFault::Store(
                                StoreFault::NotFound(workflow_run_id@ + "/"@ + node_id@),
                            )
                        },
                    }
                },
            },
    {
        match self.store.retry_from_node(table, workflow_run_id, node_id, compiled) {
            Ok(_) => Ok(()),
            Err(e) => Err(ConductorError::Store(e)),
        }
    }
}

} // verus!
