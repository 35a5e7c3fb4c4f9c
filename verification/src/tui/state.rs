//! The shell's state and its projections.
//!
//! [`AppState`] is the one thing the renderer reads. It holds no handles: everything in it
//! follows from the ordered session events and from local navigation.
use vstd::prelude::*;

use crate::number::Double;
use crate::tui::action::Intent;
use crate::tui::protocol::{
    AgentMode, ApprovalId, ArtifactRef, BudgetDimension, ChangeSetId, DocumentId, DocumentMutation,
    ModelId, ProposedAction, Risk, RunDisposition, RunId, RunState, ToolOutcome,
};

verus! {

/// Which pane has keyboard focus.
#[derive(Clone, Copy, Debug, PartialEq, Eq, Structural)]
pub enum Pane {
    /// Left: the session and run list.
    Sessions,
    /// Center: the transcript.
    Transcript,
    /// Right: pending approvals and run details.
    Approvals,
}

impl Pane {
    /// The pane that follows in `Tab` order.
    pub open spec fn following(self) -> Pane {
        match self {
            Pane::Sessions => Pane::Transcript,
            Pane::Transcript => Pane::Approvals,
            Pane::Approvals => Pane::Sessions,
        }
    }

    /// The next pane in `Tab` order.
    #[must_use]
    pub fn next(self) -> (r: Self)
        ensures
            r == self.following(),
    {
        match self {
            Pane::Sessions => Pane::Transcript,
            Pane::Transcript => Pane::Approvals,
            Pane::Approvals => Pane::Sessions,
        }
    }
}

/// `Tab` goes round: three steps lead back, and no fewer.
pub proof fn law_panes_go_round(pane: Pane)
    ensures
        pane.following().following().following() == pane,
        pane.following() != pane,
        pane.following().following() != pane,
{
}

/// Which layout is shown above the composer.
#[derive(Clone, Copy, Debug, PartialEq, Eq, Structural)]
pub enum LayoutMode {
    /// One column: the conversation.
    Chat,
    /// Runs, conversation and approvals side by side.
    Workspace,
}

impl LayoutMode {
    /// The layout that a toggle leads to.
    pub open spec fn other(self) -> LayoutMode {
        match self {
            LayoutMode::Chat => LayoutMode::Workspace,
            LayoutMode::Workspace => LayoutMode::Chat,
        }
    }

    /// The other layout.
    #[must_use]
    pub fn toggled(self) -> (r: Self)
        ensures
            r == self.other(),
    {
        match self {
            LayoutMode::Chat => LayoutMode::Workspace,
            LayoutMode::Workspace => LayoutMode::Chat,
        }
    }
}

impl Default for LayoutMode {
    fn default() -> (r: Self)
        ensures
            r == LayoutMode::Chat,
    {
        LayoutMode::Chat
    }
}

/// Toggling the layout changes it, and toggling twice does not.
pub proof fn law_toggling_twice_is_nothing(layout: LayoutMode)
    ensures
        layout.other() != layout,
        layout.other().other() == layout,
{
}

/// How the next key is read.
#[derive(Clone, Copy, Debug, PartialEq, Eq, Structural)]
pub enum InputMode {
    /// A navigable overlay is open.
    Normal,
    /// A text prompt takes printable keys.
    Editing,
    /// A yes-or-no question is open.
    Confirm,
    /// A filter takes printable keys while arrows move the selection.
    Palette,
    /// The composer takes printable keys.
    Composer,
    /// A pending approval owns the screen.
    Approval,
}

/// The top-most overlay. Prompts carry their buffer.
#[derive(Clone, Debug, PartialEq, Eq)]
pub enum Overlay {
    /// No overlay: the base layout is interactive.
    Closed,
    /// The key bindings.
    Help,
    /// The new-run prompt.
    NewRun(String),
    /// The steering prompt.
    Steering(String),
    /// "Cancel this run?"
    ConfirmCancel,
    /// The Skill Studio browser.
    Skills,
    /// The memory browser, and whether the focused memory's source is revealed.
    Memory { source_open: bool },
    /// The Docs Studio browser.
    Docs,
    /// The code-graph edge inspector.
    Edges,
    /// The workflow-graph view.
    Workflow,
    /// The blackboard view.
    Blackboard,
    /// The command palette: its filter, and the selected row of what the filter leaves.
    Palette { query: String, selected: usize },
    /// The block-edit prompt of the Docs Studio, and the block it edits.
    DocEdit { block_id: String, buffer: String },
    /// The model picker: its filter, and the selected row of what the filter leaves.
    ModelPicker { query: String, selected: usize },
}

impl Default for Overlay {
    fn default() -> (r: Self)
        ensures
            r == Overlay::Closed,
    {
        Overlay::Closed
    }
}

/// Where a tool call stands.
#[derive(Clone, Copy, Debug, PartialEq, Eq, Structural)]
pub enum ToolStatus {
    /// Proposed, and waiting for policy or approval.
    Proposed,
    /// Executing.
    Running,
    /// Finished.
    Completed,
}

/// A tool call, shown as an expandable card.
#[derive(Clone, Debug, PartialEq)]
pub struct ToolCard {
    /// The tool's name; empty until the tool has started.
    pub tool: String,
    pub status: ToolStatus,
    /// What was proposed, where the card began as a proposal.
    pub action: Option<ProposedAction>,
    /// Digest of the arguments.
    pub args_digest: Option<String>,
    /// How it ended, once completed.
    pub outcome: Option<ToolOutcome>,
    /// Its bulk output, if any.
    pub artifact: Option<ArtifactRef>,
    /// The approval it waits for, if any.
    pub approval_id: Option<ApprovalId>,
    /// Whether detail is shown.
    pub expanded: bool,
}

/// A proposed change set, shown as an expandable summary.
#[derive(Clone, Debug, PartialEq, Eq)]
pub struct PatchSummary {
    pub changeset_id: ChangeSetId,
    pub artifact: ArtifactRef,
    pub expanded: bool,
}

/// One entry of a run's transcript.
#[derive(Clone, Debug, PartialEq)]
pub enum TranscriptEntry {
    /// The user's own message.
    User { text: String },
    /// Model prose, as streamed so far.
    Model { text: String },
    /// A tool call.
    Tool(Box<ToolCard>),
    /// A proposed change set.
    Patch(PatchSummary),
    /// A steering marker.
    Steering { applied: bool },
    /// A budget warning.
    Budget { dimension: BudgetDimension, used: u64, limit: u64 },
    /// The end of the run.
    Completed { disposition: RunDisposition },
    /// A note. One of several lines is folded until it is expanded.
    Note { text: String, expanded: bool },
    /// Folded material that is no part of the conversation: the context manifest and
    /// memory updates.
    Backstage {
        /// The line count of the latest context manifest, if one came.
        context_lines: Option<usize>,
        /// How many memory updates were folded in.
        memory_updates: usize,
        /// The folded texts, in order of arrival.
        raw: Vec<String>,
        /// Whether the folded texts are shown.
        expanded: bool,
    },
    /// An event that this build does not know.
    Unsupported { label: String },
}

/// An approval that waits for a decision.
#[derive(Clone, Debug, PartialEq, Eq)]
pub struct PendingApproval {
    pub approval_id: ApprovalId,
    pub action: ProposedAction,
    pub risk: Risk,
    /// The run it belongs to, where that is known.
    pub run_id: Option<RunId>,
}

/// What a run is doing.
#[derive(Clone, Debug, PartialEq, Eq)]
pub enum RunActivity {
    /// Not running.
    Idle,
    /// Composing the next step.
    Thinking,
    /// Streaming model text.
    Streaming,
    /// Executing the named tool.
    RunningTool(String),
}

impl Default for RunActivity {
    fn default() -> (r: Self)
        ensures
            r == RunActivity::Idle,
    {
        RunActivity::Idle
    }
}

/// A run and its transcript.
#[derive(Clone, Debug, PartialEq)]
pub struct RunView {
    pub run_id: RunId,
    pub objective: String,
    pub mode: AgentMode,
    pub state: RunState,
    pub activity: RunActivity,
    /// The model serving the run, once known.
    pub model: Option<ModelId>,
    /// The worktree's name, once known.
    pub worktree: Option<String>,
    /// Use of the context window, in percent.
    pub context_percent: Option<u16>,
    /// Cost so far, in minor currency units.
    pub cost_minor: Option<u64>,
    pub disposition: Option<RunDisposition>,
    /// The transcript, in order.
    pub transcript: Vec<TranscriptEntry>,
    /// The selected entry.
    pub transcript_selected: usize,
    /// The scroll offset in rows, used while not following.
    pub scroll: u16,
    /// Whether the view stays at the latest content.
    pub follow: bool,
}

/// A registry item, as the Skill Studio shows it.
#[derive(Clone, Debug, PartialEq, Eq)]
pub struct SkillCard {
    pub name: String,
    pub kind: String,
    pub scope: String,
    pub trust: String,
    pub status: String,
    pub risk: String,
    pub description: String,
    /// The requested capabilities, each exactly as it was declared.
    pub permissions: Vec<String>,
}

/// A confidence between zero and one.
#[derive(Clone, Debug, PartialEq, Eq)]
pub struct Confidence {
    /// The bits of the single-precision value.
    pub bits: u32,
    /// The value with two decimals.
    pub shown: String,
}

/// A curated memory, as the memory browser shows it.
#[derive(Clone, Debug, PartialEq, Eq)]
pub struct MemoryCard {
    pub statement: String,
    pub class: String,
    pub scope: String,
    pub revision: String,
    pub observed: String,
    pub confidence: Confidence,
    /// The evidence that "open source" reveals.
    pub source: String,
}

/// A document, as the Docs Studio shows it.
#[derive(Clone, Debug, PartialEq, Eq)]
pub struct DocCard {
    pub document_id: DocumentId,
    pub title: String,
    pub scope: String,
    pub status: String,
    pub mode: String,
    pub revision: String,
    /// The blocks, in document order.
    pub blocks: Vec<DocBlockView>,
    /// The pending suggestions.
    pub suggestions: Vec<DocSuggestionView>,
}

/// A document block.
#[derive(Clone, Debug, PartialEq, Eq)]
pub struct DocBlockView {
    pub id: String,
    pub kind: String,
    pub text: String,
}

/// A pending suggestion.
#[derive(Clone, Debug, PartialEq, Eq)]
pub struct DocSuggestionView {
    pub id: String,
    pub status: String,
    pub author: String,
    pub range: String,
    pub replacement: String,
    pub rationale: Option<String>,
}

/// Which rail of the Docs Studio the keyboard drives.
#[derive(Clone, Copy, Debug, PartialEq, Eq, Structural)]
pub enum DocFocus {
    /// The document tree.
    Tree,
    /// The editor rail.
    Editor,
    /// The review rail.
    Review,
}

impl DocFocus {
    /// The rail that follows in `Tab` order.
    pub open spec fn following(self) -> DocFocus {
        match self {
            DocFocus::Tree => DocFocus::Editor,
            DocFocus::Editor => DocFocus::Review,
            DocFocus::Review => DocFocus::Tree,
        }
    }

    /// The next rail in `Tab` order.
    #[must_use]
    pub fn next(self) -> (r: Self)
        ensures
            r == self.following(),
    {
        match self {
            DocFocus::Tree => DocFocus::Editor,
            DocFocus::Editor => DocFocus::Review,
            DocFocus::Review => DocFocus::Tree,
        }
    }
}

impl Default for DocFocus {
    fn default() -> (r: Self)
        ensures
            r == DocFocus::Tree,
    {
        DocFocus::Tree
    }
}

/// `Tab` goes round the rails: three steps lead back, and no fewer.
pub proof fn law_rails_go_round(rail: DocFocus)
    ensures
        rail.following().following().following() == rail,
        rail.following() != rail,
        rail.following().following() != rail,
{
}

/// Where an edit lease stands.
#[derive(Clone, Copy, Debug, PartialEq, Eq, Structural)]
pub enum DocLeaseState {
    /// Asked for.
    Acquiring,
    /// Held.
    Held,
    /// Held by another writer.
    Blocked,
}

/// An edit under way: its lease, and the change that waits for it.
#[derive(Clone, Debug, PartialEq, Eq)]
pub struct DocEdit {
    pub document_id: DocumentId,
    pub block_id: Option<String>,
    pub lease: DocLeaseState,
    pub lease_id: Option<String>,
    pub pending: Option<DocumentMutation>,
}

/// A code-graph edge, as the inspector shows it.
#[derive(Clone, Debug, PartialEq, Eq)]
pub struct GraphEdgeCard {
    pub from: String,
    pub to: String,
    pub relation: String,
    pub confidence: Confidence,
    pub evidence_kind: String,
    pub evidence: String,
    pub revision: String,
}

/// A workflow node, as the workflow view shows it.
#[derive(Clone, Debug, PartialEq, Eq)]
pub struct WorkflowNodeCard {
    pub workflow: String,
    pub id: String,
    pub action: String,
    pub kind: String,
    pub state: String,
    pub agent: String,
    pub model_policy: String,
    pub workspace: String,
    pub approval: String,
    pub retry: String,
    pub depends_on: String,
    pub outputs: String,
    pub cost: String,
    pub error: String,
}

/// A blackboard artifact, as the blackboard view shows it.
#[derive(Clone, Debug, PartialEq, Eq)]
pub struct BlackboardItemCard {
    pub run: String,
    pub kind: String,
    pub summary: String,
    pub author: String,
    pub confidence: String,
    pub evidence: String,
    pub revision: String,
    pub superseded: bool,
}

/// Where a model runs.
#[derive(Clone, Copy, Debug, PartialEq, Eq, Structural)]
pub enum ModelLocationLabel {
    Local,
    Hosted,
}

/// A selectable model.
#[derive(Clone, Debug, PartialEq, Eq)]
pub struct ModelCard {
    pub id: ModelId,
    pub provider: String,
    pub location: Option<ModelLocationLabel>,
    pub cost_per_1k_usd: Option<Double>,
    pub context_tokens: Option<u64>,
}

/// Most transcript entries that a run retains.
pub const MAX_TRANSCRIPT_ENTRIES: usize = 2000;

/// Most bytes of one streamed model entry.
pub const MAX_MODEL_ENTRY_BYTES: usize = 262144;

/// What the status line is made of.
#[derive(Clone, Debug, PartialEq, Eq)]
pub struct StatusProjection {
    pub mode: Option<AgentMode>,
    pub run_state: Option<RunState>,
    pub model: Option<ModelId>,
    pub context_percent: Option<u16>,
    pub cost_minor: Option<u64>,
    pub worktree: Option<String>,
    pub pending_approvals: usize,
}

/// The shell's whole state.
#[derive(Clone, Debug, PartialEq)]
pub struct AppState {
    pub session_title: Option<String>,
    pub session_closed: bool,
    /// All runs, in order of arrival.
    pub runs: Vec<RunView>,
    pub selected_run: usize,
    pub pending_approvals: Vec<PendingApproval>,
    pub selected_approval: usize,
    pub skills: Vec<SkillCard>,
    pub selected_skill: usize,
    pub memories: Vec<MemoryCard>,
    pub selected_memory: usize,
    pub docs: Vec<DocCard>,
    pub selected_doc: usize,
    /// Into the blocks of the focused document.
    pub selected_block: usize,
    /// Into the suggestions of the focused document.
    pub selected_suggestion: usize,
    pub doc_focus: DocFocus,
    pub doc_edit: Option<DocEdit>,
    pub edges: Vec<GraphEdgeCard>,
    pub selected_edge: usize,
    pub workflow: Vec<WorkflowNodeCard>,
    pub selected_node: usize,
    pub blackboard: Vec<BlackboardItemCard>,
    pub selected_item: usize,
    pub models: Vec<ModelCard>,
    pub selected_model: usize,
    /// The model picked for the next run.
    pub pending_model: Option<ModelId>,
    pub focus: Pane,
    /// The draft in the composer.
    pub composer: String,
    pub layout: LayoutMode,
    /// The largest scroll offset of the last frame.
    pub transcript_max_scroll: u16,
    pub overlay: Overlay,
    /// The mode of the next run.
    pub default_mode: AgentMode,
    /// Whether the user has detached.
    pub should_detach: bool,
    pub tick: u64,
    /// A notice, and the tick at which it expires.
    pub notice: Option<(String, u64)>,
    /// What is to be sent to the daemon.
    pub outbox: Vec<Intent>,
}

/// What a new run looks like.
pub open spec fn is_new_run(run: RunView, run_id: RunId, objective: String, mode: AgentMode) -> bool {
    &&& run.run_id == run_id
    &&& run.objective == objective
    &&& run.mode == mode
    &&& run.state == RunState::Queued
    &&& run.activity == RunActivity::Idle
    &&& run.model is None
    &&& run.worktree is None
    &&& run.context_percent is None
    &&& run.cost_minor is None
    &&& run.disposition is None
    &&& run.transcript@.len() == 0
    &&& run.transcript_selected == 0
    &&& run.scroll == 0
    &&& run.follow
}

/// What a fresh state looks like: nothing attached, nothing open, nothing drafted.
pub open spec fn is_fresh(s: AppState) -> bool {
    &&& s.session_title is None
    &&& !s.session_closed
    &&& s.runs@.len() == 0
    &&& s.selected_run == 0
    &&& s.pending_approvals@.len() == 0
    &&& s.selected_approval == 0
    &&& s.skills@.len() == 0
    &&& s.selected_skill == 0
    &&& s.memories@.len() == 0
    &&& s.selected_memory == 0
    &&& s.docs@.len() == 0
    &&& s.selected_doc == 0
    &&& s.selected_block == 0
    &&& s.selected_suggestion == 0
    &&& s.doc_focus == DocFocus::Tree
    &&& s.doc_edit is None
    &&& s.edges@.len() == 0
    &&& s.selected_edge == 0
    &&& s.workflow@.len() == 0
    &&& s.selected_node == 0
    &&& s.blackboard@.len() == 0
    &&& s.selected_item == 0
    &&& s.models@.len() == 0
    &&& s.selected_model == 0
    &&& s.pending_model is None
    &&& s.focus == Pane::Sessions
    &&& s.composer@.len() == 0
    &&& s.layout == LayoutMode::Chat
    &&& s.transcript_max_scroll == 0
    &&& s.overlay == Overlay::Closed
    &&& s.default_mode == AgentMode::Build
    &&& !s.should_detach
    &&& s.tick == 0
    &&& s.notice is None
    &&& s.outbox@.len() == 0
}

/// The member of `v` at `i`, if there is one.
pub open spec fn at<T>(v: Seq<T>, i: usize) -> Option<T> {
    if i < v.len() {
        Some(v[i as int])
    } else {
        None
    }
}

/// Whether a run has come to its end.
pub open spec fn ended(state: RunState) -> bool {
    state == RunState::Completed || state == RunState::Failed || state == RunState::Cancelled
}

/// The place of the first of `runs` with the identity `run_id`.
pub open spec fn run_place(runs: Seq<RunView>, run_id: RunId) -> Option<int>
    decreases runs.len(),
{
    if runs.len() == 0 {
        None
    } else {
        match run_place(runs.drop_last(), run_id) {
            Some(i) => Some(i),
            None => if runs.last().run_id == run_id {
                Some(runs.len() - 1)
            } else {
                None
            },
        }
    }
}

/// How many of the oldest entries go when the transcript holds `n`.
pub open spec fn surplus(n: nat) -> nat {
    if n > MAX_TRANSCRIPT_ENTRIES {
        (n - MAX_TRANSCRIPT_ENTRIES) as nat
    } else {
        0
    }
}

/// `n` less `d`, and never less than nothing.
pub open spec fn less(n: int, d: nat) -> int {
    if n > d {
        n - d
    } else {
        0
    }
}

/// `after` is `before` with `entry` behind its transcript, the surplus gone from the front,
/// and the selection and the scroll offset moved along.
pub open spec fn entry_pushed(before: RunView, entry: TranscriptEntry, after: RunView) -> bool {
    let all = before.transcript@.push(entry);
    let gone = surplus(all.len());
    &&& after.transcript@ == all.skip(gone as int)
    &&& after.transcript_selected == less(before.transcript_selected as int, gone)
    &&& after.scroll == less(before.scroll as int, gone)
    &&& after == (RunView {
        transcript: after.transcript,
        transcript_selected: after.transcript_selected,
        scroll: after.scroll,
        ..before
    })
}

/// Whether `text` still fits into the last entry, which is model prose.
pub open spec fn continues(run: RunView, text: Seq<char>) -> bool {
    &&& run.transcript@.len() > 0
    &&& (run.transcript@.last() matches TranscriptEntry::Model { text: existing }
        && vstd::utf8::encode_utf8(existing@).len() + vstd::utf8::encode_utf8(text).len()
            <= MAX_MODEL_ENTRY_BYTES)
}

impl RunView {
    fn new(run_id: RunId, objective: String, mode: AgentMode) -> (r: Self)
        ensures
            is_new_run(r, run_id, objective, mode),
    {
        RunView {
            run_id,
            objective,
            mode,
            state: RunState::Queued,
            activity: RunActivity::Idle,
            model: None,
            worktree: None,
            context_percent: None,
            cost_minor: None,
            disposition: None,
            transcript: Vec::new(),
            transcript_selected: 0,
            scroll: 0,
            follow: true,
        }
    }
}

impl Default for AppState {
    fn default() -> (r: Self)
        ensures
            is_fresh(r),
    {
        AppState::new()
    }
}

impl AppState {
    /// A fresh state.
    #[must_use]
    pub fn new() -> (r: Self)
        ensures
            is_fresh(r),
    {
        AppState {
            session_title: None,
            session_closed: false,
            runs: Vec::new(),
            selected_run: 0,
            pending_approvals: Vec::new(),
            selected_approval: 0,
            skills: Vec::new(),
            selected_skill: 0,
            memories: Vec::new(),
            selected_memory: 0,
            docs: Vec::new(),
            selected_doc: 0,
            selected_block: 0,
            selected_suggestion: 0,
            doc_focus: DocFocus::Tree,
            doc_edit: None,
            edges: Vec::new(),
            selected_edge: 0,
            workflow: Vec::new(),
            selected_node: 0,
            blackboard: Vec::new(),
            selected_item: 0,
            models: Vec::new(),
            selected_model: 0,
            pending_model: None,
            focus: Pane::Sessions,
            composer: String::new(),
            layout: LayoutMode::Chat,
            transcript_max_scroll: 0,
            overlay: Overlay::Closed,
            default_mode: AgentMode::Build,
            should_detach: false,
            tick: 0,
            notice: None,
            outbox: Vec::new(),
        }
    }

    /// Whether the approval modal is up: an approval waits, and no overlay is open.
    pub open spec fn modal(self) -> bool {
        self.pending_approvals@.len() > 0 && self.overlay is Closed
    }

    /// How the next key is read in this state.
    pub open spec fn mode_of_input(self) -> InputMode {
        match self.overlay {
            Overlay::NewRun(_) | Overlay::Steering(_) | Overlay::DocEdit { .. } => {
                InputMode::Editing
            },
            Overlay::ConfirmCancel => InputMode::Confirm,
            Overlay::Palette { .. } | Overlay::ModelPicker { .. } => InputMode::Palette,
            Overlay::Closed => if self.modal() {
                InputMode::Approval
            } else {
                InputMode::Composer
            },
            _ => InputMode::Normal,
        }
    }

    /// The selected run.
    pub open spec fn run(self) -> Option<RunView> {
        at(self.runs@, self.selected_run)
    }

    /// The focused document.
    pub open spec fn doc(self) -> Option<DocCard> {
        at(self.docs@, self.selected_doc)
    }

    /// The input mode the next key is read in.
    #[must_use]
    pub fn input_mode(&self) -> (r: InputMode)
        ensures
            r == self.mode_of_input(),
    {
        match &self.overlay {
            Overlay::NewRun(_) | Overlay::Steering(_) | Overlay::DocEdit { .. } => {
                InputMode::Editing
            },
            Overlay::ConfirmCancel => InputMode::Confirm,
            Overlay::Palette { .. } | Overlay::ModelPicker { .. } => InputMode::Palette,
            Overlay::Closed => {
                if self.show_approval_modal() {
                    InputMode::Approval
                } else {
                    InputMode::Composer
                }
            },
            Overlay::Help
            | Overlay::Skills
            | Overlay::Memory { .. }
            | Overlay::Docs
            | Overlay::Edges
            | Overlay::Workflow
            | Overlay::Blackboard => InputMode::Normal,
        }
    }

    /// The selected run, if any.
    #[must_use]
    pub fn selected_run(&self) -> (r: Option<&RunView>)
        ensures
            r is Some <==> self.run() is Some,
            r matches Some(run) ==> *run == self.run()->0,
    {
        if self.selected_run < self.runs.len() {
            Some(&self.runs[self.selected_run])
        } else {
            None
        }
    }

    /// Whether the selected run still goes on.
    #[must_use]
    pub fn selected_run_is_active(&self) -> (r: bool)
        ensures
            r == (self.run() is Some && !ended(self.run()->0.state)),
    {
        match self.selected_run() {
            Some(run) => match run.state {
                RunState::Completed | RunState::Failed | RunState::Cancelled => false,
                _ => true,
            },
            None => false,
        }
    }

    /// Whether the approval modal is up.
    #[must_use]
    pub fn show_approval_modal(&self) -> (r: bool)
        ensures
            r == self.modal(),
    {
        match &self.overlay {
            Overlay::Closed => self.pending_approvals.len() > 0,
            _ => false,
        }
    }

    /// The focused approval, if any.
    #[must_use]
    pub fn focused_approval(&self) -> (r: Option<&PendingApproval>)
        ensures
            r is Some <==> self.selected_approval < self.pending_approvals@.len(),
            r matches Some(x) ==> *x == self.pending_approvals@[self.selected_approval as int],
    {
        if self.selected_approval < self.pending_approvals.len() {
            Some(&self.pending_approvals[self.selected_approval])
        } else {
            None
        }
    }

    /// The focused skill, if any.
    #[must_use]
    pub fn focused_skill(&self) -> (r: Option<&SkillCard>)
        ensures
            r is Some <==> self.selected_skill < self.skills@.len(),
            r matches Some(x) ==> *x == self.skills@[self.selected_skill as int],
    {
        if self.selected_skill < self.skills.len() {
            Some(&self.skills[self.selected_skill])
        } else {
            None
        }
    }

    /// The focused memory, if any.
    #[must_use]
    pub fn focused_memory(&self) -> (r: Option<&MemoryCard>)
        ensures
            r is Some <==> self.selected_memory < self.memories@.len(),
            r matches Some(x) ==> *x == self.memories@[self.selected_memory as int],
    {
        if self.selected_memory < self.memories.len() {
            Some(&self.memories[self.selected_memory])
        } else {
            None
        }
    }

    /// The focused document, if any.
    #[must_use]
    pub fn focused_doc(&self) -> (r: Option<&DocCard>)
        ensures
            r is Some <==> self.doc() is Some,
            r matches Some(x) ==> *x == self.doc()->0,
    {
        if self.selected_doc < self.docs.len() {
            Some(&self.docs[self.selected_doc])
        } else {
            None
        }
    }

    /// The focused block of the focused document, if any.
    #[must_use]
    pub fn focused_block(&self) -> (r: Option<&DocBlockView>)
        ensures
            r is Some <==> self.doc() is Some && self.selected_block < self.doc()->0.blocks@.len(),
            r matches Some(x) ==> *x == self.doc()->0.blocks@[self.selected_block as int],
    {
        match self.focused_doc() {
            Some(doc) => if self.selected_block < doc.blocks.len() {
                Some(&doc.blocks[self.selected_block])
            } else {
                None
            },
            None => None,
        }
    }

    /// The focused suggestion of the focused document, if any.
    #[must_use]
    pub fn focused_suggestion(&self) -> (r: Option<&DocSuggestionView>)
        ensures
            r is Some <==> self.doc() is Some && self.selected_suggestion
                < self.doc()->0.suggestions@.len(),
            r matches Some(x) ==> *x == self.doc()->0.suggestions@[self.selected_suggestion as int],
    {
        match self.focused_doc() {
            Some(doc) => if self.selected_suggestion < doc.suggestions.len() {
                Some(&doc.suggestions[self.selected_suggestion])
            } else {
                None
            },
            None => None,
        }
    }

    /// The focused edge, if any.
    #[must_use]
    pub fn focused_edge(&self) -> (r: Option<&GraphEdgeCard>)
        ensures
            r is Some <==> self.selected_edge < self.edges@.len(),
            r matches Some(x) ==> *x == self.edges@[self.selected_edge as int],
    {
        if self.selected_edge < self.edges.len() {
            Some(&self.edges[self.selected_edge])
        } else {
            None
        }
    }

    /// The focused workflow node, if any.
    #[must_use]
    pub fn focused_node(&self) -> (r: Option<&WorkflowNodeCard>)
        ensures
            r is Some <==> self.selected_node < self.workflow@.len(),
            r matches Some(x) ==> *x == self.workflow@[self.selected_node as int],
    {
        if self.selected_node < self.workflow.len() {
            Some(&self.workflow[self.selected_node])
        } else {
            None
        }
    }

    /// The focused blackboard item, if any.
    #[must_use]
    pub fn focused_item(&self) -> (r: Option<&BlackboardItemCard>)
        ensures
            r is Some <==> self.selected_item < self.blackboard@.len(),
            r matches Some(x) ==> *x == self.blackboard@[self.selected_item as int],
    {
        if self.selected_item < self.blackboard.len() {
            Some(&self.blackboard[self.selected_item])
        } else {
            None
        }
    }

    /// The focused model, if any.
    #[must_use]
    pub fn focused_model(&self) -> (r: Option<&ModelCard>)
        ensures
            r is Some <==> self.selected_model < self.models@.len(),
            r matches Some(x) ==> *x == self.models@[self.selected_model as int],
    {
        if self.selected_model < self.models.len() {
            Some(&self.models[self.selected_model])
        } else {
            None
        }
    }

    /// The status line's fields: those of the selected run, and how many approvals wait.
    #[must_use]
    pub fn status(&self) -> (r: StatusProjection)
        ensures
            r.pending_approvals == self.pending_approvals@.len(),
            match self.run() {
                Some(run) => {
                    &&& r.mode == Some(run.mode)
                    &&& r.run_state == Some(run.state)
                    &&& r.model == run.model
                    &&& r.context_percent == run.context_percent
                    &&& r.cost_minor == run.cost_minor
                    &&& r.worktree == run.worktree
                },
                None => {
                    &&& r.mode is None
                    &&& r.run_state is None
                    &&& r.model is None
                    &&& r.context_percent is None
                    &&& r.cost_minor is None
                    &&& r.worktree is None
                },
            },
    {
        let pending_approvals: usize = self.pending_approvals.len();
        match self.selected_run() {
            Some(run) => StatusProjection {
                mode: Some(run.mode),
                run_state: Some(run.state),
                model: match &run.model {
                    Some(model) => Some(model.clone()),
                    None => None,
                },
                context_percent: run.context_percent,
                cost_minor: run.cost_minor,
                worktree: match &run.worktree {
                    Some(worktree) => Some(worktree.clone()),
                    None => None,
                },
                pending_approvals,
            },
            None => StatusProjection {
                mode: None,
                run_state: None,
                model: None,
                context_percent: None,
                cost_minor: None,
                worktree: None,
                pending_approvals,
            },
        }
    }

    /// Takes what is to be sent, and leaves the outbox empty.
    pub fn drain_outbox(&mut self) -> (r: Vec<Intent>)
        ensures
            r@ == old(self).outbox@,
            final(self).outbox@.len() == 0,
            *final(self) == (AppState { outbox: final(self).outbox, ..*old(self) }),
    {
        let mut taken: Vec<Intent> = Vec::new();
        std::mem::swap(&mut taken, &mut self.outbox);
        taken
    }

    /// The place of the run with the identity `run_id`, if it is known.
    fn place_of_run(&self, run_id: RunId) -> (r: Option<usize>)
        ensures
            r is Some <==> run_place(self.runs@, run_id) is Some,
            r matches Some(i) ==> i < self.runs@.len() && run_place(self.runs@, run_id) == Some(i as int),
    {
        let mut i: usize = 0;
        proof {
            assert(self.runs@.take(0).len() == 0);
        }
        while i < self.runs.len()
            invariant
                i <= self.runs@.len(),
                run_place(self.runs@.take(i as int), run_id) is None,
            decreases self.runs@.len() - i,
        {
            proof {
                assert(self.runs@.take(i + 1).drop_last() =~= self.runs@.take(i as int));
            }
            if self.runs[i].run_id == run_id {
                proof {
                    lemma_place_stays(self.runs@, run_id, i + 1);
                }
                return Some(i);
            }
            i = i + 1;
        }
        proof {
            assert(self.runs@.take(self.runs@.len() as int) =~= self.runs@);
        }
        None
    }

    /// The run with the identity `run_id`, to be changed, if it is known.
    pub fn run_mut(&mut self, run_id: RunId) -> (r: Option<&mut RunView>)
        ensures
            match run_place(old(self).runs@, run_id) {
                Some(i) => (r matches Some(run) && *run == old(self).runs@[i]
                    && final(self).runs@ == old(self).runs@.update(i, *final(run))
                    && *final(self) == (AppState { runs: final(self).runs, ..*old(self) })),
                None => r is None && *final(self) == *old(self),
            },
    {
        match self.place_of_run(run_id) {
            Some(i) => Some(&mut self.runs[i]),
            None => None,
        }
    }

    /// The run with the identity `run_id`, to be changed. One that is not known yet is
    /// added, and selected unless a message is being drafted; one that is known keeps its
    /// place, and the selection stays.
    pub fn ensure_run(&mut self, run_id: RunId, objective: String, mode: AgentMode) -> (r:
        &mut RunView)
        ensures
            match run_place(old(self).runs@, run_id) {
                Some(i) => {
                    &&& *r == old(self).runs@[i]
                    &&& final(self).runs@ == old(self).runs@.update(i, *final(r))
                    &&& *final(self) == (AppState { runs: final(self).runs, ..*old(self) })
                },
                None => {
                    &&& is_new_run(*r, run_id, objective, mode)
                    &&& final(self).runs@ == old(self).runs@.push(*final(r))
                    &&& final(self).selected_run == if old(self).composer@.len() == 0 {
                        old(self).runs@.len()
                    } else {
                        old(self).selected_run as nat
                    }
                    &&& *final(self) == (AppState {
                        runs: final(self).runs,
                        selected_run: final(self).selected_run,
                        ..*old(self)
                    })
                },
            },
    {
        match self.place_of_run(run_id) {
            Some(i) => &mut self.runs[i],
            None => {
                self.runs.push(RunView::new(run_id, objective, mode));
                let last: usize = self.runs.len() - 1;
                if self.composer.as_str().unicode_len() == 0 {
                    self.selected_run = last;
                }
                &mut self.runs[last]
            },
        }
    }

    /// The selected run, to be changed, if there is one.
    pub fn selected_run_mut(&mut self) -> (r: Option<&mut RunView>)
        ensures
            if old(self).selected_run < old(self).runs@.len() {
                (r matches Some(run) && *run == old(self).runs@[old(self).selected_run as int]
                    && final(self).runs@ == old(self).runs@.update(
                    old(self).selected_run as int,
                    *final(run),
                ) && *final(self) == (AppState { runs: final(self).runs, ..*old(self) }))
            } else {
                r is None && *final(self) == *old(self)
            },
    {
        let i: usize = self.selected_run;
        if i < self.runs.len() {
            Some(&mut self.runs[i])
        } else {
            None
        }
    }

    /// Appends model prose: to the last entry where that is model prose and has room, else
    /// as an entry of its own.
    pub fn append_model_text(run: &mut RunView, text: &str)
        ensures
            continues(*old(run), text@) ==> {
                let n = old(run).transcript@.len() - 1;
                &&& final(run).transcript@.len() == n + 1
                &&& final(run).transcript@.take(n) == old(run).transcript@.take(n)
                &&& (final(run).transcript@[n] matches TranscriptEntry::Model { text: grown }
                    && grown@ == old(run).transcript@[n]->Model_text@ + text@)
                &&& *final(run) == (RunView { transcript: final(run).transcript, ..*old(run) })
            },
            !continues(*old(run), text@) ==> exists|entry: TranscriptEntry|
                #[trigger] entry_pushed(*old(run), entry, *final(run)) && (entry matches
                    TranscriptEntry::Model { text: own } && own@ == text@),
    {
        let n: usize = run.transcript.len();
        if n > 0 {
            let grown: Option<String> = match &run.transcript[n - 1] {
                TranscriptEntry::Model { text: existing } => {
                    let used: usize = existing.as_str().as_bytes().len();
                    let more: usize = text.as_bytes().len();
                    if used <= MAX_MODEL_ENTRY_BYTES && more <= MAX_MODEL_ENTRY_BYTES - used {
                        Some(crate::text::concat2(existing.as_str(), text))
                    } else {
                        None
                    }
                },
                _ => None,
            };
            if let Some(whole) = grown {
                run.transcript.set(n - 1, TranscriptEntry::Model { text: whole });
                proof {
                    assert(run.transcript@.take(n - 1) =~= old(run).transcript@.take(n - 1));
                }
                return ;
            }
        }
        let entry: TranscriptEntry = TranscriptEntry::Model { text: text.to_owned() };
        let ghost kept = entry;
        Self::push_entry(run, entry);
        proof {
            assert(entry_pushed(*old(run), kept, *run));
        }
    }

    /// Appends an entry, and drops the oldest where the transcript grows past
    /// [`MAX_TRANSCRIPT_ENTRIES`]; the selection and the scroll offset move along.
    pub fn push_entry(run: &mut RunView, entry: TranscriptEntry)
        ensures
            entry_pushed(*old(run), entry, *final(run)),
    {
        let ghost all = run.transcript@.push(entry);
        run.transcript.push(entry);
        let ghost mut gone: nat = 0;
        proof {
            assert(all.skip(0) =~= all);
        }
        while run.transcript.len() > MAX_TRANSCRIPT_ENTRIES
            invariant
                gone <= surplus(all.len()),
                run.transcript@ == all.skip(gone as int),
                run.transcript_selected == less(old(run).transcript_selected as int, gone),
                run.scroll == less(old(run).scroll as int, gone),
                *run == (RunView {
                    transcript: run.transcript,
                    transcript_selected: run.transcript_selected,
                    scroll: run.scroll,
                    ..*old(run)
                }),
            decreases run.transcript@.len(),
        {
            let first: TranscriptEntry = run.transcript.remove(0);
            run.transcript_selected = run.transcript_selected.saturating_sub(1);
            run.scroll = run.scroll.saturating_sub(1);
            proof {
                assert(run.transcript@ =~= all.skip((gone + 1) as int));
                gone = gone + 1;
            }
        }
    }
}

/// Once a run is found in the first `n`, it is found there in the whole.
proof fn lemma_place_stays(runs: Seq<RunView>, run_id: RunId, n: int)
    requires
        0 <= n <= runs.len(),
        run_place(runs.take(n), run_id) is Some,
    ensures
        run_place(runs, run_id) == run_place(runs.take(n), run_id),
    decreases runs.len(),
{
    if n == runs.len() {
        assert(runs.take(n) =~= runs);
    } else {
        assert(runs.drop_last().take(n) =~= runs.take(n));
        lemma_place_stays(runs.drop_last(), run_id, n);
    }
}

/// However many entries come, a transcript never holds more than its bound.
pub proof fn law_transcripts_stay_bounded(before: RunView, entry: TranscriptEntry, after: RunView)
    requires
        entry_pushed(before, entry, after),
    ensures
        after.transcript@.len() <= MAX_TRANSCRIPT_ENTRIES,
        after.transcript@.last() == entry,
{
}

/// Dropping the oldest entries leaves the selection on the entry it was on, as long as
/// that entry is still there.
pub proof fn law_the_selected_entry_stays_selected(
    before: RunView,
    entry: TranscriptEntry,
    after: RunView,
)
    requires
        entry_pushed(before, entry, after),
        surplus(before.transcript@.len() + 1) <= before.transcript_selected
            < before.transcript@.len(),
    ensures
        after.transcript@[after.transcript_selected as int]
            == before.transcript@[before.transcript_selected as int],
{
}

/// While an approval waits and nothing else is open, the next key is a decision; a draft is
/// never typed past it.
pub proof fn law_an_approval_owns_the_screen(s: AppState)
    ensures
        s.mode_of_input() == InputMode::Approval <==> s.modal(),
        s.modal() ==> s.overlay is Closed,
{
}

/// The query as it is compared: without the white space around it, in lower case.
pub open spec fn folded(query: Seq<char>) -> Seq<char> {
    if crate::text::trimmed(query).len() == 0 {
        Seq::<char>::empty()
    } else {
        crate::text::lowercase_of(crate::text::trimmed(query))
    }
}

/// A text that a filter compares, one per searched field.
pub open spec fn any_holds(fields: Seq<Seq<char>>, needle: Seq<char>) -> bool {
    exists|i: int| 0 <= i < fields.len() && crate::text::occurs(#[trigger] fields[i], needle)
}

/// The places, of the first `n` rows, whose fields hold the needle. An empty needle is held
/// by every row.
pub open spec fn matching(rows: Seq<Seq<Seq<char>>>, n: int, needle: Seq<char>) -> Seq<int>
    decreases n,
{
    if n <= 0 {
        Seq::<int>::empty()
    } else {
        let before = matching(rows, n - 1, needle);
        if needle.len() == 0 || any_holds(rows[n - 1], needle) {
            before.push(n - 1)
        } else {
            before
        }
    }
}

/// The fields of rows.
pub open spec fn row_texts(rows: Seq<Vec<String>>) -> Seq<Seq<Seq<char>>> {
    Seq::new(rows.len(), |i: int| crate::text::texts(rows[i]@))
}

/// Places as integers.
pub open spec fn places(v: Seq<usize>) -> Seq<int> {
    Seq::new(v.len(), |i: int| v[i] as int)
}

/// The places of the rows whose fields, given in lower case, hold the needle, in order.
pub fn match_rows(rows: &Vec<Vec<String>>, needle: &String) -> (out: Vec<usize>)
    ensures
        places(out@) == matching(row_texts(rows@), rows@.len() as int, needle@),
{
    let empty: bool = needle.as_str().unicode_len() == 0;
    let mut out: Vec<usize> = Vec::new();
    let mut i: usize = 0;
    proof {
        assert(places(out@) =~= Seq::<int>::empty());
    }
    while i < rows.len()
        invariant
            i <= rows@.len(),
            empty == (needle@.len() == 0),
            places(out@) == matching(row_texts(rows@), i as int, needle@),
        decreases rows@.len() - i,
    {
        let row: &Vec<String> = &rows[i];
        let ghost fields = crate::text::texts(row@);
        let mut found: bool = empty;
        let mut k: usize = 0;
        while k < row.len()
            invariant
                k <= row@.len(),
                fields == crate::text::texts(row@),
                empty == (needle@.len() == 0),
                found == (empty || exists|j: int|
                    0 <= j < k && crate::text::occurs(#[trigger] fields[j], needle@)),
            decreases row@.len() - k,
        {
            proof {
                assert(fields[k as int] == row@[k as int]@);
            }
            if crate::text::contains_text(row[k].as_str(), needle.as_str()) {
                found = true;
            }
            k = k + 1;
        }
        let ghost before = places(out@);
        proof {
            assert(row_texts(rows@)[i as int] == fields);
        }
        if found {
            out.push(i);
            proof {
                assert(places(out@) =~= before.push(i as int));
            }
        }
        i = i + 1;
    }
    out
}

/// The query as it is compared.
pub(crate) fn fold(query: &str) -> (out: String)
    ensures
        out@ == folded(query@),
{
    let core: String = crate::text::trim(query);
    if core.as_str().unicode_len() == 0 {
        let none: String = String::new();
        proof {
            assert(none@ =~= Seq::<char>::empty());
        }
        none
    } else {
        crate::text::lowercase(core.as_str())
    }
}

/// What a model is found by: its name and its provider, in lower case.
pub open spec fn model_fields(models: Seq<ModelCard>) -> Seq<Seq<Seq<char>>> {
    Seq::new(
        models.len(),
        |i: int|
            seq![
                crate::text::lowercase_of(models[i].id.0@),
                crate::text::lowercase_of(models[i].provider@),
            ],
    )
}

/// The places of the models whose name or provider holds `query`, whatever the case, in
/// list order. An empty query finds every model.
#[must_use]
pub fn filter_models(models: &Vec<ModelCard>, query: &str) -> (out: Vec<usize>)
    ensures
        places(out@) == matching(model_fields(models@), models@.len() as int, folded(query@)),
{
    let mut rows: Vec<Vec<String>> = Vec::new();
    let mut i: usize = 0;
    while i < models.len()
        invariant
            i <= models@.len(),
            rows@.len() == i,
            forall|k: int| #![trigger rows@[k]]
                0 <= k < i ==> crate::text::texts(rows@[k]@) == model_fields(models@)[k],
        decreases models@.len() - i,
    {
        let mut row: Vec<String> = Vec::new();
        row.push(crate::text::lowercase(models[i].id.0.as_str()));
        row.push(crate::text::lowercase(models[i].provider.as_str()));
        proof {
            assert(crate::text::texts(row@) =~= model_fields(models@)[i as int]);
        }
        rows.push(row);
        i = i + 1;
    }
    proof {
        assert(row_texts(rows@) =~= model_fields(models@));
    }
    let needle: String = fold(query);
    match_rows(&rows, &needle)
}

/// A blank query leaves every row, in order.
pub proof fn law_a_blank_query_finds_everything(rows: Seq<Seq<Seq<char>>>, query: Seq<char>)
    requires
        crate::text::blank(query),
    ensures
        matching(rows, rows.len() as int, folded(query)) == Seq::new(rows.len(), |i: int| i),
{
    crate::text::lemma_trimmed_blank(query);
    lemma_all_match(rows, rows.len() as int);
}

proof fn lemma_all_match(rows: Seq<Seq<Seq<char>>>, n: int)
    requires
        0 <= n <= rows.len(),
    ensures
        matching(rows, n, Seq::<char>::empty()) == Seq::new(n as nat, |i: int| i),
    decreases n,
{
    if n > 0 {
        lemma_all_match(rows, n - 1);
    }
    assert(matching(rows, n, Seq::<char>::empty()) =~= Seq::new(n as nat, |i: int| i));
}

/// What a filter leaves is in order, and exactly the rows that hold the needle.
pub proof fn law_a_filter_keeps_order(rows: Seq<Seq<Seq<char>>>, n: int, needle: Seq<char>)
    requires
        0 <= n <= rows.len(),
    ensures
        forall|i: int, j: int| #![trigger matching(rows, n, needle)[i], matching(rows, n, needle)[j]]
            0 <= i < j < matching(rows, n, needle).len() ==> matching(rows, n, needle)[i]
                < matching(rows, n, needle)[j],
        forall|k: int| #[trigger]
            matching(rows, n, needle).contains(k) == (0 <= k < n && (needle.len() == 0 || any_holds(
                rows[k],
                needle,
            ))),
    decreases n,
{
    if n > 0 {
        law_a_filter_keeps_order(rows, n - 1, needle);
        let before = matching(rows, n - 1, needle);
        let all = matching(rows, n, needle);
        assert forall|i: int, j: int| #![trigger all[i], all[j]] 0 <= i < j < all.len() implies all[i]
            < all[j] by {
            assert(before.contains(before[i])) by {
                if i < before.len() {
                    assert(before[i] == before[i]);
                }
            }
        }
        assert forall|k: int| #[trigger]
            all.contains(k) == (0 <= k < n && (needle.len() == 0 || any_holds(
            rows[k],
            needle,
        ))) by {
            let here = rows[k];
            assert(before.contains(k) == (0 <= k < n - 1 && (needle.len() == 0 || any_holds(
                here,
                needle,
            ))));
            if all.contains(k) {
                let w = choose|w: int| 0 <= w < all.len() && all[w] == k;
                if w < before.len() {
                    assert(before[w] == k);
                    assert(before.contains(k));
                }
            }
            if before.contains(k) {
                let w = choose|w: int| 0 <= w < before.len() && before[w] == k;
                assert(all[w] == k);
                assert(all.contains(k));
            }
            if k == n - 1 && (needle.len() == 0 || any_holds(here, needle)) {
                assert(all[all.len() - 1] == k);
                assert(all.contains(k));
            }
        }
    } else {
        assert(matching(rows, n, needle).len() == 0);
    }
}

} // verus!
