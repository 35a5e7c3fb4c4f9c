//! Semantic actions: everything that can change what the shell shows.
use vstd::prelude::*;

use crate::tui::protocol::{
    AgentMode, ApprovalDecision, ApprovalId, ApprovalScope, RunId, SessionEvent,
};
use crate::tui::state::Pane;

verus! {

/// A semantic action.
#[derive(Clone, Debug, PartialEq)]
pub enum Action {
    /// A durable daemon event.
    DaemonEvent(Box<SessionEvent>),
    /// What a session looks like that is too far ahead for its events to be replayed: its
    /// title, whether it is closed, and its active runs.
    CatchupSnapshot { title: String, closed: bool, runs: Vec<RunId> },
    /// A periodic timer tick.
    Tick,
    /// A transient notice for the status line.
    Notice(String),
    /// Move keyboard focus to the next pane.
    CyclePane,
    /// Move keyboard focus to a pane.
    FocusPane(Pane),
    /// Select the previous item.
    SelectPrev,
    /// Select the next item.
    SelectNext,
    /// Scroll the transcript up a page.
    ScrollPageUp,
    /// Scroll the transcript down a page.
    ScrollPageDown,
    /// Open the selected item.
    Expand,
    /// Switch the conversation to the previous run.
    PrevRun,
    /// Switch the conversation to the next run.
    NextRun,
    /// Open the new-run prompt.
    NewRun,
    /// Pause the selected run, or resume it.
    Pause,
    /// Ask to cancel the selected run.
    Cancel,
    /// Confirm a pending cancel.
    ConfirmCancel,
    /// Open the steering prompt.
    Steer,
    /// Approve the focused approval, once or for its run.
    Approve(ApprovalScope),
    /// Reject the focused approval.
    Reject,
    /// Append a character to the open buffer.
    InputChar(char),
    /// Insert pasted text into the open buffer.
    InputPaste(String),
    /// Delete the last character of the open buffer.
    InputBackspace,
    /// Submit the open buffer.
    InputSubmit,
    /// Abandon the open buffer.
    InputCancel,
    /// Toggle the Skill Studio browser.
    OpenSkills,
    /// Toggle the memory browser.
    OpenMemory,
    /// Reveal the focused memory's source.
    OpenSource,
    /// Toggle the Docs Studio browser.
    OpenDocs,
    /// Toggle the code-graph edge inspector.
    OpenEdges,
    /// Toggle the workflow-graph view.
    OpenWorkflow,
    /// Toggle the blackboard view.
    OpenBlackboard,
    /// Toggle the command palette.
    OpenPalette,
    /// Flip between the chat column and the workspace panes.
    ToggleLayout,
    /// Toggle the help overlay.
    Help,
    /// Detach this client. Runs go on.
    Detach,
    /// Dismiss the top-most overlay.
    Dismiss,
    /// Nothing: an event that was recognized and means nothing here.
    NoOp,
}

impl Action {
    /// The action that carries `event`.
    #[must_use]
    pub fn daemon_event(event: SessionEvent) -> (r: Self)
        ensures
            r == Action::DaemonEvent(Box::new(event)),
    {
        Action::DaemonEvent(Box::new(event))
    }
}

/// A command that the shell wants sent to the daemon.
#[derive(Clone, Debug, PartialEq)]
pub enum Intent {
    /// Start a new run in the attached session.
    StartRun { objective: String, mode: AgentMode },
    /// Resolve a pending approval.
    ResolveApproval {
        approval_id: ApprovalId,
        decision: ApprovalDecision,
        scope: ApprovalScope,
    },
    /// Pause a run.
    PauseRun { run_id: RunId },
    /// Resume a paused run.
    ResumeRun { run_id: RunId },
    /// Cancel a run.
    CancelRun { run_id: RunId },
    /// Queue steering text for the next safe point.
    QueueSteering { run_id: RunId, text: String },
}

} // verus!
