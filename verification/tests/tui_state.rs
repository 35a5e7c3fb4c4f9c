//! What the terminal shell keeps.
use codypendent::tui::action::{Action, Intent};
use codypendent::tui::protocol::{
    AgentMode, ApprovalId, ModelId, ProposedAction, Risk, RiskLevel, RunId, RunState, SessionEvent,
};
use codypendent::tui::state::{
    filter_models, match_rows, AppState, DocFocus, InputMode, LayoutMode, ModelCard, Overlay, Pane,
    PendingApproval, RunView, TranscriptEntry, MAX_MODEL_ENTRY_BYTES, MAX_TRANSCRIPT_ENTRIES,
};

fn run(state: &mut AppState) -> &mut RunView {
    state.ensure_run(RunId(1), "objective".to_owned(), AgentMode::Plan)
}

fn approval() -> PendingApproval {
    PendingApproval {
        approval_id: ApprovalId(1),
        action: ProposedAction::GitCommit {
            repository: "r".to_owned(),
        },
        risk: Risk {
            level: RiskLevel::Low,
            reasons: vec![],
        },
        run_id: None,
    }
}

#[test]
fn panes_layouts_and_rails_go_round() {
    assert_eq!(Pane::Sessions.next(), Pane::Transcript);
    assert_eq!(Pane::Sessions.next().next().next(), Pane::Sessions);
    assert_eq!(LayoutMode::Chat.toggled(), LayoutMode::Workspace);
    assert_eq!(LayoutMode::Chat.toggled().toggled(), LayoutMode::Chat);
    assert_eq!(DocFocus::Tree.next().next().next(), DocFocus::Tree);
}

#[test]
fn a_run_is_entered_once() {
    let mut state = AppState::new();
    run(&mut state).state = RunState::Running;
    run(&mut state);
    assert_eq!(state.runs.len(), 1);
    assert_eq!(state.runs[0].state, RunState::Running);
    assert!(state.run_mut(RunId(1)).is_some());
    assert!(state.run_mut(RunId(2)).is_none());
    assert!(state.selected_run_is_active());
    state.selected_run_mut().unwrap().state = RunState::Completed;
    assert!(!state.selected_run_is_active());
    assert_eq!(state.status().mode, Some(AgentMode::Plan));
}

#[test]
fn streamed_text_is_coalesced() {
    let mut state = AppState::new();
    let run = run(&mut state);
    AppState::append_model_text(run, "one ");
    AppState::append_model_text(run, "two");
    assert_eq!(run.transcript.len(), 1);
    AppState::push_entry(run, TranscriptEntry::Steering { applied: true });
    AppState::append_model_text(run, "three");
    assert_eq!(run.transcript.len(), 3);
    assert!(matches!(
        &run.transcript[0],
        TranscriptEntry::Model { text } if text == "one two"
    ));
}

#[test]
fn an_entry_of_text_does_not_grow_for_ever() {
    let mut state = AppState::new();
    let run = run(&mut state);
    let chunk = "x".repeat(MAX_MODEL_ENTRY_BYTES);
    AppState::append_model_text(run, &chunk);
    AppState::append_model_text(run, "y");
    let kept: usize = run
        .transcript
        .iter()
        .map(|e| match e {
            TranscriptEntry::Model { text } => text.len(),
            _ => 0,
        })
        .sum();
    assert_eq!(run.transcript.len(), 2);
    assert_eq!(kept, MAX_MODEL_ENTRY_BYTES + 1);
}

#[test]
fn transcripts_stay_bounded() {
    let mut state = AppState::new();
    let run = run(&mut state);
    for _ in 0..MAX_TRANSCRIPT_ENTRIES {
        AppState::push_entry(run, TranscriptEntry::Steering { applied: true });
    }
    run.transcript_selected = 5;
    AppState::push_entry(run, TranscriptEntry::Steering { applied: false });
    assert_eq!(run.transcript.len(), MAX_TRANSCRIPT_ENTRIES);
    assert_eq!(run.transcript_selected, 4);
    assert!(matches!(
        run.transcript[MAX_TRANSCRIPT_ENTRIES - 1],
        TranscriptEntry::Steering { applied: false }
    ));
}

#[test]
fn what_is_up_decides_how_keys_are_read() {
    let mut state = AppState::new();
    assert_eq!(state.input_mode(), InputMode::Composer);
    state.pending_approvals.push(approval());
    assert_eq!(state.input_mode(), InputMode::Approval);
    assert!(state.show_approval_modal());
    assert!(state.focused_approval().is_some());
    state.overlay = Overlay::Help;
    assert_eq!(state.input_mode(), InputMode::Normal);
    assert!(!state.show_approval_modal());
    state.overlay = Overlay::NewRun(String::new());
    assert_eq!(state.input_mode(), InputMode::Editing);
    state.overlay = Overlay::ConfirmCancel;
    assert_eq!(state.input_mode(), InputMode::Confirm);
    state.overlay = Overlay::Palette {
        query: String::new(),
        selected: 0,
    };
    assert_eq!(state.input_mode(), InputMode::Palette);
}

#[test]
fn nothing_is_focused_in_an_empty_state() {
    let state = AppState::new();
    assert!(state.selected_run().is_none());
    assert!(state.focused_approval().is_none());
    assert!(state.focused_skill().is_none());
    assert!(state.focused_memory().is_none());
    assert!(state.focused_doc().is_none());
    assert!(state.focused_block().is_none());
    assert!(state.focused_suggestion().is_none());
    assert!(state.focused_edge().is_none());
    assert!(state.focused_node().is_none());
    assert!(state.focused_item().is_none());
    assert!(state.focused_model().is_none());
    assert_eq!(state.status().pending_approvals, 0);
}

#[test]
fn the_outbox_is_drained_once() {
    let mut state = AppState::new();
    state.outbox.push(Intent::PauseRun { run_id: RunId(1) });
    assert_eq!(state.drain_outbox(), [Intent::PauseRun { run_id: RunId(1) }]);
    assert!(state.drain_outbox().is_empty());
}

#[test]
fn rows_match_in_order() {
    let rows = vec![
        vec!["alpha".to_owned(), "one".to_owned()],
        vec!["beta".to_owned()],
        vec!["gamma".to_owned(), "alphabet".to_owned()],
    ];
    assert_eq!(match_rows(&rows, &"alpha".to_owned()), [0, 2]);
    assert_eq!(match_rows(&rows, &String::new()), [0, 1, 2]);
    assert!(match_rows(&rows, &"z".to_owned()).is_empty());
}

#[test]
fn models_are_found_whatever_the_case() {
    let model = |id: &str, provider: &str| ModelCard {
        id: ModelId(id.to_owned()),
        provider: provider.to_owned(),
        location: None,
        cost_per_1k_usd: None,
        context_tokens: None,
    };
    let models = vec![model("ÄLPHA-1", "acme"), model("beta", "Älpine")];
    assert_eq!(filter_models(&models, "älp"), [0, 1]);
    assert_eq!(filter_models(&models, "  "), [0, 1]);
    assert_eq!(filter_models(&models, "ACME"), [0]);
    assert!(filter_models(&models, "zzz").is_empty());
}

#[test]
fn events_are_boxed_whole() {
    let event = SessionEvent {
        sequence: 7,
        body: "{}".to_owned(),
    };
    assert_eq!(
        Action::daemon_event(event.clone()),
        Action::DaemonEvent(Box::new(event))
    );
}
