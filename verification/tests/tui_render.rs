//! What the screen shows.
use codypendent::tui::panes::{max_scroll_offset, padding};
use codypendent::tui::protocol::{
    AgentMode, ApprovalId, ArtifactId, ArtifactRef, BudgetDimension, ChangeSetId, DocumentId,
    ModelId, ProposedAction, Risk, RiskLevel, RunDisposition, RunId, RunState, ToolOutcome,
};
use codypendent::tui::render::{centered, render, Room, Screen};
use codypendent::tui::state::{
    AppState, BlackboardItemCard, Confidence, DocBlockView, DocCard, DocSuggestionView,
    GraphEdgeCard, LayoutMode, MemoryCard, ModelCard, ModelLocationLabel, Overlay, Pane,
    PatchSummary, PendingApproval, SkillCard, ToolCard, ToolStatus, TranscriptEntry,
    WorkflowNodeCard,
};
use codypendent::tui::labels::{
    describe_action, disposition_display, edge_confidence_color, format_cost,
};
use codypendent::number::Double;
use codypendent::tui::theme::{Color, Style, Theme};
use codypendent::tui::transcript::{entry_lines, short_id};
use codypendent::tui::view::{Block, Body, Line, Popup, Row, Span};

fn line_text(line: &Line) -> String {
    line.spans.iter().map(|s| s.text.as_str()).collect()
}

fn push_lines(out: &mut String, lines: &[Line]) {
    for line in lines {
        out.push_str(&line_text(line));
        out.push('\n');
    }
}

fn push_rows(out: &mut String, rows: &[Row]) {
    for row in rows {
        push_lines(out, &row.lines);
    }
}

fn push_block(out: &mut String, block: &Block) {
    if let Some(title) = &block.title {
        out.push_str(&title.text);
        out.push('\n');
    }
}

fn push_popup(out: &mut String, popup: &Popup) {
    push_block(out, &popup.block);
    match &popup.body {
        Body::Text(lines) => push_lines(out, lines),
        Body::Browser { rows, rails, .. } => {
            push_rows(out, rows);
            for rail in rails {
                push_block(out, &rail.block);
                push_lines(out, &rail.lines);
            }
        }
        Body::Menu { head, rows } => {
            push_lines(out, head);
            push_rows(out, rows);
        }
    }
}

fn screen_text(screen: &Screen) -> String {
    let mut out = String::new();
    push_block(&mut out, &screen.conversation.block);
    push_lines(&mut out, &screen.conversation.lines);
    if let Some(sides) = &screen.sides {
        push_block(&mut out, &sides.runs.block);
        push_rows(&mut out, &sides.runs.rows);
        push_block(&mut out, &sides.context.block);
        push_lines(&mut out, &sides.context.lines);
    }
    push_block(&mut out, &screen.composer.block);
    push_lines(&mut out, &screen.composer.lines);
    push_lines(&mut out, std::slice::from_ref(&screen.status.line));
    for popup in &screen.popups {
        push_popup(&mut out, popup);
    }
    out
}

fn room(state: &AppState, w: u16, h: u16) -> Room {
    let across = match state.layout {
        LayoutMode::Chat => w,
        LayoutMode::Workspace => w * 48 / 100,
    };
    Room {
        conversation_width: across - 2,
        conversation_height: h - 6,
        status_width: w,
    }
}

fn draw(state: &AppState, w: u16, h: u16) -> Screen {
    render(state, &Theme::dark(), room(state, w, h), "CommandExecute")
}

fn render_to_string(state: &AppState, w: u16, h: u16) -> String {
    screen_text(&draw(state, w, h))
}

fn card(tool: &str, status: ToolStatus) -> ToolCard {
    ToolCard {
        tool: tool.to_owned(),
        status,
        action: None,
        args_digest: Some("abc123".to_owned()),
        outcome: None,
        artifact: None,
        approval_id: None,
        expanded: false,
    }
}

fn running_build_state() -> AppState {
    let mut state = AppState::new();
    state.session_title = Some("fix-tests".to_owned());
    let place = state.ensure_run(
        RunId(1),
        "diagnose the failing test".to_owned(),
        AgentMode::Build,
    );
    let _ = place;
    let run = &mut state.runs[0];
    run.state = RunState::Running;
    run.model = Some(ModelId("gpt-5.1-codex".to_owned()));
    run.context_percent = Some(42);
    AppState::append_model_text(run, "Reading the test to see why it fails.");
    let mut shell = card("shell.run", ToolStatus::Completed);
    shell.outcome = Some(ToolOutcome::Succeeded);
    AppState::push_entry(run, TranscriptEntry::Tool(Box::new(shell)));
    AppState::push_entry(
        run,
        TranscriptEntry::Budget {
            dimension: BudgetDimension::Tokens,
            used: 42_000,
            limit: 100_000,
        },
    );
    state
}

#[test]
fn transcript_snapshot_shows_model_tool_and_status() {
    let state = running_build_state();
    let text = render_to_string(&state, 110, 30);
    assert!(text.contains("shell.run"), "tool card missing:\n{text}");
    assert!(
        text.contains("diagnose the failing"),
        "objective missing:\n{text}"
    );
    assert!(text.contains("Build"), "mode missing:\n{text}");
    assert!(text.contains("Running"), "run state missing:\n{text}");
    assert!(text.contains("gpt-5.1-codex"), "model missing:\n{text}");
    assert!(text.contains("42%"), "context %% missing:\n{text}");
    assert!(
        text.contains("approvals"),
        "approval count missing:\n{text}"
    );
}

#[test]
fn approval_modal_snapshot_shows_action_risk_and_capabilities() {
    let mut state = running_build_state();
    state.pending_approvals.push(PendingApproval {
        approval_id: ApprovalId(2),
        action: ProposedAction::ExecuteCommand {
            program: "cargo".to_owned(),
            args: vec!["test".to_owned(), "--all".to_owned()],
            environment: Vec::new(),
            cwd: None,
        },
        risk: Risk {
            level: RiskLevel::High,
            reasons: vec!["runs an arbitrary command".to_owned()],
        },
        run_id: Some(RunId(1)),
    });
    assert!(state.show_approval_modal());
    let text = render_to_string(&state, 110, 34);
    assert!(text.contains("Approval required"), "title missing:\n{text}");
    assert!(
        text.contains("cargo test --all"),
        "verbatim command missing:\n{text}"
    );
    assert!(text.contains("HIGH"), "risk level missing:\n{text}");
    assert!(
        text.contains("runs an arbitrary command"),
        "risk reason missing:\n{text}"
    );
    assert!(
        text.contains("CommandExecute"),
        "capability missing:\n{text}"
    );
    assert!(text.contains("approve once"), "keys missing:\n{text}");
}

#[test]
fn help_overlay_lists_bindings() {
    let mut state = running_build_state();
    state.overlay = Overlay::Help;
    let text = render_to_string(&state, 110, 34);
    assert!(text.contains("Help"));
    assert!(text.contains("command palette"));
    assert!(text.contains("detach"));
}

#[test]
fn expanded_tool_card_shows_detail() {
    let mut state = running_build_state();
    let mut read = card("workspace.read_file", ToolStatus::Completed);
    read.action = Some(ProposedAction::ReadFiles {
        paths: vec!["src/lib.rs".to_owned()],
    });
    read.outcome = Some(ToolOutcome::Succeeded);
    read.artifact = Some(ArtifactRef {
        id: ArtifactId(3),
        media_type: "text/plain".to_owned(),
        byte_length: 2048,
    });
    read.expanded = true;
    AppState::push_entry(
        &mut state.runs[0],
        TranscriptEntry::Tool(Box::new(read)),
    );
    state.focus = Pane::Transcript;
    let last = state.runs[0].transcript.len() - 1;
    state.runs[0].transcript_selected = last;
    let text = render_to_string(&state, 110, 34);
    assert!(text.contains("workspace.read_file"), "tool name:\n{text}");
    assert!(text.contains("2048 bytes"), "artifact detail:\n{text}");
}

#[test]
fn renders_empty_state_without_panicking() {
    let state = AppState::new();
    let text = render_to_string(&state, 80, 24);
    assert!(text.contains("No runs yet"));
    assert!(text.contains("start one"));
}

#[test]
fn conversation_shell_shows_transcript_composer_and_footer() {
    let state = running_build_state();
    let text = render_to_string(&state, 100, 30);
    assert!(text.contains("fix-tests"), "session in title:\n{text}");
    assert!(
        text.contains("diagnose the failing test"),
        "run objective:\n{text}"
    );
    assert!(text.contains("›"), "composer prompt:\n{text}");
    assert!(text.contains("Enter sends"), "composer hint:\n{text}");
    assert!(text.contains("steer the run"), "steer placeholder:\n{text}");
    assert!(text.contains("mode"), "status footer:\n{text}");
}

#[test]
fn composer_shows_a_typed_draft() {
    let mut state = running_build_state();
    state.composer.push_str("add a boundary check");
    let text = render_to_string(&state, 100, 30);
    assert!(
        text.contains("add a boundary check"),
        "draft not shown:\n{text}"
    );
}

#[test]
fn workspace_layout_adds_runs_and_approvals_panes() {
    let mut state = running_build_state();
    state.layout = state.layout.toggled();
    let text = render_to_string(&state, 120, 30);
    assert!(text.contains("Runs"), "runs pane missing:\n{text}");
    assert!(
        text.contains("Approvals"),
        "approvals pane missing:\n{text}"
    );
    assert!(text.contains("fix-tests"), "conversation title:\n{text}");
    assert!(text.contains("›"), "composer:\n{text}");
    assert!(text.contains("mode"), "status footer:\n{text}");

    state.layout = state.layout.toggled();
    let chat = render_to_string(&state, 120, 30);
    assert!(!chat.contains("Runs ("), "should be single-column:\n{chat}");
}

#[test]
fn contextual_footer_switches_hint_by_context() {
    let mut state = running_build_state();
    let idle = render_to_string(&state, 120, 30);
    assert!(idle.contains("mode"), "ambient fields:\n{idle}");
    assert!(idle.contains("model"), "model field at full width:\n{idle}");
    assert!(
        idle.contains("cmds") || idle.contains("F2"),
        "command hint:\n{idle}"
    );
    state.composer.push_str("hello");
    let drafting = render_to_string(&state, 120, 30);
    assert!(
        drafting.contains("send"),
        "send hint while drafting:\n{drafting}"
    );
}

#[test]
fn contextual_footer_narrows_by_dropping_low_priority_fields() {
    let state = running_build_state();
    let narrow = render_to_string(&state, 50, 30);
    assert!(narrow.contains("state"), "state kept:\n{narrow}");
    assert!(
        !narrow.contains("model"),
        "model dropped when narrow:\n{narrow}"
    );
}

#[test]
fn a_notice_takes_the_status_line() {
    let mut state = running_build_state();
    state.notice = Some(("saved the draft".to_owned(), 9));
    let line = line_text(&draw(&state, 120, 30).status.line);
    assert!(line.contains("saved the draft"), "{line}");
    assert!(!line.contains("model"), "{line}");
}

#[test]
fn skill_studio_snapshot_shows_permissions_verbatim() {
    let mut state = running_build_state();
    state.skills = vec![SkillCard {
        name: "rust.fix-ci".to_owned(),
        kind: "skill".to_owned(),
        scope: "repository".to_owned(),
        trust: "first-party".to_owned(),
        status: "active".to_owned(),
        risk: "medium".to_owned(),
        description: "diagnose and fix a failing CI run".to_owned(),
        permissions: vec![
            "filesystem_read: $REPOSITORY".to_owned(),
            "command: cargo".to_owned(),
        ],
    }];
    state.overlay = Overlay::Skills;
    let text = render_to_string(&state, 120, 40);
    assert!(text.contains("Skill Studio"), "title missing:\n{text}");
    assert!(text.contains("rust.fix-ci"), "skill name missing:\n{text}");
    assert!(text.contains("Permissions"), "section missing:\n{text}");
    assert!(
        text.contains("filesystem_read: $REPOSITORY"),
        "verbatim fs permission missing:\n{text}"
    );
    assert!(
        text.contains("command: cargo"),
        "verbatim command permission missing:\n{text}"
    );
}

fn confidence(value: f32) -> Confidence {
    Confidence {
        bits: value.to_bits(),
        shown: format!("{value:.2}"),
    }
}

#[test]
fn memory_browser_snapshot_shows_the_provenance_card() {
    let mut state = running_build_state();
    state.memories = vec![MemoryCard {
        statement: "This repository requires Rust nightly".to_owned(),
        class: "semantic".to_owned(),
        scope: "repository".to_owned(),
        revision: "79acbf1".to_owned(),
        observed: "2026-07-14".to_owned(),
        confidence: confidence(1.0),
        source: "artifact 3f2a (rust-toolchain.toml)".to_owned(),
    }];
    state.overlay = Overlay::Memory { source_open: false };
    let text = render_to_string(&state, 120, 40);
    assert!(
        text.contains("Provenance card"),
        "card title missing:\n{text}"
    );
    assert!(
        text.contains("This repository requires Rust nightly"),
        "fact missing:\n{text}"
    );
    assert!(
        text.contains("rust-toolchain.toml"),
        "source missing:\n{text}"
    );
    assert!(text.contains("79acbf1"), "revision missing:\n{text}");
    assert!(text.contains("Confidence"), "confidence missing:\n{text}");
    assert!(text.contains("open source"), "affordance missing:\n{text}");
}

#[test]
fn memory_browser_open_source_reveals_the_full_ref() {
    let mut state = running_build_state();
    state.memories = vec![MemoryCard {
        statement: "tests use cargo nextest".to_owned(),
        class: "procedural".to_owned(),
        scope: "repository".to_owned(),
        revision: "abc1234".to_owned(),
        observed: "2026-07-15".to_owned(),
        confidence: confidence(0.9),
        source: "events 3..7 of session 51ee".to_owned(),
    }];
    state.overlay = Overlay::Memory { source_open: true };
    let text = render_to_string(&state, 120, 40);
    assert!(
        text.contains("source opened"),
        "opened marker missing:\n{text}"
    );
    assert!(
        text.contains("events 3..7 of session 51ee"),
        "revealed source missing:\n{text}"
    );
}

#[test]
fn docs_studio_snapshot_shows_tree_editor_and_review_rails() {
    let mut state = running_build_state();
    state.docs = vec![DocCard {
        document_id: DocumentId(4),
        title: "Payments runbook".to_owned(),
        scope: "organization".to_owned(),
        status: "draft".to_owned(),
        mode: "suggest".to_owned(),
        revision: "r7".to_owned(),
        blocks: vec![
            DocBlockView {
                id: "b1".to_owned(),
                kind: "heading".to_owned(),
                text: "Charging a customer".to_owned(),
            },
            DocBlockView {
                id: "b2".to_owned(),
                kind: "paragraph".to_owned(),
                text: "Call charge_customer with an idempotency key.".to_owned(),
            },
        ],
        suggestions: vec![DocSuggestionView {
            id: "s1".to_owned(),
            status: "pending".to_owned(),
            author: "agent".to_owned(),
            range: "0..8".to_owned(),
            replacement: "Charging a customer safely".to_owned(),
            rationale: Some("match the code path".to_owned()),
        }],
    }];
    state.overlay = Overlay::Docs;
    let text = render_to_string(&state, 120, 40);
    assert!(text.contains("Docs Studio"), "title missing:\n{text}");
    assert!(
        text.contains("Payments runbook"),
        "tree title missing:\n{text}"
    );
    assert!(text.contains("organization"), "tree scope missing:\n{text}");
    assert!(text.contains("Editor rail"), "editor rail missing:\n{text}");
    assert!(text.contains("heading"), "block kind missing:\n{text}");
    assert!(text.contains("r7"), "revision badge missing:\n{text}");
    assert!(text.contains("Review rail"), "review rail missing:\n{text}");
    assert!(text.contains("agent"), "suggestion author missing:\n{text}");
    assert!(
        text.contains("match the code path"),
        "suggestion rationale missing:\n{text}"
    );
}

#[test]
fn command_palette_snapshot_lists_and_filters_commands() {
    let mut state = running_build_state();
    state.overlay = Overlay::Palette {
        query: String::new(),
        selected: 0,
    };
    let all = render_to_string(&state, 120, 40);
    assert!(all.contains("Command palette"), "title missing:\n{all}");
    assert!(all.contains("New run"), "command missing:\n{all}");
    assert!(all.contains("Docs Studio"), "command missing:\n{all}");
    assert!(all.contains("[n]"), "key hint missing:\n{all}");

    state.overlay = Overlay::Palette {
        query: "docs".to_owned(),
        selected: 0,
    };
    let filtered = render_to_string(&state, 120, 40);
    assert!(
        filtered.contains("Docs Studio"),
        "match missing:\n{filtered}"
    );
    assert!(
        !filtered.contains("New run"),
        "non-match should be filtered out:\n{filtered}"
    );
}

#[test]
fn edge_inspector_snapshot_shows_evidence_and_revision() {
    let mut state = running_build_state();
    state.edges = vec![GraphEdgeCard {
        from: "billing::charge".to_owned(),
        to: "gateway::submit".to_owned(),
        relation: "calls".to_owned(),
        confidence: confidence(0.45),
        evidence_kind: "syntax_inferred".to_owned(),
        evidence: "artifact 3f2a (src/billing.rs)".to_owned(),
        revision: "79acbf1".to_owned(),
    }];
    state.overlay = Overlay::Edges;
    let text = render_to_string(&state, 120, 40);
    assert!(text.contains("Code-graph edges"), "title missing:\n{text}");
    assert!(
        text.contains("billing::charge"),
        "from symbol missing:\n{text}"
    );
    assert!(
        text.contains("gateway::submit"),
        "to symbol missing:\n{text}"
    );
    assert!(text.contains("calls"), "relation missing:\n{text}");
    assert!(
        text.contains("Evidence"),
        "evidence section missing:\n{text}"
    );
    assert!(
        text.contains("syntax_inferred"),
        "evidence kind missing:\n{text}"
    );
    assert!(
        text.contains("src/billing.rs"),
        "evidence source missing:\n{text}"
    );
    assert!(text.contains("79acbf1"), "revision missing:\n{text}");
}

#[test]
fn workflow_view_snapshot_shows_node_state_agent_and_worktree() {
    let mut state = running_build_state();
    state.workflow = vec![
        WorkflowNodeCard {
            workflow: "repair-github-check v1".to_owned(),
            id: "patch".to_owned(),
            action: "agent implementer \u{b7} skill code.repair".to_owned(),
            kind: "agent".to_owned(),
            state: "pending".to_owned(),
            agent: "implementer".to_owned(),
            model_policy: "coding".to_owned(),
            workspace: "isolated worktree".to_owned(),
            approval: "before write".to_owned(),
            retry: "1 attempt".to_owned(),
            depends_on: "\u{2014}".to_owned(),
            outputs: "proposed_patch".to_owned(),
            cost: "\u{2014}".to_owned(),
            error: "\u{2014}".to_owned(),
        },
        WorkflowNodeCard {
            workflow: "repair-github-check v1".to_owned(),
            id: "verify".to_owned(),
            action: "tool repository.test".to_owned(),
            kind: "tool".to_owned(),
            state: "pending".to_owned(),
            agent: "\u{2014}".to_owned(),
            model_policy: "\u{2014}".to_owned(),
            workspace: "shared worktree".to_owned(),
            approval: "none".to_owned(),
            retry: "2 attempts \u{b7} 5s backoff".to_owned(),
            depends_on: "patch".to_owned(),
            outputs: "test_result".to_owned(),
            cost: "\u{2014}".to_owned(),
            error: "\u{2014}".to_owned(),
        },
    ];
    state.overlay = Overlay::Workflow;
    let text = render_to_string(&state, 120, 40);
    assert!(text.contains("Workflow"), "title missing:\n{text}");
    assert!(
        text.contains("repair-github-check v1"),
        "group header missing:\n{text}"
    );
    assert!(text.contains("patch"), "node id missing:\n{text}");
    assert!(text.contains("pending"), "state missing:\n{text}");
    assert!(text.contains("implementer"), "agent missing:\n{text}");
    assert!(
        text.contains("isolated worktree"),
        "worktree missing:\n{text}"
    );
    assert!(text.contains("before write"), "approval missing:\n{text}");
    assert!(text.contains("proposed_patch"), "outputs missing:\n{text}");
}

#[test]
fn blackboard_view_snapshot_shows_artifact_provenance() {
    let mut state = running_build_state();
    state.blackboard = vec![BlackboardItemCard {
        run: "repair-github-check \u{b7} run 0f2a".to_owned(),
        kind: "finding".to_owned(),
        summary: "the failing test asserts an off-by-one in paginate()".to_owned(),
        author: "agent investigator".to_owned(),
        confidence: "0.85".to_owned(),
        evidence: "2 ref(s)".to_owned(),
        revision: "r1".to_owned(),
        superseded: false,
    }];
    state.overlay = Overlay::Blackboard;
    let text = render_to_string(&state, 120, 40);
    assert!(text.contains("Blackboard"), "title missing:\n{text}");
    assert!(
        text.contains("repair-github-check"),
        "run header missing:\n{text}"
    );
    assert!(text.contains("finding"), "kind missing:\n{text}");
    assert!(
        text.contains("agent investigator"),
        "author missing:\n{text}"
    );
    assert!(text.contains("0.85"), "confidence missing:\n{text}");
    assert!(text.contains("2 ref(s)"), "evidence missing:\n{text}");
    assert!(
        text.contains("off-by-one"),
        "payload summary missing:\n{text}"
    );
}

#[test]
fn the_model_picker_lists_and_filters_models() {
    let mut state = running_build_state();
    let model = |id: &str, location: ModelLocationLabel| ModelCard {
        id: ModelId(id.to_owned()),
        provider: "acme".to_owned(),
        location: Some(location),
        cost_per_1k_usd: Some(Double {
            bits: 0.5f64.to_bits(),
        }),
        context_tokens: Some(8192),
    };
    state.models = vec![
        model("small-coder", ModelLocationLabel::Local),
        model("Large-Thinker", ModelLocationLabel::Hosted),
    ];
    state.overlay = Overlay::ModelPicker {
        query: "THINK".to_owned(),
        selected: 0,
    };
    let text = render_to_string(&state, 120, 40);
    assert!(text.contains("Large-Thinker"), "{text}");
    assert!(!text.contains("small-coder"), "{text}");
}

#[test]
fn at_most_one_overlay_is_up() {
    let mut state = running_build_state();
    assert!(draw(&state, 120, 40).popups.is_empty());
    for overlay in [
        Overlay::Help,
        Overlay::NewRun("x".to_owned()),
        Overlay::Steering("y".to_owned()),
        Overlay::ConfirmCancel,
        Overlay::Skills,
        Overlay::Docs,
        Overlay::Edges,
        Overlay::Workflow,
        Overlay::Blackboard,
    ] {
        state.overlay = overlay;
        assert_eq!(draw(&state, 120, 40).popups.len(), 1);
    }
}

#[test]
fn the_layouts_share_all_but_the_sides() {
    let mut state = running_build_state();
    let same = Room {
        conversation_width: 60,
        conversation_height: 20,
        status_width: 120,
    };
    let theme = Theme::light();
    let chat = render(&state, &theme, same, "");
    state.layout = state.layout.toggled();
    let workspace = render(&state, &theme, same, "");
    assert!(chat.sides.is_none() && workspace.sides.is_some());
    assert_eq!(chat.conversation, workspace.conversation);
    assert_eq!(chat.composer, workspace.composer);
    assert_eq!(chat.status, workspace.status);
}

fn plain(text: &str) -> Line {
    let style = Theme::dark().panel_style();
    Line {
        spans: vec![Span {
            text: text.to_owned(),
            style,
        }],
        style,
    }
}

#[test]
fn scrolling_stops_at_the_last_row() {
    let lines: Vec<Line> = (0..10).map(|_| plain("12345678901")).collect();
    // Eleven cells take two rows of ten.
    assert_eq!(max_scroll_offset(&lines, 10, 5), 15);
    assert_eq!(max_scroll_offset(&lines, 11, 5), 5);
    assert_eq!(max_scroll_offset(&lines, 11, 10), 0);
    assert_eq!(max_scroll_offset(&Vec::new(), 10, 5), 0);
    // Wide characters count twice.
    let wide: Vec<Line> = vec![plain("漢字漢字漢字")];
    assert_eq!(max_scroll_offset(&wide, 10, 1), 1);
}

#[test]
fn the_conversation_follows_the_tail() {
    let mut state = running_build_state();
    for _ in 0..60 {
        AppState::push_entry(
            &mut state.runs[0],
            TranscriptEntry::Note {
                text: "line".to_owned(),
                expanded: true,
            },
        );
    }
    let screen = draw(&state, 100, 30);
    assert!(screen.transcript_max_scroll > 0);
    assert_eq!(screen.conversation.offset, screen.transcript_max_scroll);
    state.runs[0].follow = false;
    state.runs[0].scroll = 3;
    assert_eq!(draw(&state, 100, 30).conversation.offset, 3);
    state.runs[0].scroll = u16::MAX;
    assert_eq!(
        draw(&state, 100, 30).conversation.offset,
        screen.transcript_max_scroll
    );
}

#[test]
fn popups_are_centered() {
    assert_eq!(centered(60), (20, 60, 20));
    assert_eq!(centered(75), (12, 75, 12));
    assert_eq!(padding(10, 20, 40), 9);
    assert_eq!(padding(30, 20, 40), 0);
}

#[test]
fn costs_are_shown_in_dollars() {
    assert_eq!(format_cost(None), "—");
    assert_eq!(format_cost(Some(5)), "$0.05");
    assert_eq!(format_cost(Some(12345)), "$123.45");
}

#[test]
fn confidence_is_colored_by_its_value() {
    let theme = Theme::dark();
    for value in [0.0f32, 0.3, 0.59, 0.599_999_9] {
        assert_eq!(
            edge_confidence_color(&confidence(value), &theme),
            edge_confidence_color(&confidence(0.1), &theme),
            "{value}"
        );
    }
    for value in [0.60f32, 0.7, 0.89, 0.899_999_9] {
        assert_eq!(
            edge_confidence_color(&confidence(value), &theme),
            edge_confidence_color(&confidence(0.75), &theme),
            "{value}"
        );
    }
    for value in [0.90f32, 0.95, 1.0] {
        assert_eq!(
            edge_confidence_color(&confidence(value), &theme),
            edge_confidence_color(&confidence(0.99), &theme),
            "{value}"
        );
    }
    assert_ne!(
        edge_confidence_color(&confidence(0.1), &theme),
        edge_confidence_color(&confidence(0.75), &theme)
    );
    assert_ne!(
        edge_confidence_color(&confidence(0.75), &theme),
        edge_confidence_color(&confidence(0.99), &theme)
    );
}

#[test]
fn commands_are_described_with_their_variables() {
    let lines = describe_action(&ProposedAction::ExecuteCommand {
        program: "cargo".to_owned(),
        args: vec!["build".to_owned()],
        environment: vec![("RUSTFLAGS".to_owned(), "-g".to_owned())],
        cwd: Some("/work".to_owned()),
    });
    let text = lines.join("\n");
    assert!(text.contains("cargo build"), "{text}");
    assert!(text.contains("RUSTFLAGS"), "{text}");
    assert!(text.contains("/work"), "{text}");
}

#[test]
fn endings_are_worded() {
    let theme = Theme::dark();
    let (failed, _) = disposition_display(
        &RunDisposition::Failed {
            reason: "no disk".to_owned(),
        },
        &theme,
    );
    assert!(failed.contains("no disk"), "{failed}");
}

#[test]
fn identities_are_shortened() {
    assert_eq!(short_id("0123456789"), "01234567");
    assert_eq!(short_id("é1"), "é1");
    let patch = TranscriptEntry::Patch(PatchSummary {
        changeset_id: ChangeSetId("0123456789abcdef".to_owned()),
        artifact: ArtifactRef {
            id: ArtifactId(5),
            media_type: "text/x-diff".to_owned(),
            byte_length: 10,
        },
        expanded: false,
    });
    let text: String = entry_lines(&patch, &Theme::dark(), false)
        .iter()
        .map(line_text)
        .collect();
    assert!(text.contains("01234567"), "{text}");
}

fn style_colors(out: &mut Vec<Color>, style: &Style) {
    out.extend(style.fg);
    out.extend(style.bg);
}

fn line_colors(out: &mut Vec<Color>, lines: &[Line]) {
    for line in lines {
        style_colors(out, &line.style);
        for span in &line.spans {
            style_colors(out, &span.style);
        }
    }
}

fn row_colors(out: &mut Vec<Color>, rows: &[Row]) {
    for row in rows {
        style_colors(out, &row.style);
        line_colors(out, &row.lines);
    }
}

fn block_colors(out: &mut Vec<Color>, block: &Block) {
    out.push(block.border);
    style_colors(out, &block.style);
    if let Some(title) = &block.title {
        style_colors(out, &title.style);
    }
}

fn popup_colors(out: &mut Vec<Color>, popup: &Popup) {
    block_colors(out, &popup.block);
    match &popup.body {
        Body::Text(lines) => line_colors(out, lines),
        Body::Browser { rows, rails, .. } => {
            row_colors(out, rows);
            for rail in rails {
                block_colors(out, &rail.block);
                line_colors(out, &rail.lines);
            }
        }
        Body::Menu { head, rows } => {
            line_colors(out, head);
            row_colors(out, rows);
        }
    }
}

fn colors(screen: &Screen) -> Vec<Color> {
    let mut out = Vec::new();
    style_colors(&mut out, &screen.background);
    for pane in [&screen.conversation, &screen.composer] {
        block_colors(&mut out, &pane.block);
        line_colors(&mut out, &pane.lines);
    }
    if let Some(sides) = &screen.sides {
        block_colors(&mut out, &sides.runs.block);
        row_colors(&mut out, &sides.runs.rows);
        block_colors(&mut out, &sides.context.block);
        line_colors(&mut out, &sides.context.lines);
    }
    style_colors(&mut out, &screen.status.style);
    line_colors(&mut out, std::slice::from_ref(&screen.status.line));
    for popup in &screen.popups {
        popup_colors(&mut out, popup);
    }
    out
}

fn every_screen(theme: &Theme) -> Vec<Color> {
    let mut out = Vec::new();
    for layout in [LayoutMode::Chat, LayoutMode::Workspace] {
        for overlay in [
            Overlay::Closed,
            Overlay::Help,
            Overlay::NewRun("x".to_owned()),
            Overlay::ConfirmCancel,
            Overlay::Skills,
            Overlay::Memory { source_open: true },
            Overlay::Docs,
            Overlay::Edges,
            Overlay::Workflow,
            Overlay::Blackboard,
            Overlay::Palette {
                query: String::new(),
                selected: 0,
            },
            Overlay::ModelPicker {
                query: String::new(),
                selected: 0,
            },
        ] {
            let mut state = running_build_state();
            state.layout = layout;
            state.overlay = overlay;
            let drawn = render(&state, theme, room(&state, 120, 40), "");
            out.extend(colors(&drawn));
        }
    }
    out
}

#[test]
fn every_color_drawn_is_a_token_of_the_theme() {
    let named = [Color::White, Color::Gray, Color::DarkGray, Color::Black];
    let drawn = every_screen(&Theme::monochrome());
    assert!(drawn.len() > 100);
    assert!(drawn.iter().all(|c| named.contains(c)));
}

#[test]
fn indexed_terminals_are_given_indexed_colors() {
    let drawn = every_screen(&Theme::ansi256());
    assert!(drawn.iter().all(|c| matches!(c, Color::Indexed(_))));
}

#[test]
fn basic_terminals_are_given_named_colors() {
    let drawn = every_screen(&Theme::ansi16());
    assert!(!drawn
        .iter()
        .any(|c| matches!(c, Color::Indexed(_) | Color::Rgb(_, _, _))));
}

#[test]
fn the_state_of_the_run_shows_at_every_width() {
    let state = running_build_state();
    for width in [10u16, 63, 64, 95, 96, 200] {
        let line = draw(&state, width, 30).status.line;
        let place = line
            .spans
            .iter()
            .position(|s| s.text == "state ")
            .expect("the state is named");
        assert_eq!(line.spans[place + 1].text, "Running");
    }
}

#[test]
fn a_memory_names_its_source_open_or_not() {
    for source_open in [false, true] {
        let mut state = running_build_state();
        state.memories = vec![MemoryCard {
            statement: "builds need a network".to_owned(),
            class: "semantic".to_owned(),
            scope: "repository".to_owned(),
            revision: "r1".to_owned(),
            observed: "today".to_owned(),
            confidence: confidence(0.5),
            source: "artifact 9".to_owned(),
        }];
        state.overlay = Overlay::Memory { source_open };
        let text = render_to_string(&state, 120, 40);
        assert!(text.contains("Source: artifact 9"), "{text}");
        assert_eq!(text.contains("    artifact 9"), source_open, "{text}");
    }
}
