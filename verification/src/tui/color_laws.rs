//! Where the colors of a screen come from.
use vstd::prelude::*;

use crate::tui::input::KeyBinding;
use crate::tui::palette::PaletteEntry;
use crate::tui::protocol::{ProposedAction, Risk};
use crate::tui::render::{Room, ScreenModel};
use crate::tui::state::{
    AppState, BlackboardItemCard, DocBlockView, DocCard, DocSuggestionView, GraphEdgeCard,
    MemoryCard, ModelCard, Overlay, PatchSummary, PendingApproval, RunActivity, RunView, SkillCard,
    ToolCard, TranscriptEntry, WorkflowNodeCard,
};
use crate::tui::theme::{Color, Style, Theme};
use crate::tui::view::{
    BlockModel, BodyModel, Edges, LineModel, ListPaneModel, PopupModel, RailModel, RowModel,
    SpanModel, TextPaneModel,
};

verus! {

/// Whether a color is one of a theme's tokens.
#[verifier::opaque]
pub open spec fn is_token(c: Color, theme: Theme) -> bool {
    ||| c == theme.surface.background
    ||| c == theme.surface.panel
    ||| c == theme.surface.border
    ||| c == theme.surface.overlay
    ||| c == theme.text.primary
    ||| c == theme.text.secondary
    ||| c == theme.text.muted
    ||| c == theme.text.heading
    ||| c == theme.status.info
    ||| c == theme.status.success
    ||| c == theme.status.warning
    ||| c == theme.status.error
    ||| c == theme.status.running
    ||| c == theme.status.idle
    ||| c == theme.syntax.keyword
    ||| c == theme.syntax.literal
    ||| c == theme.syntax.string
    ||| c == theme.syntax.comment
    ||| c == theme.diff.added
    ||| c == theme.diff.removed
    ||| c == theme.diff.context
    ||| c == theme.diff.header
    ||| c == theme.agent.model_text
    ||| c == theme.agent.tool
    ||| c == theme.agent.thinking
    ||| c == theme.focus.active
    ||| c == theme.focus.inactive
    ||| c == theme.selection.foreground
    ||| c == theme.selection.background
}

/// Whether every color of a style is one of the theme's tokens.
pub open spec fn themed(style: Style, theme: Theme) -> bool {
    &&& style.fg matches Some(c) ==> is_token(c, theme)
    &&& style.bg matches Some(c) ==> is_token(c, theme)
}

/// Whether every color of a line is one of the theme's tokens.
#[verifier::opaque]
pub open spec fn themed_line(line: LineModel, theme: Theme) -> bool {
    &&& themed(line.style, theme)
    &&& themed_spans(line.spans, theme)
}

/// Whether every color of some spans is one of the theme's tokens.
pub open spec fn themed_spans(spans: Seq<SpanModel>, theme: Theme) -> bool {
    forall|k: int| 0 <= k < spans.len() ==> themed((#[trigger] spans[k]).style, theme)
}

/// Whether every color of some lines is one of the theme's tokens.
pub open spec fn themed_lines(lines: Seq<LineModel>, theme: Theme) -> bool {
    forall|k: int| 0 <= k < lines.len() ==> themed_line(#[trigger] lines[k], theme)
}

/// Whether every color of a row is one of the theme's tokens.
pub open spec fn themed_row(row: RowModel, theme: Theme) -> bool {
    themed(row.style, theme) && themed_lines(row.lines, theme)
}

/// Whether every color of some rows is one of the theme's tokens.
pub open spec fn themed_rows(rows: Seq<RowModel>, theme: Theme) -> bool {
    forall|k: int| 0 <= k < rows.len() ==> themed_row(#[trigger] rows[k], theme)
}

/// Whether every color of a frame is one of the theme's tokens.
pub open spec fn themed_block(block: BlockModel, theme: Theme) -> bool {
    &&& is_token(block.border, theme)
    &&& themed(block.style, theme)
    &&& block.title matches Some(title) ==> themed(title.style, theme)
}

/// Whether every color of a text pane is one of the theme's tokens.
pub open spec fn themed_text(pane: TextPaneModel, theme: Theme) -> bool {
    themed_block(pane.block, theme) && themed_lines(pane.lines, theme)
}

/// Whether every color of a list pane is one of the theme's tokens.
pub open spec fn themed_list(pane: ListPaneModel, theme: Theme) -> bool {
    themed_block(pane.block, theme) && themed_rows(pane.rows, theme)
}

/// Whether every color of some rails is one of the theme's tokens.
pub open spec fn themed_rails(rails: Seq<RailModel>, theme: Theme) -> bool {
    forall|k: int|
        0 <= k < rails.len() ==> themed_block((#[trigger] rails[k]).block, theme) && themed_lines(
            rails[k].lines,
            theme,
        )
}

/// Whether every color of an overlay is one of the theme's tokens.
pub open spec fn themed_popup(popup: PopupModel, theme: Theme) -> bool {
    &&& themed_block(popup.block, theme)
    &&& match popup.body {
        BodyModel::Text(lines) => themed_lines(lines, theme),
        BodyModel::Browser { rows, rails, .. } => themed_rows(rows, theme) && themed_rails(
            rails,
            theme,
        ),
        BodyModel::Menu { head, rows } => themed_lines(head, theme) && themed_rows(rows, theme),
    }
}

/// Whether every color of a screen is one of the theme's tokens.
pub open spec fn themed_screen(screen: ScreenModel, theme: Theme) -> bool {
    &&& themed(screen.background, theme)
    &&& themed_text(screen.conversation, theme)
    &&& screen.sides matches Some(sides) ==> themed_list(sides.runs, theme) && themed_text(
        sides.context,
        theme,
    )
    &&& themed_text(screen.composer, theme)
    &&& themed_line(screen.status.line, theme)
    &&& themed(screen.status.style, theme)
    &&& forall|k: int|
        0 <= k < screen.popups.len() ==> themed_popup(#[trigger] screen.popups[k], theme)
}

proof fn lemma_tokens(theme: Theme)
    ensures
        is_token(theme.surface.background, theme),
        is_token(theme.surface.panel, theme),
        is_token(theme.surface.overlay, theme),
        is_token(theme.text.primary, theme),
        is_token(theme.text.secondary, theme),
        is_token(theme.text.muted, theme),
        is_token(theme.text.heading, theme),
        is_token(theme.status.info, theme),
        is_token(theme.status.success, theme),
        is_token(theme.status.warning, theme),
        is_token(theme.status.error, theme),
        is_token(theme.status.running, theme),
        is_token(theme.status.idle, theme),
        is_token(theme.diff.context, theme),
        is_token(theme.diff.header, theme),
        is_token(theme.agent.model_text, theme),
        is_token(theme.agent.tool, theme),
        is_token(theme.focus.active, theme),
        is_token(theme.focus.inactive, theme),
        is_token(theme.selection.foreground, theme),
        is_token(theme.selection.background, theme),
{
    reveal(is_token);
}

// ---------------------------------------------------------------------------
// Lines
// ---------------------------------------------------------------------------

broadcast proof fn lemma_spanned(spans: Seq<SpanModel>, theme: Theme)
    requires
        themed_spans(spans, theme),
    ensures
        #[trigger] themed_line(crate::tui::view::spanned(spans), theme),
{
    reveal(themed_line);
}

broadcast proof fn lemma_styled(text: Seq<char>, style: Style, theme: Theme)
    requires
        themed(style, theme),
    ensures
        #[trigger] themed_line(crate::tui::view::styled(text, style), theme),
{
    reveal(themed_line);
}

broadcast proof fn lemma_blank(theme: Theme)
    ensures
        #[trigger] themed_line(crate::tui::view::blank_line(), theme),
{
    reveal(themed_line);
}

broadcast proof fn lemma_field(name: Seq<char>, value: Seq<char>, color: Color, theme: Theme)
    requires
        is_token(color, theme),
    ensures
        #[trigger] themed_line(crate::tui::panes::field_line(name, value, color, theme), theme),
{
    broadcast use lemma_spanned;

    lemma_tokens(theme);
}

broadcast proof fn lemma_section(title: Seq<char>, theme: Theme)
    ensures
        #[trigger] themed_line(crate::tui::panes::section_line(title, theme), theme),
{
    broadcast use lemma_spanned;

    lemma_tokens(theme);
}

broadcast proof fn lemma_muted(text: Seq<char>, theme: Theme)
    ensures
        #[trigger] themed_line(crate::tui::panes::muted(text, theme), theme),
{
    broadcast use lemma_styled;

    lemma_tokens(theme);
}

broadcast proof fn lemma_plain(text: Seq<char>, theme: Theme)
    ensures
        #[trigger] themed_line(crate::tui::browsers::plain(text, theme), theme),
{
    broadcast use lemma_styled;

    lemma_tokens(theme);
}

broadcast proof fn lemma_title(text: Seq<char>, theme: Theme)
    ensures
        #[trigger] themed_line(crate::tui::browsers::title_line(text, theme), theme),
{
    broadcast use lemma_styled;

    lemma_tokens(theme);
}

broadcast group group_lines_are_themed {
    lemma_spanned,
    lemma_styled,
    lemma_blank,
    lemma_field,
    lemma_section,
    lemma_muted,
    lemma_plain,
    lemma_title,
}

proof fn lemma_footer(keys: Seq<char>, theme: Theme)
    ensures
        themed_lines(crate::tui::browsers::footer(keys, theme), theme),
{
    broadcast use group_lines_are_themed;

}

// ---------------------------------------------------------------------------
// The transcript
// ---------------------------------------------------------------------------

proof fn lemma_head(text: Seq<char>, color: Color, selected: bool, theme: Theme)
    requires
        is_token(color, theme),
    ensures
        themed_line(crate::tui::transcript::head(text, color, selected, theme), theme),
{
    broadcast use group_lines_are_themed;

    lemma_tokens(theme);
}

proof fn lemma_quoted(text: Seq<char>, first: Seq<char>, color: Color, selected: bool, theme: Theme)
    requires
        is_token(color, theme),
    ensures
        themed_lines(
            crate::tui::transcript::quoted(text, first, color, selected, theme),
            theme,
        ),
{
    let list = crate::lines::line_list(text);
    let all = crate::tui::transcript::quoted(text, first, color, selected, theme);
    assert forall|k: int| 0 <= k < all.len() implies themed_line(#[trigger] all[k], theme) by {
        let words = (if k == 0 {
            first
        } else {
            "  "@
        }) + list[k];
        lemma_head(words, color, selected, theme);
    }
}

proof fn lemma_tool(card: ToolCard, theme: Theme, selected: bool)
    ensures
        themed_lines(crate::tui::transcript::tool_lines(card, theme, selected), theme),
{
    broadcast use group_lines_are_themed;

    lemma_tokens(theme);
    let (word, color) = crate::tui::transcript::tool_state(card, theme);
    assert(is_token(color, theme));
    assert(themed(
        crate::tui::transcript::head_style(theme.agent.tool, selected, theme),
        theme,
    ));
    assert(themed_line(crate::tui::transcript::tool_head(card, theme, selected), theme));
    lemma_proposed(card.action, theme);
    assert(themed_lines(crate::tui::transcript::tool_details(card, theme), theme));
}

proof fn lemma_proposed(action: Option<ProposedAction>, theme: Theme)
    ensures
        themed_lines(crate::tui::transcript::tool_action_lines(action, theme), theme),
{
    broadcast use group_lines_are_themed;

    lemma_tokens(theme);
}

proof fn lemma_change(patch: PatchSummary, theme: Theme, selected: bool)
    ensures
        themed_lines(crate::tui::transcript::change_lines(patch, theme, selected), theme),
{
    broadcast use group_lines_are_themed;

    lemma_tokens(theme);
    assert(themed(
        crate::tui::transcript::head_style(theme.diff.header, selected, theme),
        theme,
    ));
}

proof fn lemma_indented(texts: Seq<Seq<char>>, color: Color, theme: Theme)
    requires
        is_token(color, theme),
    ensures
        themed_lines(crate::tui::transcript::indented(texts, color), theme),
{
    broadcast use group_lines_are_themed;

}

proof fn lemma_entry(entry: TranscriptEntry, theme: Theme, selected: bool)
    ensures
        themed_lines(crate::tui::transcript::entry_view(entry, theme, selected), theme),
{
    lemma_tokens(theme);
    let all = crate::tui::transcript::entry_view(entry, theme, selected);
    match entry {
        TranscriptEntry::User { text } => {
            lemma_quoted(text@, "\u{203a} "@, theme.text.primary, selected, theme);
        },
        TranscriptEntry::Model { text } => {
            lemma_quoted(text@, "\u{258c} "@, theme.agent.model_text, selected, theme);
        },
        TranscriptEntry::Tool(card) => {
            lemma_tool(*card, theme, selected);
        },
        TranscriptEntry::Patch(patch) => {
            lemma_change(patch, theme, selected);
        },
        TranscriptEntry::Steering { applied } => {
            lemma_head("\u{27a4} steering applied"@, theme.status.info, selected, theme);
            lemma_head("\u{27a4} steering queued"@, theme.status.info, selected, theme);
        },
        TranscriptEntry::Budget { dimension, used, limit } => {
            lemma_head(
                "\u{26a0} budget "@ + crate::tui::labels::budget_word(dimension) + ": "@
                    + crate::text::decimal(used as nat) + "/"@ + crate::text::decimal(limit as nat),
                theme.status.warning,
                selected,
                theme,
            );
        },
        TranscriptEntry::Completed { disposition } => {
            let (words, color) = crate::tui::labels::ending(disposition, theme);
            lemma_head("\u{25cf} "@ + words, color, selected, theme);
        },
        TranscriptEntry::Note { text, expanded } => {
            lemma_head(
                "\u{2022} note: "@ + crate::tui::transcript::note_text(text@, expanded),
                theme.text.secondary,
                selected,
                theme,
            );
        },
        TranscriptEntry::Backstage { context_lines, memory_updates, raw, expanded } => {
            lemma_head(
                crate::tui::transcript::backstage_text(context_lines, memory_updates),
                theme.text.muted,
                selected,
                theme,
            );
            lemma_indented(crate::text::texts(raw@), theme.text.muted, theme);
        },
        TranscriptEntry::Unsupported { label } => {
            lemma_head("? "@ + label@, theme.text.muted, selected, theme);
        },
    }
}

proof fn lemma_entries(run: RunView, n: int, theme: Theme, focused: bool)
    ensures
        themed_lines(crate::tui::transcript::entries_view(run, n, theme, focused), theme),
    decreases n,
{
    if n > 0 {
        lemma_entries(run, n - 1, theme, focused);
        lemma_entry(
            run.transcript@[n - 1],
            theme,
            focused && n - 1 == run.transcript_selected,
        );
    }
}

proof fn lemma_activity(activity: RunActivity, theme: Theme)
    ensures
        themed_lines(crate::tui::transcript::activity_view(activity, theme), theme),
{
    broadcast use group_lines_are_themed;

    lemma_tokens(theme);
}

proof fn lemma_transcript(run: RunView, theme: Theme, focused: bool)
    ensures
        themed_lines(crate::tui::transcript::transcript_view(run, theme, focused), theme),
{
    broadcast use group_lines_are_themed;

    lemma_tokens(theme);
    lemma_entries(run, run.transcript@.len() as int, theme, focused);
    lemma_activity(run.activity, theme);
}

// ---------------------------------------------------------------------------
// The panes
// ---------------------------------------------------------------------------

proof fn lemma_pane_frame(title: Seq<char>, focused: bool, theme: Theme)
    ensures
        themed_block(crate::tui::panes::pane_frame(title, focused, theme), theme),
{
    lemma_tokens(theme);
}

proof fn lemma_placeholder(text: Seq<char>, theme: Theme)
    ensures
        themed_rows(seq![crate::tui::panes::placeholder(text, theme)], theme),
{
    broadcast use group_lines_are_themed;

}

proof fn lemma_runs(state: AppState, theme: Theme)
    ensures
        themed_list(crate::tui::panes::runs_view(state, theme), theme),
{
    let pane = crate::tui::panes::runs_view(state, theme);
    lemma_pane_frame(
        "Runs ("@ + crate::text::decimal(state.runs@.len()) + ")"@,
        false,
        theme,
    );
    if state.runs@.len() == 0 {
        lemma_placeholder("  no runs yet"@, theme);
    } else {
        assert forall|i: int| 0 <= i < pane.rows.len() implies themed_row(
            #[trigger] pane.rows[i],
            theme,
        ) by {
            lemma_run_row(state.runs@[i], i == state.selected_run, theme);
        }
    }
}

proof fn lemma_run_row(run: RunView, selected: bool, theme: Theme)
    ensures
        themed_row(crate::tui::panes::run_row(run, selected, theme), theme),
{
    broadcast use group_lines_are_themed;

    lemma_tokens(theme);
}

proof fn lemma_context(state: AppState, theme: Theme)
    ensures
        themed_text(crate::tui::panes::context_view(state, theme), theme),
{
    broadcast use group_lines_are_themed;

    lemma_tokens(theme);
    lemma_pane_frame(
        "Approvals ("@ + crate::text::decimal(state.pending_approvals@.len()) + ")"@,
        false,
        theme,
    );
    if let Some(run) = state.run() {
        assert(is_token(crate::tui::labels::state_color(run.state, theme), theme));
        assert(themed_lines(crate::tui::panes::run_fields(run, theme), theme));
    }
}

proof fn lemma_conversation(state: AppState, theme: Theme, width: u16, height: u16)
    ensures
        themed_text(crate::tui::panes::conversation_view(state, theme, width, height), theme),
{
    broadcast use group_lines_are_themed;

    lemma_tokens(theme);
    lemma_pane_frame(crate::tui::panes::conversation_title(state), true, theme);
    if let Some(run) = state.run() {
        lemma_transcript(run, theme, false);
    }
}

proof fn lemma_composer(state: AppState, theme: Theme)
    ensures
        themed_text(crate::tui::panes::composer_view(state, theme), theme),
{
    broadcast use group_lines_are_themed;

    lemma_tokens(theme);
}

proof fn lemma_with_field(
    left: Seq<SpanModel>,
    name: Seq<char>,
    value: Seq<char>,
    color: Color,
    theme: Theme,
)
    requires
        themed_spans(left, theme),
        is_token(color, theme),
    ensures
        themed_spans(crate::tui::panes::with_field(left, name, value, color, theme), theme),
{
    lemma_tokens(theme);
}

proof fn lemma_ambient(state: AppState, theme: Theme, width: u16)
    ensures
        themed_spans(crate::tui::panes::ambient(state, theme, width), theme),
{
    lemma_tokens(theme);
    assert forall|left: Seq<SpanModel>, name: Seq<char>, value: Seq<char>, color: Color|
        themed_spans(left, theme) && is_token(color, theme) implies themed_spans(
        #[trigger] crate::tui::panes::with_field(left, name, value, color, theme),
        theme,
    ) by {
        lemma_with_field(left, name, value, color, theme);
    }
}

proof fn lemma_status(state: AppState, theme: Theme, width: u16)
    ensures
        themed_line(crate::tui::panes::status_view(state, theme, width).line, theme),
        themed(crate::tui::panes::status_view(state, theme, width).style, theme),
{
    broadcast use group_lines_are_themed;

    lemma_tokens(theme);
    lemma_ambient(state, theme, width);
    assert(themed_spans(crate::tui::panes::next_steps(state, theme), theme));
}

// ---------------------------------------------------------------------------
// The browsers
// ---------------------------------------------------------------------------

proof fn lemma_card(
    name: Seq<char>,
    color: Color,
    said: Seq<char>,
    selected: bool,
    theme: Theme,
)
    requires
        is_token(color, theme),
    ensures
        themed_row(crate::tui::browsers::card_row(name, color, said, selected, theme), theme),
{
    broadcast use group_lines_are_themed;

    lemma_tokens(theme);
}

proof fn lemma_browser(
    size: u16,
    title: Seq<char>,
    list: u16,
    rows: Seq<RowModel>,
    detail: u16,
    rails: Seq<RailModel>,
    theme: Theme,
)
    requires
        themed_rows(rows, theme),
        themed_rails(rails, theme),
    ensures
        themed_popup(
            crate::tui::browsers::browser(size, title, list, rows, detail, rails, theme),
            theme,
        ),
{
    lemma_tokens(theme);
}

proof fn lemma_rail(edges: Edges, theme: Theme)
    ensures
        themed_block(crate::tui::browsers::rail_frame(edges, theme), theme),
{
    lemma_tokens(theme);
}

proof fn lemma_skills(state: AppState, theme: Theme)
    ensures
        themed_popup(crate::tui::browsers::skills_view(state, theme), theme),
{
    broadcast use group_lines_are_themed;

    lemma_tokens(theme);
    let rows = crate::tui::browsers::skill_rows(state, theme);
    if state.skills@.len() == 0 {
        lemma_placeholder("  no skills registered"@, theme);
    }
    assert forall|i: int| 0 <= i < rows.len() implies themed_row(#[trigger] rows[i], theme) by {
        if state.skills@.len() != 0 {
            let skill: SkillCard = state.skills@[i];
            lemma_card(
                crate::tui::view::clipped(skill.name@, 26),
                theme.text.primary,
                crate::tui::browsers::dotted3(skill.scope@, skill.trust@, skill.status@),
                i == state.selected_skill,
                theme,
            );
        }
    }
    lemma_footer("  \u{2191}/\u{2193} select \u{b7} M memory \u{b7} Esc close"@, theme);
    if let Some(skill) = crate::tui::state::at(state.skills@, state.selected_skill) {
        assert(is_token(crate::tui::labels::skill_hue(skill.risk@, theme), theme));
        assert(themed_lines(crate::tui::browsers::skill_fields(skill, theme), theme));
        assert(themed_lines(crate::tui::browsers::permission_lines(skill, theme), theme));
    }
    assert(themed_lines(crate::tui::browsers::skill_detail(state, theme), theme));
    lemma_rail(Edges::Left, theme);
    lemma_browser(
        84,
        " Skill Studio ("@ + crate::text::decimal(state.skills@.len()) + ") "@,
        38,
        rows,
        62,
        crate::tui::browsers::only_rail(crate::tui::browsers::skill_detail(state, theme), theme),
        theme,
    );
}

proof fn lemma_memory(state: AppState, theme: Theme, source_open: bool)
    ensures
        themed_popup(crate::tui::browsers::memory_view(state, theme, source_open), theme),
{
    broadcast use group_lines_are_themed;

    lemma_tokens(theme);
    let rows = crate::tui::browsers::memory_rows(state, theme);
    if state.memories@.len() == 0 {
        lemma_placeholder("  no memories in scope"@, theme);
    }
    assert forall|i: int| 0 <= i < rows.len() implies themed_row(#[trigger] rows[i], theme) by {
        if state.memories@.len() != 0 {
            let memory: MemoryCard = state.memories@[i];
            lemma_card(
                crate::tui::view::clipped(memory.statement@, 26),
                theme.text.primary,
                "    "@ + memory.class@ + " \u{b7} "@ + memory.scope@,
                i == state.selected_memory,
                theme,
            );
        }
    }
    lemma_footer("  \u{2191}/\u{2193} select \u{b7} S skills \u{b7} Esc close"@, theme);
    if let Some(memory) = crate::tui::state::at(state.memories@, state.selected_memory) {
        assert(themed_lines(crate::tui::browsers::memory_fields(memory, theme), theme));
        assert(themed_lines(
            crate::tui::browsers::source_lines(memory, source_open, theme),
            theme,
        ));
    }
    let detail = crate::tui::browsers::memory_detail(state, theme, source_open);
    assert(themed_lines(detail, theme));
    lemma_rail(Edges::Left, theme);
    lemma_browser(
        84,
        " Memory ("@ + crate::text::decimal(state.memories@.len()) + ") "@,
        38,
        rows,
        62,
        crate::tui::browsers::only_rail(detail, theme),
        theme,
    );
}

proof fn lemma_doc_row(doc: DocCard, selected: bool, theme: Theme)
    ensures
        themed_row(crate::tui::browsers::doc_row(doc, selected, theme), theme),
{
    lemma_tokens(theme);
    lemma_card(
        crate::tui::view::clipped(doc.title@, 28),
        theme.text.primary,
        crate::tui::browsers::dotted3(doc.scope@, doc.status@, doc.mode@),
        selected,
        theme,
    );
}

proof fn lemma_block(block: DocBlockView, focused: bool, theme: Theme)
    ensures
        themed_line(crate::tui::browsers::block_line(block, focused, theme), theme),
{
    broadcast use group_lines_are_themed;

    lemma_tokens(theme);
}

proof fn lemma_editor(state: AppState, theme: Theme)
    ensures
        themed_lines(crate::tui::browsers::editor_lines(state, theme), theme),
{
    broadcast use group_lines_are_themed;

    lemma_tokens(theme);
    if let Some(doc) = state.doc() {
        let blocks = crate::tui::browsers::block_lines(state, doc, theme);
        assert forall|i: int| 0 <= i < blocks.len() implies themed_line(
            #[trigger] blocks[i],
            theme,
        ) by {
            if doc.blocks@.len() != 0 {
                lemma_block(
                    doc.blocks@[i],
                    state.doc_focus == crate::tui::state::DocFocus::Editor && i
                        == state.selected_block,
                    theme,
                );
            }
        }
    }
}

proof fn lemma_suggestion(s: DocSuggestionView, focused: bool, theme: Theme)
    ensures
        themed_lines(crate::tui::browsers::suggestion_lines(s, focused, theme), theme),
{
    broadcast use group_lines_are_themed;

    lemma_tokens(theme);
}

proof fn lemma_suggestions(state: AppState, doc: DocCard, n: int, theme: Theme)
    ensures
        themed_lines(crate::tui::browsers::suggestions_view(state, doc, n, theme), theme),
    decreases n,
{
    if n > 0 {
        lemma_suggestions(state, doc, n - 1, theme);
        lemma_suggestion(
            doc.suggestions@[n - 1],
            state.doc_focus == crate::tui::state::DocFocus::Review && n - 1
                == state.selected_suggestion,
            theme,
        );
    }
}

proof fn lemma_suggested(state: AppState, theme: Theme)
    ensures
        themed_lines(crate::tui::browsers::review_lines(state, theme), theme),
{
    broadcast use group_lines_are_themed;

    lemma_tokens(theme);
    if let Some(doc) = state.doc() {
        lemma_suggestions(state, doc, doc.suggestions@.len() as int, theme);
    }
    lemma_footer(
        "  Tab rail \u{b7} \u{2191}/\u{2193} select \u{b7} e edit \u{b7} a/r accept/reject \u{b7} Esc close"@,
        theme,
    );
}

proof fn lemma_docs(state: AppState, theme: Theme)
    ensures
        themed_popup(crate::tui::browsers::docs_view(state, theme), theme),
{
    let rows = crate::tui::browsers::doc_rows(state, theme);
    if state.docs@.len() == 0 {
        lemma_placeholder("  no documents in scope"@, theme);
    }
    assert forall|i: int| 0 <= i < rows.len() implies themed_row(#[trigger] rows[i], theme) by {
        if state.docs@.len() != 0 {
            lemma_doc_row(state.docs@[i], i == state.selected_doc, theme);
        }
    }
    lemma_editor(state, theme);
    lemma_suggested(state, theme);
    lemma_rail(Edges::Left, theme);
    lemma_rail(Edges::LeftAndTop, theme);
    lemma_tokens(theme);
}

proof fn lemma_edge_row(edge: GraphEdgeCard, selected: bool, theme: Theme)
    ensures
        themed_row(crate::tui::browsers::edge_row(edge, selected, theme), theme),
{
    lemma_tokens(theme);
    lemma_card(
        crate::tui::view::clipped(edge.relation@, 14),
        theme.text.secondary,
        "    "@ + crate::tui::view::clipped(edge.from@, 16) + " \u{2192} "@
            + crate::tui::view::clipped(edge.to@, 16),
        selected,
        theme,
    );
}

proof fn lemma_edges(state: AppState, theme: Theme)
    ensures
        themed_popup(crate::tui::browsers::edges_view(state, theme), theme),
{
    broadcast use group_lines_are_themed;

    lemma_tokens(theme);
    let rows = crate::tui::browsers::edge_rows(state, theme);
    if state.edges@.len() == 0 {
        lemma_placeholder("  no edges in this repository"@, theme);
    }
    assert forall|i: int| 0 <= i < rows.len() implies themed_row(#[trigger] rows[i], theme) by {
        if state.edges@.len() != 0 {
            lemma_edge_row(state.edges@[i], i == state.selected_edge, theme);
        }
    }
    lemma_footer("  \u{2191}/\u{2193} select \u{b7} D docs \u{b7} Esc close"@, theme);
    if let Some(edge) = crate::tui::state::at(state.edges@, state.selected_edge) {
        assert(is_token(crate::tui::labels::confidence_hue(edge.confidence, theme), theme));
        assert(themed_lines(crate::tui::browsers::edge_fields(edge, theme), theme));
    }
    assert(themed_lines(crate::tui::browsers::edge_detail(state, theme), theme));
    lemma_rail(Edges::Left, theme);
}

proof fn lemma_node_row(node: WorkflowNodeCard, begins: bool, selected: bool, theme: Theme)
    ensures
        themed_row(crate::tui::browsers::node_row(node, begins, selected, theme), theme),
{
    broadcast use group_lines_are_themed;

    lemma_tokens(theme);
    assert(themed_lines(crate::tui::browsers::group_lines(node.workflow@, begins, theme), theme));
}

proof fn lemma_node_fields(node: WorkflowNodeCard, theme: Theme)
    ensures
        themed_lines(crate::tui::browsers::node_fields(node, theme), theme),
{
    broadcast use group_lines_are_themed;

    lemma_tokens(theme);
    assert(is_token(crate::tui::labels::node_hue(node.state@, theme), theme));
}

proof fn lemma_nodes(state: AppState, theme: Theme)
    ensures
        themed_popup(crate::tui::browsers::workflow_view(state, theme), theme),
{
    broadcast use group_lines_are_themed;

    lemma_tokens(theme);
    let rows = crate::tui::browsers::node_rows(state, theme);
    if state.workflow@.len() == 0 {
        lemma_placeholder("  no workflow manifests in this repository"@, theme);
    }
    assert forall|i: int| 0 <= i < rows.len() implies themed_row(#[trigger] rows[i], theme) by {
        if state.workflow@.len() != 0 {
            lemma_node_row(
                state.workflow@[i],
                crate::tui::browsers::begins_workflow(state.workflow@, i),
                i == state.selected_node,
                theme,
            );
        }
    }
    lemma_footer("  \u{2191}/\u{2193} select \u{b7} Esc close"@, theme);
    if let Some(node) = crate::tui::state::at(state.workflow@, state.selected_node) {
        lemma_node_fields(node, theme);
    }
    assert(themed_lines(crate::tui::browsers::node_detail(state, theme), theme));
    lemma_rail(Edges::Left, theme);
}

proof fn lemma_item_row(card: BlackboardItemCard, begins: bool, selected: bool, theme: Theme)
    ensures
        themed_row(crate::tui::browsers::item_row(card, begins, selected, theme), theme),
{
    broadcast use group_lines_are_themed;

    lemma_tokens(theme);
    assert(themed_lines(crate::tui::browsers::group_lines(card.run@, begins, theme), theme));
}

proof fn lemma_item_fields(card: BlackboardItemCard, theme: Theme)
    ensures
        themed_lines(crate::tui::browsers::item_fields(card, theme), theme),
{
    broadcast use group_lines_are_themed;

    lemma_tokens(theme);
    assert(themed_lines(crate::tui::browsers::payload_lines(card.summary@, theme), theme));
}

proof fn lemma_items(state: AppState, theme: Theme)
    ensures
        themed_popup(crate::tui::browsers::blackboard_view(state, theme), theme),
{
    broadcast use group_lines_are_themed;

    lemma_tokens(theme);
    let rows = crate::tui::browsers::item_rows(state, theme);
    if state.blackboard@.len() == 0 {
        lemma_placeholder("  no blackboard artifacts on the active runs"@, theme);
    }
    assert forall|i: int| 0 <= i < rows.len() implies themed_row(#[trigger] rows[i], theme) by {
        if state.blackboard@.len() != 0 {
            lemma_item_row(
                state.blackboard@[i],
                crate::tui::browsers::begins_board(state.blackboard@, i),
                i == state.selected_item,
                theme,
            );
        }
    }
    lemma_footer("  \u{2191}/\u{2193} select \u{b7} Esc close"@, theme);
    if let Some(card) = crate::tui::state::at(state.blackboard@, state.selected_item) {
        lemma_item_fields(card, theme);
    }
    assert(themed_lines(crate::tui::browsers::item_detail(state, theme), theme));
    lemma_rail(Edges::Left, theme);
}

// ---------------------------------------------------------------------------
// The dialogs
// ---------------------------------------------------------------------------

proof fn lemma_menu(
    title: Seq<char>,
    query: Seq<char>,
    keys: Seq<char>,
    rows: Seq<RowModel>,
    theme: Theme,
)
    requires
        themed_rows(rows, theme),
    ensures
        themed_popup(crate::tui::dialogs::menu(title, query, keys, rows, theme), theme),
{
    broadcast use group_lines_are_themed;

    lemma_tokens(theme);
}

proof fn lemma_command_row(entry: PaletteEntry, selected: bool, theme: Theme)
    ensures
        themed_row(crate::tui::dialogs::command_row(entry, selected, theme), theme),
{
    broadcast use group_lines_are_themed;

    lemma_tokens(theme);
}

proof fn lemma_palette(query: Seq<char>, selected: usize, theme: Theme)
    ensures
        themed_popup(crate::tui::dialogs::palette_view(query, selected, theme), theme),
{
    let entries = crate::tui::dialogs::found_commands(query);
    let rows = crate::tui::dialogs::command_rows(entries, selected, theme);
    if entries.len() == 0 {
        lemma_placeholder("  no matching command"@, theme);
    }
    assert forall|i: int| 0 <= i < rows.len() implies themed_row(#[trigger] rows[i], theme) by {
        if entries.len() != 0 {
            lemma_command_row(entries[i], i == selected, theme);
        }
    }
    lemma_menu(
        " Command palette "@,
        query,
        crate::tui::dialogs::menu_keys(),
        rows,
        theme,
    );
}

proof fn lemma_model_row(card: ModelCard, current: bool, selected: bool, theme: Theme)
    ensures
        themed_row(crate::tui::dialogs::model_row(card, current, selected, theme), theme),
{
    broadcast use group_lines_are_themed;

    lemma_tokens(theme);
}

proof fn lemma_models(state: AppState, query: Seq<char>, selected: usize, theme: Theme)
    ensures
        themed_popup(crate::tui::dialogs::models_view(state, query, selected, theme), theme),
{
    let places = crate::tui::dialogs::found_models(state, query);
    let rows = crate::tui::dialogs::model_rows(state, places, selected, theme);
    if places.len() == 0 {
        lemma_placeholder("  no matching model"@, theme);
    }
    assert forall|i: int| 0 <= i < rows.len() implies themed_row(#[trigger] rows[i], theme) by {
        if places.len() != 0 {
            lemma_model_row(
                state.models@[places[i]],
                crate::tui::dialogs::serves(state, state.models@[places[i]]),
                i == selected,
                theme,
            );
        }
    }
    lemma_menu(" Models "@, query, crate::tui::dialogs::menu_keys(), rows, theme);
}

proof fn lemma_risk(risk: Risk, theme: Theme)
    ensures
        themed_lines(crate::tui::dialogs::risk_view(risk, theme), theme),
{
    broadcast use group_lines_are_themed;

    lemma_tokens(theme);
}

proof fn lemma_approval(approval: PendingApproval, capability: Seq<char>, theme: Theme)
    ensures
        themed_popup(crate::tui::dialogs::approval_view(approval, capability, theme), theme),
{
    broadcast use group_lines_are_themed;

    lemma_tokens(theme);
    lemma_risk(approval.risk, theme);
    assert(themed_lines(crate::tui::dialogs::action_lines(approval, theme), theme));
    assert(themed_lines(
        crate::tui::dialogs::approval_lines(approval, capability, theme),
        theme,
    ));
}

proof fn lemma_binding(binding: KeyBinding, theme: Theme)
    ensures
        themed_line(crate::tui::dialogs::binding_line(binding, theme), theme),
{
    broadcast use group_lines_are_themed;

    lemma_tokens(theme);
}

proof fn lemma_help(theme: Theme)
    ensures
        themed_popup(crate::tui::dialogs::help_view(theme), theme),
{
    broadcast use group_lines_are_themed;

    lemma_tokens(theme);
    let table = crate::tui::input::binding_table();
    let middle = Seq::new(
        table.len(),
        |i: int| crate::tui::dialogs::binding_line(table[i], theme),
    );
    assert forall|i: int| 0 <= i < middle.len() implies themed_line(
        #[trigger] middle[i],
        theme,
    ) by {
        lemma_binding(table[i], theme);
    }
    assert(themed_lines(crate::tui::dialogs::help_lines(theme), theme));
}

proof fn lemma_prompt(title: Seq<char>, buffer: Seq<char>, theme: Theme)
    ensures
        themed_popup(crate::tui::dialogs::prompt_view(title, buffer, theme), theme),
{
    broadcast use group_lines_are_themed;

    lemma_tokens(theme);
}

proof fn lemma_confirm(theme: Theme)
    ensures
        themed_popup(crate::tui::dialogs::confirm_view(theme), theme),
{
    broadcast use group_lines_are_themed;

    lemma_tokens(theme);
}

proof fn lemma_overlays(state: AppState, theme: Theme, capability: Seq<char>)
    ensures
        forall|k: int|
            0 <= k < crate::tui::dialogs::overlays_view(state, theme, capability).len()
                ==> themed_popup(
                #[trigger] crate::tui::dialogs::overlays_view(state, theme, capability)[k],
                theme,
            ),
{
    match state.overlay {
        Overlay::Help => lemma_help(theme),
        Overlay::NewRun(buffer) => lemma_prompt("New run objective"@, buffer@, theme),
        Overlay::Steering(buffer) => lemma_prompt(
            "Steer the run (queued for a safe point)"@,
            buffer@,
            theme,
        ),
        Overlay::ConfirmCancel => lemma_confirm(theme),
        Overlay::Skills => lemma_skills(state, theme),
        Overlay::Memory { source_open } => lemma_memory(state, theme, source_open),
        Overlay::Docs => lemma_docs(state, theme),
        Overlay::Edges => lemma_edges(state, theme),
        Overlay::Workflow => lemma_nodes(state, theme),
        Overlay::Blackboard => lemma_items(state, theme),
        Overlay::Palette { query, selected } => lemma_palette(query@, selected, theme),
        Overlay::DocEdit { buffer, .. } => {
            lemma_docs(state, theme);
            lemma_prompt("Insert text into the focused block"@, buffer@, theme);
        },
        Overlay::ModelPicker { query, selected } => lemma_models(state, query@, selected, theme),
        Overlay::Closed => {
            if state.modal() && state.selected_approval < state.pending_approvals@.len() {
                lemma_approval(
                    state.pending_approvals@[state.selected_approval as int],
                    capability,
                    theme,
                );
            }
        },
    }
}

/// Every color on a screen is a token of the theme it is drawn with: no view
/// brings a color of its own, so a change of theme reaches every cell.
pub proof fn law_every_color_is_a_token(
    state: AppState,
    theme: Theme,
    room: Room,
    capability: Seq<char>,
)
    ensures
        themed_screen(crate::tui::render::screen(state, theme, room, capability), theme),
{
    lemma_tokens(theme);
    lemma_conversation(state, theme, room.conversation_width, room.conversation_height);
    lemma_runs(state, theme);
    lemma_context(state, theme);
    lemma_composer(state, theme);
    lemma_status(state, theme, room.status_width);
    lemma_overlays(state, theme, capability);
}

/// On a terminal of indexed colors every color drawn is an indexed one.
pub proof fn law_indexed_terminals_get_indexed_colors(c: Color)
    requires
        is_token(c, crate::tui::theme::ansi256_theme()),
    ensures
        c is Indexed,
{
    reveal(is_token);
}

/// On a terminal of the basic colors every color drawn has a name.
pub proof fn law_basic_terminals_get_named_colors(c: Color)
    requires
        is_token(c, crate::tui::theme::ansi16_theme()),
    ensures
        !(c is Indexed),
        !(c is Rgb),
{
    reveal(is_token);
}

/// On a terminal without color everything drawn is a shade of gray.
pub proof fn law_monochrome_terminals_get_grays(c: Color)
    requires
        is_token(c, crate::tui::theme::monochrome_theme()),
    ensures
        crate::tui::theme::gray(c),
{
    reveal(is_token);
}

} // verus!
