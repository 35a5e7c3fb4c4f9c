//! What the menus and dialogs show.
use crate::tui::browser_laws::list_of;
use crate::tui::dialogs::{
    approval_lines, confirm_lines, found_commands, found_models, help_lines, models_view,
    overlays_view, palette_view, prompt_lines,
};
use crate::tui::input::binding_table;
use crate::tui::labels::{described, risk_word};
use crate::tui::state::{AppState, ModelLocationLabel, Overlay, PendingApproval};
use crate::tui::theme::Theme;
use crate::tui::view::{BodyModel, LineModel, PopupModel};
use crate::tui::view_laws::{reads, span_texts, told};
use vstd::prelude::*;

verus! {

/// The lines of a dialog.
pub open spec fn text_of(popup: PopupModel) -> Seq<LineModel> {
    match popup.body {
        BodyModel::Text(lines) => lines,
        BodyModel::Menu { head, rows } => head,
        BodyModel::Browser { list, rows, detail, rails } => Seq::<LineModel>::empty(),
    }
}

proof fn lemma_told(lines: Seq<LineModel>, i: int, text: Seq<char>)
    requires
        0 <= i < lines.len(),
        lines[i] == crate::tui::view::styled(text, lines[i].style),
    ensures
        told(lines, text),
        reads(lines[i], text),
{
    crate::tui::view_laws::law_a_styled_line_says_its_text(text, lines[i].style);
}

/// The palette shows the query as it was typed, and a row for every command that it finds, in
/// order, with its title, its description and its key; where it finds none it says so.
pub proof fn law_every_found_command_is_shown(
    query: Seq<char>,
    selected: usize,
    theme: Theme,
    i: int,
)
    ensures
        ({
            let popup = palette_view(query, selected, theme);
            let rows = list_of(popup);
            let found = found_commands(query);
            &&& text_of(popup)[0].spans[1].text == query
            &&& found.len() == 0 ==> rows.len() == 1 && told(
                rows[0].lines,
                "  no matching command"@,
            )
            &&& found.len() > 0 ==> rows.len() == found.len()
            &&& 0 <= i < found.len() ==> rows[i].lines.len() == 1 && span_texts(rows[i].lines[0])
                == seq![
                if i == selected {
                    "\u{203a} "@
                } else {
                    "  "@
                },
                crate::tui::view::widened(found[i].title@, 20),
                found[i].description@,
                "  ["@ + found[i].key@ + "]"@,
            ]
        }),
{
    let popup = palette_view(query, selected, theme);
    let rows = list_of(popup);
    let found = found_commands(query);
    if found.len() == 0 {
        lemma_told(rows[0].lines, 0, "  no matching command"@);
    }
    if 0 <= i < found.len() {
        assert(span_texts(rows[i].lines[0]) =~= seq![
            crate::tui::panes::pointer(i == selected),
            crate::tui::view::widened(found[i].title@, 20),
            found[i].description@,
            "  ["@ + found[i].key@ + "]"@,
        ]);
    }
}

/// The model picker shows a row for every model that the query finds, in order, with its name, its
/// provider and where it runs; the one that serves the selected run is marked, and no other.
pub proof fn law_every_found_model_is_shown(
    state: AppState,
    query: Seq<char>,
    selected: usize,
    theme: Theme,
    i: int,
)
    ensures
        ({
            let popup = models_view(state, query, selected, theme);
            let rows = list_of(popup);
            let found = found_models(state, query);
            &&& text_of(popup)[0].spans[1].text == query
            &&& found.len() == 0 ==> rows.len() == 1 && told(rows[0].lines, "  no matching model"@)
            &&& found.len() > 0 ==> rows.len() == found.len()
            &&& 0 <= i < found.len() ==> {
                let card = state.models@[found[i]];
                let current = state.selected_run < state.runs@.len() && (
                match state.runs@[state.selected_run as int].model {
                    Some(model) => model.0@ == card.id.0@,
                    None => false,
                });
                &&& rows[i].lines.len() == 1
                &&& span_texts(rows[i].lines[0]) == seq![
                    if i == selected {
                        "\u{203a} "@
                    } else {
                        "  "@
                    },
                    crate::tui::view::widened(card.id.0@, 28),
                    card.provider@ + match card.location {
                        Some(ModelLocationLabel::Local) => "  local"@,
                        Some(ModelLocationLabel::Hosted) => "  hosted"@,
                        None => ""@,
                    },
                    if current {
                        "  (current)"@
                    } else {
                        ""@
                    },
                ]
            }
        }),
{
    let popup = models_view(state, query, selected, theme);
    let rows = list_of(popup);
    let found = found_models(state, query);
    if found.len() == 0 {
        lemma_told(rows[0].lines, 0, "  no matching model"@);
    }
    if 0 <= i < found.len() {
        let card = state.models@[found[i]];
        assert(span_texts(rows[i].lines[0]) =~= seq![
            crate::tui::panes::pointer(i == selected),
            crate::tui::view::widened(card.id.0@, 28),
            card.provider@ + crate::tui::dialogs::location_words(card.location),
            if crate::tui::dialogs::serves(state, card) {
                "  (current)"@
            } else {
                ""@
            },
        ]);
    }
}

/// An approval is asked for with everything there is to decide on: each line of what the action
/// would do, how risky it is and each reason for it, the capability it takes, and the keys that
/// decide.
pub proof fn law_an_approval_tells_everything(
    approval: PendingApproval,
    capability: Seq<char>,
    theme: Theme,
    i: int,
    j: int,
)
    ensures
        ({
            let lines = approval_lines(approval, capability, theme);
            let what = described(approval.action);
            let n = what.len() as int;
            let m = approval.risk.reasons@.len() as int;
            &&& lines.len() == n + m + 11
            &&& 0 <= i < n ==> reads(lines[3 + i], "  "@ + what[i])
            &&& span_texts(lines[n + 5]) == seq!["  level: "@, risk_word(approval.risk.level)]
            &&& 0 <= j < m ==> reads(lines[n + 6 + j], "  - "@ + approval.risk.reasons@[j]@)
            &&& reads(lines[n + m + 8], "  "@ + capability)
            &&& span_texts(lines[n + m + 10]) == seq![
                "[a] approve once   "@,
                "[A] approve for run   "@,
                "[r] reject"@,
            ]
        }),
{
    let lines = approval_lines(approval, capability, theme);
    let what = described(approval.action);
    let n = what.len() as int;
    let m = approval.risk.reasons@.len() as int;
    let first = crate::tui::dialogs::action_lines(approval, theme);
    let risk = crate::tui::dialogs::risk_view(approval.risk, theme);
    if 0 <= i < n {
        assert(lines[3 + i] == first[i]);
        lemma_told(lines, 3 + i, "  "@ + what[i]);
    }
    assert(lines[n + 5] == risk[0]);
    assert(span_texts(lines[n + 5]) =~= seq!["  level: "@, risk_word(approval.risk.level)]);
    if 0 <= j < m {
        assert(lines[n + 6 + j] == risk[1 + j]);
        lemma_told(lines, n + 6 + j, "  - "@ + approval.risk.reasons@[j]@);
    }
    lemma_told(lines, n + m + 8, "  "@ + capability);
    assert(span_texts(lines[n + m + 10]) =~= seq![
        "[a] approve once   "@,
        "[A] approve for run   "@,
        "[r] reject"@,
    ]);
}

/// The help has a line for every binding, in order, with its keys, what they do, and the gesture
/// that does the same where there is one.
pub proof fn law_the_help_lists_every_binding(theme: Theme, i: int)
    requires
        0 <= i < binding_table().len(),
    ensures
        ({
            let lines = help_lines(theme);
            let binding = binding_table()[i];
            let words = span_texts(lines[2 + i]);
            &&& lines.len() == binding_table().len() + 4
            &&& words[0] == "  "@ + crate::tui::view::widened(binding.keys@, 12)
            &&& words[1] == binding.description@
            &&& binding.mouse is None ==> words.len() == 2
            &&& binding.mouse matches Some(gesture) ==> words.len() == 3 && words[2]
                == "  (mouse: "@ + gesture@ + ")"@
        }),
{
    let lines = help_lines(theme);
    let table = binding_table();
    assert(lines[2 + i] == crate::tui::dialogs::binding_line(table[i], theme));
}

/// A prompt shows what is asked for and everything that was typed, with the cursor behind it.
pub proof fn law_a_prompt_shows_what_was_typed(title: Seq<char>, buffer: Seq<char>, theme: Theme)
    ensures
        ({
            let lines = prompt_lines(title, buffer, theme);
            &&& lines.len() == 3
            &&& reads(lines[0], title)
            &&& span_texts(lines[1]) == seq!["\u{203a} "@, buffer, "\u{2588}"@]
        }),
{
    let lines = prompt_lines(title, buffer, theme);
    lemma_told(lines, 0, title);
    assert(span_texts(lines[1]) =~= seq!["\u{203a} "@, buffer, "\u{2588}"@]);
}

/// What is up is what the state says: the prompts with their buffers, the menus with their queries
/// and the browsers; without an overlay the focused approval, where one waits, and else nothing.
pub proof fn law_what_is_up_is_what_was_opened(state: AppState, theme: Theme, capability: Seq<char>)
    ensures
        ({
            let up = overlays_view(state, theme, capability);
            match state.overlay {
                Overlay::NewRun(buffer) => up.len() == 1 && text_of(up[0]) == prompt_lines(
                    "New run objective"@,
                    buffer@,
                    theme,
                ),
                Overlay::Steering(buffer) => up.len() == 1 && text_of(up[0]) == prompt_lines(
                    "Steer the run (queued for a safe point)"@,
                    buffer@,
                    theme,
                ),
                Overlay::DocEdit { buffer, .. } => up.len() == 2 && up[0]
                    == crate::tui::browsers::docs_view(state, theme) && text_of(up[1])
                    == prompt_lines("Insert text into the focused block"@, buffer@, theme),
                Overlay::ConfirmCancel => up.len() == 1 && text_of(up[0]) == confirm_lines(theme),
                Overlay::Help => up.len() == 1 && text_of(up[0]) == help_lines(theme),
                Overlay::Palette { query, selected } => up == seq![
                    palette_view(query@, selected, theme),
                ],
                Overlay::ModelPicker { query, selected } => up == seq![
                    models_view(state, query@, selected, theme),
                ],
                Overlay::Skills => up == seq![crate::tui::browsers::skills_view(state, theme)],
                Overlay::Memory { source_open } => up == seq![
                    crate::tui::browsers::memory_view(state, theme, source_open),
                ],
                Overlay::Docs => up == seq![crate::tui::browsers::docs_view(state, theme)],
                Overlay::Edges => up == seq![crate::tui::browsers::edges_view(state, theme)],
                Overlay::Workflow => up == seq![crate::tui::browsers::workflow_view(state, theme)],
                Overlay::Blackboard => up == seq![
                    crate::tui::browsers::blackboard_view(state, theme),
                ],
                Overlay::Closed => if state.selected_approval < state.pending_approvals@.len() {
                    up.len() == 1 && text_of(up[0]) == approval_lines(
                        state.pending_approvals@[state.selected_approval as int],
                        capability,
                        theme,
                    )
                } else {
                    up.len() == 0
                },
            }
        }),
{
}

/// Before a run is cancelled it is asked whether it should be, and the keys of both answers are
/// named.
pub proof fn law_cancelling_is_asked_about(theme: Theme)
    ensures
        told(confirm_lines(theme), "Cancel this run?"@),
        span_texts(confirm_lines(theme).last()) == seq!["[y] yes, cancel   "@, "[n] no"@],
{
    let lines = confirm_lines(theme);
    lemma_told(lines, 0, "Cancel this run?"@);
    assert(span_texts(lines.last()) =~= seq!["[y] yes, cancel   "@, "[n] no"@]);
}

} // verus!
