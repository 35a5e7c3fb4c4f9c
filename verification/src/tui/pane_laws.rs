//! What the panes show of the runs, the approvals and the conversation.
use crate::tui::labels::{cost_words, kind_words, mode_word, risk_word, state_mark, state_word};
use crate::tui::panes::{
    ambient, cells_of, composer_view, context_view, conversation_view, last_offset, line_cells, next_steps,
    rows_of, runs_view, span_cells, status_view, total_rows,
};
use crate::tui::state::AppState;
use crate::tui::theme::{Color, Theme};
use crate::tui::view::SpanModel;
use crate::tui::view_laws::{reads, span_texts};
use vstd::prelude::*;

verus! {

/// Every run has a row, in order, with the mark of its state and its objective, cut where it is
/// long; the pointer is at the selected one alone, and the title says how many there are.
pub proof fn law_every_run_has_a_row(state: AppState, theme: Theme, i: int)
    requires
        0 <= i < state.runs@.len(),
    ensures
        ({
            let pane = runs_view(state, theme);
            let run = state.runs@[i];
            let selected = i == state.selected_run;
            let words = span_texts(pane.rows[i].lines[0]);
            &&& pane.rows.len() == state.runs@.len()
            &&& pane.rows[i].lines.len() == 1
            &&& words.len() == 4
            &&& words[0] == if selected {
                "\u{203a} "@
            } else {
                "  "@
            }
            &&& words[1] == state_mark(run.state)
            &&& words[2] == " "@
            &&& run.objective@.len() <= 18 ==> words[3] == run.objective@
            &&& run.objective@.len() > 18 ==> words[3] == run.objective@.take(17).push('\u{2026}')
            &&& selected ==> pane.rows[i].style == theme.selected()
            &&& !selected ==> pane.rows[i].style == crate::tui::view::unstyled()
            &&& pane.block.title matches Some(title) ==> title.text == " "@ + ("Runs ("@
                + crate::text::decimal(state.runs@.len()) + ")"@) + " "@
            &&& pane.block.title is Some
        }),
{
    let run = state.runs@[i];
    crate::tui::view_laws::law_clipping_keeps_the_beginning(run.objective@, 18);
    let cut = crate::tui::view::clipped(run.objective@, 18);
    if run.objective@.len() > 18 {
        assert(cut =~= cut.drop_last().push(cut.last()));
    }
}

/// Every approval that waits is listed, in order, with its risk and the kind of what is asked.
pub proof fn law_every_approval_is_listed(state: AppState, theme: Theme, i: int)
    requires
        0 <= i < state.pending_approvals@.len(),
    ensures
        ({
            let approval = state.pending_approvals@[i];
            let words = span_texts(context_view(state, theme).lines[i]);
            &&& words.len() == 4
            &&& words[0] == if i == state.selected_approval {
                "\u{203a} "@
            } else {
                "  "@
            }
            &&& words[1] == risk_word(approval.risk.level)
            &&& words[3] == kind_words(approval.action)
        }),
{
}

/// Below the approvals stands how the selected run fares: its state, mode, model, context, cost and
/// worktree, a dash for what is not known.
pub proof fn law_the_selected_run_is_told(state: AppState, theme: Theme)
    requires
        state.selected_run < state.runs@.len(),
    ensures
        ({
            let run = state.runs@[state.selected_run as int];
            let lines = context_view(state, theme).lines;
            let n = lines.len() as int;
            let listed = if state.pending_approvals@.len() == 0 {
                1
            } else {
                state.pending_approvals@.len() as int
            };
            let dash = "\u{2014}"@;
            &&& n == listed + 8
            &&& span_texts(lines[n - 6]) == seq!["  "@ + "state"@ + ": "@, state_word(run.state)]
            &&& span_texts(lines[n - 5]) == seq!["  "@ + "mode"@ + ": "@, mode_word(run.mode)]
            &&& span_texts(lines[n - 4]) == seq![
                "  "@ + "model"@ + ": "@,
                match run.model {
                    Some(m) => m.0@,
                    None => dash,
                },
            ]
            &&& span_texts(lines[n - 3]) == seq![
                "  "@ + "ctx"@ + ": "@,
                match run.context_percent {
                    Some(p) => crate::text::decimal(p as nat) + "%"@,
                    None => dash,
                },
            ]
            &&& span_texts(lines[n - 2]) == seq![
                "  "@ + "cost"@ + ": "@,
                match run.cost_minor {
                    Some(c) => cost_words(Some(c)),
                    None => dash,
                },
            ]
            &&& span_texts(lines[n - 1]) == seq![
                "  "@ + "wt"@ + ": "@,
                match run.worktree {
                    Some(w) => w@,
                    None => dash,
                },
            ]
        }),
{
    let run = state.runs@[state.selected_run as int];
    let lines = context_view(state, theme).lines;
    let n = lines.len() as int;
    let fields = crate::tui::panes::run_fields(run, theme);
    assert forall|k: int| 0 <= k < 6 implies #[trigger] lines[n - 6 + k] == fields[k] by {}
    assert(lines[n - 6 + 0] == fields[0]);
    assert(lines[n - 6 + 1] == fields[1]);
    assert(lines[n - 6 + 2] == fields[2]);
    assert(lines[n - 6 + 3] == fields[3]);
    assert(lines[n - 6 + 4] == fields[4]);
    assert(lines[n - 6 + 5] == fields[5]);
}

/// A line takes as many rows as its cells need and not one more, and an empty line one.
pub proof fn law_a_line_takes_the_rows_it_needs(cells: nat, width: nat)
    requires
        width > 0,
    ensures
        cells == 0 ==> rows_of(cells, width) == 1,
        cells > 0 ==> rows_of(cells, width) * width >= cells && (rows_of(cells, width) - 1) * width
            < cells,
{
    let q = cells / width;
    let r = cells % width;
    assert(cells == q * width + r && 0 <= r < width) by (nonlinear_arith)
        requires
            width > 0,
            q == cells / width,
            r == cells % width,
    ;
    assert((q + 1) * width == q * width + width) by (nonlinear_arith);
    assert((q - 1) * width == q * width - width) by (nonlinear_arith);
}

/// Lines stand below one another: two stretches of lines take the rows of the one and the rows of
/// the other.
pub proof fn law_rows_add_up(a: Seq<nat>, b: Seq<nat>, width: nat)
    ensures
        total_rows(a + b, (a + b).len() as int, width) == total_rows(a, a.len() as int, width)
            + total_rows(b, b.len() as int, width),
    decreases b.len(),
{
    if b.len() == 0 {
        assert(a + b =~= a);
    } else {
        let front = b.drop_last();
        law_rows_add_up(a, front, width);
        lemma_rows_of_prefix(a + front, a + b, width, (a + front).len() as int);
        lemma_rows_of_prefix(front, b, width, front.len() as int);
    }
}

proof fn lemma_rows_of_prefix(a: Seq<nat>, b: Seq<nat>, width: nat, n: int)
    requires
        0 <= n <= a.len(),
        n <= b.len(),
        forall|i: int| 0 <= i < n ==> #[trigger] a[i] == b[i],
    ensures
        total_rows(a, n, width) == total_rows(b, n, width),
    decreases n,
{
    if n > 0 {
        lemma_rows_of_prefix(a, b, width, n - 1);
    }
}

/// The conversation can be scrolled until its last row is the last that is seen, and no further;
/// where everything is seen at once it cannot be scrolled.
pub proof fn law_scrolling_ends_at_the_last_row(cells: Seq<nat>, width: u16, height: u16)
    requires
        width > 0,
        total_rows(cells, cells.len() as int, width as nat) <= u16::MAX,
    ensures
        ({
            let rows = total_rows(cells, cells.len() as int, width as nat);
            let end = last_offset(cells, width, height);
            &&& rows <= height ==> end == 0
            &&& rows > height ==> end + height == rows
        }),
{
}

/// A run that is followed is seen at its end; one that is not stays where it was scrolled to, as
/// far as there are rows. All of its transcript is there to be scrolled through.
pub proof fn law_a_followed_run_is_seen_at_its_end(
    state: AppState,
    theme: Theme,
    width: u16,
    height: u16,
)
    requires
        state.selected_run < state.runs@.len(),
    ensures
        ({
            let run = state.runs@[state.selected_run as int];
            let pane = conversation_view(state, theme, width, height);
            let end = last_offset(line_cells(pane.lines), width, height);
            &&& pane.lines == crate::tui::transcript::transcript_view(run, theme, false)
            &&& run.follow ==> pane.offset == end
            &&& !run.follow && run.scroll <= end ==> pane.offset == run.scroll
            &&& !run.follow && run.scroll > end ==> pane.offset == end
        }),
{
}

/// A draft is shown whole, with the cursor behind it; the composer says that a message would steer
/// exactly where the selected run still goes on.
pub proof fn law_a_draft_is_shown_whole(state: AppState, theme: Theme)
    ensures
        ({
            let pane = composer_view(state, theme);
            let goes_on = state.selected_run < state.runs@.len() && {
                let now = state.runs@[state.selected_run as int].state;
                !(now is Completed || now is Failed || now is Cancelled)
            };
            &&& pane.lines.len() == 1
            &&& state.composer@.len() > 0 ==> span_texts(pane.lines[0]) == seq![
                "\u{203a} "@,
                state.composer@,
                "\u{258f}"@,
            ]
            &&& pane.block.title is Some
            &&& goes_on ==> pane.block.title->0.text == " Steer "@
            &&& !goes_on ==> pane.block.title->0.text == " Message "@
            &&& state.composer@.len() == 0 && goes_on ==> pane.lines[0].spans[1].text
                == "steer the run \u{b7} Enter sends \u{b7} / for commands"@
            &&& state.composer@.len() == 0 && !goes_on ==> pane.lines[0].spans[1].text
                == "message the agent to start a run \u{b7} Enter sends \u{b7} / for commands"@
        }),
{
    let pane = composer_view(state, theme);
    if state.composer@.len() > 0 {
        assert(span_texts(pane.lines[0]) =~= seq!["\u{203a} "@, state.composer@, "\u{258f}"@]);
    }
}

/// Whether the field at `j` of a status line has the given name and value.
pub open spec fn field_at(
    spans: Seq<SpanModel>,
    j: int,
    name: Seq<char>,
    value: Seq<char>,
) -> bool {
    &&& 3 * j + 2 < spans.len()
    &&& spans[3 * j + 1].text == name + " "@
    &&& spans[3 * j + 2].text == value
}

proof fn lemma_field(
    left: Seq<SpanModel>,
    j: int,
    name: Seq<char>,
    value: Seq<char>,
    color: Color,
    theme: Theme,
)
    requires
        j == 0 ==> left.len() == 1,
        j > 0 ==> left.len() == 3 * j,
        j >= 0,
    ensures
        ({
            let out = crate::tui::panes::with_field(left, name, value, color, theme);
            &&& out.len() == 3 * j + 3
            &&& forall|i: int| 0 <= i < left.len() ==> #[trigger] out[i] == left[i]
            &&& field_at(out, j, name, value)
            &&& out.last().style.fg == Some(color)
        }),
{
}

/// The state of the selected run and how many approvals wait stand on a status line however narrow
/// it is; mode and context are added where there are 64 cells, and model, cost and worktree where
/// there are 96. What there is room for is shown, and in one order.
pub proof fn law_a_status_line_shows_what_it_has_room_for(
    state: AppState,
    theme: Theme,
    width: u16,
)
    requires
        state.selected_run < state.runs@.len(),
    ensures
        ({
            let run = state.runs@[state.selected_run as int];
            let spans = ambient(state, theme, width);
            let dash = "\u{2014}"@;
            let model = match run.model {
                Some(m) => m.0@,
                None => dash,
            };
            let context = match run.context_percent {
                Some(p) => crate::text::decimal(p as nat) + "%"@,
                None => dash,
            };
            let cost = match run.cost_minor {
                Some(c) => cost_words(Some(c)),
                None => dash,
            };
            let worktree = match run.worktree {
                Some(w) => w@,
                None => dash,
            };
            let waiting = crate::text::decimal(state.pending_approvals@.len());
            &&& width < 64 ==> {
                &&& spans.len() == 6
                &&& field_at(spans, 0, "state"@, state_word(run.state))
                &&& field_at(spans, 1, "approvals"@, waiting)
            }
            &&& 64 <= width < 96 ==> {
                &&& spans.len() == 12
                &&& field_at(spans, 0, "mode"@, mode_word(run.mode))
                &&& field_at(spans, 1, "state"@, state_word(run.state))
                &&& field_at(spans, 2, "ctx"@, context)
                &&& field_at(spans, 3, "approvals"@, waiting)
            }
            &&& 96 <= width ==> {
                &&& spans.len() == 21
                &&& field_at(spans, 0, "mode"@, mode_word(run.mode))
                &&& field_at(spans, 1, "state"@, state_word(run.state))
                &&& field_at(spans, 2, "model"@, model)
                &&& field_at(spans, 3, "ctx"@, context)
                &&& field_at(spans, 4, "cost"@, cost)
                &&& field_at(spans, 5, "wt"@, worktree)
                &&& field_at(spans, 6, "approvals"@, waiting)
            }
            &&& state.pending_approvals@.len() > 0 ==> spans.last().style.fg == Some(
                theme.status.warning,
            )
        }),
{
    let run = state.runs@[state.selected_run as int];
    let dash = crate::tui::labels::dash();
    let model = crate::tui::panes::model_words(run.model);
    let context = crate::tui::panes::percent_words(run.context_percent);
    let cost = cost_words(run.cost_minor);
    let worktree = crate::tui::panes::text_or_dash(run.worktree);
    let waiting = crate::text::decimal(state.pending_approvals@.len());
    let shade = crate::tui::labels::state_color(run.state, theme);
    let info = theme.status.info;
    let quiet = theme.text.secondary;
    let alert = if state.pending_approvals@.len() > 0 {
        theme.status.warning
    } else {
        theme.text.muted
    };
    let start = seq![crate::tui::view::words(" "@, crate::tui::view::unstyled())];
    if width < 64 {
        let a = crate::tui::panes::with_field(start, "state"@, state_word(run.state), shade, theme);
        lemma_field(start, 0, "state"@, state_word(run.state), shade, theme);
        lemma_field(a, 1, "approvals"@, waiting, alert, theme);
    } else {
        let a = crate::tui::panes::with_field(start, "mode"@, mode_word(run.mode), info, theme);
        let b = crate::tui::panes::with_field(a, "state"@, state_word(run.state), shade, theme);
        lemma_field(start, 0, "mode"@, mode_word(run.mode), info, theme);
        lemma_field(a, 1, "state"@, state_word(run.state), shade, theme);
        if width < 96 {
            let c = crate::tui::panes::with_field(b, "ctx"@, context, info, theme);
            lemma_field(b, 2, "ctx"@, context, info, theme);
            lemma_field(c, 3, "approvals"@, waiting, alert, theme);
        } else {
            let c = crate::tui::panes::with_field(b, "model"@, model, quiet, theme);
            let d = crate::tui::panes::with_field(c, "ctx"@, context, info, theme);
            let e = crate::tui::panes::with_field(d, "cost"@, cost, theme.status.warning, theme);
            let f = crate::tui::panes::with_field(e, "wt"@, worktree, quiet, theme);
            lemma_field(b, 2, "model"@, model, quiet, theme);
            lemma_field(c, 3, "ctx"@, context, info, theme);
            lemma_field(d, 4, "cost"@, cost, theme.status.warning, theme);
            lemma_field(e, 5, "wt"@, worktree, quiet, theme);
            lemma_field(f, 6, "approvals"@, waiting, alert, theme);
        }
    }
}

/// The first of the next steps is the most pressing: to decide where an approval waits, else to go
/// back to the latest rows where the run is not followed, else to send a draft, else to find a
/// command.
pub proof fn law_the_most_pressing_step_comes_first(state: AppState, theme: Theme)
    ensures
        ({
            let first = next_steps(state, theme)[0].text;
            let waits = state.pending_approvals@.len() > 0;
            let behind = state.selected_run < state.runs@.len()
                && !state.runs@[state.selected_run as int].follow;
            let drafted = state.composer@.len() > 0;
            &&& waits ==> first == "a"@
            &&& !waits && behind ==> first == "PgDn"@
            &&& !waits && !behind && drafted ==> first == "\u{23ce}"@
            &&& !waits && !behind && !drafted ==> first == "/"@
        }),
{
}

/// A notice has the status line to itself; without one the fields stand first and the next steps
/// last, nothing of either left out.
pub proof fn law_a_status_line_is_a_notice_or_everything(
    state: AppState,
    theme: Theme,
    width: u16,
)
    ensures
        ({
            let spans = status_view(state, theme, width).line.spans;
            let left = ambient(state, theme, width);
            let right = next_steps(state, theme);
            &&& state.notice matches Some(notice) ==> spans.len() == 2 && spans[1].text == notice.0@
            &&& state.notice is None ==> {
                &&& spans.len() == left.len() + right.len() + 2
                &&& spans.take(left.len() as int) == left
                &&& spans.subrange(left.len() as int + 1, spans.len() - 1) == right
            }
        }),
{
    let spans = status_view(state, theme, width).line.spans;
    let left = ambient(state, theme, width);
    let right = next_steps(state, theme);
    if state.notice is None {
        assert(spans.take(left.len() as int) =~= left);
        assert(spans.subrange(left.len() as int + 1, spans.len() - 1) =~= right);
    }
}

/// The conversation's title names the session and what the selected run is for, and which of
/// several runs it is.
pub proof fn law_the_title_says_which_run_is_seen(state: AppState)
    requires
        state.selected_run < state.runs@.len(),
        state.session_title is Some,
        state.runs@[state.selected_run as int].objective@.len() <= 36,
    ensures
        ({
            let run = state.runs@[state.selected_run as int];
            let title = crate::tui::panes::conversation_title(state);
            let head = state.session_title->0@ + " \u{2014} "@ + run.objective@;
            &&& state.runs@.len() == 1 ==> title == head
            &&& state.runs@.len() > 1 ==> title == head + " ["@ + crate::text::decimal(
                (state.selected_run + 1) as nat,
            ) + "/"@ + crate::text::decimal(state.runs@.len()) + "]"@
        }),
{
}

/// A status line is filled: between the fields and the next steps stand as many spaces as are left
/// of it, less the last cell; where the two do not fit, none.
pub proof fn law_a_status_line_is_filled(state: AppState, theme: Theme, width: u16)
    requires
        state.notice is None,
    ensures
        ({
            let left = ambient(state, theme, width);
            let right = next_steps(state, theme);
            let between = status_view(state, theme, width).line.spans[left.len() as int].text;
            let used = cells_of(left) + cells_of(right) + 1;
            &&& used <= width ==> used + between.len() == width
            &&& used > width ==> between.len() == 0
            &&& forall|i: int| 0 <= i < between.len() ==> #[trigger] between[i] == ' '
        }),
{
}

/// Spans one behind the other take the cells of the one and then those of the other.
pub proof fn law_cells_add_up(a: Seq<SpanModel>, b: SpanModel)
    ensures
        cells_of(a.push(b)) == cells_of(a) + crate::tui::cells::display_width(b.text),
        cells_of(Seq::<SpanModel>::empty()) == 0,
{
    lemma_same_cells(a, a.push(b), a.len() as int);
}

proof fn lemma_same_cells(a: Seq<SpanModel>, b: Seq<SpanModel>, n: int)
    requires
        0 <= n <= a.len(),
        n <= b.len(),
        forall|i: int| 0 <= i < n ==> #[trigger] a[i] == b[i],
    ensures
        span_cells(a, n) == span_cells(b, n),
    decreases n,
{
    if n > 0 {
        lemma_same_cells(a, b, n - 1);
    }
}

/// The outer panes are equally wide, three tenths of the whole but for what is rounded off, and the
/// pane between them is the widest.
pub proof fn law_the_transcript_is_the_widest_pane(width: u16)
    ensures
        ({
            let outer = crate::tui::input::outer_width(width);
            &&& 10 * outer <= 3 * width < 10 * outer + 10
            &&& width - 2 * outer >= outer
        }),
{
}

/// Before the first run the conversation says so, and how to start one.
pub proof fn law_an_empty_conversation_invites(
    state: AppState,
    theme: Theme,
    width: u16,
    height: u16,
)
    requires
        state.selected_run >= state.runs@.len(),
    ensures
        ({
            let pane = conversation_view(state, theme, width, height);
            &&& pane.lines.len() == 2
            &&& reads(pane.lines[0], "No runs yet."@)
            &&& reads(pane.lines[1], "Type a message below and press Enter to start one."@)
            &&& pane.offset == 0
        }),
{
    let pane = conversation_view(state, theme, width, height);
    crate::tui::view_laws::law_a_styled_line_says_its_text("No runs yet."@, pane.lines[0].style);
    crate::tui::view_laws::law_a_styled_line_says_its_text(
        "Type a message below and press Enter to start one."@,
        pane.lines[1].style,
    );
}

/// A screen shows the conversation, the composer and the status line always, the panes beside the
/// conversation in the workspace layout and only there, and above all of it what is up.
pub proof fn law_a_screen_shows_all_of_its_parts(
    state: AppState,
    theme: Theme,
    room: crate::tui::render::Room,
    capability: Seq<char>,
)
    ensures
        ({
            let screen = crate::tui::render::screen(state, theme, room, capability);
            &&& screen.conversation == conversation_view(
                state,
                theme,
                room.conversation_width,
                room.conversation_height,
            )
            &&& screen.composer == composer_view(state, theme)
            &&& screen.status == status_view(state, theme, room.status_width)
            &&& screen.popups == crate::tui::dialogs::overlays_view(state, theme, capability)
            &&& screen.sides is Some <==> state.layout is Workspace
            &&& screen.sides matches Some(sides) ==> sides.runs == runs_view(state, theme)
                && sides.context == context_view(state, theme)
            &&& state.selected_run < state.runs@.len() ==> screen.transcript_max_scroll
                == last_offset(
                line_cells(screen.conversation.lines),
                room.conversation_width,
                room.conversation_height,
            )
        }),
{
}

} // verus!
