//! The base screen: the conversation, the panes beside it, the composer and the status
//! line.
use vstd::prelude::*;

use crate::tui::protocol::ModelId;
use crate::tui::state::{AppState, PendingApproval, RunView, StatusProjection};
use crate::tui::theme::{Color, Style, Theme};
use crate::tui::view::{
    Block, BlockModel, Edges, Line, LineModel, ListPane, ListPaneModel, Row, RowModel, Span,
    SpanModel, TextPane, TextPaneModel,
};

verus! {

/// The frame of a pane.
pub open spec fn pane_frame(title: Seq<char>, focused: bool, theme: Theme) -> BlockModel {
    BlockModel {
        edges: Edges::All,
        title: Some(
            crate::tui::view::words(
                " "@ + title + " "@,
                crate::tui::view::bold(theme.text.heading),
            ),
        ),
        border: theme.border(focused),
        style: crate::tui::view::painted(theme.text.primary, theme.surface.panel),
    }
}

/// The frame of a pane.
pub fn pane_block(title: &str, focused: bool, theme: &Theme) -> (r: Block)
    ensures
        r@ == pane_frame(title@, focused, *theme),
{
    let text: String = crate::text::concat3(" ", title, " ");
    Block {
        edges: Edges::All,
        title: Some(
            crate::tui::view::span(text.as_str(), crate::tui::view::in_bold(theme.text.heading)),
        ),
        border: theme.border_color(focused),
        style: theme.panel_style(),
    }
}

/// A heading.
pub open spec fn heading(title: Seq<char>, theme: Theme) -> SpanModel {
    crate::tui::view::words(title, crate::tui::view::underlined(theme.text.heading))
}

/// A heading on a line of its own.
pub open spec fn section_line(title: Seq<char>, theme: Theme) -> LineModel {
    crate::tui::view::spanned(seq![heading(title, theme)])
}

/// A heading.
pub fn section_span(title: &str, theme: &Theme) -> (r: Span)
    ensures
        r@ == heading(title@, *theme),
{
    crate::tui::view::span(title, crate::tui::view::in_underlined(theme.text.heading))
}

/// A heading on a line of its own.
pub fn section(title: &str, theme: &Theme) -> (r: Line)
    ensures
        r@ == section_line(title@, *theme),
{
    crate::tui::view::line1(section_span(title, theme))
}

/// A named value.
pub open spec fn field_line(name: Seq<char>, value: Seq<char>, color: Color, theme: Theme) -> LineModel {
    crate::tui::view::spanned(
        seq![
            crate::tui::view::words(
                "  "@ + name + ": "@,
                crate::tui::view::colored(theme.text.muted),
            ),
            crate::tui::view::words(value, crate::tui::view::colored(color)),
        ],
    )
}

/// A named value.
pub(crate) fn field(name: &str, value: &str, color: Color, theme: &Theme) -> (r: Line)
    ensures
        r@ == field_line(name@, value@, color, *theme),
{
    let label: String = crate::text::concat3("  ", name, ": ");
    crate::tui::view::line2(
        crate::tui::view::span(label.as_str(), crate::tui::view::in_color(theme.text.muted)),
        crate::tui::view::span(value, crate::tui::view::in_color(color)),
    )
}

/// A quiet line.
pub open spec fn muted(text: Seq<char>, theme: Theme) -> LineModel {
    crate::tui::view::styled(text, crate::tui::view::colored(theme.text.muted))
}

/// A quiet line.
pub(crate) fn muted_line(text: &str, theme: &Theme) -> (r: Line)
    ensures
        r@ == muted(text@, *theme),
{
    crate::tui::view::text_line(text, crate::tui::view::in_color(theme.text.muted))
}

/// The mark of the selected row.
pub open spec fn pointer(selected: bool) -> Seq<char> {
    if selected {
        "\u{203a} "@
    } else {
        "  "@
    }
}

/// The mark of the selected row.
pub(crate) fn marker(selected: bool) -> (r: &'static str)
    ensures
        r@ == pointer(selected),
{
    if selected {
        "\u{203a} "
    } else {
        "  "
    }
}

/// The style of a row: highlighted where it is selected.
pub open spec fn row_style(selected: bool, theme: Theme) -> Style {
    if selected {
        theme.selected()
    } else {
        crate::tui::view::unstyled()
    }
}

/// The style of a row.
pub(crate) fn style_of_row(selected: bool, theme: &Theme) -> (r: Style)
    ensures
        r == row_style(selected, *theme),
{
    if selected {
        theme.selection_style()
    } else {
        crate::tui::view::no_style()
    }
}

/// The row of an empty list.
pub open spec fn placeholder(text: Seq<char>, theme: Theme) -> RowModel {
    RowModel { lines: seq![muted(text, theme)], style: crate::tui::view::unstyled() }
}

/// The row of an empty list.
pub(crate) fn placeholder_row(text: &str, theme: &Theme) -> (r: Row)
    ensures
        r@ == placeholder(text@, *theme),
{
    let mut lines: Vec<Line> = crate::tui::view::no_lines();
    crate::tui::view::add_line(&mut lines, muted_line(text, theme));
    Row { lines, style: crate::tui::view::no_style() }
}

/// A run's row: its mark, its state and its objective.
pub open spec fn run_row(run: RunView, selected: bool, theme: Theme) -> RowModel {
    RowModel {
        lines: seq![
            crate::tui::view::spanned(
                seq![
                    crate::tui::view::words(
                        pointer(selected),
                        crate::tui::view::colored(theme.focus.active),
                    ),
                    crate::tui::view::words(
                        crate::tui::labels::state_mark(run.state),
                        crate::tui::view::colored(
                            crate::tui::labels::state_color(run.state, theme),
                        ),
                    ),
                    crate::tui::view::words(" "@, crate::tui::view::unstyled()),
                    crate::tui::view::words(
                        crate::tui::view::clipped(run.objective@, 18),
                        crate::tui::view::colored(theme.text.primary),
                    ),
                ],
            ),
        ],
        style: row_style(selected, theme),
    }
}

/// The runs pane.
pub open spec fn runs_view(state: AppState, theme: Theme) -> ListPaneModel {
    ListPaneModel {
        block: pane_frame(
            "Runs ("@ + crate::text::decimal(state.runs@.len()) + ")"@,
            false,
            theme,
        ),
        rows: if state.runs@.len() == 0 {
            seq![placeholder("  no runs yet"@, theme)]
        } else {
            Seq::new(
                state.runs@.len(),
                |i: int| run_row(state.runs@[i], i == state.selected_run, theme),
            )
        },
    }
}

pub(crate) fn counted(head: &str, n: usize, tail: &str) -> (r: String)
    ensures
        r@ == head@ + crate::text::decimal(n as nat) + tail@,
{
    crate::text::concat3(head, crate::text::decimal_text(n as u64).as_str(), tail)
}

fn row_of_run(run: &RunView, selected: bool, theme: &Theme) -> (r: Row)
    ensures
        r@ == run_row(*run, selected, *theme),
{
    let mut lines: Vec<Line> = crate::tui::view::no_lines();
    let objective: String = crate::tui::view::truncate(run.objective.as_str(), 18);
    crate::tui::view::add_line(
        &mut lines,
        crate::tui::view::line4(
            crate::tui::view::span(
                marker(selected),
                crate::tui::view::in_color(theme.focus.active),
            ),
            crate::tui::view::span(
                crate::tui::labels::run_state_dot(run.state),
                crate::tui::view::in_color(crate::tui::labels::run_state_color(run.state, theme)),
            ),
            crate::tui::view::span(" ", crate::tui::view::no_style()),
            crate::tui::view::span(
                objective.as_str(),
                crate::tui::view::in_color(theme.text.primary),
            ),
        ),
    );
    Row { lines, style: style_of_row(selected, theme) }
}

/// The runs pane: every run with its state and objective, the selected one marked.
pub fn render_runs_pane(state: &AppState, theme: &Theme) -> (r: ListPane)
    ensures
        r@ == runs_view(*state, *theme),
{
    let title: String = counted("Runs (", state.runs.len(), ")");
    let block: Block = pane_block(title.as_str(), false, theme);
    let ghost all = runs_view(*state, *theme).rows;
    let mut rows: Vec<Row> = crate::tui::view::no_rows();
    if state.runs.len() == 0 {
        crate::tui::view::add_row(&mut rows, placeholder_row("  no runs yet", theme));
    } else {
        let mut i: usize = 0;
        proof {
            assert(all.take(0) =~= Seq::<RowModel>::empty());
        }
        while i < state.runs.len()
            invariant
                i <= state.runs@.len(),
                state.runs@.len() > 0,
                all == runs_view(*state, *theme).rows,
                crate::tui::view::row_models(rows@) == all.take(i as int),
            decreases state.runs@.len() - i,
        {
            let selected: bool = i == state.selected_run;
            crate::tui::view::add_row(&mut rows, row_of_run(&state.runs[i], selected, theme));
            proof {
                assert(all.take(i + 1) =~= all.take(i as int).push(all[i as int]));
            }
            i = i + 1;
        }
        proof {
            assert(all.take(all.len() as int) =~= all);
        }
    }
    ListPane { block, rows }
}

/// A pending approval's line.
pub open spec fn approval_line(approval: PendingApproval, selected: bool, theme: Theme) -> LineModel {
    crate::tui::view::spanned(
        seq![
            crate::tui::view::words(
                pointer(selected),
                crate::tui::view::colored(theme.focus.active),
            ),
            crate::tui::view::words(
                crate::tui::labels::risk_word(approval.risk.level),
                crate::tui::view::colored(
                    crate::tui::labels::risk_hue(approval.risk.level, theme),
                ),
            ),
            crate::tui::view::words(" "@, crate::tui::view::unstyled()),
            crate::tui::view::words(
                crate::tui::labels::kind_words(approval.action),
                crate::tui::view::colored(theme.text.primary),
            ),
        ],
    )
}

/// The context's use in percent, or that it is not known.
pub open spec fn percent_words(percent: Option<u16>) -> Seq<char> {
    match percent {
        Some(p) => crate::text::decimal(p as nat) + "%"@,
        None => crate::tui::labels::dash(),
    }
}

/// A text, or that it is not known.
pub open spec fn text_or_dash(text: Option<String>) -> Seq<char> {
    match text {
        Some(s) => s@,
        None => crate::tui::labels::dash(),
    }
}

/// A model's name, or that it is not known.
pub open spec fn model_words(model: Option<ModelId>) -> Seq<char> {
    match model {
        Some(m) => m.0@,
        None => crate::tui::labels::dash(),
    }
}

/// The selected run's details.
pub open spec fn run_fields(run: RunView, theme: Theme) -> Seq<LineModel> {
    seq![
        field_line(
            "state"@,
            crate::tui::labels::state_word(run.state),
            crate::tui::labels::state_color(run.state, theme),
            theme,
        ),
        field_line(
            "mode"@,
            crate::tui::labels::mode_word(run.mode),
            theme.text.secondary,
            theme,
        ),
        field_line(
            "model"@,
            model_words(run.model),
            theme.text.secondary,
            theme,
        ),
        field_line("ctx"@, percent_words(run.context_percent), theme.status.info, theme),
        field_line(
            "cost"@,
            crate::tui::labels::cost_words(run.cost_minor),
            theme.status.warning,
            theme,
        ),
        field_line("wt"@, text_or_dash(run.worktree), theme.text.secondary, theme),
    ]
}

/// The context pane: the pending approvals above the selected run's details.
pub open spec fn context_view(state: AppState, theme: Theme) -> TextPaneModel {
    TextPaneModel {
        block: pane_frame(
            "Approvals ("@ + crate::text::decimal(state.pending_approvals@.len()) + ")"@,
            false,
            theme,
        ),
        lines: (if state.pending_approvals@.len() == 0 {
            seq![muted("  none pending"@, theme)]
        } else {
            Seq::new(
                state.pending_approvals@.len(),
                |i: int|
                    approval_line(
                        state.pending_approvals@[i],
                        i == state.selected_approval,
                        theme,
                    ),
            )
        }) + seq![crate::tui::view::blank_line(), section_line("Run"@, theme)] + (match state.run() {
            Some(run) => run_fields(run, theme),
            None => seq![muted("  no run selected"@, theme)],
        }),
        offset: 0,
    }
}

fn line_of_approval(approval: &PendingApproval, selected: bool, theme: &Theme) -> (r: Line)
    ensures
        r@ == approval_line(*approval, selected, *theme),
{
    crate::tui::view::line4(
        crate::tui::view::span(marker(selected), crate::tui::view::in_color(theme.focus.active)),
        crate::tui::view::span(
            crate::tui::labels::risk_label(approval.risk.level),
            crate::tui::view::in_color(
                crate::tui::labels::risk_color(approval.risk.level, theme),
            ),
        ),
        crate::tui::view::span(" ", crate::tui::view::no_style()),
        crate::tui::view::span(
            crate::tui::labels::action_kind(&approval.action),
            crate::tui::view::in_color(theme.text.primary),
        ),
    )
}

fn text_of_percent(percent: Option<u16>) -> (r: String)
    ensures
        r@ == percent_words(percent),
{
    match percent {
        Some(p) => crate::text::concat2(crate::text::decimal_text(p as u64).as_str(), "%"),
        None => "\u{2014}".to_owned(),
    }
}

fn known(text: &Option<String>) -> (r: String)
    ensures
        r@ == text_or_dash(*text),
{
    match text {
        Some(s) => s.clone(),
        None => "\u{2014}".to_owned(),
    }
}

fn fields_of_run(run: &RunView, theme: &Theme) -> (r: Vec<Line>)
    ensures
        crate::tui::view::line_models(r@) == run_fields(*run, *theme),
{
    let model: &str = match &run.model {
        Some(m) => m.0.as_str(),
        None => "\u{2014}",
    };
    let percent: String = text_of_percent(run.context_percent);
    let cost: String = crate::tui::labels::format_cost(run.cost_minor);
    let worktree: String = known(&run.worktree);
    let mut r: Vec<Line> = crate::tui::view::no_lines();
    crate::tui::view::add_line(
        &mut r,
        field(
            "state",
            crate::tui::labels::run_state_label(run.state),
            crate::tui::labels::run_state_color(run.state, theme),
            theme,
        ),
    );
    crate::tui::view::add_line(
        &mut r,
        field("mode", crate::tui::labels::mode_label(run.mode), theme.text.secondary, theme),
    );
    crate::tui::view::add_line(&mut r, field("model", model, theme.text.secondary, theme));
    crate::tui::view::add_line(&mut r, field("ctx", percent.as_str(), theme.status.info, theme));
    crate::tui::view::add_line(&mut r, field("cost", cost.as_str(), theme.status.warning, theme));
    crate::tui::view::add_line(&mut r, field("wt", worktree.as_str(), theme.text.secondary, theme));
    proof {
        assert(crate::tui::view::line_models(r@) =~= run_fields(*run, *theme));
    }
    r
}

/// The context pane: the pending approvals above the selected run's details.
pub fn render_context_pane(state: &AppState, theme: &Theme) -> (r: TextPane)
    ensures
        r@ == context_view(*state, *theme),
{
    let title: String = counted("Approvals (", state.pending_approvals.len(), ")");
    let block: Block = pane_block(title.as_str(), false, theme);
    let ghost pending = if state.pending_approvals@.len() == 0 {
        seq![muted("  none pending"@, *theme)]
    } else {
        Seq::new(
            state.pending_approvals@.len(),
            |i: int|
                approval_line(
                    state.pending_approvals@[i],
                    i == state.selected_approval,
                    *theme,
                ),
        )
    };
    let mut lines: Vec<Line> = crate::tui::view::no_lines();
    if state.pending_approvals.len() == 0 {
        crate::tui::view::add_line(&mut lines, muted_line("  none pending", theme));
    } else {
        let mut i: usize = 0;
        proof {
            assert(pending.take(0) =~= Seq::<LineModel>::empty());
        }
        while i < state.pending_approvals.len()
            invariant
                i <= state.pending_approvals@.len(),
                pending == Seq::new(
                    state.pending_approvals@.len(),
                    |k: int|
                        approval_line(
                            state.pending_approvals@[k],
                            k == state.selected_approval,
                            *theme,
                        ),
                ),
                crate::tui::view::line_models(lines@) == pending.take(i as int),
            decreases state.pending_approvals@.len() - i,
        {
            let selected: bool = i == state.selected_approval;
            crate::tui::view::add_line(
                &mut lines,
                line_of_approval(&state.pending_approvals[i], selected, theme),
            );
            proof {
                assert(pending.take(i + 1) =~= pending.take(i as int).push(pending[i as int]));
            }
            i = i + 1;
        }
        proof {
            assert(pending.take(pending.len() as int) =~= pending);
        }
    }
    proof {
        assert(crate::tui::view::line_models(lines@) =~= pending);
    }
    crate::tui::view::add_line(&mut lines, crate::tui::view::empty_line());
    crate::tui::view::add_line(&mut lines, section("Run", theme));
    proof {
        assert(crate::tui::view::line_models(lines@) =~= pending + seq![
            crate::tui::view::blank_line(),
            section_line("Run"@, *theme),
        ]);
    }
    match state.selected_run() {
        Some(run) => crate::tui::view::add_lines(&mut lines, fields_of_run(run, theme)),
        None => {
            crate::tui::view::add_line(&mut lines, muted_line("  no run selected", theme));
        },
    }
    let r = TextPane { block, lines, offset: 0 };
    proof {
        assert(r@.lines =~= context_view(*state, *theme).lines);
    }
    r
}

/// The cells of the first `n` spans.
pub open spec fn span_cells(spans: Seq<SpanModel>, n: int) -> nat
    decreases n,
{
    if n <= 0 {
        0
    } else {
        span_cells(spans, n - 1) + crate::tui::cells::display_width(spans[n - 1].text)
    }
}

/// The cells of the spans.
pub open spec fn cells_of(spans: Seq<SpanModel>) -> nat {
    span_cells(spans, spans.len() as int)
}

fn measure(spans: &Vec<Span>) -> (r: u128)
    ensures
        r as nat == cells_of(crate::tui::view::span_models(spans@)),
{
    let ghost all = crate::tui::view::span_models(spans@);
    let total: usize = spans.len();
    let mut sum: u128 = 0;
    let mut i: usize = 0;
    while i < total
        invariant
            i <= total,
            total == spans@.len(),
            all == crate::tui::view::span_models(spans@),
            sum as nat == span_cells(all, i as int),
            sum <= 0xffff_ffff_ffff_ffff * i,
        decreases total - i,
    {
        let width: usize = crate::tui::cells::cell_width(spans[i].text.as_str());
        proof {
            assert(all[i as int] == spans@[i as int]@);
        }
        sum = sum + width as u128;
        i = i + 1;
    }
    sum
}

/// The rows that a line of `cells` cells takes in a pane `width` cells wide: at least one.
pub open spec fn rows_of(cells: nat, width: nat) -> nat {
    if cells == 0 {
        1
    } else if cells % width == 0 {
        cells / width
    } else {
        cells / width + 1
    }
}

/// The rows that the first `n` lines take.
pub open spec fn total_rows(cells: Seq<nat>, n: int, width: nat) -> nat
    decreases n,
{
    if n <= 0 {
        0
    } else {
        total_rows(cells, n - 1, width) + rows_of(cells[n - 1], width)
    }
}

/// The largest useful scroll offset: the rows of all lines, counted up to the largest
/// offset there is, less those that fit.
pub open spec fn last_offset(cells: Seq<nat>, width: u16, height: u16) -> u16 {
    let rows = total_rows(
        cells,
        cells.len() as int,
        if width == 0 {
            1
        } else {
            width as nat
        },
    );
    let counted = if rows <= u16::MAX {
        rows
    } else {
        u16::MAX as nat
    };
    if counted <= height {
        0
    } else {
        (counted - height) as u16
    }
}

/// Numbers of cells.
pub open spec fn cell_counts(v: Seq<u128>) -> Seq<nat> {
    Seq::new(v.len(), |i: int| v[i] as nat)
}

/// The largest useful scroll offset of lines that take `cells` cells.
pub fn scroll_limit(cells: &Vec<u128>, width: u16, height: u16) -> (r: u16)
    ensures
        r == last_offset(cell_counts(cells@), width, height),
{
    let inner: u128 = if width == 0 {
        1
    } else {
        width as u128
    };
    let ghost counts = cell_counts(cells@);
    let most: u128 = 0xffff;
    let mut rows: u128 = 0;
    let mut i: usize = 0;
    while i < cells.len()
        invariant
            i <= cells@.len(),
            counts == cell_counts(cells@),
            0 < inner <= 0xffff,
            most == 0xffff,
            rows <= most,
            rows as nat == (if total_rows(counts, i as int, inner as nat) <= most {
                total_rows(counts, i as int, inner as nat)
            } else {
                most as nat
            }),
        decreases cells@.len() - i,
    {
        let c: u128 = cells[i];
        let whole: u128 = if c == 0 {
            1
        } else {
            c / inner
        };
        let part: u128 = if c % inner == 0 {
            0
        } else {
            1
        };
        proof {
            assert(counts[i as int] == c as nat);
            assert(whole + part == rows_of(c as nat, inner as nat));
        }
        let more: u128 = if whole > most {
            whole
        } else {
            whole + part
        };
        if more >= most - rows {
            rows = most;
        } else {
            rows = rows + more;
        }
        i = i + 1;
    }
    if rows <= height as u128 {
        0
    } else {
        (rows - height as u128) as u16
    }
}

/// The cells of every line.
pub open spec fn line_cells(lines: Seq<LineModel>) -> Seq<nat> {
    Seq::new(lines.len(), |i: int| cells_of(lines[i].spans))
}

/// The largest useful scroll offset of `lines` in a pane `width` cells wide and `height`
/// rows high. Rows are counted as if a line were cut wherever the pane ends.
pub fn max_scroll_offset(lines: &Vec<Line>, width: u16, height: u16) -> (r: u16)
    ensures
        r == last_offset(line_cells(crate::tui::view::line_models(lines@)), width, height),
{
    let ghost all = line_cells(crate::tui::view::line_models(lines@));
    let mut cells: Vec<u128> = Vec::new();
    let mut i: usize = 0;
    while i < lines.len()
        invariant
            i <= lines@.len(),
            all == line_cells(crate::tui::view::line_models(lines@)),
            cells@.len() == i,
            forall|k: int| #![trigger cells@[k]]
                0 <= k < i ==> cells@[k] as nat == all[k],
        decreases lines@.len() - i,
    {
        cells.push(measure(&lines[i].spans));
        i = i + 1;
    }
    proof {
        assert(cell_counts(cells@) =~= all);
    }
    scroll_limit(&cells, width, height)
}

/// The conversation's title: the session, and the selected run's objective, with its number
/// where there are several.
pub open spec fn conversation_title(state: AppState) -> Seq<char> {
    let session = match state.session_title {
        Some(title) => title@,
        None => "Codypendent"@,
    };
    match state.run() {
        Some(run) => if state.runs@.len() > 1 {
            session + " \u{2014} "@ + crate::tui::view::clipped(run.objective@, 36) + " ["@
                + crate::text::decimal((state.selected_run + 1) as nat) + "/"@
                + crate::text::decimal(state.runs@.len()) + "]"@
        } else {
            session + " \u{2014} "@ + crate::tui::view::clipped(run.objective@, 44)
        },
        None => session,
    }
}

/// What the conversation says before the first run.
pub open spec fn invitation(theme: Theme) -> Seq<LineModel> {
    seq![
        crate::tui::view::styled(
            "No runs yet."@,
            crate::tui::view::colored(theme.text.secondary),
        ),
        muted("Type a message below and press Enter to start one."@, theme),
    ]
}

/// The conversation, in a pane of `width` cells and `height` rows: the selected run's
/// transcript. It stays at the latest rows while the run is followed, and else where it was
/// scrolled to.
pub open spec fn conversation_view(state: AppState, theme: Theme, width: u16, height: u16) -> TextPaneModel {
    let block = pane_frame(conversation_title(state), true, theme);
    match state.run() {
        Some(run) => {
            let lines = crate::tui::transcript::transcript_view(run, theme, false);
            let limit = last_offset(line_cells(lines), width, height);
            TextPaneModel {
                block,
                lines,
                offset: if run.follow || run.scroll > limit {
                    limit
                } else {
                    run.scroll
                },
            }
        },
        None => TextPaneModel { block, lines: invitation(theme), offset: 0 },
    }
}

/// The scroll limit that a frame leaves behind: that of the selected run's transcript, or
/// the one before where there is no run.
pub open spec fn limit_after(state: AppState, theme: Theme, width: u16, height: u16) -> u16 {
    match state.run() {
        Some(run) => last_offset(
            line_cells(crate::tui::transcript::transcript_view(run, theme, false)),
            width,
            height,
        ),
        None => state.transcript_max_scroll,
    }
}

fn title_of_conversation(state: &AppState) -> (r: String)
    ensures
        r@ == conversation_title(*state),
{
    let session: &str = match &state.session_title {
        Some(title) => title.as_str(),
        None => "Codypendent",
    };
    match state.selected_run() {
        Some(run) => {
            if state.runs.len() > 1 {
                let objective: String = crate::tui::view::truncate(run.objective.as_str(), 36);
                let named: String = crate::text::concat3(
                    session,
                    " \u{2014} ",
                    objective.as_str(),
                );
                let number: String = crate::text::decimal_text((state.selected_run + 1) as u64);
                let numbered: String = crate::text::concat3(
                    named.as_str(),
                    " [",
                    number.as_str(),
                );
                let total: String = crate::text::decimal_text(state.runs.len() as u64);
                let of: String = crate::text::concat3(numbered.as_str(), "/", total.as_str());
                crate::text::concat2(of.as_str(), "]")
            } else {
                let objective: String = crate::tui::view::truncate(run.objective.as_str(), 44);
                crate::text::concat3(session, " \u{2014} ", objective.as_str())
            }
        },
        None => session.to_owned(),
    }
}

/// The conversation, in a pane of `width` cells and `height` rows, and the scroll limit it
/// leaves behind.
pub fn render_conversation(state: &AppState, theme: &Theme, width: u16, height: u16) -> (r: (
    TextPane,
    u16,
))
    ensures
        r.0@ == conversation_view(*state, *theme, width, height),
        r.1 == limit_after(*state, *theme, width, height),
{
    let title: String = title_of_conversation(state);
    let block: Block = pane_block(title.as_str(), true, theme);
    match state.selected_run() {
        Some(run) => {
            let lines: Vec<Line> = crate::tui::transcript::transcript_lines(run, theme, false);
            let limit: u16 = max_scroll_offset(&lines, width, height);
            let offset: u16 = if run.follow || run.scroll > limit {
                limit
            } else {
                run.scroll
            };
            (TextPane { block, lines, offset }, limit)
        },
        None => {
            let mut lines: Vec<Line> = crate::tui::view::no_lines();
            crate::tui::view::add_line(
                &mut lines,
                crate::tui::view::text_line(
                    "No runs yet.",
                    crate::tui::view::in_color(theme.text.secondary),
                ),
            );
            crate::tui::view::add_line(
                &mut lines,
                muted_line("Type a message below and press Enter to start one.", theme),
            );
            proof {
                assert(crate::tui::view::line_models(lines@) =~= invitation(*theme));
            }
            (TextPane { block, lines, offset: 0 }, state.transcript_max_scroll)
        },
    }
}

/// While a run is followed the conversation is at its end, and it is never scrolled past
/// it.
pub proof fn law_the_conversation_stays_in_view(state: AppState, theme: Theme, width: u16, height: u16)
    requires
        state.run() is Some,
    ensures
        conversation_view(state, theme, width, height).offset <= limit_after(
            state,
            theme,
            width,
            height,
        ),
        state.run()->0.follow ==> conversation_view(state, theme, width, height).offset
            == limit_after(state, theme, width, height),
{
}

/// Whether a message would steer the selected run rather than start one.
pub open spec fn steers(state: AppState) -> bool {
    state.run() is Some && !crate::tui::state::ended(state.run()->0.state)
}

/// The composer: the draft, or what to type.
pub open spec fn composer_view(state: AppState, theme: Theme) -> TextPaneModel {
    let prompt = crate::tui::view::words(
        "\u{203a} "@,
        crate::tui::view::bold(theme.focus.active),
    );
    TextPaneModel {
        block: BlockModel {
            edges: Edges::All,
            title: Some(
                crate::tui::view::words(
                    if steers(state) {
                        " Steer "@
                    } else {
                        " Message "@
                    },
                    crate::tui::view::colored(theme.text.muted),
                ),
            ),
            border: theme.focus.active,
            style: crate::tui::view::backed(theme.surface.panel),
        },
        lines: seq![
            crate::tui::view::spanned(
                if state.composer@.len() == 0 {
                    seq![
                        prompt,
                        crate::tui::view::words(
                            if steers(state) {
                                "steer the run \u{b7} Enter sends \u{b7} / for commands"@
                            } else {
                                "message the agent to start a run \u{b7} Enter sends \u{b7} / for commands"@
                            },
                            crate::tui::view::colored(theme.text.muted),
                        ),
                    ]
                } else {
                    seq![
                        prompt,
                        crate::tui::view::words(
                            state.composer@,
                            crate::tui::view::colored(theme.text.primary),
                        ),
                        crate::tui::view::words(
                            "\u{258f}"@,
                            crate::tui::view::colored(theme.focus.active),
                        ),
                    ]
                },
            ),
        ],
        offset: 0,
    }
}

/// The composer: the draft, or what to type.
pub fn render_composer(state: &AppState, theme: &Theme) -> (r: TextPane)
    ensures
        r@ == composer_view(*state, *theme),
{
    let steering: bool = state.selected_run_is_active();
    let title: &str = if steering {
        " Steer "
    } else {
        " Message "
    };
    let block: Block = Block {
        edges: Edges::All,
        title: Some(
            crate::tui::view::span(title, crate::tui::view::in_color(theme.text.muted)),
        ),
        border: theme.focus.active,
        style: crate::tui::view::on_color(theme.surface.panel),
    };
    let prompt: Span = crate::tui::view::span(
        "\u{203a} ",
        crate::tui::view::in_bold(theme.focus.active),
    );
    let line: Line = if state.composer.as_str().unicode_len() == 0 {
        let hint: &str = if steering {
            "steer the run \u{b7} Enter sends \u{b7} / for commands"
        } else {
            "message the agent to start a run \u{b7} Enter sends \u{b7} / for commands"
        };
        crate::tui::view::line2(
            prompt,
            crate::tui::view::span(hint, crate::tui::view::in_color(theme.text.muted)),
        )
    } else {
        crate::tui::view::line3(
            prompt,
            crate::tui::view::span(
                state.composer.as_str(),
                crate::tui::view::in_color(theme.text.primary),
            ),
            crate::tui::view::span("\u{258f}", crate::tui::view::in_color(theme.focus.active)),
        )
    };
    let mut lines: Vec<Line> = crate::tui::view::no_lines();
    crate::tui::view::add_line(&mut lines, line);
    TextPane { block, lines, offset: 0 }
}

/// The status line, and the style beneath it.
#[derive(Clone, Debug, PartialEq, Eq)]
pub struct StatusLine {
    pub line: Line,
    pub style: Style,
}

/// What a [`StatusLine`] says.
pub struct StatusLineModel {
    pub line: LineModel,
    pub style: Style,
}

impl View for StatusLine {
    type V = StatusLineModel;

    open spec fn view(&self) -> StatusLineModel {
        StatusLineModel { line: self.line@, style: self.style }
    }
}

/// `left` with one more field behind it, and room between them.
pub open spec fn with_field(
    left: Seq<SpanModel>,
    name: Seq<char>,
    value: Seq<char>,
    color: Color,
    theme: Theme,
) -> Seq<SpanModel> {
    let spaced = if left.len() > 1 {
        left.push(crate::tui::view::words("  "@, crate::tui::view::colored(theme.text.muted)))
    } else {
        left
    };
    spaced.push(
        crate::tui::view::words(name + " "@, crate::tui::view::colored(theme.text.muted)),
    ).push(crate::tui::view::words(value, crate::tui::view::colored(color)))
}

/// The fields of the status line that fit into `width` cells: state and approvals always,
/// mode and context from 64 cells on, and model, cost and worktree from 96 cells on.
pub open spec fn ambient(state: AppState, theme: Theme, width: u16) -> Seq<SpanModel> {
    let full = width >= 96;
    let mid = width >= 64;
    let run = state.run();
    let start = seq![crate::tui::view::words(" "@, crate::tui::view::unstyled())];
    let with_mode = if mid {
        with_field(
            start,
            "mode"@,
            match run {
                Some(r) => crate::tui::labels::mode_word(r.mode),
                None => crate::tui::labels::dash(),
            },
            theme.status.info,
            theme,
        )
    } else {
        start
    };
    let with_state = with_field(
        with_mode,
        "state"@,
        match run {
            Some(r) => crate::tui::labels::state_word(r.state),
            None => crate::tui::labels::dash(),
        },
        match run {
            Some(r) => crate::tui::labels::state_color(r.state, theme),
            None => theme.text.muted,
        },
        theme,
    );
    let with_model = if full {
        with_field(
            with_state,
            "model"@,
            model_words(match run {
                Some(r) => r.model,
                None => None,
            }),
            theme.text.secondary,
            theme,
        )
    } else {
        with_state
    };
    let with_context = if mid {
        with_field(
            with_model,
            "ctx"@,
            match run {
                Some(r) => percent_words(r.context_percent),
                None => crate::tui::labels::dash(),
            },
            theme.status.info,
            theme,
        )
    } else {
        with_model
    };
    let with_cost = if full {
        with_field(
            with_context,
            "cost"@,
            match run {
                Some(r) => crate::tui::labels::cost_words(r.cost_minor),
                None => crate::tui::labels::dash(),
            },
            theme.status.warning,
            theme,
        )
    } else {
        with_context
    };
    let with_worktree = if full {
        with_field(
            with_cost,
            "wt"@,
            match run {
                Some(r) => text_or_dash(r.worktree),
                None => crate::tui::labels::dash(),
            },
            theme.text.secondary,
            theme,
        )
    } else {
        with_cost
    };
    with_field(
        with_worktree,
        "approvals"@,
        crate::text::decimal(state.pending_approvals@.len()),
        if state.pending_approvals@.len() > 0 {
            theme.status.warning
        } else {
            theme.text.muted
        },
        theme,
    )
}

/// What to do next: decide on an approval, go back to the latest rows, send the draft, or
/// find a command.
pub open spec fn next_steps(state: AppState, theme: Theme) -> Seq<SpanModel> {
    let key = crate::tui::view::colored(theme.focus.active);
    let word = crate::tui::view::colored(theme.text.muted);
    if state.pending_approvals@.len() > 0 {
        seq![
            crate::tui::view::words("a"@, key),
            crate::tui::view::words(" approve  "@, word),
            crate::tui::view::words("A"@, key),
            crate::tui::view::words(" run  "@, word),
            crate::tui::view::words("r"@, key),
            crate::tui::view::words(" reject"@, word),
        ]
    } else if state.run() is Some && !state.run()->0.follow {
        seq![
            crate::tui::view::words("PgDn"@, key),
            crate::tui::view::words(" \u{21a7} latest"@, word),
        ]
    } else if state.composer@.len() > 0 {
        seq![
            crate::tui::view::words("\u{23ce}"@, key),
            crate::tui::view::words(" send  "@, word),
            crate::tui::view::words("Esc"@, key),
            crate::tui::view::words(" clear"@, word),
        ]
    } else {
        seq![
            crate::tui::view::words("/"@, key),
            crate::tui::view::words(" cmds  "@, word),
            crate::tui::view::words("F2"@, key),
            crate::tui::view::words(" layout"@, word),
        ]
    }
}

/// The cells that are left between two parts of `left` and `right` cells and a last one, in
/// a line of `width` cells.
pub open spec fn gap(left: nat, right: nat, width: u16) -> nat {
    if left + right + 1 <= width {
        (width - left - right - 1) as nat
    } else {
        0
    }
}

/// The status line, in `width` cells: a notice alone, where there is one, else the fields on
/// the left and the next steps on the right.
pub open spec fn status_view(state: AppState, theme: Theme, width: u16) -> StatusLineModel {
    let space = crate::tui::view::words(" "@, crate::tui::view::unstyled());
    match state.notice {
        Some(notice) => StatusLineModel {
            line: crate::tui::view::spanned(
                seq![
                    space,
                    crate::tui::view::words(
                        notice.0@,
                        crate::tui::view::colored(theme.status.warning),
                    ),
                ],
            ),
            style: crate::tui::view::backed(theme.surface.panel),
        },
        None => {
            let left = ambient(state, theme, width);
            let right = next_steps(state, theme);
            StatusLineModel {
                line: crate::tui::view::spanned(
                    left.push(
                        crate::tui::view::words(
                            crate::tui::cells::spaces(gap(cells_of(left), cells_of(right), width)),
                            crate::tui::view::unstyled(),
                        ),
                    ) + right.push(space),
                ),
                style: crate::tui::view::backed(theme.surface.overlay),
            }
        },
    }
}

fn add_field(left: &mut Vec<Span>, name: &str, value: &str, color: Color, theme: &Theme)
    ensures
        crate::tui::view::span_models(final(left)@) == with_field(
            crate::tui::view::span_models(old(left)@),
            name@,
            value@,
            color,
            *theme,
        ),
{
    let label: String = crate::text::concat2(name, " ");
    if left.len() > 1 {
        crate::tui::view::add_span(
            left,
            crate::tui::view::span("  ", crate::tui::view::in_color(theme.text.muted)),
        );
    }
    crate::tui::view::add_span(
        left,
        crate::tui::view::span(label.as_str(), crate::tui::view::in_color(theme.text.muted)),
    );
    crate::tui::view::add_span(
        left,
        crate::tui::view::span(value, crate::tui::view::in_color(color)),
    );
}

fn ambient_spans(state: &AppState, theme: &Theme, width: u16) -> (r: Vec<Span>)
    ensures
        crate::tui::view::span_models(r@) == ambient(*state, *theme, width),
{
    let full: bool = width >= 96;
    let mid: bool = width >= 64;
    let status: StatusProjection = state.status();
    let mut left: Vec<Span> = crate::tui::view::no_spans();
    crate::tui::view::add_span(
        &mut left,
        crate::tui::view::span(" ", crate::tui::view::no_style()),
    );
    if mid {
        let mode: &str = match status.mode {
            Some(m) => crate::tui::labels::mode_label(m),
            None => "\u{2014}",
        };
        add_field(&mut left, "mode", mode, theme.status.info, theme);
    }
    let (word, color): (&str, Color) = match status.run_state {
        Some(s) => (
            crate::tui::labels::run_state_label(s),
            crate::tui::labels::run_state_color(s, theme),
        ),
        None => ("\u{2014}", theme.text.muted),
    };
    add_field(&mut left, "state", word, color, theme);
    if full {
        let model: &str = match &status.model {
            Some(m) => m.0.as_str(),
            None => "\u{2014}",
        };
        add_field(&mut left, "model", model, theme.text.secondary, theme);
    }
    if mid {
        let percent: String = text_of_percent(status.context_percent);
        add_field(&mut left, "ctx", percent.as_str(), theme.status.info, theme);
    }
    if full {
        let cost: String = crate::tui::labels::format_cost(status.cost_minor);
        add_field(&mut left, "cost", cost.as_str(), theme.status.warning, theme);
        let worktree: String = known(&status.worktree);
        add_field(&mut left, "wt", worktree.as_str(), theme.text.secondary, theme);
    }
    let waiting: String = crate::text::decimal_text(status.pending_approvals as u64);
    let urgency: Color = if status.pending_approvals > 0 {
        theme.status.warning
    } else {
        theme.text.muted
    };
    add_field(&mut left, "approvals", waiting.as_str(), urgency, theme);
    left
}

fn hint_spans(state: &AppState, theme: &Theme) -> (r: Vec<Span>)
    ensures
        crate::tui::view::span_models(r@) == next_steps(*state, *theme),
{
    let key: Style = crate::tui::view::in_color(theme.focus.active);
    let word: Style = crate::tui::view::in_color(theme.text.muted);
    let scrolled_up: bool = match state.selected_run() {
        Some(run) => !run.follow,
        None => false,
    };
    let mut r: Vec<Span> = crate::tui::view::no_spans();
    if state.pending_approvals.len() > 0 {
        crate::tui::view::add_span(&mut r, crate::tui::view::span("a", key));
        crate::tui::view::add_span(&mut r, crate::tui::view::span(" approve  ", word));
        crate::tui::view::add_span(&mut r, crate::tui::view::span("A", key));
        crate::tui::view::add_span(&mut r, crate::tui::view::span(" run  ", word));
        crate::tui::view::add_span(&mut r, crate::tui::view::span("r", key));
        crate::tui::view::add_span(&mut r, crate::tui::view::span(" reject", word));
    } else if scrolled_up {
        crate::tui::view::add_span(&mut r, crate::tui::view::span("PgDn", key));
        crate::tui::view::add_span(&mut r, crate::tui::view::span(" \u{21a7} latest", word));
    } else if state.composer.as_str().unicode_len() != 0 {
        crate::tui::view::add_span(&mut r, crate::tui::view::span("\u{23ce}", key));
        crate::tui::view::add_span(&mut r, crate::tui::view::span(" send  ", word));
        crate::tui::view::add_span(&mut r, crate::tui::view::span("Esc", key));
        crate::tui::view::add_span(&mut r, crate::tui::view::span(" clear", word));
    } else {
        crate::tui::view::add_span(&mut r, crate::tui::view::span("/", key));
        crate::tui::view::add_span(&mut r, crate::tui::view::span(" cmds  ", word));
        crate::tui::view::add_span(&mut r, crate::tui::view::span("F2", key));
        crate::tui::view::add_span(&mut r, crate::tui::view::span(" layout", word));
    }
    proof {
        assert(crate::tui::view::span_models(r@) =~= next_steps(*state, *theme));
    }
    r
}

/// The cells that are left between two parts and a last one, in a line of `width` cells.
pub fn padding(left: u128, right: u128, width: u16) -> (r: usize)
    ensures
        r as nat == gap(left as nat, right as nat, width),
{
    let room: u128 = width as u128;
    if left >= room || right >= room - left {
        0
    } else {
        (room - left - right - 1) as usize
    }
}

/// The status line, in `width` cells.
pub fn render_status_line(state: &AppState, theme: &Theme, width: u16) -> (r: StatusLine)
    ensures
        r@ == status_view(*state, *theme, width),
{
    if let Some(notice) = &state.notice {
        return StatusLine {
            line: crate::tui::view::line2(
                crate::tui::view::span(" ", crate::tui::view::no_style()),
                crate::tui::view::span(
                    notice.0.as_str(),
                    crate::tui::view::in_color(theme.status.warning),
                ),
            ),
            style: crate::tui::view::on_color(theme.surface.panel),
        };
    }
    let mut spans: Vec<Span> = ambient_spans(state, theme, width);
    let mut hint: Vec<Span> = hint_spans(state, theme);
    let ghost left = crate::tui::view::span_models(spans@);
    let ghost right = crate::tui::view::span_models(hint@);
    let missing: usize = padding(measure(&spans), measure(&hint), width);
    let none: String = String::new();
    let blanks: String = crate::tui::cells::pad_text(&none, 0, missing);
    proof {
        assert(blanks@ =~= crate::tui::cells::spaces(missing as nat));
    }
    crate::tui::view::add_span(
        &mut spans,
        crate::tui::view::span(blanks.as_str(), crate::tui::view::no_style()),
    );
    crate::tui::view::add_span(
        &mut hint,
        crate::tui::view::span(" ", crate::tui::view::no_style()),
    );
    let ghost front = crate::tui::view::span_models(spans@);
    let ghost back = crate::tui::view::span_models(hint@);
    spans.append(&mut hint);
    proof {
        assert(crate::tui::view::span_models(spans@) =~= front + back);
    }
    StatusLine {
        line: crate::tui::view::span_line(spans),
        style: crate::tui::view::on_color(theme.surface.overlay),
    }
}

/// A notice takes the whole status line.
pub proof fn law_a_notice_takes_the_line(state: AppState, theme: Theme, width: u16)
    requires
        state.notice is Some,
    ensures
        ({
            let (text, _) = state.notice->0;
            status_view(state, theme, width).line.spans[1].text == text@
        }),
        status_view(state, theme, width).line.spans.len() == 2,
{
}

/// However narrow the line, it says how many approvals wait, behind everything else on the
/// left.
pub proof fn law_waiting_approvals_always_show(state: AppState, theme: Theme, width: u16)
    ensures
        ambient(state, theme, width).last().text == crate::text::decimal(
            state.pending_approvals@.len(),
        ),
{
}

/// However narrow the line, it says in which state the selected run is.
pub proof fn law_the_state_always_shows(state: AppState, theme: Theme, width: u16)
    requires
        state.run() is Some,
    ensures
        exists|k: int|
            0 < k < ambient(state, theme, width).len() && ambient(state, theme, width)[k - 1].text
                == "state"@ + " "@ && (#[trigger] ambient(state, theme, width)[k]).text
                == crate::tui::labels::state_word(state.run()->0.state),
{
    let k: int = if width >= 64 {
        5
    } else {
        2
    };
    let shown = ambient(state, theme, width);
    assert(shown[k - 1].text == "state"@ + " "@);
    assert(shown[k].text == crate::tui::labels::state_word(state.run()->0.state));
}

} // verus!
