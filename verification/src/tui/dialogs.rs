//! The palette, the model picker, prompts, questions and the help, and which of the overlays
//! is up.
use vstd::prelude::*;

use crate::tui::input::KeyBinding;
use crate::tui::palette::PaletteEntry;
use crate::tui::protocol::Risk;
use crate::tui::state::{AppState, ModelCard, ModelLocationLabel, Overlay, PendingApproval};
use crate::tui::theme::{Color, Theme};
use crate::tui::view::{
    Block, Body, BodyModel, Edges, Line, LineModel, Popup, PopupModel, Row, RowModel, Span,
    SpanModel,
};

verus! {

/// A menu: its title, the filter with a cursor behind it, what the keys do, and its rows.
pub open spec fn menu(
    title: Seq<char>,
    query: Seq<char>,
    keys: Seq<char>,
    rows: Seq<RowModel>,
    theme: Theme,
) -> PopupModel {
    PopupModel {
        width: 72,
        height: 70,
        block: crate::tui::browsers::browser_frame(title, theme),
        body: BodyModel::Menu {
            head: seq![
                crate::tui::view::spanned(
                    seq![
                        crate::tui::view::words("\u{203a} "@, crate::tui::view::colored(theme.focus.active)),
                        crate::tui::view::words(query, crate::tui::view::colored(theme.text.primary)),
                        crate::tui::view::words("\u{258f}"@, crate::tui::view::colored(theme.focus.active)),
                    ],
                ),
                crate::tui::panes::muted(keys, theme),
            ],
            rows,
        },
    }
}

fn menu_of(title: &str, query: &str, keys: &str, rows: Vec<Row>, theme: &Theme) -> (r: Popup)
    ensures
        r@ == menu(title@, query@, keys@, crate::tui::view::row_models(rows@), *theme),
{
    let mut head: Vec<Line> = crate::tui::view::no_lines();
    crate::tui::view::add_line(
        &mut head,
        crate::tui::view::line3(
            crate::tui::view::span("\u{203a} ", crate::tui::view::in_color(theme.focus.active)),
            crate::tui::view::span(query, crate::tui::view::in_color(theme.text.primary)),
            crate::tui::view::span("\u{258f}", crate::tui::view::in_color(theme.focus.active)),
        ),
    );
    crate::tui::view::add_line(&mut head, crate::tui::panes::muted_line(keys, theme));
    let ghost all = menu(title@, query@, keys@, crate::tui::view::row_models(rows@), *theme);
    proof {
        assert(crate::tui::view::line_models(head@) =~= all.body->head);
    }
    Popup {
        width: 72,
        height: 70,
        block: Block {
            edges: Edges::All,
            title: Some(crate::tui::view::span(title, crate::tui::view::in_bold(theme.text.heading))),
            border: theme.focus.active,
            style: crate::tui::view::in_color_on(theme.text.primary, theme.surface.overlay),
        },
        body: Body::Menu { head, rows },
    }
}

/// A command's row: its title, its description and its key.
pub open spec fn command_row(entry: PaletteEntry, selected: bool, theme: Theme) -> RowModel {
    RowModel {
        lines: seq![
            crate::tui::view::spanned(
                seq![
                    crate::tui::view::words(crate::tui::panes::pointer(selected), crate::tui::view::colored(theme.focus.active)),
                    crate::tui::view::words(
                        crate::tui::view::widened(entry.title@, 20),
                        crate::tui::view::colored(theme.text.primary),
                    ),
                    crate::tui::view::words(entry.description@, crate::tui::view::colored(theme.text.muted)),
                    crate::tui::view::words("  ["@ + entry.key@ + "]"@, crate::tui::view::colored(theme.status.info)),
                ],
            ),
        ],
        style: crate::tui::panes::row_style(selected, theme),
    }
}

/// The rows of commands, or that there are none.
pub open spec fn command_rows(entries: Seq<PaletteEntry>, selected: usize, theme: Theme) -> Seq<RowModel> {
    if entries.len() == 0 {
        seq![crate::tui::panes::placeholder("  no matching command"@, theme)]
    } else {
        Seq::new(entries.len(), |i: int| command_row(entries[i], i == selected, theme))
    }
}

/// What a menu's keys do.
pub open spec fn menu_keys() -> Seq<char> {
    "  \u{2191}/\u{2193} select \u{b7} Enter run \u{b7} Esc close"@
}

/// The commands that a query finds.
pub open spec fn found_commands(query: Seq<char>) -> Seq<PaletteEntry> {
    Seq::new(
        crate::tui::palette::found(query).len(),
        |i: int| crate::tui::palette::command_table()[crate::tui::palette::found(query)[i]],
    )
}

/// The command palette.
pub open spec fn palette_view(query: Seq<char>, selected: usize, theme: Theme) -> PopupModel {
    menu(
        " Command palette "@,
        query,
        menu_keys(),
        command_rows(found_commands(query), selected, theme),
        theme,
    )
}

fn row_of_command(entry: &PaletteEntry, selected: bool, theme: &Theme) -> (r: Row)
    ensures
        r@ == command_row(*entry, selected, *theme),
{
    let title: String = crate::tui::view::widen(entry.title, 20);
    let key: String = crate::text::concat3("  [", entry.key, "]");
    let mut lines: Vec<Line> = crate::tui::view::no_lines();
    crate::tui::view::add_line(
        &mut lines,
        crate::tui::view::line4(
            crate::tui::view::span(crate::tui::panes::marker(selected), crate::tui::view::in_color(theme.focus.active)),
            crate::tui::view::span(title.as_str(), crate::tui::view::in_color(theme.text.primary)),
            crate::tui::view::span(entry.description, crate::tui::view::in_color(theme.text.muted)),
            crate::tui::view::span(key.as_str(), crate::tui::view::in_color(theme.status.info)),
        ),
    );
    Row { lines, style: crate::tui::panes::style_of_row(selected, theme) }
}

/// The rows of the given commands.
pub fn rows_of_commands(entries: &Vec<PaletteEntry>, selected: usize, theme: &Theme) -> (r: Vec<Row>)
    ensures
        crate::tui::view::row_models(r@) == command_rows(entries@, selected, *theme),
{
    let ghost all = command_rows(entries@, selected, *theme);
    let mut r: Vec<Row> = crate::tui::view::no_rows();
    if entries.len() == 0 {
        crate::tui::view::add_row(&mut r, crate::tui::panes::placeholder_row("  no matching command", theme));
        return r;
    }
    let mut i: usize = 0;
    proof {
        assert(all.take(0) =~= Seq::<RowModel>::empty());
    }
    while i < entries.len()
        invariant
            i <= entries@.len(),
            entries@.len() > 0,
            all == command_rows(entries@, selected, *theme),
            crate::tui::view::row_models(r@) == all.take(i as int),
        decreases entries@.len() - i,
    {
        crate::tui::view::add_row(&mut r, row_of_command(&entries[i], i == selected, theme));
        proof {
            assert(all.take(i + 1) =~= all.take(i as int).push(all[i as int]));
        }
        i = i + 1;
    }
    proof {
        assert(all.take(all.len() as int) =~= all);
    }
    r
}

/// The command palette: the filter, and the commands that it leaves.
pub fn render_palette(query: &str, selected: usize, theme: &Theme) -> (r: Popup)
    ensures
        r@ == palette_view(query@, selected, *theme),
{
    let entries: Vec<PaletteEntry> = crate::tui::palette::filtered(query);
    let rows: Vec<Row> = rows_of_commands(&entries, selected, theme);
    menu_of(
        " Command palette ",
        query,
        "  \u{2191}/\u{2193} select \u{b7} Enter run \u{b7} Esc close",
        rows,
        theme,
    )
}

/// Where a model runs, if that is known.
pub open spec fn location_words(location: Option<ModelLocationLabel>) -> Seq<char> {
    match location {
        Some(ModelLocationLabel::Local) => "  local"@,
        Some(ModelLocationLabel::Hosted) => "  hosted"@,
        None => ""@,
    }
}

/// A model's row: its name, its provider and where it runs, and that it serves the run.
pub open spec fn model_row(card: ModelCard, current: bool, selected: bool, theme: Theme) -> RowModel {
    RowModel {
        lines: seq![
            crate::tui::view::spanned(
                seq![
                    crate::tui::view::words(crate::tui::panes::pointer(selected), crate::tui::view::colored(theme.focus.active)),
                    crate::tui::view::words(crate::tui::view::widened(card.id.0@, 28), crate::tui::view::colored(theme.text.primary)),
                    crate::tui::view::words(
                        card.provider@ + location_words(card.location),
                        crate::tui::view::colored(theme.text.muted),
                    ),
                    crate::tui::view::words(
                        if current {
                            "  (current)"@
                        } else {
                            ""@
                        },
                        crate::tui::view::colored(theme.status.success),
                    ),
                ],
            ),
        ],
        style: crate::tui::panes::row_style(selected, theme),
    }
}

/// Whether a model serves the selected run.
pub open spec fn serves(state: AppState, card: ModelCard) -> bool {
    match state.run() {
        Some(run) => match run.model {
            Some(model) => model.0@ == card.id.0@,
            None => false,
        },
        None => false,
    }
}

/// The rows of the models at the given places, or that there are none.
pub open spec fn model_rows(state: AppState, places: Seq<int>, selected: usize, theme: Theme) -> Seq<RowModel> {
    if places.len() == 0 {
        seq![crate::tui::panes::placeholder("  no matching model"@, theme)]
    } else {
        Seq::new(
            places.len(),
            |i: int|
                model_row(
                    state.models@[places[i]],
                    serves(state, state.models@[places[i]]),
                    i == selected,
                    theme,
                ),
        )
    }
}

/// The places of the models that a query finds.
pub open spec fn found_models(state: AppState, query: Seq<char>) -> Seq<int> {
    crate::tui::state::matching(
        crate::tui::state::model_fields(state.models@),
        state.models@.len() as int,
        crate::tui::state::folded(query),
    )
}

/// The model picker.
pub open spec fn models_view(state: AppState, query: Seq<char>, selected: usize, theme: Theme) -> PopupModel {
    menu(
        " Models "@,
        query,
        menu_keys(),
        model_rows(state, found_models(state, query), selected, theme),
        theme,
    )
}

fn row_of_model(card: &ModelCard, current: bool, selected: bool, theme: &Theme) -> (r: Row)
    ensures
        r@ == model_row(*card, current, selected, *theme),
{
    let name: String = crate::tui::view::widen(card.id.0.as_str(), 28);
    let location: &str = match card.location {
        Some(ModelLocationLabel::Local) => "  local",
        Some(ModelLocationLabel::Hosted) => "  hosted",
        None => "",
    };
    let provider: String = crate::text::concat2(card.provider.as_str(), location);
    let mark: &str = if current {
        "  (current)"
    } else {
        ""
    };
    let mut lines: Vec<Line> = crate::tui::view::no_lines();
    crate::tui::view::add_line(
        &mut lines,
        crate::tui::view::line4(
            crate::tui::view::span(crate::tui::panes::marker(selected), crate::tui::view::in_color(theme.focus.active)),
            crate::tui::view::span(name.as_str(), crate::tui::view::in_color(theme.text.primary)),
            crate::tui::view::span(provider.as_str(), crate::tui::view::in_color(theme.text.muted)),
            crate::tui::view::span(mark, crate::tui::view::in_color(theme.status.success)),
        ),
    );
    Row { lines, style: crate::tui::panes::style_of_row(selected, theme) }
}

fn is_serving(state: &AppState, card: &ModelCard) -> (r: bool)
    ensures
        r == serves(*state, *card),
{
    match state.selected_run() {
        Some(run) => match &run.model {
            Some(model) => crate::text::same_text(model.0.as_str(), card.id.0.as_str()),
            None => false,
        },
        None => false,
    }
}

/// The rows of the models at the given places.
pub fn rows_of_models(state: &AppState, places: &Vec<usize>, selected: usize, theme: &Theme) -> (r: Vec<Row>)
    requires
        forall|i: int| 0 <= i < places@.len() ==> #[trigger] places@[i] < state.models@.len(),
    ensures
        crate::tui::view::row_models(r@) == model_rows(
            *state,
            crate::tui::state::places(places@),
            selected,
            *theme,
        ),
{
    let ghost at = crate::tui::state::places(places@);
    let ghost all = model_rows(*state, at, selected, *theme);
    let mut r: Vec<Row> = crate::tui::view::no_rows();
    if places.len() == 0 {
        crate::tui::view::add_row(&mut r, crate::tui::panes::placeholder_row("  no matching model", theme));
        return r;
    }
    let mut i: usize = 0;
    proof {
        assert(all.take(0) =~= Seq::<RowModel>::empty());
    }
    while i < places.len()
        invariant
            i <= places@.len(),
            places@.len() > 0,
            forall|k: int| 0 <= k < places@.len() ==> #[trigger] places@[k] < state.models@.len(),
            at == crate::tui::state::places(places@),
            all == model_rows(*state, at, selected, *theme),
            crate::tui::view::row_models(r@) == all.take(i as int),
        decreases places@.len() - i,
    {
        let card: &ModelCard = &state.models[places[i]];
        let current: bool = is_serving(state, card);
        crate::tui::view::add_row(&mut r, row_of_model(card, current, i == selected, theme));
        proof {
            assert(at[i as int] == places@[i as int] as int);
            assert(all.take(i + 1) =~= all.take(i as int).push(all[i as int]));
        }
        i = i + 1;
    }
    proof {
        assert(all.take(all.len() as int) =~= all);
    }
    r
}

/// The model picker: the filter, and the models that it leaves, the one that serves the
/// selected run marked.
pub fn render_models(state: &AppState, query: &str, selected: usize, theme: &Theme) -> (r: Popup)
    ensures
        r@ == models_view(*state, query@, selected, *theme),
{
    let places: Vec<usize> = crate::tui::state::filter_models(&state.models, query);
    proof {
        let found = found_models(*state, query@);
        crate::tui::state::law_a_filter_keeps_order(
            crate::tui::state::model_fields(state.models@),
            state.models@.len() as int,
            crate::tui::state::folded(query@),
        );
        assert forall|i: int| 0 <= i < places@.len() implies #[trigger] places@[i]
            < state.models@.len() by {
            assert(found[i] == places@[i] as int);
            assert(found.contains(found[i]));
        }
    }
    let rows: Vec<Row> = rows_of_models(state, &places, selected, theme);
    menu_of(
        " Models ",
        query,
        "  \u{2191}/\u{2193} select \u{b7} Enter run \u{b7} Esc close",
        rows,
        theme,
    )
}

/// A dialog: its title, the color of its edges, and its lines.
pub open spec fn dialog(
    width: u16,
    height: u16,
    title: Option<SpanModel>,
    border: Color,
    lines: Seq<LineModel>,
    theme: Theme,
) -> PopupModel {
    PopupModel {
        width,
        height,
        block: crate::tui::browsers::dialog_frame(title, border, theme),
        body: BodyModel::Text(lines),
    }
}

/// A title without a style of its own.
pub open spec fn bare_title(title: Seq<char>) -> Option<SpanModel> {
    Some(crate::tui::view::words(title, crate::tui::view::unstyled()))
}

fn dialog_of(
    width: u16,
    height: u16,
    title: Option<&str>,
    border: Color,
    lines: Vec<Line>,
    theme: &Theme,
) -> (r: Popup)
    ensures
        r@ == dialog(
            width,
            height,
            match title {
                Some(t) => bare_title(t@),
                None => None,
            },
            border,
            crate::tui::view::line_models(lines@),
            *theme,
        ),
{
    let span: Option<Span> = match title {
        Some(t) => Some(crate::tui::view::span(t, crate::tui::view::no_style())),
        None => None,
    };
    Popup {
        width,
        height,
        block: Block {
            edges: Edges::All,
            title: span,
            border,
            style: crate::tui::view::in_color_on(theme.text.primary, theme.surface.overlay),
        },
        body: Body::Text(lines),
    }
}

/// A risk's lines: its level, and each reason.
pub open spec fn risk_view(risk: Risk, theme: Theme) -> Seq<LineModel> {
    seq![
        crate::tui::view::spanned(
            seq![
                crate::tui::view::words("  level: "@, crate::tui::view::colored(theme.text.muted)),
                crate::tui::view::words(
                    crate::tui::labels::risk_word(risk.level),
                    crate::tui::view::bold(crate::tui::labels::risk_hue(risk.level, theme)),
                ),
            ],
        ),
    ] + Seq::new(
        risk.reasons@.len(),
        |i: int| crate::tui::view::styled("  - "@ + risk.reasons@[i]@, crate::tui::view::colored(theme.text.secondary)),
    )
}

/// A risk's lines.
pub fn risk_lines(risk: &Risk, theme: &Theme) -> (r: Vec<Line>)
    ensures
        crate::tui::view::line_models(r@) == risk_view(*risk, *theme),
{
    let ghost all = risk_view(*risk, *theme);
    let mut r: Vec<Line> = crate::tui::view::no_lines();
    crate::tui::view::add_line(
        &mut r,
        crate::tui::view::line2(
            crate::tui::view::span("  level: ", crate::tui::view::in_color(theme.text.muted)),
            crate::tui::view::span(
                crate::tui::labels::risk_label(risk.level),
                crate::tui::view::in_bold(crate::tui::labels::risk_color(risk.level, theme)),
            ),
        ),
    );
    let mut i: usize = 0;
    proof {
        assert(crate::tui::view::line_models(r@) =~= all.take(1));
    }
    while i < risk.reasons.len()
        invariant
            i <= risk.reasons@.len(),
            all == risk_view(*risk, *theme),
            crate::tui::view::line_models(r@) == all.take(i + 1),
        decreases risk.reasons@.len() - i,
    {
        let text: String = crate::text::concat2("  - ", risk.reasons[i].as_str());
        crate::tui::view::add_line(
            &mut r,
            crate::tui::view::text_line(text.as_str(), crate::tui::view::in_color(theme.text.secondary)),
        );
        proof {
            assert(all.take(i + 2) =~= all.take(i + 1).push(all[i + 1]));
        }
        i = i + 1;
    }
    proof {
        assert(all.take(all.len() as int) =~= all);
    }
    r
}

/// Everything the action would do, indented.
pub open spec fn action_lines(approval: PendingApproval, theme: Theme) -> Seq<LineModel> {
    let list = crate::tui::labels::described(approval.action);
    Seq::new(
        list.len(),
        |i: int| crate::tui::view::styled("  "@ + list[i], crate::tui::view::colored(theme.text.primary)),
    )
}

/// What is asked in an approval: the action, verbatim, its risk, the capability it takes, and
/// the keys that decide.
pub open spec fn approval_lines(approval: PendingApproval, capability: Seq<char>, theme: Theme) -> Seq<LineModel> {
    seq![
        crate::tui::browsers::title_line("Approval required"@, theme),
        crate::tui::view::blank_line(),
        crate::tui::panes::section_line("Action"@, theme),
    ] + action_lines(approval, theme) + seq![
        crate::tui::view::blank_line(),
        crate::tui::panes::section_line("Risk"@, theme),
    ] + risk_view(approval.risk, theme) + seq![
        crate::tui::view::blank_line(),
        crate::tui::panes::section_line("Requested capabilities"@, theme),
        crate::tui::view::styled("  "@ + capability, crate::tui::view::colored(theme.text.primary)),
        crate::tui::view::blank_line(),
        crate::tui::view::spanned(
            seq![
                crate::tui::view::words("[a] approve once   "@, crate::tui::view::colored(theme.status.success)),
                crate::tui::view::words("[A] approve for run   "@, crate::tui::view::colored(theme.status.success)),
                crate::tui::view::words("[r] reject"@, crate::tui::view::colored(theme.status.error)),
            ],
        ),
    ]
}

/// The approval modal.
pub open spec fn approval_view(approval: PendingApproval, capability: Seq<char>, theme: Theme) -> PopupModel {
    dialog(
        70,
        60,
        bare_title(" Approval "@),
        theme.status.warning,
        approval_lines(approval, capability, theme),
        theme,
    )
}

fn lines_of_action(approval: &PendingApproval, theme: &Theme) -> (r: Vec<Line>)
    ensures
        crate::tui::view::line_models(r@) == action_lines(*approval, *theme),
{
    let parts: Vec<String> = crate::tui::labels::describe_action(&approval.action);
    let ghost list = crate::tui::labels::described(approval.action);
    let ghost all = action_lines(*approval, *theme);
    let mut r: Vec<Line> = crate::tui::view::no_lines();
    let mut i: usize = 0;
    proof {
        assert(all.take(0) =~= Seq::<LineModel>::empty());
    }
    while i < parts.len()
        invariant
            i <= parts@.len(),
            crate::text::texts(parts@) == list,
            list == crate::tui::labels::described(approval.action),
            all == action_lines(*approval, *theme),
            crate::tui::view::line_models(r@) == all.take(i as int),
        decreases parts@.len() - i,
    {
        proof {
            assert(list[i as int] == parts@[i as int]@);
            assert(all.take(i + 1) =~= all.take(i as int).push(all[i as int]));
        }
        let text: String = crate::text::concat2("  ", parts[i].as_str());
        crate::tui::view::add_line(
            &mut r,
            crate::tui::view::text_line(text.as_str(), crate::tui::view::in_color(theme.text.primary)),
        );
        i = i + 1;
    }
    proof {
        assert(all.take(all.len() as int) =~= all);
    }
    r
}

/// The approval modal for `approval`, whose action takes the capability named `capability`.
pub fn render_approval_modal(approval: &PendingApproval, capability: &str, theme: &Theme) -> (r: Popup)
    ensures
        r@ == approval_view(*approval, capability@, *theme),
{
    let wanted: String = crate::text::concat2("  ", capability);
    let mut lines: Vec<Line> = crate::tui::view::no_lines();
    crate::tui::view::add_line(
        &mut lines,
        crate::tui::view::text_line("Approval required", crate::tui::view::in_bold(theme.text.heading)),
    );
    crate::tui::view::add_line(&mut lines, crate::tui::view::empty_line());
    crate::tui::view::add_line(&mut lines, crate::tui::panes::section("Action", theme));
    crate::tui::view::add_lines(&mut lines, lines_of_action(approval, theme));
    crate::tui::view::add_line(&mut lines, crate::tui::view::empty_line());
    crate::tui::view::add_line(&mut lines, crate::tui::panes::section("Risk", theme));
    crate::tui::view::add_lines(&mut lines, risk_lines(&approval.risk, theme));
    crate::tui::view::add_line(&mut lines, crate::tui::view::empty_line());
    crate::tui::view::add_line(&mut lines, crate::tui::panes::section("Requested capabilities", theme));
    crate::tui::view::add_line(
        &mut lines,
        crate::tui::view::text_line(wanted.as_str(), crate::tui::view::in_color(theme.text.primary)),
    );
    crate::tui::view::add_line(&mut lines, crate::tui::view::empty_line());
    crate::tui::view::add_line(
        &mut lines,
        crate::tui::view::line3(
            crate::tui::view::span("[a] approve once   ", crate::tui::view::in_color(theme.status.success)),
            crate::tui::view::span("[A] approve for run   ", crate::tui::view::in_color(theme.status.success)),
            crate::tui::view::span("[r] reject", crate::tui::view::in_color(theme.status.error)),
        ),
    );
    proof {
        assert(crate::tui::view::line_models(lines@) =~= approval_lines(*approval, capability@, *theme));
    }
    dialog_of(70, 60, Some(" Approval "), theme.status.warning, lines, theme)
}

/// Everything the approver decides on is in the modal: each line of what the action would do
/// is shown, verbatim.
pub proof fn law_approvals_hide_nothing(approval: PendingApproval, capability: Seq<char>, theme: Theme, i: int)
    requires
        0 <= i < crate::tui::labels::described(approval.action).len(),
    ensures
        approval_lines(approval, capability, theme).contains(
            crate::tui::view::styled(
                "  "@ + crate::tui::labels::described(approval.action)[i],
                crate::tui::view::colored(theme.text.primary),
            ),
        ),
{
    let all = approval_lines(approval, capability, theme);
    assert(all[3 + i] == action_lines(approval, theme)[i]);
}

/// A binding's line: its keys, what they do, and the mouse gesture that does the same.
pub open spec fn binding_line(binding: KeyBinding, theme: Theme) -> LineModel {
    let keys = crate::tui::view::words(
        "  "@ + crate::tui::view::widened(binding.keys@, 12),
        crate::tui::view::bold(theme.status.info),
    );
    let what = crate::tui::view::words(binding.description@, crate::tui::view::colored(theme.text.primary));
    match binding.mouse {
        Some(gesture) => crate::tui::view::spanned(
            seq![
                keys,
                what,
                crate::tui::view::words(
                    "  (mouse: "@ + gesture@ + ")"@,
                    crate::tui::view::colored(theme.text.muted),
                ),
            ],
        ),
        None => crate::tui::view::spanned(seq![keys, what]),
    }
}

/// The help's lines: a line for every binding.
pub open spec fn help_lines(theme: Theme) -> Seq<LineModel> {
    let table = crate::tui::input::binding_table();
    seq![
        crate::tui::browsers::title_line(
            "Keys \u{2014} every mouse action has a keyboard equivalent"@,
            theme,
        ),
        crate::tui::view::blank_line(),
    ] + Seq::new(table.len(), |i: int| binding_line(table[i], theme)) + seq![
        crate::tui::view::blank_line(),
        crate::tui::view::styled(
            "q detaches this client \u{2014} it never stops the run.  ? or Esc closes."@,
            crate::tui::view::colored(theme.text.secondary),
        ),
    ]
}

/// The help.
pub open spec fn help_view(theme: Theme) -> PopupModel {
    dialog(70, 80, bare_title(" Help "@), theme.focus.active, help_lines(theme), theme)
}

fn line_of_binding(binding: &KeyBinding, theme: &Theme) -> (r: Line)
    ensures
        r@ == binding_line(*binding, *theme),
{
    let padded: String = crate::tui::view::widen(binding.keys, 12);
    let label: String = crate::text::concat2("  ", padded.as_str());
    let keys: Span = crate::tui::view::span(label.as_str(), crate::tui::view::in_bold(theme.status.info));
    let what: Span = crate::tui::view::span(binding.description, crate::tui::view::in_color(theme.text.primary));
    match binding.mouse {
        Some(gesture) => {
            let mouse: String = crate::text::concat3("  (mouse: ", gesture, ")");
            crate::tui::view::line3(
                keys,
                what,
                crate::tui::view::span(mouse.as_str(), crate::tui::view::in_color(theme.text.muted)),
            )
        },
        None => crate::tui::view::line2(keys, what),
    }
}

/// The help: every key binding.
pub fn render_help(theme: &Theme) -> (r: Popup)
    ensures
        r@ == help_view(*theme),
{
    let table: Vec<KeyBinding> = crate::tui::input::key_bindings();
    let ghost spec_table = crate::tui::input::binding_table();
    let mut lines: Vec<Line> = crate::tui::view::no_lines();
    crate::tui::view::add_line(
        &mut lines,
        crate::tui::view::text_line(
            "Keys \u{2014} every mouse action has a keyboard equivalent",
            crate::tui::view::in_bold(theme.text.heading),
        ),
    );
    crate::tui::view::add_line(&mut lines, crate::tui::view::empty_line());
    let ghost first = crate::tui::view::line_models(lines@);
    let mut i: usize = 0;
    proof {
        assert(first + Seq::new(0, |k: int| binding_line(spec_table[k], *theme)) =~= first);
    }
    while i < table.len()
        invariant
            i <= table@.len(),
            table@ == spec_table,
            crate::tui::view::line_models(lines@) == first + Seq::new(
                i as nat,
                |k: int| binding_line(spec_table[k], *theme),
            ),
        decreases table@.len() - i,
    {
        crate::tui::view::add_line(&mut lines, line_of_binding(&table[i], theme));
        proof {
            assert(crate::tui::view::line_models(lines@) =~= first + Seq::new(
                (i + 1) as nat,
                |k: int| binding_line(spec_table[k], *theme),
            ));
        }
        i = i + 1;
    }
    crate::tui::view::add_line(&mut lines, crate::tui::view::empty_line());
    crate::tui::view::add_line(
        &mut lines,
        crate::tui::view::text_line(
            "q detaches this client \u{2014} it never stops the run.  ? or Esc closes.",
            crate::tui::view::in_color(theme.text.secondary),
        ),
    );
    proof {
        assert(crate::tui::view::line_models(lines@) =~= help_lines(*theme));
    }
    dialog_of(70, 80, Some(" Help "), theme.focus.active, lines, theme)
}

/// A prompt's lines: what is asked for, the buffer with a cursor behind it, and the keys.
pub open spec fn prompt_lines(title: Seq<char>, buffer: Seq<char>, theme: Theme) -> Seq<LineModel> {
    seq![
        crate::tui::view::styled(title, crate::tui::view::colored(theme.text.heading)),
        crate::tui::view::spanned(
            seq![
                crate::tui::view::words("\u{203a} "@, crate::tui::view::colored(theme.focus.active)),
                crate::tui::view::words(buffer, crate::tui::view::colored(theme.text.primary)),
                crate::tui::view::words("\u{2588}"@, crate::tui::view::colored(theme.focus.active)),
            ],
        ),
        crate::tui::panes::muted("Enter to submit \u{b7} Esc to cancel"@, theme),
    ]
}

/// A prompt.
pub open spec fn prompt_view(title: Seq<char>, buffer: Seq<char>, theme: Theme) -> PopupModel {
    dialog(70, 20, None, theme.focus.active, prompt_lines(title, buffer, theme), theme)
}

/// A prompt: what is asked for, and what was typed.
pub fn render_prompt(title: &str, buffer: &str, theme: &Theme) -> (r: Popup)
    ensures
        r@ == prompt_view(title@, buffer@, *theme),
{
    let mut lines: Vec<Line> = crate::tui::view::no_lines();
    crate::tui::view::add_line(&mut lines, crate::tui::view::text_line(title, crate::tui::view::in_color(theme.text.heading)));
    crate::tui::view::add_line(
        &mut lines,
        crate::tui::view::line3(
            crate::tui::view::span("\u{203a} ", crate::tui::view::in_color(theme.focus.active)),
            crate::tui::view::span(buffer, crate::tui::view::in_color(theme.text.primary)),
            crate::tui::view::span("\u{2588}", crate::tui::view::in_color(theme.focus.active)),
        ),
    );
    crate::tui::view::add_line(
        &mut lines,
        crate::tui::panes::muted_line("Enter to submit \u{b7} Esc to cancel", theme),
    );
    proof {
        assert(crate::tui::view::line_models(lines@) =~= prompt_lines(title@, buffer@, *theme));
    }
    dialog_of(70, 20, None, theme.focus.active, lines, theme)
}

/// The question before a run is cancelled.
pub open spec fn confirm_lines(theme: Theme) -> Seq<LineModel> {
    seq![
        crate::tui::browsers::title_line("Cancel this run?"@, theme),
        crate::tui::view::styled(
            "Cancelling stops the run; a chronicle and any artifacts are kept."@,
            crate::tui::view::colored(theme.text.secondary),
        ),
        crate::tui::view::spanned(
            seq![
                crate::tui::view::words("[y] yes, cancel   "@, crate::tui::view::colored(theme.status.error)),
                crate::tui::view::words("[n] no"@, crate::tui::view::colored(theme.status.success)),
            ],
        ),
    ]
}

/// The question before a run is cancelled.
pub open spec fn confirm_view(theme: Theme) -> PopupModel {
    dialog(60, 20, bare_title(" Confirm "@), theme.status.error, confirm_lines(theme), theme)
}

/// The question before a run is cancelled.
pub fn render_confirm(theme: &Theme) -> (r: Popup)
    ensures
        r@ == confirm_view(*theme),
{
    let mut lines: Vec<Line> = crate::tui::view::no_lines();
    crate::tui::view::add_line(
        &mut lines,
        crate::tui::view::text_line("Cancel this run?", crate::tui::view::in_bold(theme.text.heading)),
    );
    crate::tui::view::add_line(
        &mut lines,
        crate::tui::view::text_line(
            "Cancelling stops the run; a chronicle and any artifacts are kept.",
            crate::tui::view::in_color(theme.text.secondary),
        ),
    );
    crate::tui::view::add_line(
        &mut lines,
        crate::tui::view::line2(
            crate::tui::view::span("[y] yes, cancel   ", crate::tui::view::in_color(theme.status.error)),
            crate::tui::view::span("[n] no", crate::tui::view::in_color(theme.status.success)),
        ),
    );
    proof {
        assert(crate::tui::view::line_models(lines@) =~= confirm_lines(*theme));
    }
    dialog_of(60, 20, Some(" Confirm "), theme.status.error, lines, theme)
}

/// The overlays that are up, the lowest first. `capability` names what the focused approval's
/// action takes.
pub open spec fn overlays_view(state: AppState, theme: Theme, capability: Seq<char>) -> Seq<PopupModel> {
    match state.overlay {
        Overlay::Help => seq![help_view(theme)],
        Overlay::NewRun(buffer) => seq![prompt_view("New run objective"@, buffer@, theme)],
        Overlay::Steering(buffer) => seq![
            prompt_view("Steer the run (queued for a safe point)"@, buffer@, theme),
        ],
        Overlay::ConfirmCancel => seq![confirm_view(theme)],
        Overlay::Skills => seq![crate::tui::browsers::skills_view(state, theme)],
        Overlay::Memory { source_open } => seq![
            crate::tui::browsers::memory_view(state, theme, source_open),
        ],
        Overlay::Docs => seq![crate::tui::browsers::docs_view(state, theme)],
        Overlay::Edges => seq![crate::tui::browsers::edges_view(state, theme)],
        Overlay::Workflow => seq![crate::tui::browsers::workflow_view(state, theme)],
        Overlay::Blackboard => seq![crate::tui::browsers::blackboard_view(state, theme)],
        Overlay::Palette { query, selected } => seq![palette_view(query@, selected, theme)],
        Overlay::DocEdit { buffer, .. } => seq![
            crate::tui::browsers::docs_view(state, theme),
            prompt_view("Insert text into the focused block"@, buffer@, theme),
        ],
        Overlay::ModelPicker { query, selected } => seq![
            models_view(state, query@, selected, theme),
        ],
        Overlay::Closed => if state.modal() && state.selected_approval
            < state.pending_approvals@.len() {
            seq![
                approval_view(
                    state.pending_approvals@[state.selected_approval as int],
                    capability,
                    theme,
                ),
            ]
        } else {
            Seq::<PopupModel>::empty()
        },
    }
}

fn only(popup: Popup) -> (r: Vec<Popup>)
    ensures
        crate::tui::view::popup_models(r@) == seq![popup@],
{
    let mut r: Vec<Popup> = Vec::new();
    r.push(popup);
    proof {
        assert(crate::tui::view::popup_models(r@) =~= seq![popup@]);
    }
    r
}

/// The overlays that are up, the lowest first.
pub fn render_overlays(state: &AppState, theme: &Theme, capability: &str) -> (r: Vec<Popup>)
    ensures
        crate::tui::view::popup_models(r@) == overlays_view(*state, *theme, capability@),
{
    match &state.overlay {
        Overlay::Help => only(render_help(theme)),
        Overlay::NewRun(buffer) => only(render_prompt("New run objective", buffer.as_str(), theme)),
        Overlay::Steering(buffer) => only(
            render_prompt("Steer the run (queued for a safe point)", buffer.as_str(), theme),
        ),
        Overlay::ConfirmCancel => only(render_confirm(theme)),
        Overlay::Skills => only(crate::tui::browsers::render_skills(state, theme)),
        Overlay::Memory { source_open } => only(
            crate::tui::browsers::render_memory(state, theme, *source_open),
        ),
        Overlay::Docs => only(crate::tui::browsers::render_docs(state, theme)),
        Overlay::Edges => only(crate::tui::browsers::render_edges(state, theme)),
        Overlay::Workflow => only(crate::tui::browsers::render_workflow(state, theme)),
        Overlay::Blackboard => only(crate::tui::browsers::render_blackboard(state, theme)),
        Overlay::Palette { query, selected } => only(
            render_palette(query.as_str(), *selected, theme),
        ),
        Overlay::DocEdit { buffer, .. } => {
            let docs: Popup = crate::tui::browsers::render_docs(state, theme);
            let prompt: Popup = render_prompt(
                "Insert text into the focused block",
                buffer.as_str(),
                theme,
            );
            let ghost both = seq![docs@, prompt@];
            let mut r: Vec<Popup> = Vec::new();
            r.push(docs);
            r.push(prompt);
            proof {
                assert(crate::tui::view::popup_models(r@) =~= both);
                assert(both =~= overlays_view(*state, *theme, capability@));
            }
            r
        },
        Overlay::ModelPicker { query, selected } => only(
            render_models(state, query.as_str(), *selected, theme),
        ),
        Overlay::Closed => {
            if state.show_approval_modal() {
                if let Some(approval) = state.focused_approval() {
                    return only(render_approval_modal(approval, capability, theme));
                }
            }
            let r: Vec<Popup> = Vec::new();
            proof {
                assert(crate::tui::view::popup_models(r@) =~= Seq::<PopupModel>::empty());
            }
            r
        },
    }
}

} // verus!
