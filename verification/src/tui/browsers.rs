//! The overlays: browsers, the palette, prompts, the approval modal and the help.
use vstd::prelude::*;

use crate::tui::state::{
    AppState, BlackboardItemCard, DocBlockView, DocCard, DocFocus, DocLeaseState, DocSuggestionView,
    GraphEdgeCard, MemoryCard, SkillCard, WorkflowNodeCard,
};
use crate::tui::theme::{Color, Theme};
use crate::tui::view::{
    Block, BlockModel, Body, BodyModel, Edges, Line, LineModel, Popup, PopupModel, Rail, RailModel,
    Row, RowModel, Span, SpanModel,
};

verus! {

/// The frame of a browser.
pub open spec fn browser_frame(title: Seq<char>, theme: Theme) -> BlockModel {
    BlockModel {
        edges: Edges::All,
        title: Some(crate::tui::view::words(title, crate::tui::view::bold(theme.text.heading))),
        border: theme.focus.active,
        style: crate::tui::view::painted(theme.text.primary, theme.surface.overlay),
    }
}

fn browser_block(title: &str, theme: &Theme) -> (r: Block)
    ensures
        r@ == browser_frame(title@, *theme),
{
    Block {
        edges: Edges::All,
        title: Some(crate::tui::view::span(title, crate::tui::view::in_bold(theme.text.heading))),
        border: theme.focus.active,
        style: crate::tui::view::in_color_on(theme.text.primary, theme.surface.overlay),
    }
}

/// The frame of a dialog.
pub open spec fn dialog_frame(title: Option<SpanModel>, border: Color, theme: Theme) -> BlockModel {
    BlockModel {
        edges: Edges::All,
        title,
        border,
        style: crate::tui::view::painted(theme.text.primary, theme.surface.overlay),
    }
}

/// The frame of a rail.
pub open spec fn rail_frame(edges: Edges, theme: Theme) -> BlockModel {
    BlockModel {
        edges,
        title: None,
        border: theme.focus.inactive,
        style: crate::tui::view::backed(theme.surface.overlay),
    }
}

fn rail_block(edges: Edges, theme: &Theme) -> (r: Block)
    ensures
        r@ == rail_frame(edges, *theme),
{
    Block {
        edges,
        title: None,
        border: theme.focus.inactive,
        style: crate::tui::view::on_color(theme.surface.overlay),
    }
}

/// A browser: its frame, its list and its rails.
pub open spec fn browser(
    size: u16,
    title: Seq<char>,
    list: u16,
    rows: Seq<RowModel>,
    detail: u16,
    rails: Seq<RailModel>,
    theme: Theme,
) -> PopupModel {
    PopupModel {
        width: size,
        height: size,
        block: browser_frame(title, theme),
        body: BodyModel::Browser { list, rows, detail, rails },
    }
}

/// The rail of a browser that has only one.
pub open spec fn only_rail(lines: Seq<LineModel>, theme: Theme) -> Seq<RailModel> {
    seq![RailModel { percent: 100, block: rail_frame(Edges::Left, theme), lines }]
}

fn rail_list(lines: Vec<Line>, theme: &Theme) -> (r: Vec<Rail>)
    ensures
        crate::tui::view::rail_models(r@) == only_rail(crate::tui::view::line_models(lines@), *theme),
{
    let mut r: Vec<Rail> = Vec::new();
    r.push(Rail { percent: 100, block: rail_block(Edges::Left, theme), lines });
    proof {
        assert(crate::tui::view::rail_models(r@) =~= only_rail(crate::tui::view::line_models(lines@), *theme));
    }
    r
}

/// A row of two lines: a marked name, and what is said of it.
pub open spec fn card_row(
    name: Seq<char>,
    color: Color,
    said: Seq<char>,
    selected: bool,
    theme: Theme,
) -> RowModel {
    RowModel {
        lines: seq![
            crate::tui::view::spanned(
                seq![
                    crate::tui::view::words(crate::tui::panes::pointer(selected), crate::tui::view::colored(theme.focus.active)),
                    crate::tui::view::words(name, crate::tui::view::colored(color)),
                ],
            ),
            crate::tui::panes::muted(said, theme),
        ],
        style: crate::tui::panes::row_style(selected, theme),
    }
}

fn row_of_card(name: &str, color: Color, said: &str, selected: bool, theme: &Theme) -> (r: Row)
    ensures
        r@ == card_row(name@, color, said@, selected, *theme),
{
    let mut lines: Vec<Line> = crate::tui::view::no_lines();
    crate::tui::view::add_line(
        &mut lines,
        crate::tui::view::line2(
            crate::tui::view::span(crate::tui::panes::marker(selected), crate::tui::view::in_color(theme.focus.active)),
            crate::tui::view::span(name, crate::tui::view::in_color(color)),
        ),
    );
    crate::tui::view::add_line(&mut lines, crate::tui::panes::muted_line(said, theme));
    let r = Row { lines, style: crate::tui::panes::style_of_row(selected, theme) };
    proof {
        assert(r@.lines =~= card_row(name@, color, said@, selected, *theme).lines);
    }
    r
}

/// Three texts, indented, with dots between them.
pub open spec fn dotted3(a: Seq<char>, b: Seq<char>, c: Seq<char>) -> Seq<char> {
    "    "@ + a + " \u{b7} "@ + b + " \u{b7} "@ + c
}

fn dotted(a: &str, b: &str, c: &str) -> (r: String)
    ensures
        r@ == dotted3(a@, b@, c@),
{
    let one: String = crate::text::concat3("    ", a, " \u{b7} ");
    let two: String = crate::text::concat3(one.as_str(), b, " \u{b7} ");
    crate::text::concat2(two.as_str(), c)
}

/// A line of body text.
pub open spec fn plain(text: Seq<char>, theme: Theme) -> LineModel {
    crate::tui::view::styled(text, crate::tui::view::colored(theme.text.primary))
}

fn plain_line(text: &str, theme: &Theme) -> (r: Line)
    ensures
        r@ == plain(text@, *theme),
{
    crate::tui::view::text_line(text, crate::tui::view::in_color(theme.text.primary))
}

/// A bold heading.
pub open spec fn title_line(text: Seq<char>, theme: Theme) -> LineModel {
    crate::tui::view::styled(text, crate::tui::view::bold(theme.text.heading))
}

fn line_of_title(text: &str, theme: &Theme) -> (r: Line)
    ensures
        r@ == title_line(text@, *theme),
{
    crate::tui::view::text_line(text, crate::tui::view::in_bold(theme.text.heading))
}

/// The last two lines of a rail: a gap, and what the keys do.
pub open spec fn footer(keys: Seq<char>, theme: Theme) -> Seq<LineModel> {
    seq![crate::tui::view::blank_line(), crate::tui::panes::muted(keys, theme)]
}

fn add_footer(lines: &mut Vec<Line>, keys: &str, theme: &Theme)
    ensures
        crate::tui::view::line_models(final(lines)@) == crate::tui::view::line_models(old(lines)@) + footer(keys@, *theme),
{
    let ghost before = crate::tui::view::line_models(lines@);
    crate::tui::view::add_line(lines, crate::tui::view::empty_line());
    crate::tui::view::add_line(lines, crate::tui::panes::muted_line(keys, theme));
    proof {
        assert(crate::tui::view::line_models(lines@) =~= before + footer(keys@, *theme));
    }
}

/// A skill's row: its name, and its scope, trust and status.
pub open spec fn skill_row(skill: SkillCard, selected: bool, theme: Theme) -> RowModel {
    card_row(
        crate::tui::view::clipped(skill.name@, 26),
        theme.text.primary,
        dotted3(skill.scope@, skill.trust@, skill.status@),
        selected,
        theme,
    )
}

/// The rows of the skill list.
pub open spec fn skill_rows(state: AppState, theme: Theme) -> Seq<RowModel> {
    if state.skills@.len() == 0 {
        seq![crate::tui::panes::placeholder("  no skills registered"@, theme)]
    } else {
        Seq::new(
            state.skills@.len(),
            |i: int| skill_row(state.skills@[i], i == state.selected_skill, theme),
        )
    }
}

fn rows_of_skills(state: &AppState, theme: &Theme) -> (r: Vec<Row>)
    ensures
        crate::tui::view::row_models(r@) == skill_rows(*state, *theme),
{
    let ghost all = skill_rows(*state, *theme);
    let mut r: Vec<Row> = crate::tui::view::no_rows();
    if state.skills.len() == 0 {
        crate::tui::view::add_row(&mut r, crate::tui::panes::placeholder_row("  no skills registered", theme));
        return r;
    }
    let mut i: usize = 0;
    proof {
        assert(all.take(0) =~= Seq::<RowModel>::empty());
    }
    while i < state.skills.len()
        invariant
            i <= state.skills@.len(),
            state.skills@.len() > 0,
            all == skill_rows(*state, *theme),
            crate::tui::view::row_models(r@) == all.take(i as int),
        decreases state.skills@.len() - i,
    {
        let selected: bool = i == state.selected_skill;
        let skill: &SkillCard = &state.skills[i];
        let name: String = crate::tui::view::truncate(skill.name.as_str(), 26);
        let said: String = dotted(
            skill.scope.as_str(),
            skill.trust.as_str(),
            skill.status.as_str(),
        );
        crate::tui::view::add_row(
            &mut r,
            row_of_card(name.as_str(), theme.text.primary, said.as_str(), selected, theme),
        );
        proof {
            assert(all.take(i + 1) =~= all.take(i as int).push(all[i as int]));
        }
        i = i + 1;
    }
    proof {
        assert(all.take(all.len() as int) =~= all);
    }
    r
}

/// A requested capability, exactly as it was declared.
pub open spec fn permission_line(permission: Seq<char>, theme: Theme) -> LineModel {
    crate::tui::view::spanned(
        seq![
            crate::tui::view::words("  \u{2022} "@, crate::tui::view::colored(theme.status.warning)),
            crate::tui::view::words(permission, crate::tui::view::colored(theme.text.primary)),
        ],
    )
}

/// The requested capabilities, or that there are none.
pub open spec fn permission_lines(skill: SkillCard, theme: Theme) -> Seq<LineModel> {
    if skill.permissions@.len() == 0 {
        seq![crate::tui::panes::muted("  (no permissions requested)"@, theme)]
    } else {
        Seq::new(
            skill.permissions@.len(),
            |i: int| permission_line(skill.permissions@[i]@, theme),
        )
    }
}

/// A skill's fields, above its permissions.
pub open spec fn skill_fields(skill: SkillCard, theme: Theme) -> Seq<LineModel> {
    seq![
        title_line(skill.name@ + " \u{2014} "@ + skill.kind@, theme),
        crate::tui::panes::field_line("scope"@, skill.scope@, theme.text.primary, theme),
        crate::tui::panes::field_line("trust"@, skill.trust@, theme.text.secondary, theme),
        crate::tui::panes::field_line("status"@, skill.status@, theme.text.secondary, theme),
        crate::tui::panes::field_line("risk"@, skill.risk@, crate::tui::labels::skill_hue(skill.risk@, theme), theme),
        crate::tui::view::blank_line(),
        crate::tui::panes::section_line("Description"@, theme),
        plain("  "@ + skill.description@, theme),
        crate::tui::view::blank_line(),
        crate::tui::panes::section_line("Permissions"@, theme),
    ]
}

/// The detail of the focused skill.
pub open spec fn skill_detail(state: AppState, theme: Theme) -> Seq<LineModel> {
    (match crate::tui::state::at(state.skills@, state.selected_skill) {
        Some(skill) => skill_fields(skill, theme) + permission_lines(skill, theme),
        None => seq![crate::tui::panes::muted("  no skill selected"@, theme)],
    }) + footer("  \u{2191}/\u{2193} select \u{b7} M memory \u{b7} Esc close"@, theme)
}

/// The Skill Studio.
pub open spec fn skills_view(state: AppState, theme: Theme) -> PopupModel {
    browser(
        84,
        " Skill Studio ("@ + crate::text::decimal(state.skills@.len()) + ") "@,
        38,
        skill_rows(state, theme),
        62,
        only_rail(skill_detail(state, theme), theme),
        theme,
    )
}

fn lines_of_permissions(skill: &SkillCard, theme: &Theme) -> (r: Vec<Line>)
    ensures
        crate::tui::view::line_models(r@) == permission_lines(*skill, *theme),
{
    let ghost all = permission_lines(*skill, *theme);
    let mut r: Vec<Line> = crate::tui::view::no_lines();
    if skill.permissions.len() == 0 {
        crate::tui::view::add_line(&mut r, crate::tui::panes::muted_line("  (no permissions requested)", theme));
        return r;
    }
    let mut i: usize = 0;
    proof {
        assert(all.take(0) =~= Seq::<LineModel>::empty());
    }
    while i < skill.permissions.len()
        invariant
            i <= skill.permissions@.len(),
            skill.permissions@.len() > 0,
            all == permission_lines(*skill, *theme),
            crate::tui::view::line_models(r@) == all.take(i as int),
        decreases skill.permissions@.len() - i,
    {
        crate::tui::view::add_line(
            &mut r,
            crate::tui::view::line2(
                crate::tui::view::span("  \u{2022} ", crate::tui::view::in_color(theme.status.warning)),
                crate::tui::view::span(skill.permissions[i].as_str(), crate::tui::view::in_color(theme.text.primary)),
            ),
        );
        proof {
            assert(all.take(i + 1) =~= all.take(i as int).push(all[i as int]));
        }
        i = i + 1;
    }
    proof {
        assert(all.take(all.len() as int) =~= all);
    }
    r
}

fn fields_of_skill(skill: &SkillCard, theme: &Theme) -> (r: Vec<Line>)
    ensures
        crate::tui::view::line_models(r@) == skill_fields(*skill, *theme),
{
    let title: String = crate::text::concat3(skill.name.as_str(), " \u{2014} ", skill.kind.as_str());
    let description: String = crate::text::concat2("  ", skill.description.as_str());
    let risk: Color = crate::tui::labels::skill_risk_color(skill.risk.as_str(), theme);
    let mut r: Vec<Line> = crate::tui::view::no_lines();
    crate::tui::view::add_line(&mut r, line_of_title(title.as_str(), theme));
    crate::tui::view::add_line(&mut r, crate::tui::panes::field("scope", skill.scope.as_str(), theme.text.primary, theme));
    crate::tui::view::add_line(&mut r, crate::tui::panes::field("trust", skill.trust.as_str(), theme.text.secondary, theme));
    crate::tui::view::add_line(&mut r, crate::tui::panes::field("status", skill.status.as_str(), theme.text.secondary, theme));
    crate::tui::view::add_line(&mut r, crate::tui::panes::field("risk", skill.risk.as_str(), risk, theme));
    crate::tui::view::add_line(&mut r, crate::tui::view::empty_line());
    crate::tui::view::add_line(&mut r, crate::tui::panes::section("Description", theme));
    crate::tui::view::add_line(&mut r, plain_line(description.as_str(), theme));
    crate::tui::view::add_line(&mut r, crate::tui::view::empty_line());
    crate::tui::view::add_line(&mut r, crate::tui::panes::section("Permissions", theme));
    proof {
        assert(crate::tui::view::line_models(r@) =~= skill_fields(*skill, *theme));
    }
    r
}

/// The Skill Studio: the registered items, and the focused one's metadata, description, risk
/// and requested permissions, verbatim.
pub fn render_skills(state: &AppState, theme: &Theme) -> (r: Popup)
    ensures
        r@ == skills_view(*state, *theme),
{
    let title: String = crate::tui::panes::counted(" Skill Studio (", state.skills.len(), ") ");
    let mut lines: Vec<Line> = crate::tui::view::no_lines();
    match state.focused_skill() {
        Some(skill) => {
            crate::tui::view::add_lines(&mut lines, fields_of_skill(skill, theme));
            crate::tui::view::add_lines(&mut lines, lines_of_permissions(skill, theme));
        },
        None => {
            crate::tui::view::add_line(&mut lines, crate::tui::panes::muted_line("  no skill selected", theme));
        },
    }
    add_footer(&mut lines, "  \u{2191}/\u{2193} select \u{b7} M memory \u{b7} Esc close", theme);
    proof {
        assert(crate::tui::view::line_models(lines@) =~= skill_detail(*state, *theme));
    }
    Popup {
        width: 84,
        height: 84,
        block: browser_block(title.as_str(), theme),
        body: Body::Browser {
            list: 38,
            rows: rows_of_skills(state, theme),
            detail: 62,
            rails: rail_list(lines, theme),
        },
    }
}

/// Every permission that the focused skill asks for is shown, verbatim.
pub proof fn law_permissions_are_shown_verbatim(state: AppState, theme: Theme, i: int)
    requires
        state.selected_skill < state.skills@.len(),
        0 <= i < state.skills@[state.selected_skill as int].permissions@.len(),
    ensures
        skill_detail(state, theme).contains(
            permission_line(
                state.skills@[state.selected_skill as int].permissions@[i]@,
                theme,
            ),
        ),
{
    let skill = state.skills@[state.selected_skill as int];
    let n = skill_fields(skill, theme).len();
    assert(skill_detail(state, theme)[n + i] == permission_line(skill.permissions@[i]@, theme));
}

/// A memory's row: what is remembered, and its class and scope.
pub open spec fn memory_row(memory: MemoryCard, selected: bool, theme: Theme) -> RowModel {
    card_row(
        crate::tui::view::clipped(memory.statement@, 26),
        theme.text.primary,
        "    "@ + memory.class@ + " \u{b7} "@ + memory.scope@,
        selected,
        theme,
    )
}

/// The rows of the memory list.
pub open spec fn memory_rows(state: AppState, theme: Theme) -> Seq<RowModel> {
    if state.memories@.len() == 0 {
        seq![crate::tui::panes::placeholder("  no memories in scope"@, theme)]
    } else {
        Seq::new(
            state.memories@.len(),
            |i: int| memory_row(state.memories@[i], i == state.selected_memory, theme),
        )
    }
}

fn rows_of_memories(state: &AppState, theme: &Theme) -> (r: Vec<Row>)
    ensures
        crate::tui::view::row_models(r@) == memory_rows(*state, *theme),
{
    let ghost all = memory_rows(*state, *theme);
    let mut r: Vec<Row> = crate::tui::view::no_rows();
    if state.memories.len() == 0 {
        crate::tui::view::add_row(&mut r, crate::tui::panes::placeholder_row("  no memories in scope", theme));
        return r;
    }
    let mut i: usize = 0;
    proof {
        assert(all.take(0) =~= Seq::<RowModel>::empty());
    }
    while i < state.memories.len()
        invariant
            i <= state.memories@.len(),
            state.memories@.len() > 0,
            all == memory_rows(*state, *theme),
            crate::tui::view::row_models(r@) == all.take(i as int),
        decreases state.memories@.len() - i,
    {
        let selected: bool = i == state.selected_memory;
        let memory: &MemoryCard = &state.memories[i];
        let name: String = crate::tui::view::truncate(memory.statement.as_str(), 26);
        let class: String = crate::text::concat3("    ", memory.class.as_str(), " \u{b7} ");
        let said: String = crate::text::concat2(class.as_str(), memory.scope.as_str());
        crate::tui::view::add_row(
            &mut r,
            row_of_card(name.as_str(), theme.text.primary, said.as_str(), selected, theme),
        );
        proof {
            assert(all.take(i + 1) =~= all.take(i as int).push(all[i as int]));
        }
        i = i + 1;
    }
    proof {
        assert(all.take(all.len() as int) =~= all);
    }
    r
}

/// A memory's provenance card.
pub open spec fn memory_fields(memory: MemoryCard, theme: Theme) -> Seq<LineModel> {
    seq![
        crate::tui::panes::section_line("Provenance card"@, theme),
        crate::tui::panes::field_line("Fact"@, memory.statement@, theme.text.primary, theme),
        crate::tui::panes::field_line("Source"@, memory.source@, theme.text.secondary, theme),
        crate::tui::panes::field_line("Revision"@, memory.revision@, theme.text.secondary, theme),
        crate::tui::panes::field_line("Observed"@, memory.observed@, theme.text.secondary, theme),
        crate::tui::panes::field_line("Scope"@, memory.scope@, theme.text.secondary, theme),
        crate::tui::panes::field_line("Confidence"@, memory.confidence.shown@, theme.status.info, theme),
        crate::tui::view::blank_line(),
    ]
}

fn fields_of_memory(memory: &MemoryCard, theme: &Theme) -> (r: Vec<Line>)
    ensures
        crate::tui::view::line_models(r@) == memory_fields(*memory, *theme),
{
    let mut r: Vec<Line> = crate::tui::view::no_lines();
    crate::tui::view::add_line(&mut r, crate::tui::panes::section("Provenance card", theme));
    crate::tui::view::add_line(&mut r, crate::tui::panes::field("Fact", memory.statement.as_str(), theme.text.primary, theme));
    crate::tui::view::add_line(&mut r, crate::tui::panes::field("Source", memory.source.as_str(), theme.text.secondary, theme));
    crate::tui::view::add_line(&mut r, crate::tui::panes::field("Revision", memory.revision.as_str(), theme.text.secondary, theme));
    crate::tui::view::add_line(&mut r, crate::tui::panes::field("Observed", memory.observed.as_str(), theme.text.secondary, theme));
    crate::tui::view::add_line(&mut r, crate::tui::panes::field("Scope", memory.scope.as_str(), theme.text.secondary, theme));
    crate::tui::view::add_line(&mut r, crate::tui::panes::field("Confidence", memory.confidence.shown.as_str(), theme.status.info, theme));
    crate::tui::view::add_line(&mut r, crate::tui::view::empty_line());
    proof {
        assert(crate::tui::view::line_models(r@) =~= memory_fields(*memory, *theme));
    }
    r
}

/// The source of a memory, revealed, or the key that reveals it.
pub open spec fn source_lines(memory: MemoryCard, source_open: bool, theme: Theme) -> Seq<LineModel> {
    if source_open {
        seq![
            crate::tui::view::styled("  \u{25bc} source opened"@, crate::tui::view::bold(theme.status.success)),
            plain("    "@ + memory.source@, theme),
        ]
    } else {
        seq![crate::tui::view::styled("  [o] open source"@, crate::tui::view::colored(theme.status.info))]
    }
}

/// The detail of the focused memory.
pub open spec fn memory_detail(state: AppState, theme: Theme, source_open: bool) -> Seq<LineModel> {
    (match crate::tui::state::at(state.memories@, state.selected_memory) {
        Some(memory) => memory_fields(memory, theme) + source_lines(memory, source_open, theme),
        None => seq![crate::tui::panes::muted("  no memory selected"@, theme)],
    }) + footer("  \u{2191}/\u{2193} select \u{b7} S skills \u{b7} Esc close"@, theme)
}

/// The memory browser.
pub open spec fn memory_view(state: AppState, theme: Theme, source_open: bool) -> PopupModel {
    browser(
        84,
        " Memory ("@ + crate::text::decimal(state.memories@.len()) + ") "@,
        38,
        memory_rows(state, theme),
        62,
        only_rail(memory_detail(state, theme, source_open), theme),
        theme,
    )
}

/// The provenance card of the selected memory always names its source, and opening the source
/// shows it once more on a line of its own.
pub proof fn law_a_memory_names_its_source(state: AppState, theme: Theme, source_open: bool)
    requires
        state.selected_memory < state.memories@.len(),
    ensures
        ({
            let memory = state.memories@[state.selected_memory as int];
            let card = memory_detail(state, theme, source_open);
            &&& card.contains(
                crate::tui::panes::field_line(
                    "Source"@,
                    memory.source@,
                    theme.text.secondary,
                    theme,
                ),
            )
            &&& source_open ==> card.contains(plain("    "@ + memory.source@, theme))
        }),
{
    let memory = state.memories@[state.selected_memory as int];
    let card = memory_detail(state, theme, source_open);
    assert(card[2] == crate::tui::panes::field_line(
        "Source"@,
        memory.source@,
        theme.text.secondary,
        theme,
    ));
    if source_open {
        assert(card[9] == plain("    "@ + memory.source@, theme));
    }
}

/// The memory browser: the memories in scope, and the focused one's provenance card, with its
/// source revealed where `source_open`.
pub fn render_memory(state: &AppState, theme: &Theme, source_open: bool) -> (r: Popup)
    ensures
        r@ == memory_view(*state, *theme, source_open),
{
    let title: String = crate::tui::panes::counted(" Memory (", state.memories.len(), ") ");
    let mut lines: Vec<Line> = crate::tui::view::no_lines();
    match state.focused_memory() {
        Some(memory) => {
            crate::tui::view::add_lines(&mut lines, fields_of_memory(memory, theme));
            if source_open {
                let source: String = crate::text::concat2("    ", memory.source.as_str());
                crate::tui::view::add_line(
                    &mut lines,
                    crate::tui::view::text_line(
                        "  \u{25bc} source opened",
                        crate::tui::view::in_bold(theme.status.success),
                    ),
                );
                crate::tui::view::add_line(&mut lines, plain_line(source.as_str(), theme));
            } else {
                crate::tui::view::add_line(
                    &mut lines,
                    crate::tui::view::text_line("  [o] open source", crate::tui::view::in_color(theme.status.info)),
                );
            }
        },
        None => {
            crate::tui::view::add_line(&mut lines, crate::tui::panes::muted_line("  no memory selected", theme));
        },
    }
    add_footer(&mut lines, "  \u{2191}/\u{2193} select \u{b7} S skills \u{b7} Esc close", theme);
    proof {
        assert(crate::tui::view::line_models(lines@) =~= memory_detail(*state, *theme, source_open));
    }
    Popup {
        width: 84,
        height: 84,
        block: browser_block(title.as_str(), theme),
        body: Body::Browser {
            list: 38,
            rows: rows_of_memories(state, theme),
            detail: 62,
            rails: rail_list(lines, theme),
        },
    }
}

/// A document's row: its title, and its scope, status and mode.
pub open spec fn doc_row(doc: DocCard, selected: bool, theme: Theme) -> RowModel {
    card_row(
        crate::tui::view::clipped(doc.title@, 28),
        theme.text.primary,
        dotted3(doc.scope@, doc.status@, doc.mode@),
        selected,
        theme,
    )
}

/// The rows of the document tree.
pub open spec fn doc_rows(state: AppState, theme: Theme) -> Seq<RowModel> {
    if state.docs@.len() == 0 {
        seq![crate::tui::panes::placeholder("  no documents in scope"@, theme)]
    } else {
        Seq::new(
            state.docs@.len(),
            |i: int| doc_row(state.docs@[i], i == state.selected_doc, theme),
        )
    }
}

fn rows_of_docs(state: &AppState, theme: &Theme) -> (r: Vec<Row>)
    ensures
        crate::tui::view::row_models(r@) == doc_rows(*state, *theme),
{
    let ghost all = doc_rows(*state, *theme);
    let mut r: Vec<Row> = crate::tui::view::no_rows();
    if state.docs.len() == 0 {
        crate::tui::view::add_row(&mut r, crate::tui::panes::placeholder_row("  no documents in scope", theme));
        return r;
    }
    let mut i: usize = 0;
    proof {
        assert(all.take(0) =~= Seq::<RowModel>::empty());
    }
    while i < state.docs.len()
        invariant
            i <= state.docs@.len(),
            state.docs@.len() > 0,
            all == doc_rows(*state, *theme),
            crate::tui::view::row_models(r@) == all.take(i as int),
        decreases state.docs@.len() - i,
    {
        let selected: bool = i == state.selected_doc;
        let doc: &DocCard = &state.docs[i];
        let name: String = crate::tui::view::truncate(doc.title.as_str(), 28);
        let said: String = dotted(doc.scope.as_str(), doc.status.as_str(), doc.mode.as_str());
        crate::tui::view::add_row(
            &mut r,
            row_of_card(name.as_str(), theme.text.primary, said.as_str(), selected, theme),
        );
        proof {
            assert(all.take(i + 1) =~= all.take(i as int).push(all[i as int]));
        }
        i = i + 1;
    }
    proof {
        assert(all.take(all.len() as int) =~= all);
    }
    r
}

/// Where this client's edit lease stands.
pub open spec fn lease_words(state: AppState, theme: Theme) -> SpanModel {
    match state.doc_edit {
        Some(edit) => match edit.lease {
            DocLeaseState::Held => crate::tui::view::words(
                "  lease: held"@,
                crate::tui::view::colored(theme.status.success),
            ),
            DocLeaseState::Acquiring => crate::tui::view::words(
                "  lease: acquiring\u{2026}"@,
                crate::tui::view::colored(theme.status.warning),
            ),
            DocLeaseState::Blocked => crate::tui::view::words(
                "  lease: blocked (another writer)"@,
                crate::tui::view::colored(theme.status.error),
            ),
        },
        None => crate::tui::view::words(""@, crate::tui::view::unstyled()),
    }
}

/// Where this client's edit lease stands.
pub fn lease_span(state: &AppState, theme: &Theme) -> (r: Span)
    ensures
        r@ == lease_words(*state, *theme),
{
    match &state.doc_edit {
        Some(edit) => match edit.lease {
            DocLeaseState::Held => crate::tui::view::span(
                "  lease: held",
                crate::tui::view::in_color(theme.status.success),
            ),
            DocLeaseState::Acquiring => crate::tui::view::span(
                "  lease: acquiring\u{2026}",
                crate::tui::view::in_color(theme.status.warning),
            ),
            DocLeaseState::Blocked => crate::tui::view::span(
                "  lease: blocked (another writer)",
                crate::tui::view::in_color(theme.status.error),
            ),
        },
        None => crate::tui::view::span("", crate::tui::view::no_style()),
    }
}

/// That a rail has the focus.
pub open spec fn focus_words(focused: bool, theme: Theme) -> SpanModel {
    crate::tui::view::words(
        if focused {
            "  [focused]"@
        } else {
            ""@
        },
        crate::tui::view::colored(theme.focus.active),
    )
}

fn focus_span(focused: bool, theme: &Theme) -> (r: Span)
    ensures
        r@ == focus_words(focused, *theme),
{
    let text: &str = if focused {
        "  [focused]"
    } else {
        ""
    };
    crate::tui::view::span(text, crate::tui::view::in_color(theme.focus.active))
}

/// A block's line: its kind, in a column of its own, and its text.
pub open spec fn block_line(block: DocBlockView, focused: bool, theme: Theme) -> LineModel {
    crate::tui::view::spanned(
        seq![
            crate::tui::view::words(
                crate::tui::panes::pointer(focused) + crate::tui::view::widened(block.kind@, 10),
                crate::tui::view::colored(
                    if focused {
                        theme.focus.active
                    } else {
                        theme.text.secondary
                    },
                ),
            ),
            crate::tui::view::words(crate::tui::view::clipped(block.text@, 58), crate::tui::view::colored(theme.text.primary)),
        ],
    )
}

/// The lines of a document's blocks, or that it has none.
pub open spec fn block_lines(state: AppState, doc: DocCard, theme: Theme) -> Seq<LineModel> {
    if doc.blocks@.len() == 0 {
        seq![crate::tui::panes::muted("  (empty document)"@, theme)]
    } else {
        Seq::new(
            doc.blocks@.len(),
            |i: int|
                block_line(
                    doc.blocks@[i],
                    state.doc_focus == DocFocus::Editor && i == state.selected_block,
                    theme,
                ),
        )
    }
}

/// The editor rail: the focused document's title, the lease, and its blocks.
pub open spec fn editor_lines(state: AppState, theme: Theme) -> Seq<LineModel> {
    match state.doc() {
        Some(doc) => seq![
            title_line(doc.title@ + " ("@ + doc.revision@ + ")"@, theme),
            crate::tui::view::spanned(
                seq![
                    crate::tui::panes::heading("Editor rail"@, theme),
                    focus_words(state.doc_focus == DocFocus::Editor, theme),
                    lease_words(state, theme),
                ],
            ),
        ] + block_lines(state, doc, theme),
        None => seq![crate::tui::panes::muted("  no document selected"@, theme)],
    }
}

/// A suggestion's lines: who, where and what, and why, if it was said.
pub open spec fn suggestion_lines(s: DocSuggestionView, focused: bool, theme: Theme) -> Seq<LineModel> {
    let first = crate::tui::view::spanned(
        seq![
            crate::tui::view::words(
                if focused {
                    "\u{203a} "@
                } else {
                    "  \u{2022} "@
                },
                crate::tui::view::colored(
                    if focused {
                        theme.focus.active
                    } else {
                        theme.status.info
                    },
                ),
            ),
            crate::tui::view::words(s.author@ + " @ "@ + s.range@ + " "@, crate::tui::view::colored(theme.text.muted)),
            crate::tui::view::words(
                "\u{2192} "@ + crate::tui::view::clipped(s.replacement@, 40),
                crate::tui::view::colored(theme.text.primary),
            ),
        ],
    );
    match s.rationale {
        Some(why) => seq![
            first,
            crate::tui::view::styled("      "@ + why@, crate::tui::view::colored(theme.text.secondary)),
        ],
        None => seq![first],
    }
}

/// The lines of the first `n` suggestions.
pub open spec fn suggestions_view(state: AppState, doc: DocCard, n: int, theme: Theme) -> Seq<LineModel>
    decreases n,
{
    if n <= 0 {
        Seq::<LineModel>::empty()
    } else {
        suggestions_view(state, doc, n - 1, theme) + suggestion_lines(
            doc.suggestions@[n - 1],
            state.doc_focus == DocFocus::Review && n - 1 == state.selected_suggestion,
            theme,
        )
    }
}

/// The review rail: the focused document's pending suggestions.
pub open spec fn review_lines(state: AppState, theme: Theme) -> Seq<LineModel> {
    (match state.doc() {
        Some(doc) => seq![
            crate::tui::view::spanned(
                seq![
                    crate::tui::panes::heading("Review rail (suggestions)"@, theme),
                    focus_words(state.doc_focus == DocFocus::Review, theme),
                ],
            ),
        ] + if doc.suggestions@.len() == 0 {
            seq![crate::tui::panes::muted("  no pending suggestions"@, theme)]
        } else {
            suggestions_view(state, doc, doc.suggestions@.len() as int, theme)
        },
        None => Seq::<LineModel>::empty(),
    }) + footer(
        "  Tab rail \u{b7} \u{2191}/\u{2193} select \u{b7} e edit \u{b7} a/r accept/reject \u{b7} Esc close"@,
        theme,
    )
}

/// The Docs Studio.
pub open spec fn docs_view(state: AppState, theme: Theme) -> PopupModel {
    browser(
        86,
        " Docs Studio ("@ + crate::text::decimal(state.docs@.len()) + ") "@,
        34,
        doc_rows(state, theme),
        66,
        seq![
            RailModel {
                percent: 60,
                block: rail_frame(Edges::Left, theme),
                lines: editor_lines(state, theme),
            },
            RailModel {
                percent: 40,
                block: rail_frame(Edges::LeftAndTop, theme),
                lines: review_lines(state, theme),
            },
        ],
        theme,
    )
}

fn line_of_block(block: &DocBlockView, focused: bool, theme: &Theme) -> (r: Line)
    ensures
        r@ == block_line(*block, focused, *theme),
{
    let kind: String = crate::tui::view::widen(block.kind.as_str(), 10);
    let label: String = crate::text::concat2(crate::tui::panes::marker(focused), kind.as_str());
    let color: Color = if focused {
        theme.focus.active
    } else {
        theme.text.secondary
    };
    let text: String = crate::tui::view::truncate(block.text.as_str(), 58);
    crate::tui::view::line2(
        crate::tui::view::span(label.as_str(), crate::tui::view::in_color(color)),
        crate::tui::view::span(text.as_str(), crate::tui::view::in_color(theme.text.primary)),
    )
}

fn is_editor(focus: DocFocus) -> (r: bool)
    ensures
        r == (focus == DocFocus::Editor),
{
    match focus {
        DocFocus::Editor => true,
        _ => false,
    }
}

fn is_review(focus: DocFocus) -> (r: bool)
    ensures
        r == (focus == DocFocus::Review),
{
    match focus {
        DocFocus::Review => true,
        _ => false,
    }
}

fn lines_of_blocks(state: &AppState, doc: &DocCard, theme: &Theme) -> (r: Vec<Line>)
    ensures
        crate::tui::view::line_models(r@) == block_lines(*state, *doc, *theme),
{
    let editing: bool = is_editor(state.doc_focus);
    let ghost all = block_lines(*state, *doc, *theme);
    let mut r: Vec<Line> = crate::tui::view::no_lines();
    if doc.blocks.len() == 0 {
        crate::tui::view::add_line(&mut r, crate::tui::panes::muted_line("  (empty document)", theme));
        return r;
    }
    let mut i: usize = 0;
    proof {
        assert(all.take(0) =~= Seq::<LineModel>::empty());
    }
    while i < doc.blocks.len()
        invariant
            i <= doc.blocks@.len(),
            doc.blocks@.len() > 0,
            editing == (state.doc_focus == DocFocus::Editor),
            all == block_lines(*state, *doc, *theme),
            crate::tui::view::line_models(r@) == all.take(i as int),
        decreases doc.blocks@.len() - i,
    {
        let focused: bool = editing && i == state.selected_block;
        crate::tui::view::add_line(&mut r, line_of_block(&doc.blocks[i], focused, theme));
        proof {
            assert(all.take(i + 1) =~= all.take(i as int).push(all[i as int]));
        }
        i = i + 1;
    }
    proof {
        assert(all.take(all.len() as int) =~= all);
    }
    r
}

fn lines_of_editor(state: &AppState, theme: &Theme) -> (r: Vec<Line>)
    ensures
        crate::tui::view::line_models(r@) == editor_lines(*state, *theme),
{
    let mut r: Vec<Line> = crate::tui::view::no_lines();
    match state.focused_doc() {
        Some(doc) => {
            let named: String = crate::text::concat3(doc.title.as_str(), " (", doc.revision.as_str());
            let title: String = crate::text::concat2(named.as_str(), ")");
            crate::tui::view::add_line(&mut r, line_of_title(title.as_str(), theme));
            crate::tui::view::add_line(
                &mut r,
                crate::tui::view::line3(
                    crate::tui::panes::section_span("Editor rail", theme),
                    focus_span(is_editor(state.doc_focus), theme),
                    lease_span(state, theme),
                ),
            );
            crate::tui::view::add_lines(&mut r, lines_of_blocks(state, doc, theme));
        },
        None => {
            crate::tui::view::add_line(&mut r, crate::tui::panes::muted_line("  no document selected", theme));
        },
    }
    proof {
        assert(crate::tui::view::line_models(r@) =~= editor_lines(*state, *theme));
    }
    r
}

fn lines_of_suggestion(s: &DocSuggestionView, focused: bool, theme: &Theme) -> (r: Vec<Line>)
    ensures
        crate::tui::view::line_models(r@) == suggestion_lines(*s, focused, *theme),
{
    let bullet: &str = if focused {
        "\u{203a} "
    } else {
        "  \u{2022} "
    };
    let color: Color = if focused {
        theme.focus.active
    } else {
        theme.status.info
    };
    let who: String = crate::text::concat3(s.author.as_str(), " @ ", s.range.as_str());
    let place: String = crate::text::concat2(who.as_str(), " ");
    let short: String = crate::tui::view::truncate(s.replacement.as_str(), 40);
    let what: String = crate::text::concat2("\u{2192} ", short.as_str());
    let mut r: Vec<Line> = crate::tui::view::no_lines();
    crate::tui::view::add_line(
        &mut r,
        crate::tui::view::line3(
            crate::tui::view::span(bullet, crate::tui::view::in_color(color)),
            crate::tui::view::span(place.as_str(), crate::tui::view::in_color(theme.text.muted)),
            crate::tui::view::span(what.as_str(), crate::tui::view::in_color(theme.text.primary)),
        ),
    );
    if let Some(why) = &s.rationale {
        let text: String = crate::text::concat2("      ", why.as_str());
        crate::tui::view::add_line(
            &mut r,
            crate::tui::view::text_line(text.as_str(), crate::tui::view::in_color(theme.text.secondary)),
        );
    }
    proof {
        assert(crate::tui::view::line_models(r@) =~= suggestion_lines(*s, focused, *theme));
    }
    r
}

fn lines_of_review(state: &AppState, theme: &Theme) -> (r: Vec<Line>)
    ensures
        crate::tui::view::line_models(r@) == review_lines(*state, *theme),
{
    let mut r: Vec<Line> = crate::tui::view::no_lines();
    if let Some(doc) = state.focused_doc() {
        let reviewing: bool = is_review(state.doc_focus);
        crate::tui::view::add_line(
            &mut r,
            crate::tui::view::line2(
                crate::tui::panes::section_span("Review rail (suggestions)", theme),
                focus_span(reviewing, theme),
            ),
        );
        let ghost first = crate::tui::view::line_models(r@);
        if doc.suggestions.len() == 0 {
            crate::tui::view::add_line(&mut r, crate::tui::panes::muted_line("  no pending suggestions", theme));
        } else {
            let mut i: usize = 0;
            proof {
                assert(first + Seq::<LineModel>::empty() =~= first);
            }
            while i < doc.suggestions.len()
                invariant
                    i <= doc.suggestions@.len(),
                    reviewing == (state.doc_focus == DocFocus::Review),
                    crate::tui::view::line_models(r@) == first + suggestions_view(
                        *state,
                        *doc,
                        i as int,
                        *theme,
                    ),
                decreases doc.suggestions@.len() - i,
            {
                let focused: bool = reviewing && i == state.selected_suggestion;
                crate::tui::view::add_lines(&mut r, lines_of_suggestion(&doc.suggestions[i], focused, theme));
                proof {
                    assert(crate::tui::view::line_models(r@) =~= first + suggestions_view(
                        *state,
                        *doc,
                        i + 1,
                        *theme,
                    ));
                }
                i = i + 1;
            }
        }
    }
    add_footer(
        &mut r,
        "  Tab rail \u{b7} \u{2191}/\u{2193} select \u{b7} e edit \u{b7} a/r accept/reject \u{b7} Esc close",
        theme,
    );
    proof {
        assert(crate::tui::view::line_models(r@) =~= review_lines(*state, *theme));
    }
    r
}

/// The Docs Studio: the document tree, and the focused document's editor rail above its
/// review rail.
pub fn render_docs(state: &AppState, theme: &Theme) -> (r: Popup)
    ensures
        r@ == docs_view(*state, *theme),
{
    let title: String = crate::tui::panes::counted(" Docs Studio (", state.docs.len(), ") ");
    let mut rails: Vec<Rail> = Vec::new();
    rails.push(
        Rail {
            percent: 60,
            block: rail_block(Edges::Left, theme),
            lines: lines_of_editor(state, theme),
        },
    );
    rails.push(
        Rail {
            percent: 40,
            block: rail_block(Edges::LeftAndTop, theme),
            lines: lines_of_review(state, theme),
        },
    );
    proof {
        assert(crate::tui::view::rail_models(rails@) =~= seq![
            RailModel {
                percent: 60,
                block: rail_frame(Edges::Left, *theme),
                lines: editor_lines(*state, *theme),
            },
            RailModel {
                percent: 40,
                block: rail_frame(Edges::LeftAndTop, *theme),
                lines: review_lines(*state, *theme),
            },
        ]);
    }
    Popup {
        width: 86,
        height: 86,
        block: browser_block(title.as_str(), theme),
        body: Body::Browser { list: 34, rows: rows_of_docs(state, theme), detail: 66, rails },
    }
}

/// An edge's row: its relation, and what it relates.
pub open spec fn edge_row(edge: GraphEdgeCard, selected: bool, theme: Theme) -> RowModel {
    card_row(
        crate::tui::view::clipped(edge.relation@, 14),
        theme.text.secondary,
        "    "@ + crate::tui::view::clipped(edge.from@, 16) + " \u{2192} "@ + crate::tui::view::clipped(edge.to@, 16),
        selected,
        theme,
    )
}

/// The rows of the edge list.
pub open spec fn edge_rows(state: AppState, theme: Theme) -> Seq<RowModel> {
    if state.edges@.len() == 0 {
        seq![crate::tui::panes::placeholder("  no edges in this repository"@, theme)]
    } else {
        Seq::new(
            state.edges@.len(),
            |i: int| edge_row(state.edges@[i], i == state.selected_edge, theme),
        )
    }
}

fn rows_of_edges(state: &AppState, theme: &Theme) -> (r: Vec<Row>)
    ensures
        crate::tui::view::row_models(r@) == edge_rows(*state, *theme),
{
    let ghost all = edge_rows(*state, *theme);
    let mut r: Vec<Row> = crate::tui::view::no_rows();
    if state.edges.len() == 0 {
        crate::tui::view::add_row(&mut r, crate::tui::panes::placeholder_row("  no edges in this repository", theme));
        return r;
    }
    let mut i: usize = 0;
    proof {
        assert(all.take(0) =~= Seq::<RowModel>::empty());
    }
    while i < state.edges.len()
        invariant
            i <= state.edges@.len(),
            state.edges@.len() > 0,
            all == edge_rows(*state, *theme),
            crate::tui::view::row_models(r@) == all.take(i as int),
        decreases state.edges@.len() - i,
    {
        let selected: bool = i == state.selected_edge;
        let edge: &GraphEdgeCard = &state.edges[i];
        let name: String = crate::tui::view::truncate(edge.relation.as_str(), 14);
        let from: String = crate::tui::view::truncate(edge.from.as_str(), 16);
        let to: String = crate::tui::view::truncate(edge.to.as_str(), 16);
        let source: String = crate::text::concat3("    ", from.as_str(), " \u{2192} ");
        let said: String = crate::text::concat2(source.as_str(), to.as_str());
        crate::tui::view::add_row(
            &mut r,
            row_of_card(name.as_str(), theme.text.secondary, said.as_str(), selected, theme),
        );
        proof {
            assert(all.take(i + 1) =~= all.take(i as int).push(all[i as int]));
        }
        i = i + 1;
    }
    proof {
        assert(all.take(all.len() as int) =~= all);
    }
    r
}

/// An edge: what it relates, how sure it is, and the evidence and revision for it.
pub open spec fn edge_fields(edge: GraphEdgeCard, theme: Theme) -> Seq<LineModel> {
    seq![
        crate::tui::panes::section_line("Edge"@, theme),
        crate::tui::panes::field_line("from"@, edge.from@, theme.text.primary, theme),
        crate::tui::panes::field_line("to"@, edge.to@, theme.text.primary, theme),
        crate::tui::panes::field_line("relation"@, edge.relation@, theme.text.secondary, theme),
        crate::tui::panes::field_line("confidence"@, edge.confidence.shown@, crate::tui::labels::confidence_hue(edge.confidence, theme), theme),
        crate::tui::view::blank_line(),
        crate::tui::panes::section_line("Evidence"@, theme),
        crate::tui::panes::field_line("kind"@, edge.evidence_kind@, theme.status.info, theme),
        crate::tui::panes::field_line("source"@, edge.evidence@, theme.text.secondary, theme),
        crate::tui::panes::field_line("revision"@, edge.revision@, theme.text.secondary, theme),
    ]
}

fn fields_of_edge(edge: &GraphEdgeCard, theme: &Theme) -> (r: Vec<Line>)
    ensures
        crate::tui::view::line_models(r@) == edge_fields(*edge, *theme),
{
    let mut r: Vec<Line> = crate::tui::view::no_lines();
    crate::tui::view::add_line(&mut r, crate::tui::panes::section("Edge", theme));
    crate::tui::view::add_line(&mut r, crate::tui::panes::field("from", edge.from.as_str(), theme.text.primary, theme));
    crate::tui::view::add_line(&mut r, crate::tui::panes::field("to", edge.to.as_str(), theme.text.primary, theme));
    crate::tui::view::add_line(&mut r, crate::tui::panes::field("relation", edge.relation.as_str(), theme.text.secondary, theme));
    crate::tui::view::add_line(&mut r, crate::tui::panes::field("confidence", edge.confidence.shown.as_str(), crate::tui::labels::edge_confidence_color(&edge.confidence, theme), theme));
    crate::tui::view::add_line(&mut r, crate::tui::view::empty_line());
    crate::tui::view::add_line(&mut r, crate::tui::panes::section("Evidence", theme));
    crate::tui::view::add_line(&mut r, crate::tui::panes::field("kind", edge.evidence_kind.as_str(), theme.status.info, theme));
    crate::tui::view::add_line(&mut r, crate::tui::panes::field("source", edge.evidence.as_str(), theme.text.secondary, theme));
    crate::tui::view::add_line(&mut r, crate::tui::panes::field("revision", edge.revision.as_str(), theme.text.secondary, theme));
    proof {
        assert(crate::tui::view::line_models(r@) =~= edge_fields(*edge, *theme));
    }
    r
}

/// The detail of the focused edge.
pub open spec fn edge_detail(state: AppState, theme: Theme) -> Seq<LineModel> {
    (match crate::tui::state::at(state.edges@, state.selected_edge) {
        Some(x) => edge_fields(x, theme),
        None => seq![crate::tui::panes::muted("  no edge selected"@, theme)],
    }) + footer("  \u{2191}/\u{2193} select \u{b7} D docs \u{b7} Esc close"@, theme)
}

/// The code-graph edge inspector: the edges, and the focused one with its evidence and revision.
pub open spec fn edges_view(state: AppState, theme: Theme) -> PopupModel {
    browser(
        86,
        " Code-graph edges ("@ + crate::text::decimal(state.edges@.len()) + ") "@,
        44,
        edge_rows(state, theme),
        56,
        only_rail(edge_detail(state, theme), theme),
        theme,
    )
}

/// The code-graph edge inspector: the edges, and the focused one with its evidence and revision.
pub fn render_edges(state: &AppState, theme: &Theme) -> (r: Popup)
    ensures
        r@ == edges_view(*state, *theme),
{
    let title: String = crate::tui::panes::counted(" Code-graph edges (", state.edges.len(), ") ");
    let mut lines: Vec<Line> = crate::tui::view::no_lines();
    match state.focused_edge() {
        Some(x) => {
            crate::tui::view::add_lines(&mut lines, fields_of_edge(x, theme));
        },
        None => {
            crate::tui::view::add_line(&mut lines, crate::tui::panes::muted_line("  no edge selected", theme));
        },
    }
    add_footer(&mut lines, "  \u{2191}/\u{2193} select \u{b7} D docs \u{b7} Esc close", theme);
    proof {
        assert(crate::tui::view::line_models(lines@) =~= edge_detail(*state, *theme));
    }
    Popup {
        width: 86,
        height: 86,
        block: browser_block(title.as_str(), theme),
        body: Body::Browser {
            list: 44,
            rows: rows_of_edges(state, theme),
            detail: 56,
            rails: rail_list(lines, theme),
        },
    }
}

/// The heading of a group, where a row begins one.
pub open spec fn group_lines(group: Seq<char>, begins: bool, theme: Theme) -> Seq<LineModel> {
    if begins {
        seq![title_line(group, theme)]
    } else {
        Seq::<LineModel>::empty()
    }
}

/// Whether the node at `i` begins a workflow: it is the first, or the one before belongs to
/// another.
pub open spec fn begins_workflow(nodes: Seq<WorkflowNodeCard>, i: int) -> bool {
    i == 0 || nodes[i - 1].workflow@ != nodes[i].workflow@
}

/// A node's row: its workflow where it begins one, its name and state, and its action.
pub open spec fn node_row(node: WorkflowNodeCard, begins: bool, selected: bool, theme: Theme) -> RowModel {
    RowModel {
        lines: group_lines(node.workflow@, begins, theme) + seq![
            crate::tui::view::spanned(
                seq![
                    crate::tui::view::words(crate::tui::panes::pointer(selected), crate::tui::view::colored(theme.focus.active)),
                    crate::tui::view::words(crate::tui::view::clipped(node.id@, 20), crate::tui::view::colored(theme.text.primary)),
                    crate::tui::view::words("  "@, crate::tui::view::unstyled()),
                    crate::tui::view::words(node.state@, crate::tui::view::colored(crate::tui::labels::node_hue(node.state@, theme))),
                ],
            ),
            crate::tui::panes::muted("    "@ + crate::tui::view::clipped(node.action@, 34), theme),
        ],
        style: crate::tui::panes::row_style(selected, theme),
    }
}

fn row_of_node(node: &WorkflowNodeCard, begins: bool, selected: bool, theme: &Theme) -> (r: Row)
    ensures
        r@ == node_row(*node, begins, selected, *theme),
{
    let id: String = crate::tui::view::truncate(node.id.as_str(), 20);
    let action: String = crate::tui::view::truncate(node.action.as_str(), 34);
    let said: String = crate::text::concat2("    ", action.as_str());
    let mut lines: Vec<Line> = crate::tui::view::no_lines();
    if begins {
        crate::tui::view::add_line(&mut lines, line_of_title(node.workflow.as_str(), theme));
    }
    crate::tui::view::add_line(
        &mut lines,
        crate::tui::view::line4(
            crate::tui::view::span(crate::tui::panes::marker(selected), crate::tui::view::in_color(theme.focus.active)),
            crate::tui::view::span(id.as_str(), crate::tui::view::in_color(theme.text.primary)),
            crate::tui::view::span("  ", crate::tui::view::no_style()),
            crate::tui::view::span(
                node.state.as_str(),
                crate::tui::view::in_color(crate::tui::labels::node_state_color(node.state.as_str(), theme)),
            ),
        ),
    );
    crate::tui::view::add_line(&mut lines, crate::tui::panes::muted_line(said.as_str(), theme));
    let r = Row { lines, style: crate::tui::panes::style_of_row(selected, theme) };
    proof {
        assert(r@.lines =~= node_row(*node, begins, selected, *theme).lines);
    }
    r
}

/// The rows of the node list, in the order of the graph.
pub open spec fn node_rows(state: AppState, theme: Theme) -> Seq<RowModel> {
    if state.workflow@.len() == 0 {
        seq![crate::tui::panes::placeholder("  no workflow manifests in this repository"@, theme)]
    } else {
        Seq::new(
            state.workflow@.len(),
            |i: int| 
                node_row(
                    state.workflow@[i],
                    begins_workflow(state.workflow@, i),
                    i == state.selected_node,
                    theme,
                ),
        )
    }
}

fn rows_of_nodes(state: &AppState, theme: &Theme) -> (r: Vec<Row>)
    ensures
        crate::tui::view::row_models(r@) == node_rows(*state, *theme),
{
    let ghost all = node_rows(*state, *theme);
    let mut r: Vec<Row> = crate::tui::view::no_rows();
    if state.workflow.len() == 0 {
        crate::tui::view::add_row(&mut r, crate::tui::panes::placeholder_row("  no workflow manifests in this repository", theme));
        return r;
    }
    let mut i: usize = 0;
    proof {
        assert(all.take(0) =~= Seq::<RowModel>::empty());
    }
    while i < state.workflow.len()
        invariant
            i <= state.workflow@.len(),
            state.workflow@.len() > 0,
            all == node_rows(*state, *theme),
            crate::tui::view::row_models(r@) == all.take(i as int),
        decreases state.workflow@.len() - i,
    {
        let selected: bool = i == state.selected_node;
        let begins: bool = i == 0 || !crate::text::same_text(
            state.workflow[i - 1].workflow.as_str(),
            state.workflow[i].workflow.as_str(),
        );
        crate::tui::view::add_row(&mut r, row_of_node(&state.workflow[i], begins, selected, theme));
        proof {
            assert(all.take(i + 1) =~= all.take(i as int).push(all[i as int]));
        }
        i = i + 1;
    }
    proof {
        assert(all.take(all.len() as int) =~= all);
    }
    r
}

/// A node: where it stands, what it does, how it runs, and what it depends on and yields.
pub open spec fn node_fields(node: WorkflowNodeCard, theme: Theme) -> Seq<LineModel> {
    seq![
        crate::tui::panes::section_line("Node"@, theme),
        crate::tui::panes::field_line("workflow"@, node.workflow@, theme.text.secondary, theme),
        crate::tui::panes::field_line("id"@, node.id@, theme.text.primary, theme),
        crate::tui::panes::field_line("state"@, node.state@, crate::tui::labels::node_hue(node.state@, theme), theme),
        crate::tui::view::blank_line(),
        crate::tui::panes::section_line("Action"@, theme),
        crate::tui::panes::field_line("action"@, node.action@, theme.text.secondary, theme),
        crate::tui::panes::field_line("agent"@, node.agent@, theme.text.primary, theme),
        crate::tui::panes::field_line("model policy"@, node.model_policy@, theme.text.muted, theme),
        crate::tui::view::blank_line(),
        crate::tui::panes::section_line("Execution"@, theme),
        crate::tui::panes::field_line("worktree"@, node.workspace@, theme.status.info, theme),
        crate::tui::panes::field_line("approval"@, node.approval@, theme.text.secondary, theme),
        crate::tui::panes::field_line("retry"@, node.retry@, theme.text.secondary, theme),
        crate::tui::panes::field_line("cost"@, node.cost@, theme.text.secondary, theme),
        crate::tui::panes::field_line("error"@, node.error@, theme.status.error, theme),
        crate::tui::view::blank_line(),
        crate::tui::panes::section_line("Graph"@, theme),
        crate::tui::panes::field_line("depends on"@, node.depends_on@, theme.text.secondary, theme),
        crate::tui::panes::field_line("outputs"@, node.outputs@, theme.text.secondary, theme),
    ]
}

fn fields_of_node(node: &WorkflowNodeCard, theme: &Theme) -> (r: Vec<Line>)
    ensures
        crate::tui::view::line_models(r@) == node_fields(*node, *theme),
{
    let mut r: Vec<Line> = crate::tui::view::no_lines();
    crate::tui::view::add_line(&mut r, crate::tui::panes::section("Node", theme));
    crate::tui::view::add_line(&mut r, crate::tui::panes::field("workflow", node.workflow.as_str(), theme.text.secondary, theme));
    crate::tui::view::add_line(&mut r, crate::tui::panes::field("id", node.id.as_str(), theme.text.primary, theme));
    crate::tui::view::add_line(&mut r, crate::tui::panes::field("state", node.state.as_str(), crate::tui::labels::node_state_color(node.state.as_str(), theme), theme));
    crate::tui::view::add_line(&mut r, crate::tui::view::empty_line());
    crate::tui::view::add_line(&mut r, crate::tui::panes::section("Action", theme));
    crate::tui::view::add_line(&mut r, crate::tui::panes::field("action", node.action.as_str(), theme.text.secondary, theme));
    crate::tui::view::add_line(&mut r, crate::tui::panes::field("agent", node.agent.as_str(), theme.text.primary, theme));
    crate::tui::view::add_line(&mut r, crate::tui::panes::field("model policy", node.model_policy.as_str(), theme.text.muted, theme));
    crate::tui::view::add_line(&mut r, crate::tui::view::empty_line());
    crate::tui::view::add_line(&mut r, crate::tui::panes::section("Execution", theme));
    crate::tui::view::add_line(&mut r, crate::tui::panes::field("worktree", node.workspace.as_str(), theme.status.info, theme));
    crate::tui::view::add_line(&mut r, crate::tui::panes::field("approval", node.approval.as_str(), theme.text.secondary, theme));
    crate::tui::view::add_line(&mut r, crate::tui::panes::field("retry", node.retry.as_str(), theme.text.secondary, theme));
    crate::tui::view::add_line(&mut r, crate::tui::panes::field("cost", node.cost.as_str(), theme.text.secondary, theme));
    crate::tui::view::add_line(&mut r, crate::tui::panes::field("error", node.error.as_str(), theme.status.error, theme));
    crate::tui::view::add_line(&mut r, crate::tui::view::empty_line());
    crate::tui::view::add_line(&mut r, crate::tui::panes::section("Graph", theme));
    crate::tui::view::add_line(&mut r, crate::tui::panes::field("depends on", node.depends_on.as_str(), theme.text.secondary, theme));
    crate::tui::view::add_line(&mut r, crate::tui::panes::field("outputs", node.outputs.as_str(), theme.text.secondary, theme));
    proof {
        assert(crate::tui::view::line_models(r@) =~= node_fields(*node, *theme));
    }
    r
}

/// The detail of the focused node.
pub open spec fn node_detail(state: AppState, theme: Theme) -> Seq<LineModel> {
    (match crate::tui::state::at(state.workflow@, state.selected_node) {
        Some(x) => node_fields(x, theme),
        None => seq![crate::tui::panes::muted("  no node selected"@, theme)],
    }) + footer("  \u{2191}/\u{2193} select \u{b7} Esc close"@, theme)
}

/// The workflow view: the compiled nodes, grouped by workflow, and the focused one.
pub open spec fn workflow_view(state: AppState, theme: Theme) -> PopupModel {
    browser(
        86,
        " Workflow ("@ + crate::text::decimal(state.workflow@.len()) + " node(s)) "@,
        44,
        node_rows(state, theme),
        56,
        only_rail(node_detail(state, theme), theme),
        theme,
    )
}

/// The workflow view: the compiled nodes, grouped by workflow, and the focused one.
pub fn render_workflow(state: &AppState, theme: &Theme) -> (r: Popup)
    ensures
        r@ == workflow_view(*state, *theme),
{
    let title: String = crate::tui::panes::counted(" Workflow (", state.workflow.len(), " node(s)) ");
    let mut lines: Vec<Line> = crate::tui::view::no_lines();
    match state.focused_node() {
        Some(x) => {
            crate::tui::view::add_lines(&mut lines, fields_of_node(x, theme));
        },
        None => {
            crate::tui::view::add_line(&mut lines, crate::tui::panes::muted_line("  no node selected", theme));
        },
    }
    add_footer(&mut lines, "  \u{2191}/\u{2193} select \u{b7} Esc close", theme);
    proof {
        assert(crate::tui::view::line_models(lines@) =~= node_detail(*state, *theme));
    }
    Popup {
        width: 86,
        height: 86,
        block: browser_block(title.as_str(), theme),
        body: Body::Browser {
            list: 44,
            rows: rows_of_nodes(state, theme),
            detail: 56,
            rails: rail_list(lines, theme),
        },
    }
}

/// Whether the item at `i` begins a run's board: it is the first, or the one before belongs
/// to another.
pub open spec fn begins_board(items: Seq<BlackboardItemCard>, i: int) -> bool {
    i == 0 || items[i - 1].run@ != items[i].run@
}

/// An item's row: its run where it begins one, its kind, dimmed and marked where it was
/// superseded, and its summary.
pub open spec fn item_row(card: BlackboardItemCard, begins: bool, selected: bool, theme: Theme) -> RowModel {
    RowModel {
        lines: group_lines(card.run@, begins, theme) + seq![
            crate::tui::view::spanned(
                seq![
                    crate::tui::view::words(crate::tui::panes::pointer(selected), crate::tui::view::colored(theme.focus.active)),
                    crate::tui::view::words(
                        crate::tui::view::clipped(card.kind@, 16),
                        crate::tui::view::colored(
                            if card.superseded {
                                theme.text.muted
                            } else {
                                theme.status.info
                            },
                        ),
                    ),
                    if card.superseded {
                        crate::tui::view::words(" (superseded)"@, crate::tui::view::colored(theme.text.muted))
                    } else {
                        crate::tui::view::words(""@, crate::tui::view::unstyled())
                    },
                ],
            ),
            crate::tui::panes::muted("    "@ + crate::tui::view::clipped(card.summary@, 34), theme),
        ],
        style: crate::tui::panes::row_style(selected, theme),
    }
}

fn row_of_item(card: &BlackboardItemCard, begins: bool, selected: bool, theme: &Theme) -> (r: Row)
    ensures
        r@ == item_row(*card, begins, selected, *theme),
{
    let kind: String = crate::tui::view::truncate(card.kind.as_str(), 16);
    let summary: String = crate::tui::view::truncate(card.summary.as_str(), 34);
    let said: String = crate::text::concat2("    ", summary.as_str());
    let color: Color = if card.superseded {
        theme.text.muted
    } else {
        theme.status.info
    };
    let mark: Span = if card.superseded {
        crate::tui::view::span(" (superseded)", crate::tui::view::in_color(theme.text.muted))
    } else {
        crate::tui::view::span("", crate::tui::view::no_style())
    };
    let mut lines: Vec<Line> = crate::tui::view::no_lines();
    if begins {
        crate::tui::view::add_line(&mut lines, line_of_title(card.run.as_str(), theme));
    }
    crate::tui::view::add_line(
        &mut lines,
        crate::tui::view::line3(
            crate::tui::view::span(crate::tui::panes::marker(selected), crate::tui::view::in_color(theme.focus.active)),
            crate::tui::view::span(kind.as_str(), crate::tui::view::in_color(color)),
            mark,
        ),
    );
    crate::tui::view::add_line(&mut lines, crate::tui::panes::muted_line(said.as_str(), theme));
    let r = Row { lines, style: crate::tui::panes::style_of_row(selected, theme) };
    proof {
        assert(r@.lines =~= item_row(*card, begins, selected, *theme).lines);
    }
    r
}

/// The rows of the artifact list.
pub open spec fn item_rows(state: AppState, theme: Theme) -> Seq<RowModel> {
    if state.blackboard@.len() == 0 {
        seq![crate::tui::panes::placeholder("  no blackboard artifacts on the active runs"@, theme)]
    } else {
        Seq::new(
            state.blackboard@.len(),
            |i: int| 
                item_row(
                    state.blackboard@[i],
                    begins_board(state.blackboard@, i),
                    i == state.selected_item,
                    theme,
                ),
        )
    }
}

fn rows_of_items(state: &AppState, theme: &Theme) -> (r: Vec<Row>)
    ensures
        crate::tui::view::row_models(r@) == item_rows(*state, *theme),
{
    let ghost all = item_rows(*state, *theme);
    let mut r: Vec<Row> = crate::tui::view::no_rows();
    if state.blackboard.len() == 0 {
        crate::tui::view::add_row(&mut r, crate::tui::panes::placeholder_row("  no blackboard artifacts on the active runs", theme));
        return r;
    }
    let mut i: usize = 0;
    proof {
        assert(all.take(0) =~= Seq::<RowModel>::empty());
    }
    while i < state.blackboard.len()
        invariant
            i <= state.blackboard@.len(),
            state.blackboard@.len() > 0,
            all == item_rows(*state, *theme),
            crate::tui::view::row_models(r@) == all.take(i as int),
        decreases state.blackboard@.len() - i,
    {
        let selected: bool = i == state.selected_item;
        let begins: bool = i == 0 || !crate::text::same_text(
            state.blackboard[i - 1].run.as_str(),
            state.blackboard[i].run.as_str(),
        );
        crate::tui::view::add_row(&mut r, row_of_item(&state.blackboard[i], begins, selected, theme));
        proof {
            assert(all.take(i + 1) =~= all.take(i as int).push(all[i as int]));
        }
        i = i + 1;
    }
    proof {
        assert(all.take(all.len() as int) =~= all);
    }
    r
}

/// Lines of a summary, indented.
pub open spec fn payload_lines(summary: Seq<char>, theme: Theme) -> Seq<LineModel> {
    let list = crate::tui::summary::summary_list(summary);
    Seq::new(
        list.len(),
        |i: int| crate::tui::view::styled("  "@ + list[i], crate::tui::view::colored(theme.text.secondary)),
    )
}

/// An artifact: its kind and revision, who stands for it, and its payload.
pub open spec fn item_fields(card: BlackboardItemCard, theme: Theme) -> Seq<LineModel> {
    seq![
        crate::tui::panes::section_line("Artifact"@, theme),
        crate::tui::panes::field_line("run"@, card.run@, theme.text.secondary, theme),
        crate::tui::panes::field_line("kind"@, card.kind@, theme.status.info, theme),
        crate::tui::panes::field_line("revision"@, card.revision@, theme.text.secondary, theme),
    ] + (if card.superseded {
        seq![crate::tui::panes::field_line("status"@, "superseded"@, theme.text.muted, theme)]
    } else {
        Seq::<LineModel>::empty()
    }) + seq![
        crate::tui::view::blank_line(),
        crate::tui::panes::section_line("Provenance"@, theme),
        crate::tui::panes::field_line("author"@, card.author@, theme.text.primary, theme),
        crate::tui::panes::field_line("confidence"@, card.confidence@, theme.text.secondary, theme),
        crate::tui::panes::field_line("evidence"@, card.evidence@, theme.text.secondary, theme),
        crate::tui::view::blank_line(),
        crate::tui::panes::section_line("Payload"@, theme),
    ] + payload_lines(card.summary@, theme)
}

fn lines_of_payload(summary: &String, theme: &Theme) -> (r: Vec<Line>)
    ensures
        crate::tui::view::line_models(r@) == payload_lines(summary@, *theme),
{
    let parts: Vec<String> = crate::tui::summary::textwrap_summary(summary.as_str());
    let ghost list = crate::tui::summary::summary_list(summary@);
    let ghost all = payload_lines(summary@, *theme);
    let mut r: Vec<Line> = crate::tui::view::no_lines();
    let mut i: usize = 0;
    proof {
        assert(all.take(0) =~= Seq::<LineModel>::empty());
    }
    while i < parts.len()
        invariant
            i <= parts@.len(),
            crate::text::texts(parts@) == list,
            list == crate::tui::summary::summary_list(summary@),
            all == payload_lines(summary@, *theme),
            crate::tui::view::line_models(r@) == all.take(i as int),
        decreases parts@.len() - i,
    {
        proof {
            assert(list[i as int] == parts@[i as int]@);
            assert(all.take(i + 1) =~= all.take(i as int).push(all[i as int]));
        }
        let text: String = crate::text::concat2("  ", parts[i].as_str());
        crate::tui::view::add_line(
            &mut r,
            crate::tui::view::text_line(text.as_str(), crate::tui::view::in_color(theme.text.secondary)),
        );
        i = i + 1;
    }
    proof {
        assert(all.take(all.len() as int) =~= all);
    }
    r
}

fn fields_of_item(card: &BlackboardItemCard, theme: &Theme) -> (r: Vec<Line>)
    ensures
        crate::tui::view::line_models(r@) == item_fields(*card, *theme),
{
    let mut r: Vec<Line> = crate::tui::view::no_lines();
    crate::tui::view::add_line(&mut r, crate::tui::panes::section("Artifact", theme));
    crate::tui::view::add_line(&mut r, crate::tui::panes::field("run", card.run.as_str(), theme.text.secondary, theme));
    crate::tui::view::add_line(&mut r, crate::tui::panes::field("kind", card.kind.as_str(), theme.status.info, theme));
    crate::tui::view::add_line(&mut r, crate::tui::panes::field("revision", card.revision.as_str(), theme.text.secondary, theme));
    if card.superseded {
        crate::tui::view::add_line(&mut r, crate::tui::panes::field("status", "superseded", theme.text.muted, theme));
    }
    crate::tui::view::add_line(&mut r, crate::tui::view::empty_line());
    crate::tui::view::add_line(&mut r, crate::tui::panes::section("Provenance", theme));
    crate::tui::view::add_line(&mut r, crate::tui::panes::field("author", card.author.as_str(), theme.text.primary, theme));
    crate::tui::view::add_line(&mut r, crate::tui::panes::field("confidence", card.confidence.as_str(), theme.text.secondary, theme));
    crate::tui::view::add_line(&mut r, crate::tui::panes::field("evidence", card.evidence.as_str(), theme.text.secondary, theme));
    crate::tui::view::add_line(&mut r, crate::tui::view::empty_line());
    crate::tui::view::add_line(&mut r, crate::tui::panes::section("Payload", theme));
    crate::tui::view::add_lines(&mut r, lines_of_payload(&card.summary, theme));
    proof {
        assert(crate::tui::view::line_models(r@) =~= item_fields(*card, *theme));
    }
    r
}

/// The detail of the focused artifact.
pub open spec fn item_detail(state: AppState, theme: Theme) -> Seq<LineModel> {
    (match crate::tui::state::at(state.blackboard@, state.selected_item) {
        Some(x) => item_fields(x, theme),
        None => seq![crate::tui::panes::muted("  no artifact selected"@, theme)],
    }) + footer("  \u{2191}/\u{2193} select \u{b7} Esc close"@, theme)
}

/// The blackboard view: the artifacts, grouped by run, and the focused one with its provenance.
pub open spec fn blackboard_view(state: AppState, theme: Theme) -> PopupModel {
    browser(
        86,
        " Blackboard ("@ + crate::text::decimal(state.blackboard@.len()) + " item(s)) "@,
        44,
        item_rows(state, theme),
        56,
        only_rail(item_detail(state, theme), theme),
        theme,
    )
}

/// The blackboard view: the artifacts, grouped by run, and the focused one with its provenance.
pub fn render_blackboard(state: &AppState, theme: &Theme) -> (r: Popup)
    ensures
        r@ == blackboard_view(*state, *theme),
{
    let title: String = crate::tui::panes::counted(" Blackboard (", state.blackboard.len(), " item(s)) ");
    let mut lines: Vec<Line> = crate::tui::view::no_lines();
    match state.focused_item() {
        Some(x) => {
            crate::tui::view::add_lines(&mut lines, fields_of_item(x, theme));
        },
        None => {
            crate::tui::view::add_line(&mut lines, crate::tui::panes::muted_line("  no artifact selected", theme));
        },
    }
    add_footer(&mut lines, "  \u{2191}/\u{2193} select \u{b7} Esc close", theme);
    proof {
        assert(crate::tui::view::line_models(lines@) =~= item_detail(*state, *theme));
    }
    Popup {
        width: 86,
        height: 86,
        block: browser_block(title.as_str(), theme),
        body: Body::Browser {
            list: 44,
            rows: rows_of_items(state, theme),
            detail: 56,
            rails: rail_list(lines, theme),
        },
    }
}

} // verus!
