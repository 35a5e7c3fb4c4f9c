//! What the browsers show.
use crate::tui::browsers::{
    blackboard_view, docs_view, edges_view, memory_view, skills_view, workflow_view,
};
use crate::tui::state::{AppState, DocCard, DocFocus, DocLeaseState, DocSuggestionView};
use crate::tui::theme::Theme;
use crate::tui::view::{BodyModel, LineModel, PopupModel, RowModel};
use crate::tui::view_laws::{reads, span_texts, told};
use vstd::prelude::*;

verus! {

/// The rows of a list.
pub open spec fn list_of(popup: PopupModel) -> Seq<RowModel> {
    match popup.body {
        BodyModel::Browser { list, rows, detail, rails } => rows,
        BodyModel::Menu { head, rows } => rows,
        BodyModel::Text(lines) => Seq::<RowModel>::empty(),
    }
}

/// The lines of the rail at `k`.
pub open spec fn rail_of(popup: PopupModel, k: int) -> Seq<LineModel> {
    match popup.body {
        BodyModel::Browser { list, rows, detail, rails } => rails[k].lines,
        _ => Seq::<LineModel>::empty(),
    }
}

/// Whether one of the lines gives the value of the named field, all of it.
pub open spec fn names(lines: Seq<LineModel>, name: Seq<char>, value: Seq<char>) -> bool {
    exists|i: int|
        0 <= i < lines.len() && span_texts(#[trigger] lines[i]) == seq!["  "@ + name + ": "@, value]
}

proof fn lemma_names(lines: Seq<LineModel>, i: int, name: Seq<char>, value: Seq<char>)
    requires
        0 <= i < lines.len(),
        lines[i].spans.len() == 2,
        lines[i].spans[0].text == "  "@ + name + ": "@,
        lines[i].spans[1].text == value,
    ensures
        names(lines, name, value),
{
    assert(span_texts(lines[i]) =~= seq!["  "@ + name + ": "@, value]);
}

proof fn lemma_told(lines: Seq<LineModel>, i: int, text: Seq<char>)
    requires
        0 <= i < lines.len(),
        lines[i] == crate::tui::view::styled(text, lines[i].style),
    ensures
        told(lines, text),
        reads(lines[i], text),
{
    crate::tui::view_laws::law_a_styled_line_says_its_text(text, lines[i].style);
}

/// Whether a row of two lines shows a name behind the pointer, which points where the row is
/// selected, and below it what is said of the name.
pub open spec fn shows_card(
    row: RowModel,
    name: Seq<char>,
    below: Seq<char>,
    selected: bool,
    theme: Theme,
) -> bool {
    &&& row.lines.len() == 2
    &&& span_texts(row.lines[0]) == seq![
        if selected {
            "\u{203a} "@
        } else {
            "  "@
        },
        name,
    ]
    &&& reads(row.lines[1], below)
    &&& selected ==> row.style == theme.selected()
    &&& !selected ==> row.style == crate::tui::view::unstyled()
}

proof fn lemma_card(row: RowModel, name: Seq<char>, below: Seq<char>, selected: bool, theme: Theme)
    requires
        row.lines.len() == 2,
        row.lines[0].spans.len() == 2,
        row.lines[0].spans[0].text == crate::tui::panes::pointer(selected),
        row.lines[0].spans[1].text == name,
        row.lines[1] == crate::tui::panes::muted(below, theme),
        row.style == crate::tui::panes::row_style(selected, theme),
    ensures
        shows_card(row, name, below, selected, theme),
{
    assert(span_texts(row.lines[0]) =~= seq![crate::tui::panes::pointer(selected), name]);
    crate::tui::view_laws::law_a_styled_line_says_its_text(below, row.lines[1].style);
}

/// Every skill has a row, in order, with its name, and its scope, trust and status; only the
/// selected one is highlighted.
pub proof fn law_every_skill_is_listed(state: AppState, theme: Theme, i: int)
    ensures
        ({
            let rows = list_of(skills_view(state, theme));
            &&& state.skills@.len() > 0 ==> rows.len() == state.skills@.len()
            &&& state.skills@.len() == 0 ==> rows.len() == 1 && rows[0].lines.len() == 1 && reads(
                rows[0].lines[0],
                "  no skills registered"@,
            )
            &&& 0 <= i < state.skills@.len() ==> shows_card(
                rows[i],
                crate::tui::view::clipped(state.skills@[i].name@, 26),
                "    "@ + state.skills@[i].scope@ + " \u{b7} "@ + state.skills@[i].trust@ + " \u{b7} "@
                    + state.skills@[i].status@,
                i == state.selected_skill,
                theme,
            )
        }),
{
    let rows = list_of(skills_view(state, theme));
    if state.skills@.len() == 0 {
        lemma_told(rows[0].lines, 0, "  no skills registered"@);
    }
    if 0 <= i < state.skills@.len() {
        lemma_card(
            rows[i],
            crate::tui::view::clipped(state.skills@[i].name@, 26),
            "    "@ + state.skills@[i].scope@ + " \u{b7} "@ + state.skills@[i].trust@ + " \u{b7} "@
                    + state.skills@[i].status@,
            i == state.selected_skill,
            theme,
        );
    }
}

/// Every memory has a row, in order, with what is remembered, and its class and scope; only the
/// selected one is highlighted.
pub proof fn law_every_memory_is_listed(state: AppState, theme: Theme, source_open: bool, i: int)
    ensures
        ({
            let rows = list_of(memory_view(state, theme, source_open));
            &&& state.memories@.len() > 0 ==> rows.len() == state.memories@.len()
            &&& state.memories@.len() == 0 ==> rows.len() == 1 && rows[0].lines.len() == 1 && reads(
                rows[0].lines[0],
                "  no memories in scope"@,
            )
            &&& 0 <= i < state.memories@.len() ==> shows_card(
                rows[i],
                crate::tui::view::clipped(state.memories@[i].statement@, 26),
                "    "@ + state.memories@[i].class@ + " \u{b7} "@ + state.memories@[i].scope@,
                i == state.selected_memory,
                theme,
            )
        }),
{
    let rows = list_of(memory_view(state, theme, source_open));
    if state.memories@.len() == 0 {
        lemma_told(rows[0].lines, 0, "  no memories in scope"@);
    }
    if 0 <= i < state.memories@.len() {
        lemma_card(
            rows[i],
            crate::tui::view::clipped(state.memories@[i].statement@, 26),
            "    "@ + state.memories@[i].class@ + " \u{b7} "@ + state.memories@[i].scope@,
            i == state.selected_memory,
            theme,
        );
    }
}

/// Every document has a row, in order, with its title, and its scope, status and mode; only the
/// selected one is highlighted.
pub proof fn law_every_document_is_listed(state: AppState, theme: Theme, i: int)
    ensures
        ({
            let rows = list_of(docs_view(state, theme));
            &&& state.docs@.len() > 0 ==> rows.len() == state.docs@.len()
            &&& state.docs@.len() == 0 ==> rows.len() == 1 && rows[0].lines.len() == 1 && reads(
                rows[0].lines[0],
                "  no documents in scope"@,
            )
            &&& 0 <= i < state.docs@.len() ==> shows_card(
                rows[i],
                crate::tui::view::clipped(state.docs@[i].title@, 28),
                "    "@ + state.docs@[i].scope@ + " \u{b7} "@ + state.docs@[i].status@ + " \u{b7} "@
                    + state.docs@[i].mode@,
                i == state.selected_doc,
                theme,
            )
        }),
{
    let rows = list_of(docs_view(state, theme));
    if state.docs@.len() == 0 {
        lemma_told(rows[0].lines, 0, "  no documents in scope"@);
    }
    if 0 <= i < state.docs@.len() {
        lemma_card(
            rows[i],
            crate::tui::view::clipped(state.docs@[i].title@, 28),
            "    "@ + state.docs@[i].scope@ + " \u{b7} "@ + state.docs@[i].status@ + " \u{b7} "@
                    + state.docs@[i].mode@,
            i == state.selected_doc,
            theme,
        );
    }
}

/// Every edge has a row, in order, with its relation, and what it relates; only the selected one is
/// highlighted.
pub proof fn law_every_edge_is_listed(state: AppState, theme: Theme, i: int)
    ensures
        ({
            let rows = list_of(edges_view(state, theme));
            &&& state.edges@.len() > 0 ==> rows.len() == state.edges@.len()
            &&& state.edges@.len() == 0 ==> rows.len() == 1 && rows[0].lines.len() == 1 && reads(
                rows[0].lines[0],
                "  no edges in this repository"@,
            )
            &&& 0 <= i < state.edges@.len() ==> shows_card(
                rows[i],
                crate::tui::view::clipped(state.edges@[i].relation@, 14),
                "    "@ + crate::tui::view::clipped(state.edges@[i].from@, 16) + " \u{2192} "@ + crate::tui::view::clipped(
                    state.edges@[i].to@,
                    16,
                ),
                i == state.selected_edge,
                theme,
            )
        }),
{
    let rows = list_of(edges_view(state, theme));
    if state.edges@.len() == 0 {
        lemma_told(rows[0].lines, 0, "  no edges in this repository"@);
    }
    if 0 <= i < state.edges@.len() {
        lemma_card(
            rows[i],
            crate::tui::view::clipped(state.edges@[i].relation@, 14),
            "    "@ + crate::tui::view::clipped(state.edges@[i].from@, 16) + " \u{2192} "@ + crate::tui::view::clipped(
                    state.edges@[i].to@,
                    16,
                ),
            i == state.selected_edge,
            theme,
        );
    }
}

/// The selected skill is told in full: its name and kind, its scope, trust, status and risk, and its
/// description.
pub proof fn law_the_selected_skill_is_told(state: AppState, theme: Theme)
    requires
        state.selected_skill < state.skills@.len(),
    ensures
        ({
            let skill = state.skills@[state.selected_skill as int];
            let lines = rail_of(skills_view(state, theme), 0);
            &&& told(lines, skill.name@ + " \u{2014} "@ + skill.kind@)
            &&& told(lines, "  "@ + skill.description@)
            &&& names(lines, "scope"@, skill.scope@)
            &&& names(lines, "trust"@, skill.trust@)
            &&& names(lines, "status"@, skill.status@)
            &&& names(lines, "risk"@, skill.risk@)
        }),
{
    let skill = state.skills@[state.selected_skill as int];
    let lines = rail_of(skills_view(state, theme), 0);
    lemma_told(lines, 0, skill.name@ + " \u{2014} "@ + skill.kind@);
    lemma_told(lines, 7, "  "@ + skill.description@);
    lemma_names(lines, 1, "scope"@, skill.scope@);
    lemma_names(lines, 2, "trust"@, skill.trust@);
    lemma_names(lines, 3, "status"@, skill.status@);
    lemma_names(lines, 4, "risk"@, skill.risk@);
}

/// Everything that the selected skill asks to be allowed is listed, a line each, verbatim; one that
/// asks for nothing is said to.
pub proof fn law_every_permission_is_listed(state: AppState, theme: Theme, i: int)
    requires
        state.selected_skill < state.skills@.len(),
    ensures
        ({
            let skill = state.skills@[state.selected_skill as int];
            let lines = rail_of(skills_view(state, theme), 0);
            &&& 0 <= i < skill.permissions@.len() ==> span_texts(lines[10 + i]) == seq![
                "  \u{2022} "@,
                skill.permissions@[i]@,
            ]
            &&& skill.permissions@.len() == 0 ==> told(lines, "  (no permissions requested)"@)
        }),
{
    let skill = state.skills@[state.selected_skill as int];
    let lines = rail_of(skills_view(state, theme), 0);
    if 0 <= i < skill.permissions@.len() {
        assert(span_texts(lines[10 + i]) =~= seq!["  \u{2022} "@, skill.permissions@[i]@]);
    }
    if skill.permissions@.len() == 0 {
        lemma_told(lines, 10, "  (no permissions requested)"@);
    }
}

/// The selected memory is told with where it comes from: the fact, the source, the revision, when it
/// was observed, the scope and the confidence.
pub proof fn law_the_selected_memory_is_told(state: AppState, theme: Theme, source_open: bool)
    requires
        state.selected_memory < state.memories@.len(),
    ensures
        ({
            let memory = state.memories@[state.selected_memory as int];
            let lines = rail_of(memory_view(state, theme, source_open), 0);
            &&& source_open ==> told(lines, "    "@ + memory.source@)
            &&& !source_open ==> told(lines, "  [o] open source"@)
            &&& names(lines, "Fact"@, memory.statement@)
            &&& names(lines, "Source"@, memory.source@)
            &&& names(lines, "Revision"@, memory.revision@)
            &&& names(lines, "Observed"@, memory.observed@)
            &&& names(lines, "Scope"@, memory.scope@)
            &&& names(lines, "Confidence"@, memory.confidence.shown@)
        }),
{
    let memory = state.memories@[state.selected_memory as int];
    let lines = rail_of(memory_view(state, theme, source_open), 0);
    if source_open {
        lemma_told(lines, 9, "    "@ + memory.source@);
    } else {
        lemma_told(lines, 8, "  [o] open source"@);
    }
    lemma_names(lines, 1, "Fact"@, memory.statement@);
    lemma_names(lines, 2, "Source"@, memory.source@);
    lemma_names(lines, 3, "Revision"@, memory.revision@);
    lemma_names(lines, 4, "Observed"@, memory.observed@);
    lemma_names(lines, 5, "Scope"@, memory.scope@);
    lemma_names(lines, 6, "Confidence"@, memory.confidence.shown@);
}

/// The selected edge is told with its evidence: what it relates and how, how sure it is, and the
/// kind, source and revision of what stands for it.
pub proof fn law_the_selected_edge_is_told(state: AppState, theme: Theme)
    requires
        state.selected_edge < state.edges@.len(),
    ensures
        ({
            let edge = state.edges@[state.selected_edge as int];
            let lines = rail_of(edges_view(state, theme), 0);
            &&& names(lines, "from"@, edge.from@)
            &&& names(lines, "to"@, edge.to@)
            &&& names(lines, "relation"@, edge.relation@)
            &&& names(lines, "confidence"@, edge.confidence.shown@)
            &&& names(lines, "kind"@, edge.evidence_kind@)
            &&& names(lines, "source"@, edge.evidence@)
            &&& names(lines, "revision"@, edge.revision@)
        }),
{
    let edge = state.edges@[state.selected_edge as int];
    let lines = rail_of(edges_view(state, theme), 0);
    lemma_names(lines, 1, "from"@, edge.from@);
    lemma_names(lines, 2, "to"@, edge.to@);
    lemma_names(lines, 3, "relation"@, edge.relation@);
    lemma_names(lines, 4, "confidence"@, edge.confidence.shown@);
    lemma_names(lines, 7, "kind"@, edge.evidence_kind@);
    lemma_names(lines, 8, "source"@, edge.evidence@);
    lemma_names(lines, 9, "revision"@, edge.revision@);
}

/// The selected node is told in full: where it stands, what it does, how it runs, what it cost and
/// what went wrong, and what it depends on and yields.
pub proof fn law_the_selected_node_is_told(state: AppState, theme: Theme)
    requires
        state.selected_node < state.workflow@.len(),
    ensures
        ({
            let node = state.workflow@[state.selected_node as int];
            let lines = rail_of(workflow_view(state, theme), 0);
            &&& names(lines, "workflow"@, node.workflow@)
            &&& names(lines, "id"@, node.id@)
            &&& names(lines, "state"@, node.state@)
            &&& names(lines, "action"@, node.action@)
            &&& names(lines, "agent"@, node.agent@)
            &&& names(lines, "model policy"@, node.model_policy@)
            &&& names(lines, "worktree"@, node.workspace@)
            &&& names(lines, "approval"@, node.approval@)
            &&& names(lines, "retry"@, node.retry@)
            &&& names(lines, "cost"@, node.cost@)
            &&& names(lines, "error"@, node.error@)
            &&& names(lines, "depends on"@, node.depends_on@)
            &&& names(lines, "outputs"@, node.outputs@)
        }),
{
    let node = state.workflow@[state.selected_node as int];
    let lines = rail_of(workflow_view(state, theme), 0);
    lemma_names(lines, 1, "workflow"@, node.workflow@);
    lemma_names(lines, 2, "id"@, node.id@);
    lemma_names(lines, 3, "state"@, node.state@);
    lemma_names(lines, 6, "action"@, node.action@);
    lemma_names(lines, 7, "agent"@, node.agent@);
    lemma_names(lines, 8, "model policy"@, node.model_policy@);
    lemma_names(lines, 11, "worktree"@, node.workspace@);
    lemma_names(lines, 12, "approval"@, node.approval@);
    lemma_names(lines, 13, "retry"@, node.retry@);
    lemma_names(lines, 14, "cost"@, node.cost@);
    lemma_names(lines, 15, "error"@, node.error@);
    lemma_names(lines, 18, "depends on"@, node.depends_on@);
    lemma_names(lines, 19, "outputs"@, node.outputs@);
}

/// The selected artifact is told with who stands for it: its run, kind and revision, its author,
/// confidence and evidence; one that was superseded is said to be, and no other.
pub proof fn law_the_selected_artifact_is_told(state: AppState, theme: Theme)
    requires
        state.selected_item < state.blackboard@.len(),
    ensures
        ({
            let card = state.blackboard@[state.selected_item as int];
            let lines = rail_of(blackboard_view(state, theme), 0);
            &&& card.superseded ==> names(lines, "status"@, "superseded"@)
            &&& !card.superseded ==> lines[4].spans.len() == 0
            &&& names(lines, "run"@, card.run@)
            &&& names(lines, "kind"@, card.kind@)
            &&& names(lines, "revision"@, card.revision@)
            &&& names(lines, "author"@, card.author@)
            &&& names(lines, "confidence"@, card.confidence@)
            &&& names(lines, "evidence"@, card.evidence@)
        }),
{
    let card = state.blackboard@[state.selected_item as int];
    let lines = rail_of(blackboard_view(state, theme), 0);
    let more: int = if card.superseded {
        1
    } else {
        0
    };
    if card.superseded {
        lemma_names(lines, 4, "status"@, "superseded"@);
    }
    lemma_names(lines, 1, "run"@, card.run@);
    lemma_names(lines, 2, "kind"@, card.kind@);
    lemma_names(lines, 3, "revision"@, card.revision@);
    lemma_names(lines, 6 + more, "author"@, card.author@);
    lemma_names(lines, 7 + more, "confidence"@, card.confidence@);
    lemma_names(lines, 8 + more, "evidence"@, card.evidence@);
}

/// The payload of the selected artifact is shown: every line that its summary is wrapped to, in
/// order, indented.
pub proof fn law_the_payload_is_shown(state: AppState, theme: Theme, i: int)
    requires
        state.selected_item < state.blackboard@.len(),
        0 <= i < crate::tui::summary::summary_list(
            state.blackboard@[state.selected_item as int].summary@,
        ).len(),
    ensures
        ({
            let card = state.blackboard@[state.selected_item as int];
            let lines = rail_of(blackboard_view(state, theme), 0);
            let list = crate::tui::summary::summary_list(card.summary@);
            &&& lines.len() == (if card.superseded {
                14
            } else {
                13int
            }) + list.len()
            &&& reads(lines[lines.len() - 2 - list.len() + i], "  "@ + list[i])
        }),
{
    let card = state.blackboard@[state.selected_item as int];
    let lines = rail_of(blackboard_view(state, theme), 0);
    let list = crate::tui::summary::summary_list(card.summary@);
    assert(lines.len() == (if card.superseded {
        14
    } else {
        13int
    }) + list.len());
    let at = lines.len() - 2 - list.len() + i;
    assert(lines[at] == crate::tui::browsers::payload_lines(card.summary@, theme)[i]);
    lemma_told(lines, at, "  "@ + list[i]);
}

/// Every node has a row, in the order of the graph: below the name of its workflow, where it is the
/// first of it, its own name and state, and what it does.
pub proof fn law_every_node_is_listed(state: AppState, theme: Theme, i: int)
    requires
        0 <= i < state.workflow@.len(),
    ensures
        ({
            let rows = list_of(workflow_view(state, theme));
            let node = state.workflow@[i];
            let first = i == 0 || state.workflow@[i - 1].workflow@ != node.workflow@;
            let lines = rows[i].lines;
            let n = lines.len() as int;
            &&& rows.len() == state.workflow@.len()
            &&& first ==> n == 3 && reads(lines[0], node.workflow@)
            &&& !first ==> n == 2
            &&& span_texts(lines[n - 2]) == seq![
                if i == state.selected_node {
                    "\u{203a} "@
                } else {
                    "  "@
                },
                crate::tui::view::clipped(node.id@, 20),
                "  "@,
                node.state@,
            ]
            &&& reads(lines[n - 1], "    "@ + crate::tui::view::clipped(node.action@, 34))
        }),
{
    let rows = list_of(workflow_view(state, theme));
    let node = state.workflow@[i];
    let lines = rows[i].lines;
    let n = lines.len() as int;
    if n == 3 {
        lemma_told(lines, 0, node.workflow@);
    }
    assert(span_texts(lines[n - 2]) =~= seq![
        crate::tui::panes::pointer(i == state.selected_node),
        crate::tui::view::clipped(node.id@, 20),
        "  "@,
        node.state@,
    ]);
    lemma_told(lines, n - 1, "    "@ + crate::tui::view::clipped(node.action@, 34));
}

/// Every artifact has a row, in order: below the name of its run, where it is the first of it, its
/// kind, marked where it was superseded and only there, and its summary.
pub proof fn law_every_artifact_is_listed(state: AppState, theme: Theme, i: int)
    requires
        0 <= i < state.blackboard@.len(),
    ensures
        ({
            let rows = list_of(blackboard_view(state, theme));
            let card = state.blackboard@[i];
            let first = i == 0 || state.blackboard@[i - 1].run@ != card.run@;
            let lines = rows[i].lines;
            let n = lines.len() as int;
            &&& rows.len() == state.blackboard@.len()
            &&& first ==> n == 3 && reads(lines[0], card.run@)
            &&& !first ==> n == 2
            &&& span_texts(lines[n - 2]) == seq![
                if i == state.selected_item {
                    "\u{203a} "@
                } else {
                    "  "@
                },
                crate::tui::view::clipped(card.kind@, 16),
                if card.superseded {
                    " (superseded)"@
                } else {
                    ""@
                },
            ]
            &&& reads(lines[n - 1], "    "@ + crate::tui::view::clipped(card.summary@, 34))
        }),
{
    let rows = list_of(blackboard_view(state, theme));
    let card = state.blackboard@[i];
    let lines = rows[i].lines;
    let n = lines.len() as int;
    if n == 3 {
        lemma_told(lines, 0, card.run@);
    }
    assert(span_texts(lines[n - 2]) =~= seq![
        crate::tui::panes::pointer(i == state.selected_item),
        crate::tui::view::clipped(card.kind@, 16),
        if card.superseded {
            " (superseded)"@
        } else {
            ""@
        },
    ]);
    lemma_told(lines, n - 1, "    "@ + crate::tui::view::clipped(card.summary@, 34));
}

/// The blocks of the selected document are shown, all of them and in order, each with its kind; the
/// pointer is at the selected one while the editor has the focus.
pub proof fn law_every_block_is_shown(state: AppState, theme: Theme, i: int)
    requires
        state.selected_doc < state.docs@.len(),
    ensures
        ({
            let doc = state.docs@[state.selected_doc as int];
            let lines = rail_of(docs_view(state, theme), 0);
            &&& reads(lines[0], doc.title@ + " ("@ + doc.revision@ + ")"@)
            &&& doc.blocks@.len() > 0 ==> lines.len() == 2 + doc.blocks@.len()
            &&& doc.blocks@.len() == 0 ==> told(lines, "  (empty document)"@)
            &&& 0 <= i < doc.blocks@.len() ==> span_texts(lines[2 + i]) == seq![
                (if state.doc_focus is Editor && i == state.selected_block {
                    "\u{203a} "@
                } else {
                    "  "@
                }) + crate::tui::view::widened(doc.blocks@[i].kind@, 10),
                crate::tui::view::clipped(doc.blocks@[i].text@, 58),
            ]
        }),
{
    let doc = state.docs@[state.selected_doc as int];
    let lines = rail_of(docs_view(state, theme), 0);
    lemma_told(lines, 0, doc.title@ + " ("@ + doc.revision@ + ")"@);
    if doc.blocks@.len() == 0 {
        lemma_told(lines, 2, "  (empty document)"@);
    }
    if 0 <= i < doc.blocks@.len() {
        assert(span_texts(lines[2 + i]) =~= seq![
            crate::tui::panes::pointer(state.doc_focus is Editor && i == state.selected_block)
                + crate::tui::view::widened(doc.blocks@[i].kind@, 10),
            crate::tui::view::clipped(doc.blocks@[i].text@, 58),
        ]);
    }
}

/// The editor's heading says where the edit lease stands: that it is held, being acquired or
/// blocked by another writer, or nothing where nothing is edited.
pub proof fn law_the_lease_is_shown(state: AppState, theme: Theme)
    requires
        state.selected_doc < state.docs@.len(),
    ensures
        ({
            let line = rail_of(docs_view(state, theme), 0)[1];
            &&& line.spans.len() == 3
            &&& line.spans[2].text == match state.doc_edit {
                Some(edit) => match edit.lease {
                    DocLeaseState::Held => "  lease: held"@,
                    DocLeaseState::Acquiring => "  lease: acquiring\u{2026}"@,
                    DocLeaseState::Blocked => "  lease: blocked (another writer)"@,
                },
                None => ""@,
            }
            &&& state.doc_edit matches Some(edit) ==> (edit.lease is Blocked
                ==> line.spans[2].style.fg == Some(theme.status.error))
            &&& line.spans[1].text == if state.doc_focus is Editor {
                "  [focused]"@
            } else {
                ""@
            }
        }),
{
}

proof fn lemma_suggestions(
    state: AppState,
    doc: DocCard,
    n: int,
    theme: Theme,
    i: int,
) -> (at: int)
    requires
        0 <= i < n <= doc.suggestions@.len(),
    ensures
        ({
            let all = crate::tui::browsers::suggestions_view(state, doc, n, theme);
            let part = crate::tui::browsers::suggestion_lines(
                doc.suggestions@[i],
                state.doc_focus == DocFocus::Review && i == state.selected_suggestion,
                theme,
            );
            &&& 0 <= at
            &&& at + part.len() <= all.len()
            &&& forall|k: int| 0 <= k < part.len() ==> #[trigger] all[at + k] == part[k]
        }),
    decreases n,
{
    let front = crate::tui::browsers::suggestions_view(state, doc, n - 1, theme);
    if i == n - 1 {
        front.len() as int
    } else {
        lemma_suggestions(state, doc, n - 1, theme, i)
    }
}

/// Whether the line at `at` shows who suggests what, and where, and the next one why, where that
/// was said.
pub open spec fn suggests(
    lines: Seq<LineModel>,
    at: int,
    s: DocSuggestionView,
    focused: bool,
) -> bool {
    &&& 0 <= at < lines.len()
    &&& span_texts(lines[at]) == seq![
        if focused {
            "\u{203a} "@
        } else {
            "  \u{2022} "@
        },
        s.author@ + " @ "@ + s.range@ + " "@,
        "\u{2192} "@ + crate::tui::view::clipped(s.replacement@, 40),
    ]
    &&& s.rationale matches Some(why) ==> at + 1 < lines.len() && reads(
        lines[at + 1],
        "      "@ + why@,
    )
}

proof fn lemma_suggests(lines: Seq<LineModel>, at: int, s: DocSuggestionView, focused: bool, theme: Theme)
    requires
        ({
            let part = crate::tui::browsers::suggestion_lines(s, focused, theme);
            &&& 0 <= at
            &&& at + part.len() <= lines.len()
            &&& lines[at] == part[0]
            &&& part.len() > 1 ==> lines[at + 1] == part[1]
        }),
    ensures
        suggests(lines, at, s, focused),
{
    let part = crate::tui::browsers::suggestion_lines(s, focused, theme);
    assert(span_texts(lines[at]) =~= seq![
        if focused {
            "\u{203a} "@
        } else {
            "  \u{2022} "@
        },
        s.author@ + " @ "@ + s.range@ + " "@,
        "\u{2192} "@ + crate::tui::view::clipped(s.replacement@, 40),
    ]);
    if let Some(why) = s.rationale {
        assert(part.len() == 2);
        lemma_told(lines, at + 1, "      "@ + why@);
    }
}

/// Every pending suggestion of the selected document is up for review: who made it and where, what
/// it would put there, and why, where that was said.
pub proof fn law_every_suggestion_is_shown(state: AppState, theme: Theme, i: int) -> (at: int)
    requires
        state.selected_doc < state.docs@.len(),
        0 <= i < state.docs@[state.selected_doc as int].suggestions@.len(),
    ensures
        suggests(
            rail_of(docs_view(state, theme), 1),
            at,
            state.docs@[state.selected_doc as int].suggestions@[i],
            state.doc_focus is Review && i == state.selected_suggestion,
        ),
{
    let doc = state.docs@[state.selected_doc as int];
    let s = doc.suggestions@[i];
    let lines = rail_of(docs_view(state, theme), 1);
    let n = doc.suggestions@.len() as int;
    let all = crate::tui::browsers::suggestions_view(state, doc, n, theme);
    let from = lemma_suggestions(state, doc, n, theme, i);
    let focused = state.doc_focus == DocFocus::Review && i == state.selected_suggestion;
    let part = crate::tui::browsers::suggestion_lines(s, focused, theme);
    assert(lines == crate::tui::browsers::review_lines(state, theme));
    assert(lines[1 + from] == all[from + 0]);
    if part.len() > 1 {
        assert(lines[1 + from + 1] == all[from + 1]);
    }
    lemma_suggests(lines, 1 + from, s, focused, theme);
    1 + from
}

} // verus!
