//! A run's transcript as lines.
use vstd::prelude::*;

use crate::tui::state::{
    PatchSummary, RunActivity, RunView, ToolCard, ToolStatus, TranscriptEntry,
};
use crate::tui::theme::{Color, Style, Theme};
use crate::tui::protocol::{ProposedAction, ToolOutcome};
use crate::tui::view::{Line, LineModel};

verus! {

/// The style of an entry's first line: highlighted where it is selected.
pub open spec fn head_style(color: Color, selected: bool, theme: Theme) -> Style {
    if selected {
        theme.selected()
    } else {
        crate::tui::view::colored(color)
    }
}

/// An entry of one line.
pub open spec fn head(text: Seq<char>, color: Color, selected: bool, theme: Theme) -> LineModel {
    crate::tui::view::styled(text, head_style(color, selected, theme))
}

/// The lines of a text, the first behind `first` and the others indented.
pub open spec fn quoted(
    text: Seq<char>,
    first: Seq<char>,
    color: Color,
    selected: bool,
    theme: Theme,
) -> Seq<LineModel> {
    let list = crate::lines::line_list(text);
    Seq::new(
        list.len(),
        |i: int|
            head(
                (if i == 0 {
                    first
                } else {
                    "  "@
                }) + list[i],
                color,
                selected,
                theme,
            ),
    )
}

/// The word and the color for where a tool call stands.
pub open spec fn tool_state(card: ToolCard, theme: Theme) -> (Seq<char>, Color) {
    match card.status {
        ToolStatus::Proposed => ("proposed"@, theme.status.warning),
        ToolStatus::Running => ("running"@, theme.status.running),
        ToolStatus::Completed => if card.outcome is Some && card.outcome->0 is Failed {
            ("failed"@, theme.status.error)
        } else {
            ("done"@, theme.status.success)
        },
    }
}

/// What a tool call is called: by its tool, else by the kind of what was proposed.
pub open spec fn tool_name(card: ToolCard) -> Seq<char> {
    if card.tool@.len() > 0 {
        card.tool@
    } else if card.action is Some {
        crate::tui::labels::kind_words(card.action->0)
    } else {
        "tool"@
    }
}

/// The mark of an expandable entry.
pub open spec fn fold_mark(expanded: bool) -> Seq<char> {
    if expanded {
        "\u{25be}"@
    } else {
        "\u{25b8}"@
    }
}

/// The first line of a tool card.
pub open spec fn tool_head(card: ToolCard, theme: Theme, selected: bool) -> LineModel {
    let (word, color) = tool_state(card, theme);
    crate::tui::view::spanned(
        seq![
            crate::tui::view::words(
                fold_mark(card.expanded) + " \u{2699} "@ + tool_name(card) + " "@,
                head_style(theme.agent.tool, selected, theme),
            ),
            crate::tui::view::words("["@ + word + "]"@, crate::tui::view::colored(color)),
        ],
    )
}

/// The lines of what was proposed, indented.
pub open spec fn tool_action_lines(action: Option<ProposedAction>, theme: Theme) -> Seq<LineModel> {
    match action {
        Some(a) => Seq::new(
            crate::tui::labels::described(a).len(),
            |i: int|
                crate::tui::view::styled(
                    "    "@ + crate::tui::labels::described(a)[i],
                    crate::tui::view::colored(theme.text.secondary),
                ),
        ),
        None => Seq::<LineModel>::empty(),
    }
}

/// What an expanded card tells: what was proposed, the digest of the arguments, the error,
/// and the output.
pub open spec fn tool_details(card: ToolCard, theme: Theme) -> Seq<LineModel> {
    let proposed = tool_action_lines(card.action, theme);
    let digest = match card.args_digest {
        Some(d) => seq![
            crate::tui::view::styled(
                "    args-digest: "@ + d@,
                crate::tui::view::colored(theme.text.muted),
            ),
        ],
        None => Seq::<LineModel>::empty(),
    };
    let error = match card.outcome {
        Some(ToolOutcome::Failed { message }) => seq![
            crate::tui::view::styled(
                "    error: "@ + message@,
                crate::tui::view::colored(theme.status.error),
            ),
        ],
        _ => Seq::<LineModel>::empty(),
    };
    let output = match card.artifact {
        Some(a) => seq![
            crate::tui::view::styled(
                "    output: "@ + a.media_type@ + " ("@ + crate::text::decimal(
                    a.byte_length as nat,
                ) + " bytes)"@,
                crate::tui::view::colored(theme.text.muted),
            ),
        ],
        None => Seq::<LineModel>::empty(),
    };
    proposed + digest + error + output
}

/// A tool card.
pub open spec fn tool_lines(card: ToolCard, theme: Theme, selected: bool) -> Seq<LineModel> {
    seq![tool_head(card, theme, selected)] + if card.expanded {
        tool_details(card, theme)
    } else {
        Seq::<LineModel>::empty()
    }
}

/// The first eight characters of an identity.
pub open spec fn short(id: Seq<char>) -> Seq<char> {
    if id.len() <= 8 {
        id
    } else {
        id.take(8)
    }
}

/// A proposed change set.
pub open spec fn change_lines(patch: PatchSummary, theme: Theme, selected: bool) -> Seq<LineModel> {
    let first = crate::tui::view::styled(
        fold_mark(patch.expanded) + " \u{2756} patch proposed ("@ + short(patch.changeset_id.0@)
            + ")"@,
        head_style(theme.diff.header, selected, theme),
    );
    if patch.expanded {
        seq![
            first,
            crate::tui::view::styled(
                "    change set "@ + patch.changeset_id.0@ + " \u{2014} "@
                    + patch.artifact.media_type@ + " ("@ + crate::text::decimal(
                    patch.artifact.byte_length as nat,
                ) + " bytes)"@,
                crate::tui::view::colored(theme.diff.context),
            ),
            crate::tui::view::styled(
                "    review as a change set; applies only via approval"@,
                crate::tui::view::colored(theme.text.muted),
            ),
        ]
    } else {
        seq![first]
    }
}

/// A note: all of it where it is expanded, else its first line.
pub open spec fn note_text(text: Seq<char>, expanded: bool) -> Seq<char> {
    let list = crate::lines::line_list(text);
    if expanded || list.len() <= 1 {
        text
    } else {
        list[0]
    }
}

/// The summary of folded material.
pub open spec fn backstage_text(context_lines: Option<usize>, memory_updates: usize) -> Seq<char> {
    "\u{2026} backstage: "@ + (match context_lines {
        Some(n) => "context "@ + crate::text::decimal(n as nat) + " lines, "@,
        None => Seq::<char>::empty(),
    }) + crate::text::decimal(memory_updates as nat) + " memory updates"@
}

/// Indented texts, each on a line of its own.
pub open spec fn indented(texts: Seq<Seq<char>>, color: Color) -> Seq<LineModel> {
    Seq::new(
        texts.len(),
        |i: int| crate::tui::view::styled("    "@ + texts[i], crate::tui::view::colored(color)),
    )
}

/// The lines of an entry.
pub open spec fn entry_view(entry: TranscriptEntry, theme: Theme, selected: bool) -> Seq<LineModel> {
    match entry {
        TranscriptEntry::User { text } => quoted(
            text@,
            "\u{203a} "@,
            theme.text.primary,
            selected,
            theme,
        ),
        TranscriptEntry::Model { text } => quoted(
            text@,
            "\u{258c} "@,
            theme.agent.model_text,
            selected,
            theme,
        ),
        TranscriptEntry::Tool(card) => tool_lines(*card, theme, selected),
        TranscriptEntry::Patch(patch) => change_lines(patch, theme, selected),
        TranscriptEntry::Steering { applied } => seq![
            head(
                if applied {
                    "\u{27a4} steering applied"@
                } else {
                    "\u{27a4} steering queued"@
                },
                theme.status.info,
                selected,
                theme,
            ),
        ],
        TranscriptEntry::Budget { dimension, used, limit } => seq![
            head(
                "\u{26a0} budget "@ + crate::tui::labels::budget_word(dimension) + ": "@
                    + crate::text::decimal(used as nat) + "/"@ + crate::text::decimal(limit as nat),
                theme.status.warning,
                selected,
                theme,
            ),
        ],
        TranscriptEntry::Completed { disposition } => {
            let (words, color) = crate::tui::labels::ending(disposition, theme);
            seq![head("\u{25cf} "@ + words, color, selected, theme)]
        },
        TranscriptEntry::Note { text, expanded } => seq![
            head(
                "\u{2022} note: "@ + note_text(text@, expanded),
                theme.text.secondary,
                selected,
                theme,
            ),
        ],
        TranscriptEntry::Backstage { context_lines, memory_updates, raw, expanded } => {
            seq![
                head(
                    backstage_text(context_lines, memory_updates),
                    theme.text.muted,
                    selected,
                    theme,
                ),
            ] + if expanded {
                indented(crate::text::texts(raw@), theme.text.muted)
            } else {
                Seq::<LineModel>::empty()
            }
        },
        TranscriptEntry::Unsupported { label } => seq![
            head("? "@ + label@, theme.text.muted, selected, theme),
        ],
    }
}

/// The lines of the first `n` entries.
pub open spec fn entries_view(run: RunView, n: int, theme: Theme, focused: bool) -> Seq<LineModel>
    decreases n,
{
    if n <= 0 {
        Seq::<LineModel>::empty()
    } else {
        entries_view(run, n - 1, theme, focused) + entry_view(
            run.transcript@[n - 1],
            theme,
            focused && n - 1 == run.transcript_selected,
        )
    }
}

/// The row that says what a run is doing.
pub open spec fn activity_view(activity: RunActivity, theme: Theme) -> Seq<LineModel> {
    let style = crate::tui::view::colored(theme.text.muted);
    match activity {
        RunActivity::Idle => Seq::<LineModel>::empty(),
        RunActivity::Thinking => seq![crate::tui::view::styled("\u{2026} thinking"@, style)],
        RunActivity::Streaming => seq![crate::tui::view::styled("\u{2026} streaming"@, style)],
        RunActivity::RunningTool(tool) => seq![
            crate::tui::view::styled("\u{2026} running "@ + tool@, style),
        ],
    }
}

/// The lines of a transcript: those of its entries, or that none came yet, and what the run
/// is doing.
pub open spec fn transcript_view(run: RunView, theme: Theme, focused: bool) -> Seq<LineModel> {
    let all = entries_view(run, run.transcript@.len() as int, theme, focused);
    (if all.len() == 0 {
        seq![
            crate::tui::view::styled(
                "(waiting for the agent\u{2026})"@,
                crate::tui::view::colored(theme.text.muted),
            ),
        ]
    } else {
        all
    }) + activity_view(run.activity, theme)
}

fn style_of_head(color: Color, selected: bool, theme: &Theme) -> (r: Style)
    ensures
        r == head_style(color, selected, *theme),
{
    if selected {
        theme.selection_style()
    } else {
        crate::tui::view::in_color(color)
    }
}

fn head_line(text: &str, color: Color, selected: bool, theme: &Theme) -> (r: Line)
    ensures
        r@ == head(text@, color, selected, *theme),
{
    crate::tui::view::text_line(text, style_of_head(color, selected, theme))
}

fn just(line: Line) -> (r: Vec<Line>)
    ensures
        crate::tui::view::line_models(r@) == seq![line@],
{
    let mut r: Vec<Line> = crate::tui::view::no_lines();
    crate::tui::view::add_line(&mut r, line);
    r
}

fn quote(text: &str, first: &str, color: Color, selected: bool, theme: &Theme) -> (r: Vec<Line>)
    ensures
        crate::tui::view::line_models(r@) == quoted(text@, first@, color, selected, *theme),
{
    let parts: Vec<String> = crate::lines::lines(text);
    let ghost all = quoted(text@, first@, color, selected, *theme);
    let mut r: Vec<Line> = crate::tui::view::no_lines();
    let mut i: usize = 0;
    proof {
        assert(all.take(0) =~= Seq::<LineModel>::empty());
    }
    while i < parts.len()
        invariant
            i <= parts@.len(),
            crate::text::texts(parts@) == crate::lines::line_list(text@),
            all == quoted(text@, first@, color, selected, *theme),
            crate::tui::view::line_models(r@) == all.take(i as int),
        decreases parts@.len() - i,
    {
        proof {
            assert(crate::lines::line_list(text@)[i as int] == parts@[i as int]@);
            assert(all.take(i + 1) =~= all.take(i as int).push(all[i as int]));
        }
        let prefix: &str = if i == 0 {
            first
        } else {
            "  "
        };
        let whole: String = crate::text::concat2(prefix, parts[i].as_str());
        crate::tui::view::add_line(&mut r, head_line(whole.as_str(), color, selected, theme));
        i = i + 1;
    }
    proof {
        assert(all.take(all.len() as int) =~= all);
    }
    r
}

fn indent(texts: &Vec<String>, color: Color) -> (r: Vec<Line>)
    ensures
        crate::tui::view::line_models(r@) == indented(crate::text::texts(texts@), color),
{
    let ghost all = indented(crate::text::texts(texts@), color);
    let mut r: Vec<Line> = crate::tui::view::no_lines();
    let mut i: usize = 0;
    proof {
        assert(all.take(0) =~= Seq::<LineModel>::empty());
    }
    while i < texts.len()
        invariant
            i <= texts@.len(),
            all == indented(crate::text::texts(texts@), color),
            crate::tui::view::line_models(r@) == all.take(i as int),
        decreases texts@.len() - i,
    {
        let whole: String = crate::text::concat2("    ", texts[i].as_str());
        crate::tui::view::add_line(
            &mut r,
            crate::tui::view::text_line(whole.as_str(), crate::tui::view::in_color(color)),
        );
        proof {
            assert(all.take(i + 1) =~= all.take(i as int).push(all[i as int]));
        }
        i = i + 1;
    }
    proof {
        assert(all.take(all.len() as int) =~= all);
    }
    r
}

fn bytes_text(head: &str, n: u64) -> (r: String)
    ensures
        r@ == head@ + " ("@ + crate::text::decimal(n as nat) + " bytes)"@,
{
    let size: String = crate::text::decimal_text(n);
    let open: String = crate::text::concat3(head, " (", size.as_str());
    crate::text::concat2(open.as_str(), " bytes)")
}

fn mark(expanded: bool) -> (r: &'static str)
    ensures
        r@ == fold_mark(expanded),
{
    if expanded {
        "\u{25be}"
    } else {
        "\u{25b8}"
    }
}

fn tool_head_line(card: &ToolCard, theme: &Theme, selected: bool) -> (r: Line)
    ensures
        r@ == tool_head(*card, *theme, selected),
{
    let (word, color): (&'static str, Color) = match card.status {
        ToolStatus::Proposed => ("proposed", theme.status.warning),
        ToolStatus::Running => ("running", theme.status.running),
        ToolStatus::Completed => match &card.outcome {
            Some(ToolOutcome::Failed { .. }) => ("failed", theme.status.error),
            _ => ("done", theme.status.success),
        },
    };
    let name: &str = if card.tool.as_str().unicode_len() != 0 {
        card.tool.as_str()
    } else {
        match &card.action {
            Some(action) => crate::tui::labels::action_kind(action),
            None => "tool",
        }
    };
    let marked: String = crate::text::concat3(mark(card.expanded), " \u{2699} ", name);
    let title: String = crate::text::concat2(marked.as_str(), " ");
    let status: String = crate::text::concat3("[", word, "]");
    crate::tui::view::line2(
        crate::tui::view::span(title.as_str(), style_of_head(theme.agent.tool, selected, theme)),
        crate::tui::view::span(status.as_str(), crate::tui::view::in_color(color)),
    )
}

fn tool_detail_lines(card: &ToolCard, theme: &Theme) -> (r: Vec<Line>)
    ensures
        crate::tui::view::line_models(r@) == tool_details(*card, *theme),
{
    let mut r: Vec<Line> = match &card.action {
        Some(action) => {
            let details: Vec<String> = crate::tui::labels::describe_action(action);
            let lines: Vec<Line> = indent(&details, theme.text.secondary);
            proof {
                assert(crate::tui::view::line_models(lines@) =~= tool_action_lines(
                    card.action,
                    *theme,
                ));
            }
            lines
        },
        None => crate::tui::view::no_lines(),
    };
    let ghost proposed = crate::tui::view::line_models(r@);
    if let Some(digest) = &card.args_digest {
        let text: String = crate::text::concat2("    args-digest: ", digest.as_str());
        crate::tui::view::add_line(
            &mut r,
            crate::tui::view::text_line(
                text.as_str(),
                crate::tui::view::in_color(theme.text.muted),
            ),
        );
    }
    if let Some(ToolOutcome::Failed { message }) = &card.outcome {
        let text: String = crate::text::concat2("    error: ", message.as_str());
        crate::tui::view::add_line(
            &mut r,
            crate::tui::view::text_line(
                text.as_str(),
                crate::tui::view::in_color(theme.status.error),
            ),
        );
    }
    if let Some(artifact) = &card.artifact {
        let what: String = crate::text::concat2("    output: ", artifact.media_type.as_str());
        let text: String = bytes_text(what.as_str(), artifact.byte_length);
        crate::tui::view::add_line(
            &mut r,
            crate::tui::view::text_line(
                text.as_str(),
                crate::tui::view::in_color(theme.text.muted),
            ),
        );
    }
    proof {
        assert(proposed == tool_action_lines(card.action, *theme));
        assert(crate::tui::view::line_models(r@) =~= tool_details(*card, *theme));
    }
    r
}

/// A tool card's lines.
pub fn tool_card_lines(card: &ToolCard, theme: &Theme, selected: bool) -> (r: Vec<Line>)
    ensures
        crate::tui::view::line_models(r@) == tool_lines(*card, *theme, selected),
{
    let mut r: Vec<Line> = just(tool_head_line(card, theme, selected));
    if card.expanded {
        crate::tui::view::add_lines(&mut r, tool_detail_lines(card, theme));
    }
    proof {
        assert(crate::tui::view::line_models(r@) =~= tool_lines(*card, *theme, selected));
    }
    r
}

/// The first eight characters of `id`.
pub fn short_id(id: &str) -> (r: String)
    ensures
        r@ == short(id@),
{
    let v: Vec<char> = crate::text::char_vec(id);
    if v.len() <= 8 {
        id.to_owned()
    } else {
        let r: String = crate::text::string_of(&v, 0, 8);
        proof {
            assert(v@.subrange(0, 8) =~= id@.take(8));
        }
        r
    }
}

/// A proposed change set's lines.
pub fn patch_lines(patch: &PatchSummary, theme: &Theme, selected: bool) -> (r: Vec<Line>)
    ensures
        crate::tui::view::line_models(r@) == change_lines(*patch, *theme, selected),
{
    let id: &str = patch.changeset_id.0.as_str();
    let named: String = crate::text::concat3(
        mark(patch.expanded),
        " \u{2756} patch proposed (",
        short_id(id).as_str(),
    );
    let title: String = crate::text::concat2(named.as_str(), ")");
    let mut r: Vec<Line> = just(
        crate::tui::view::text_line(
            title.as_str(),
            style_of_head(theme.diff.header, selected, theme),
        ),
    );
    if patch.expanded {
        let which: String = crate::text::concat3("    change set ", id, " \u{2014} ");
        let what: String = crate::text::concat2(which.as_str(), patch.artifact.media_type.as_str());
        let text: String = bytes_text(what.as_str(), patch.artifact.byte_length);
        crate::tui::view::add_line(
            &mut r,
            crate::tui::view::text_line(
                text.as_str(),
                crate::tui::view::in_color(theme.diff.context),
            ),
        );
        crate::tui::view::add_line(
            &mut r,
            crate::tui::view::text_line(
                "    review as a change set; applies only via approval",
                crate::tui::view::in_color(theme.text.muted),
            ),
        );
    }
    proof {
        assert(crate::tui::view::line_models(r@) =~= change_lines(*patch, *theme, selected));
    }
    r
}

fn text_of_note(text: &String, expanded: bool) -> (r: String)
    ensures
        r@ == note_text(text@, expanded),
{
    let parts: Vec<String> = crate::lines::lines(text.as_str());
    proof {
        if parts@.len() > 0 {
            assert(crate::text::texts(parts@)[0] == parts@[0]@);
        }
    }
    if expanded || parts.len() <= 1 {
        text.clone()
    } else {
        parts[0].clone()
    }
}

fn text_of_backstage(context_lines: Option<usize>, memory_updates: usize) -> (r: String)
    ensures
        r@ == backstage_text(context_lines, memory_updates),
{
    let manifest: String = match context_lines {
        Some(n) => crate::text::concat3(
            "context ",
            crate::text::decimal_text(n as u64).as_str(),
            " lines, ",
        ),
        None => {
            let none: String = String::new();
            proof {
                assert(none@ =~= Seq::<char>::empty());
            }
            none
        },
    };
    let updates: String = crate::text::decimal_text(memory_updates as u64);
    let open: String = crate::text::concat3(
        "\u{2026} backstage: ",
        manifest.as_str(),
        updates.as_str(),
    );
    crate::text::concat2(open.as_str(), " memory updates")
}

/// An entry's lines.
pub fn entry_lines(entry: &TranscriptEntry, theme: &Theme, selected: bool) -> (r: Vec<Line>)
    ensures
        crate::tui::view::line_models(r@) == entry_view(*entry, *theme, selected),
{
    match entry {
        TranscriptEntry::User { text } => quote(
            text.as_str(),
            "\u{203a} ",
            theme.text.primary,
            selected,
            theme,
        ),
        TranscriptEntry::Model { text } => quote(
            text.as_str(),
            "\u{258c} ",
            theme.agent.model_text,
            selected,
            theme,
        ),
        TranscriptEntry::Tool(card) => tool_card_lines(card, theme, selected),
        TranscriptEntry::Patch(patch) => patch_lines(patch, theme, selected),
        TranscriptEntry::Steering { applied } => {
            let label: &str = if *applied {
                "\u{27a4} steering applied"
            } else {
                "\u{27a4} steering queued"
            };
            just(head_line(label, theme.status.info, selected, theme))
        },
        TranscriptEntry::Budget { dimension, used, limit } => {
            let what: String = crate::text::concat3(
                "\u{26a0} budget ",
                crate::tui::labels::budget_label(*dimension),
                ": ",
            );
            let spent: String = crate::text::concat3(
                what.as_str(),
                crate::text::decimal_text(*used).as_str(),
                "/",
            );
            let text: String = crate::text::concat2(
                spent.as_str(),
                crate::text::decimal_text(*limit).as_str(),
            );
            just(head_line(text.as_str(), theme.status.warning, selected, theme))
        },
        TranscriptEntry::Completed { disposition } => {
            let (words, color): (String, Color) = crate::tui::labels::disposition_display(
                disposition,
                theme,
            );
            let text: String = crate::text::concat2("\u{25cf} ", words.as_str());
            just(head_line(text.as_str(), color, selected, theme))
        },
        TranscriptEntry::Note { text, expanded } => {
            let shown: String = text_of_note(text, *expanded);
            let whole: String = crate::text::concat2("\u{2022} note: ", shown.as_str());
            just(head_line(whole.as_str(), theme.text.secondary, selected, theme))
        },
        TranscriptEntry::Backstage { context_lines, memory_updates, raw, expanded } => {
            let summary: String = text_of_backstage(*context_lines, *memory_updates);
            let mut r: Vec<Line> = just(
                head_line(summary.as_str(), theme.text.muted, selected, theme),
            );
            if *expanded {
                crate::tui::view::add_lines(&mut r, indent(raw, theme.text.muted));
            }
            proof {
                assert(crate::tui::view::line_models(r@) =~= entry_view(*entry, *theme, selected));
            }
            r
        },
        TranscriptEntry::Unsupported { label } => {
            let text: String = crate::text::concat2("? ", label.as_str());
            just(head_line(text.as_str(), theme.text.muted, selected, theme))
        },
    }
}

fn activity_lines(activity: &RunActivity, theme: &Theme) -> (r: Vec<Line>)
    ensures
        crate::tui::view::line_models(r@) == activity_view(*activity, *theme),
{
    let style: Style = crate::tui::view::in_color(theme.text.muted);
    match activity {
        RunActivity::Idle => crate::tui::view::no_lines(),
        RunActivity::Thinking => just(crate::tui::view::text_line("\u{2026} thinking", style)),
        RunActivity::Streaming => just(crate::tui::view::text_line("\u{2026} streaming", style)),
        RunActivity::RunningTool(tool) => {
            let text: String = crate::text::concat2("\u{2026} running ", tool.as_str());
            just(crate::tui::view::text_line(text.as_str(), style))
        },
    }
}

/// A transcript's lines.
pub fn transcript_lines(run: &RunView, theme: &Theme, focused: bool) -> (r: Vec<Line>)
    ensures
        crate::tui::view::line_models(r@) == transcript_view(*run, *theme, focused),
{
    let mut r: Vec<Line> = crate::tui::view::no_lines();
    let mut i: usize = 0;
    while i < run.transcript.len()
        invariant
            i <= run.transcript@.len(),
            crate::tui::view::line_models(r@) == entries_view(*run, i as int, *theme, focused),
        decreases run.transcript@.len() - i,
    {
        let selected: bool = focused && i == run.transcript_selected;
        crate::tui::view::add_lines(&mut r, entry_lines(&run.transcript[i], theme, selected));
        i = i + 1;
    }
    if r.len() == 0 {
        crate::tui::view::add_line(
            &mut r,
            crate::tui::view::text_line(
                "(waiting for the agent\u{2026})",
                crate::tui::view::in_color(theme.text.muted),
            ),
        );
        proof {
            assert(crate::tui::view::line_models(r@) =~= seq![
                crate::tui::view::styled(
                    "(waiting for the agent\u{2026})"@,
                    crate::tui::view::colored(theme.text.muted),
                ),
            ]);
        }
    }
    crate::tui::view::add_lines(&mut r, activity_lines(&run.activity, theme));
    r
}

} // verus!
