//! What a transcript shows of a run.
use crate::lines::line_list;
use crate::tui::labels::described;
use crate::tui::protocol::{RunDisposition, ToolOutcome};
use crate::tui::state::{
    PatchSummary, RunActivity, RunView, ToolCard, ToolStatus, TranscriptEntry,
};
use crate::tui::theme::Theme;
use crate::tui::transcript::{entries_view, entry_view, transcript_view};
use crate::tui::view_laws::{reads, said, told};
use vstd::prelude::*;

verus! {

proof fn lemma_head(text: Seq<char>, line: Seq<char>, prefix: Seq<char>, i: int)
    requires
        0 <= i < line_list(text).len(),
        line == line_list(text)[i],
        !prefix.contains('\n'),
    ensures
        !(prefix + line).contains('\n'),
{
    crate::tui::view_laws::lemma_lines_hold_no_feed(text, i);
    let all = prefix + line;
    if all.contains('\n') {
        let k = all.index_of('\n');
        if k < prefix.len() {
            assert(prefix[k] == '\n');
        } else {
            assert(line[k - prefix.len()] == '\n');
        }
    }
}

/// Nothing of what the user or the model wrote is left out: its entry has exactly one line for
/// each line of the text, in order, the first behind the writer's mark and the others indented,
/// and each says the whole of its line.
pub proof fn law_what_was_written_is_shown_line_by_line(
    entry: TranscriptEntry,
    theme: Theme,
    selected: bool,
    k: int,
)
    requires
        entry is User || entry is Model,
    ensures
        ({
            let text = match entry {
                TranscriptEntry::User { text } => text@,
                TranscriptEntry::Model { text } => text@,
                _ => Seq::<char>::empty(),
            };
            let mark = match entry {
                TranscriptEntry::User { .. } => seq!['\u{203a}', ' '],
                _ => seq!['\u{258c}', ' '],
            };
            let shown = entry_view(entry, theme, selected);
            &&& shown.len() == line_list(text).len()
            &&& 0 <= k < shown.len() ==> said(shown[k]) == (if k == 0 {
                mark
            } else {
                seq![' ', ' ']
            }) + line_list(text)[k]
        }),
{
    let text = match entry {
        TranscriptEntry::User { text } => text@,
        TranscriptEntry::Model { text } => text@,
        _ => Seq::<char>::empty(),
    };
    reveal_strlit("\u{203a} ");
    reveal_strlit("\u{258c} ");
    reveal_strlit("  ");
    assert("\u{203a} "@ =~= seq!['\u{203a}', ' ']);
    assert("\u{258c} "@ =~= seq!['\u{258c}', ' ']);
    assert("  "@ =~= seq![' ', ' ']);
    let shown = entry_view(entry, theme, selected);
    if 0 <= k < shown.len() {
        let prefix = if k > 0 {
            "  "@
        } else if entry is User {
            "\u{203a} "@
        } else {
            "\u{258c} "@
        };
        let line = line_list(text)[k];
        lemma_head(text, line, prefix, k);
        crate::tui::view_laws::law_a_styled_line_says_its_text(prefix + line, shown[k].style);
        assert(shown[k] == crate::tui::view::styled(prefix + line, shown[k].style));
    }
}

proof fn lemma_entries(run: RunView, n: int, theme: Theme, focused: bool)
    requires
        0 <= n <= run.transcript@.len(),
    ensures
        entries_view(run, n, theme, focused) == Seq::new(
            n as nat,
            |i: int|
                entry_view(run.transcript@[i], theme, focused && i == run.transcript_selected),
        ).flatten_alt(),
    decreases n,
{
    let all = Seq::new(
        n as nat,
        |i: int| entry_view(run.transcript@[i], theme, focused && i == run.transcript_selected),
    );
    if n > 0 {
        lemma_entries(run, n - 1, theme, focused);
        let front = Seq::new(
            (n - 1) as nat,
            |i: int| entry_view(run.transcript@[i], theme, focused && i == run.transcript_selected),
        );
        assert(all.drop_last() =~= front);
    }
}

/// A transcript shows the lines of each of its entries, all of them, one entry behind the other;
/// only the chosen one of a pane that has the focus is highlighted. Behind them stands what the run
/// is doing, unless it is doing nothing.
pub proof fn law_a_transcript_shows_every_entry(run: RunView, theme: Theme, focused: bool)
    ensures
        ({
            let entries = Seq::new(
                run.transcript@.len(),
                |i: int|
                    entry_view(run.transcript@[i], theme, focused && i == run.transcript_selected),
            ).flatten_alt();
            let shown = transcript_view(run, theme, focused);
            let doing = if run.activity is Idle {
                0int
            } else {
                1int
            };
            &&& entries.len() > 0 ==> shown.len() == entries.len() + doing && shown.take(
                entries.len() as int,
            ) == entries
            &&& entries.len() == 0 ==> shown.len() == 1 + doing
            &&& run.activity is Thinking ==> reads(shown.last(), "\u{2026} thinking"@)
            &&& run.activity is Streaming ==> reads(shown.last(), "\u{2026} streaming"@)
            &&& run.activity matches RunActivity::RunningTool(tool) ==> reads(
                shown.last(),
                "\u{2026} running "@ + tool@,
            )
        }),
{
    lemma_entries(run, run.transcript@.len() as int, theme, focused);
    let entries = entries_view(run, run.transcript@.len() as int, theme, focused);
    let shown = transcript_view(run, theme, focused);
    if entries.len() > 0 {
        assert(shown.take(entries.len() as int) =~= entries);
    }
    let style = crate::tui::view::colored(theme.text.muted);
    crate::tui::view_laws::law_a_styled_line_says_its_text("\u{2026} thinking"@, style);
    crate::tui::view_laws::law_a_styled_line_says_its_text("\u{2026} streaming"@, style);
    if let RunActivity::RunningTool(tool) = run.activity {
        crate::tui::view_laws::law_a_styled_line_says_its_text(
            "\u{2026} running "@ + tool@,
            style,
        );
    }
}

/// A tool card that is folded is one line; one that is unfolded tells, below that line, everything
/// that is known of the call: what was proposed line by line, the digest of its arguments, the
/// error, and the output.
pub proof fn law_an_unfolded_card_tells_everything(
    card: ToolCard,
    theme: Theme,
    selected: bool,
    i: int,
)
    ensures
        ({
            let shown = entry_view(TranscriptEntry::Tool(Box::new(card)), theme, selected);
            &&& shown.len() >= 1
            &&& !card.expanded ==> shown.len() == 1
            &&& card.expanded ==> {
                &&& card.action matches Some(action) ==> (0 <= i < described(action).len() ==> told(
                    shown,
                    "    "@ + described(action)[i],
                ))
                &&& card.args_digest matches Some(digest) ==> told(
                    shown,
                    "    args-digest: "@ + digest@,
                )
                &&& card.outcome matches Some(ToolOutcome::Failed { message }) ==> told(
                    shown,
                    "    error: "@ + message@,
                )
                &&& card.artifact matches Some(artifact) ==> told(
                    shown,
                    "    output: "@ + artifact.media_type@ + " ("@ + crate::text::decimal(
                        artifact.byte_length as nat,
                    ) + " bytes)"@,
                )
            }
        }),
{
    let shown = entry_view(TranscriptEntry::Tool(Box::new(card)), theme, selected);
    let proposed = crate::tui::transcript::tool_action_lines(card.action, theme);
    let head = seq![crate::tui::transcript::tool_head(card, theme, selected)];
    if card.expanded {
        let details = crate::tui::transcript::tool_details(card, theme);
        assert(shown =~= head + details);
        let secondary = crate::tui::view::colored(theme.text.secondary);
        let muted = crate::tui::view::colored(theme.text.muted);
        let red = crate::tui::view::colored(theme.status.error);
        if let Some(action) = card.action {
            if 0 <= i < described(action).len() {
                let text = "    "@ + described(action)[i];
                crate::tui::view_laws::law_a_styled_line_says_its_text(text, secondary);
                assert(shown[1 + i] == proposed[i]);
            }
        }
        let a = 1 + proposed.len();
        let digests: int = if card.args_digest is Some {
            1
        } else {
            0
        };
        let errors: int = if card.outcome is Some && card.outcome->0 is Failed {
            1
        } else {
            0
        };
        if let Some(digest) = card.args_digest {
            let text = "    args-digest: "@ + digest@;
            crate::tui::view_laws::law_a_styled_line_says_its_text(text, muted);
            assert(shown[a as int] == crate::tui::view::styled(text, muted));
        }
        if let Some(ToolOutcome::Failed { message }) = card.outcome {
            let text = "    error: "@ + message@;
            crate::tui::view_laws::law_a_styled_line_says_its_text(text, red);
            assert(shown[a + digests] == crate::tui::view::styled(text, red));
        }
        if let Some(artifact) = card.artifact {
            let text = "    output: "@ + artifact.media_type@ + " ("@ + crate::text::decimal(
                artifact.byte_length as nat,
            ) + " bytes)"@;
            crate::tui::view_laws::law_a_styled_line_says_its_text(text, muted);
            assert(shown[a + digests + errors] == crate::tui::view::styled(text, muted));
        }
    }
}

/// The first line of a card says which tool it is and where the call stands: a call that ended in
/// an error has failed, any other that ended is done.
pub proof fn law_a_card_says_how_its_call_stands(card: ToolCard, theme: Theme, selected: bool)
    requires
        card.tool@.len() > 0,
    ensures
        ({
            let shown = entry_view(TranscriptEntry::Tool(Box::new(card)), theme, selected);
            let failed = card.outcome is Some && card.outcome->0 is Failed;
            let word = match card.status {
                ToolStatus::Proposed => "proposed"@,
                ToolStatus::Running => "running"@,
                ToolStatus::Completed => if failed {
                    "failed"@
                } else {
                    "done"@
                },
            };
            &&& shown[0].spans.len() == 2
            &&& shown[0].spans[0].text == (if card.expanded {
                "\u{25be}"@
            } else {
                "\u{25b8}"@
            }) + " \u{2699} "@ + card.tool@ + " "@
            &&& shown[0].spans[1].text == "["@ + word + "]"@
            &&& card.status is Completed && failed ==> shown[0].spans[1].style.fg
                == Some(theme.status.error)
            &&& card.status is Completed && !failed ==> shown[0].spans[1].style.fg
                == Some(theme.status.success)
        }),
{
    let shown = entry_view(TranscriptEntry::Tool(Box::new(card)), theme, selected);
    assert(shown[0] == crate::tui::transcript::tool_head(card, theme, selected));
}

/// How a run ended is shown, with the reason that was given.
pub proof fn law_an_ending_is_shown_with_its_reason(
    disposition: RunDisposition,
    theme: Theme,
    selected: bool,
)
    ensures
        ({
            let shown = entry_view(TranscriptEntry::Completed { disposition }, theme, selected);
            &&& shown.len() == 1
            &&& match disposition {
                RunDisposition::Completed { summary: Some(s) } => reads(
                    shown[0],
                    "\u{25cf} "@ + ("run completed"@ + (": "@ + s@)),
                ),
                RunDisposition::Completed { summary: None } => reads(
                    shown[0],
                    "\u{25cf} "@ + "run completed"@,
                ),
                RunDisposition::Failed { reason } => reads(
                    shown[0],
                    "\u{25cf} "@ + ("run failed: "@ + reason@),
                ),
                RunDisposition::Cancelled { reason: Some(s) } => reads(
                    shown[0],
                    "\u{25cf} "@ + ("run cancelled"@ + (": "@ + s@)),
                ),
                RunDisposition::Cancelled { reason: None } => reads(
                    shown[0],
                    "\u{25cf} "@ + "run cancelled"@,
                ),
                RunDisposition::Unknown => reads(shown[0], "\u{25cf} "@ + "run ended"@),
            }
            &&& !selected && disposition is Failed ==> shown[0].style.fg == Some(theme.status.error)
            &&& !selected && disposition is Completed ==> shown[0].style.fg == Some(
                theme.status.success,
            )
        }),
{
    let (words, color) = crate::tui::labels::ending(disposition, theme);
    assert("run completed"@ + Seq::<char>::empty() =~= "run completed"@);
    assert("run cancelled"@ + Seq::<char>::empty() =~= "run cancelled"@);
    crate::tui::view_laws::law_a_styled_line_says_its_text(
        "\u{25cf} "@ + words,
        crate::tui::transcript::head_style(color, selected, theme),
    );
}

/// A note is shown whole where it is unfolded or has one line, else its first line; folded
/// material is summed up in one line, and unfolded all of it follows; a warning names what was
/// used and what the limit is; an event this build does not know is named.
pub proof fn law_other_entries_are_shown(
    entry: TranscriptEntry,
    theme: Theme,
    selected: bool,
    i: int,
)
    ensures
        ({
            let shown = entry_view(entry, theme, selected);
            match entry {
                TranscriptEntry::Note { text, expanded } => {
                    &&& shown.len() == 1
                    &&& expanded || line_list(text@).len() <= 1 ==> reads(
                        shown[0],
                        "\u{2022} note: "@ + text@,
                    )
                    &&& !expanded && line_list(text@).len() > 1 ==> reads(
                        shown[0],
                        "\u{2022} note: "@ + line_list(text@)[0],
                    )
                },
                TranscriptEntry::Backstage { context_lines, memory_updates, raw, expanded } => {
                    &&& !expanded ==> shown.len() == 1
                    &&& expanded ==> shown.len() == 1 + raw@.len()
                    &&& expanded && 0 <= i < raw@.len() ==> reads(shown[1 + i], "    "@ + raw@[i]@)
                },
                TranscriptEntry::Budget { dimension, used, limit } => {
                    &&& shown.len() == 1
                    &&& reads(
                        shown[0],
                        "\u{26a0} budget "@ + crate::tui::labels::budget_word(dimension) + ": "@
                            + crate::text::decimal(used as nat) + "/"@ + crate::text::decimal(
                            limit as nat,
                        ),
                    )
                },
                TranscriptEntry::Steering { applied } => {
                    &&& shown.len() == 1
                    &&& applied ==> reads(shown[0], "\u{27a4} steering applied"@)
                    &&& !applied ==> reads(shown[0], "\u{27a4} steering queued"@)
                },
                TranscriptEntry::Unsupported { label } => shown.len() == 1 && reads(
                    shown[0],
                    "? "@ + label@,
                ),
                _ => true,
            }
        }),
{
    let shown = entry_view(entry, theme, selected);
    match entry {
        TranscriptEntry::Note { text, expanded } => {
            crate::tui::view_laws::law_a_styled_line_says_its_text(
                "\u{2022} note: "@ + crate::tui::transcript::note_text(text@, expanded),
                shown[0].style,
            );
        },
        TranscriptEntry::Backstage { context_lines, memory_updates, raw, expanded } => {
            if expanded && 0 <= i < raw@.len() {
                let text = "    "@ + raw@[i]@;
                assert(crate::text::texts(raw@)[i] == raw@[i]@);
                crate::tui::view_laws::law_a_styled_line_says_its_text(text, shown[1 + i].style);
                assert(shown[1 + i] == crate::tui::view::styled(text, shown[1 + i].style));
            }
        },
        TranscriptEntry::Budget { dimension, used, limit } => {
            crate::tui::view_laws::law_a_styled_line_says_its_text(
                "\u{26a0} budget "@ + crate::tui::labels::budget_word(dimension) + ": "@
                    + crate::text::decimal(used as nat) + "/"@ + crate::text::decimal(limit as nat),
                shown[0].style,
            );
        },
        TranscriptEntry::Steering { applied } => {
            crate::tui::view_laws::law_a_styled_line_says_its_text(
                "\u{27a4} steering applied"@,
                shown[0].style,
            );
            crate::tui::view_laws::law_a_styled_line_says_its_text(
                "\u{27a4} steering queued"@,
                shown[0].style,
            );
        },
        TranscriptEntry::Unsupported { label } => {
            crate::tui::view_laws::law_a_styled_line_says_its_text(
                "? "@ + label@,
                shown[0].style,
            );
        },
        _ => {},
    }
}

/// A proposed patch is named by the beginning of its change set's identity; unfolded, by all of it,
/// with what kind of thing it is and how large.
pub proof fn law_a_patch_is_named(patch: PatchSummary, theme: Theme, selected: bool)
    ensures
        ({
            let shown = entry_view(TranscriptEntry::Patch(patch), theme, selected);
            let id = patch.changeset_id.0@;
            let named = if id.len() <= 8 {
                id
            } else {
                id.take(8)
            };
            &&& reads(
                shown[0],
                (if patch.expanded {
                    "\u{25be}"@
                } else {
                    "\u{25b8}"@
                }) + " \u{2756} patch proposed ("@ + named + ")"@,
            )
            &&& !patch.expanded ==> shown.len() == 1
            &&& patch.expanded ==> shown.len() == 3 && reads(
                shown[1],
                "    change set "@ + id + " \u{2014} "@ + patch.artifact.media_type@ + " ("@
                    + crate::text::decimal(patch.artifact.byte_length as nat) + " bytes)"@,
            )
        }),
{
    let shown = entry_view(TranscriptEntry::Patch(patch), theme, selected);
    let id = patch.changeset_id.0@;
    crate::tui::view_laws::law_a_styled_line_says_its_text(
        crate::tui::transcript::fold_mark(patch.expanded) + " \u{2756} patch proposed ("@
            + crate::tui::transcript::short(id) + ")"@,
        shown[0].style,
    );
    if patch.expanded {
        crate::tui::view_laws::law_a_styled_line_says_its_text(
            "    change set "@ + id + " \u{2014} "@ + patch.artifact.media_type@ + " ("@
                + crate::text::decimal(patch.artifact.byte_length as nat) + " bytes)"@,
            shown[1].style,
        );
    }
}

/// Folded material is summed up by how many lines of context it has, where that is known, and how
/// many memories were updated.
pub proof fn law_folded_material_is_summed_up(
    context_lines: Option<usize>,
    memory_updates: usize,
    raw: Vec<String>,
    expanded: bool,
    theme: Theme,
    selected: bool,
)
    ensures
        ({
            let shown = entry_view(
                TranscriptEntry::Backstage { context_lines, memory_updates, raw, expanded },
                theme,
                selected,
            );
            let updates = crate::text::decimal(memory_updates as nat) + " memory updates"@;
            &&& context_lines is None ==> reads(shown[0], "\u{2026} backstage: "@ + updates)
            &&& context_lines matches Some(n) ==> reads(
                shown[0],
                "\u{2026} backstage: "@ + ("context "@ + crate::text::decimal(n as nat)
                    + " lines, "@) + updates,
            )
        }),
{
    let entry = TranscriptEntry::Backstage { context_lines, memory_updates, raw, expanded };
    let shown = entry_view(entry, theme, selected);
    let text = crate::tui::transcript::backstage_text(context_lines, memory_updates);
    crate::tui::view_laws::law_a_styled_line_says_its_text(text, shown[0].style);
    let updates = crate::text::decimal(memory_updates as nat) + " memory updates"@;
    match context_lines {
        Some(n) => {
            assert(text =~= "\u{2026} backstage: "@ + ("context "@ + crate::text::decimal(
                n as nat,
            ) + " lines, "@) + updates);
        },
        None => {
            assert(text =~= "\u{2026} backstage: "@ + updates);
        },
    }
}

/// A card whose tool has no name is called by the kind of what it proposes.
pub proof fn law_a_nameless_tool_is_called_by_its_kind(
    card: ToolCard,
    theme: Theme,
    selected: bool,
)
    requires
        card.tool@.len() == 0,
    ensures
        ({
            let shown = entry_view(TranscriptEntry::Tool(Box::new(card)), theme, selected);
            shown[0].spans[0].text == (if card.expanded {
                "\u{25be}"@
            } else {
                "\u{25b8}"@
            }) + " \u{2699} "@ + (match card.action {
                Some(action) => crate::tui::labels::kind_words(action),
                None => "tool"@,
            }) + " "@
        }),
{
    let shown = entry_view(TranscriptEntry::Tool(Box::new(card)), theme, selected);
    assert(shown[0] == crate::tui::transcript::tool_head(card, theme, selected));
}

/// What is selected is drawn as selected, and nothing else is.
pub proof fn law_only_the_selected_entry_is_highlighted(
    entry: TranscriptEntry,
    theme: Theme,
    selected: bool,
)
    requires
        !(entry is Tool),
        entry_view(entry, theme, selected).len() > 0,
    ensures
        entry_view(entry, theme, selected)[0].style == theme.selected() <==> selected,
{
}

} // verus!
