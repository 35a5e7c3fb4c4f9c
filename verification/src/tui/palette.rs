//! The command palette: its table of commands and the filter over it.
use vstd::prelude::*;

verus! {

/// A command the palette can run.
#[derive(Clone, Copy, Debug, PartialEq, Eq, Structural)]
pub enum PaletteCommand {
    /// Open the new-run prompt.
    NewRun,
    /// Queue steering text for the selected run.
    Steer,
    /// Pause or resume the selected run.
    PauseResume,
    /// Ask to cancel the selected run.
    Cancel,
    /// Open the Skill Studio browser.
    Skills,
    /// Open the memory browser.
    Memory,
    /// Open the Docs Studio browser.
    Docs,
    /// Open the code-graph edge inspector.
    Edges,
    /// Flip between the chat and workspace layouts.
    ToggleLayout,
    /// Toggle the help overlay.
    Help,
    /// Detach this client.
    Detach,
}

/// A row of the palette: the command, and how it is shown and found.
#[derive(Clone, Copy, Debug)]
pub struct PaletteEntry {
    pub command: PaletteCommand,
    pub title: &'static str,
    pub description: &'static str,
    /// The key that does the same.
    pub key: &'static str,
}

/// Every command the palette offers, the likely ones first.
pub open spec fn command_table() -> Seq<PaletteEntry> {
    seq![
        PaletteEntry {
            command: PaletteCommand::NewRun,
            title: "New run",
            description: "start a new run in this session",
            key: "n",
        },
        PaletteEntry {
            command: PaletteCommand::Steer,
            title: "Steer run",
            description: "queue a message for the next safe point",
            key: "s",
        },
        PaletteEntry {
            command: PaletteCommand::PauseResume,
            title: "Pause / resume run",
            description: "pause the selected run, or resume it",
            key: "p",
        },
        PaletteEntry {
            command: PaletteCommand::Cancel,
            title: "Cancel run",
            description: "cancel the selected run (asks to confirm)",
            key: "c",
        },
        PaletteEntry {
            command: PaletteCommand::Docs,
            title: "Docs Studio",
            description: "browse documents (tree / editor / review rails)",
            key: "D",
        },
        PaletteEntry {
            command: PaletteCommand::Edges,
            title: "Code-graph edges",
            description: "inspect graph edges (relation, evidence, revision)",
            key: "G",
        },
        PaletteEntry {
            command: PaletteCommand::Skills,
            title: "Skill Studio",
            description: "browse skills and their permissions verbatim",
            key: "S",
        },
        PaletteEntry {
            command: PaletteCommand::Memory,
            title: "Memory",
            description: "browse curated memories and their provenance",
            key: "M",
        },
        PaletteEntry {
            command: PaletteCommand::ToggleLayout,
            title: "Toggle layout",
            description: "switch between chat and workspace panes",
            key: "F2",
        },
        PaletteEntry {
            command: PaletteCommand::Help,
            title: "Help",
            description: "toggle the key-binding help overlay",
            key: "?",
        },
        PaletteEntry {
            command: PaletteCommand::Detach,
            title: "Detach",
            description: "leave the TUI; the run keeps going",
            key: "q",
        },
    ]
}

/// Every command the palette offers, the likely ones first.
pub fn commands() -> (out: Vec<PaletteEntry>)
    ensures
        out@ == command_table(),
{
    let mut out: Vec<PaletteEntry> = Vec::new();
    out.push(
        PaletteEntry {
            command: PaletteCommand::NewRun,
            title: "New run",
            description: "start a new run in this session",
            key: "n",
        },
    );
    out.push(
        PaletteEntry {
            command: PaletteCommand::Steer,
            title: "Steer run",
            description: "queue a message for the next safe point",
            key: "s",
        },
    );
    out.push(
        PaletteEntry {
            command: PaletteCommand::PauseResume,
            title: "Pause / resume run",
            description: "pause the selected run, or resume it",
            key: "p",
        },
    );
    out.push(
        PaletteEntry {
            command: PaletteCommand::Cancel,
            title: "Cancel run",
            description: "cancel the selected run (asks to confirm)",
            key: "c",
        },
    );
    out.push(
        PaletteEntry {
            command: PaletteCommand::Docs,
            title: "Docs Studio",
            description: "browse documents (tree / editor / review rails)",
            key: "D",
        },
    );
    out.push(
        PaletteEntry {
            command: PaletteCommand::Edges,
            title: "Code-graph edges",
            description: "inspect graph edges (relation, evidence, revision)",
            key: "G",
        },
    );
    out.push(
        PaletteEntry {
            command: PaletteCommand::Skills,
            title: "Skill Studio",
            description: "browse skills and their permissions verbatim",
            key: "S",
        },
    );
    out.push(
        PaletteEntry {
            command: PaletteCommand::Memory,
            title: "Memory",
            description: "browse curated memories and their provenance",
            key: "M",
        },
    );
    out.push(
        PaletteEntry {
            command: PaletteCommand::ToggleLayout,
            title: "Toggle layout",
            description: "switch between chat and workspace panes",
            key: "F2",
        },
    );
    out.push(
        PaletteEntry {
            command: PaletteCommand::Help,
            title: "Help",
            description: "toggle the key-binding help overlay",
            key: "?",
        },
    );
    out.push(
        PaletteEntry {
            command: PaletteCommand::Detach,
            title: "Detach",
            description: "leave the TUI; the run keeps going",
            key: "q",
        },
    );
    out
}

/// What a command is found by: its title, its description and its key, in lower case.
pub open spec fn command_fields(rows: Seq<PaletteEntry>) -> Seq<Seq<Seq<char>>> {
    Seq::new(
        rows.len(),
        |i: int|
            seq![
                crate::text::lowercase_of(rows[i].title@),
                crate::text::lowercase_of(rows[i].description@),
                crate::text::lowercase_of(rows[i].key@),
            ],
    )
}

/// The places in the table of the commands that `query` finds.
pub open spec fn found(query: Seq<char>) -> Seq<int> {
    crate::tui::state::matching(
        command_fields(command_table()),
        command_table().len() as int,
        crate::tui::state::folded(query),
    )
}

/// The commands that `query` finds, in table order: those with the query, whatever its
/// case, in their title, description or key. A blank query finds every command.
#[must_use]
pub fn filtered(query: &str) -> (out: Vec<PaletteEntry>)
    ensures
        out@ == Seq::new(found(query@).len(), |i: int| command_table()[found(query@)[i]]),
{
    let table: Vec<PaletteEntry> = commands();
    let mut rows: Vec<Vec<String>> = Vec::new();
    let mut i: usize = 0;
    while i < table.len()
        invariant
            i <= table@.len(),
            table@ == command_table(),
            rows@.len() == i,
            forall|k: int| #![trigger rows@[k]]
                0 <= k < i ==> crate::text::texts(rows@[k]@) == command_fields(command_table())[k],
        decreases table@.len() - i,
    {
        let entry: PaletteEntry = table[i];
        let mut row: Vec<String> = Vec::new();
        row.push(crate::text::lowercase(entry.title));
        row.push(crate::text::lowercase(entry.description));
        row.push(crate::text::lowercase(entry.key));
        proof {
            assert(crate::text::texts(row@) =~= command_fields(command_table())[i as int]);
        }
        rows.push(row);
        i = i + 1;
    }
    proof {
        assert(crate::tui::state::row_texts(rows@) =~= command_fields(command_table()));
    }
    let needle: String = crate::tui::state::fold(query);
    let places: Vec<usize> = crate::tui::state::match_rows(&rows, &needle);
    proof {
        crate::tui::state::law_a_filter_keeps_order(
            command_fields(command_table()),
            command_table().len() as int,
            crate::tui::state::folded(query@),
        );
    }
    let mut out: Vec<PaletteEntry> = Vec::new();
    let mut k: usize = 0;
    while k < places.len()
        invariant
            k <= places@.len(),
            table@ == command_table(),
            crate::tui::state::places(places@) == found(query@),
            forall|p: int| #[trigger] found(query@).contains(p) ==> 0 <= p < command_table().len(),
            out@ == Seq::new(k as nat, |j: int| command_table()[found(query@)[j]]),
        decreases places@.len() - k,
    {
        proof {
            assert(found(query@)[k as int] == places@[k as int] as int);
            assert(found(query@).contains(found(query@)[k as int]));
        }
        out.push(table[places[k]]);
        proof {
            assert(out@ =~= Seq::new((k + 1) as nat, |j: int| command_table()[found(query@)[j]]));
        }
        k = k + 1;
    }
    out
}

/// How many commands `query` finds.
#[must_use]
pub fn filtered_len(query: &str) -> (n: usize)
    ensures
        n == found(query@).len(),
{
    filtered(query).len()
}

/// A blank query finds every command, in table order.
pub proof fn law_a_blank_query_finds_every_command(query: Seq<char>)
    requires
        crate::text::blank(query),
    ensures
        found(query) == Seq::new(command_table().len(), |i: int| i),
{
    crate::tui::state::law_a_blank_query_finds_everything(command_fields(command_table()), query);
}

/// Every command has a title and a key.
pub proof fn law_every_command_is_named(i: int)
    requires
        0 <= i < command_table().len(),
    ensures
        command_table()[i].title@.len() > 0,
        command_table()[i].key@.len() > 0,
{
    reveal_strlit("New run");
    reveal_strlit("n");
    reveal_strlit("Steer run");
    reveal_strlit("s");
    reveal_strlit("Pause / resume run");
    reveal_strlit("p");
    reveal_strlit("Cancel run");
    reveal_strlit("c");
    reveal_strlit("Docs Studio");
    reveal_strlit("D");
    reveal_strlit("Code-graph edges");
    reveal_strlit("G");
    reveal_strlit("Skill Studio");
    reveal_strlit("S");
    reveal_strlit("Memory");
    reveal_strlit("M");
    reveal_strlit("Toggle layout");
    reveal_strlit("F2");
    reveal_strlit("Help");
    reveal_strlit("?");
    reveal_strlit("Detach");
    reveal_strlit("q");
}

/// No two rows of the table run the same command.
pub proof fn law_commands_are_distinct(i: int, j: int)
    requires
        0 <= i < j < command_table().len(),
    ensures
        command_table()[i].command != command_table()[j].command,
{
}

} // verus!
