//! What the shell's state holds on to, finds and lets through.
use crate::text::{lowercase_of, occurs, trimmed};
use crate::tui::action::Action;
use crate::tui::input::{meaning, Event, KeyCode, KeyEvent};
use crate::tui::palette::{command_fields, command_table, found};
use crate::tui::protocol::{AgentMode, ApprovalScope, RunId, RunState};
use crate::tui::state::{
    continues, ended, entry_pushed, folded, is_fresh, is_new_run, matching, model_fields, run_place, AppState,
    InputMode, ModelCard, RunView, TranscriptEntry, MAX_MODEL_ENTRY_BYTES,
    MAX_TRANSCRIPT_ENTRIES,
};
use vstd::prelude::*;

verus! {

/// Of a transcript that grows by an entry the newest entries stay, as many as it may hold, each in
/// its place behind the others; a scroll offset moves with the entries, and stops at the oldest.
pub proof fn law_the_newest_entries_stay(
    before: RunView,
    entry: TranscriptEntry,
    after: RunView,
    k: int,
)
    requires
        entry_pushed(before, entry, after),
    ensures
        ({
            let n = before.transcript@.len() as int + 1;
            let m = after.transcript@.len() as int;
            &&& n <= MAX_TRANSCRIPT_ENTRIES ==> m == n
            &&& n > MAX_TRANSCRIPT_ENTRIES ==> m == MAX_TRANSCRIPT_ENTRIES
            &&& after.transcript@[m - 1] == entry
            &&& 2 <= k <= m ==> after.transcript@[m - k] == before.transcript@[n - k]
            &&& before.scroll >= n - m ==> after.scroll == before.scroll - (n - m)
            &&& before.scroll < n - m ==> after.scroll == 0
            &&& before.transcript_selected >= n - m ==> after.transcript_selected
                == before.transcript_selected - (n - m)
            &&& before.transcript_selected < n - m ==> after.transcript_selected == 0
            &&& after.follow == before.follow
            &&& after.state == before.state
            &&& after.run_id == before.run_id
        }),
{
}

/// Prose goes on in the entry before it exactly where that is prose and the two together, as
/// bytes, are no more than an entry may hold.
pub proof fn law_prose_goes_on_where_it_fits(run: RunView, text: Seq<char>)
    ensures
        continues(run, text) <==> run.transcript@.len() > 0 && (match run.transcript@.last() {
            TranscriptEntry::Model { text: existing } => vstd::utf8::encode_utf8(
                existing@ + text,
            ).len() <= MAX_MODEL_ENTRY_BYTES,
            _ => false,
        }),
{
    if run.transcript@.len() > 0 {
        if let TranscriptEntry::Model { text: existing } = run.transcript@.last() {
            crate::text_laws::law_texts_are_encoded_one_behind_the_other(existing@, text);
        }
    }
}

/// A run is found by its identity: the first that has it, or none where none has.
pub proof fn law_a_run_is_found_by_its_identity(runs: Seq<RunView>, run_id: RunId)
    ensures
        match run_place(runs, run_id) {
            Some(i) => 0 <= i < runs.len() && runs[i].run_id == run_id && forall|k: int|
                0 <= k < i ==> (#[trigger] runs[k]).run_id != run_id,
            None => forall|k: int| 0 <= k < runs.len() ==> (#[trigger] runs[k]).run_id != run_id,
        },
    decreases runs.len(),
{
    if runs.len() > 0 {
        let front = runs.drop_last();
        law_a_run_is_found_by_its_identity(front, run_id);
        assert forall|k: int| 0 <= k < front.len() implies front[k] == #[trigger] runs[k] by {}
    }
}

/// A run that is over is one that completed, failed or was cancelled.
pub proof fn law_a_run_is_over_in_three_ways(state: RunState)
    ensures
        ended(state) <==> state is Completed || state is Failed || state is Cancelled,
{
}

/// What is selected is the member at the selected place, or nothing where there is no such place.
pub proof fn law_the_selection_is_a_place(s: AppState)
    ensures
        s.run() is Some <==> s.selected_run < s.runs@.len(),
        s.run() matches Some(run) ==> run == s.runs@[s.selected_run as int],
        s.doc() is Some <==> s.selected_doc < s.docs@.len(),
        s.doc() matches Some(doc) ==> doc == s.docs@[s.selected_doc as int],
{
}

/// Each overlay has its own way of reading keys: a buffer is edited, a list is searched, a
/// question is answered; without an overlay an approval is decided where one waits, else a message
/// is composed; what is left is browsed.
pub proof fn law_overlays_say_how_keys_are_read(s: AppState)
    ensures
        s.mode_of_input() is Editing <==> s.overlay is NewRun || s.overlay is Steering
            || s.overlay is DocEdit,
        s.mode_of_input() is Palette <==> s.overlay is Palette || s.overlay is ModelPicker,
        s.mode_of_input() is Confirm <==> s.overlay is ConfirmCancel,
        s.mode_of_input() is Approval <==> s.overlay is Closed && s.pending_approvals@.len() > 0,
        s.mode_of_input() is Composer <==> s.overlay is Closed && s.pending_approvals@.len() == 0,
        s.mode_of_input() is Normal <==> s.overlay is Help || s.overlay is Skills
            || s.overlay is Memory || s.overlay is Docs || s.overlay is Edges
            || s.overlay is Workflow || s.overlay is Blackboard,
{
}

/// A row is found exactly where one of its fields, whichever, holds what is looked for.
pub proof fn law_a_row_is_found_by_any_field(
    rows: Seq<Seq<Seq<char>>>,
    needle: Seq<char>,
    k: int,
    f: int,
)
    requires
        needle.len() > 0,
        0 <= k < rows.len(),
    ensures
        0 <= f < rows[k].len() && occurs(rows[k][f], needle) ==> matching(
            rows,
            rows.len() as int,
            needle,
        ).contains(k),
        (forall|g: int| 0 <= g < rows[k].len() ==> !occurs(#[trigger] rows[k][g], needle))
            ==> !matching(rows, rows.len() as int, needle).contains(k),
{
    crate::tui::state::law_a_filter_keeps_order(rows, rows.len() as int, needle);
    if 0 <= f < rows[k].len() && occurs(rows[k][f], needle) {
        assert(crate::tui::state::any_holds(rows[k], needle));
    }
}

/// A model is found by its name or its provider, whatever the case, and by nothing else.
pub proof fn law_a_model_is_found_by_name_or_provider(
    models: Seq<ModelCard>,
    query: Seq<char>,
    k: int,
)
    requires
        0 <= k < models.len(),
        trimmed(query).len() > 0,
        lowercase_of(trimmed(query)).len() > 0,
    ensures
        matching(model_fields(models), models.len() as int, folded(query)).contains(k) <==> (
        occurs(lowercase_of(models[k].id.0@), lowercase_of(trimmed(query))) || occurs(
            lowercase_of(models[k].provider@),
            lowercase_of(trimmed(query)),
        )),
{
    let rows = model_fields(models);
    let needle = lowercase_of(trimmed(query));
    law_a_row_is_found_by_any_field(rows, needle, k, 0);
    law_a_row_is_found_by_any_field(rows, needle, k, 1);
    assert(rows[k][0] == lowercase_of(models[k].id.0@));
    assert(rows[k][1] == lowercase_of(models[k].provider@));
}

/// A command is found by its title, its description or its key, whatever the case, and by nothing
/// else.
pub proof fn law_a_command_is_found_by_what_is_shown_of_it(query: Seq<char>, k: int)
    requires
        0 <= k < command_table().len(),
        trimmed(query).len() > 0,
        lowercase_of(trimmed(query)).len() > 0,
    ensures
        ({
            let needle = lowercase_of(trimmed(query));
            let entry = command_table()[k];
            found(query).contains(k) <==> (occurs(lowercase_of(entry.title@), needle) || occurs(
                lowercase_of(entry.description@),
                needle,
            ) || occurs(lowercase_of(entry.key@), needle))
        }),
{
    let rows = command_fields(command_table());
    let needle = lowercase_of(trimmed(query));
    law_a_row_is_found_by_any_field(rows, needle, k, 0);
    law_a_row_is_found_by_any_field(rows, needle, k, 1);
    law_a_row_is_found_by_any_field(rows, needle, k, 2);
    let entry = command_table()[k];
    assert(rows[k][0] == lowercase_of(entry.title@));
    assert(rows[k][1] == lowercase_of(entry.description@));
    assert(rows[k][2] == lowercase_of(entry.key@));
}

/// White space around a query makes no difference to what it finds.
pub proof fn law_padding_finds_the_same(
    rows: Seq<Seq<Seq<char>>>,
    before: Seq<char>,
    query: Seq<char>,
    after: Seq<char>,
)
    requires
        crate::text::blank(before),
        crate::text::blank(after),
        query.len() > 0,
        !crate::text::is_space(query[0]),
        !crate::text::is_space(query.last()),
    ensures
        matching(rows, rows.len() as int, folded(before + query + after)) == matching(
            rows,
            rows.len() as int,
            folded(query),
        ),
        folded(query) == lowercase_of(query),
{
    let none = Seq::<char>::empty();
    crate::text_laws::law_trimming_ignores_padding(before, query, after);
    crate::text_laws::law_trimming_ignores_padding(none, query, none);
    assert(none + query + none =~= query);
}

/// An approval is given by exactly the two keys that give it, once by the small letter and for the
/// run by the capital one, and refused by exactly one key; no gesture and no pasted text decides.
pub proof fn law_only_a_key_decides_an_approval(event: Event)
    ensures
        ({
            let action = meaning(event, InputMode::Approval);
            let pressed = match event {
                Event::Key(key) => if key.release {
                    None
                } else {
                    Some(key.code)
                },
                _ => None,
            };
            &&& action == Action::Approve(ApprovalScope::Once) <==> pressed == Some(
                KeyCode::Char('a'),
            )
            &&& action == Action::Approve(ApprovalScope::Run) <==> pressed == Some(
                KeyCode::Char('A'),
            )
            &&& action == Action::Reject <==> pressed == Some(KeyCode::Char('r'))
            &&& action is Approve ==> pressed == Some(KeyCode::Char('a')) || pressed == Some(
                KeyCode::Char('A'),
            )
        }),
{
}

/// A run is cancelled only by an answer to the question: Enter or y, and never by a gesture, a
/// paste or any other key; Esc and n take the question back.
pub proof fn law_a_cancel_is_confirmed(event: Event, mode: InputMode)
    ensures
        ({
            let pressed = match event {
                Event::Key(key) => if key.release {
                    None
                } else {
                    Some(key.code)
                },
                _ => None,
            };
            &&& meaning(event, mode) is ConfirmCancel <==> mode is Confirm && (pressed == Some(
                KeyCode::Enter,
            ) || pressed == Some(KeyCode::Char('y')) || pressed == Some(KeyCode::Char('Y')))
            &&& mode is Confirm && (pressed == Some(KeyCode::Esc) || pressed == Some(
                KeyCode::Char('n'),
            ) || pressed == Some(KeyCode::Char('N'))) ==> meaning(event, mode) is Dismiss
        }),
{
}

/// Where text is taken, Enter submits it, Esc abandons it, Backspace shortens it and pasted text
/// goes in whole; where none is taken, pasted text is dropped.
pub proof fn law_text_is_edited_alike_everywhere(mode: InputMode, text: String, control: bool)
    ensures
        ({
            let takes = mode is Editing || mode is Composer || mode is Palette;
            let enter = Event::Key(KeyEvent { code: KeyCode::Enter, control, release: false });
            let escape = Event::Key(KeyEvent { code: KeyCode::Esc, control, release: false });
            let back = Event::Key(KeyEvent { code: KeyCode::Backspace, control, release: false });
            &&& takes ==> meaning(enter, mode) is InputSubmit
            &&& takes ==> meaning(escape, mode) is InputCancel
            &&& takes ==> meaning(back, mode) is InputBackspace
            &&& takes ==> meaning(Event::Paste(text), mode) == Action::InputPaste(text)
            &&& !takes ==> meaning(Event::Paste(text), mode) is NoOp
        }),
{
}

/// The arrows move the selection wherever there is a list, and with Control they switch runs where
/// a message is composed; the page keys scroll the conversation there and where things are browsed.
pub proof fn law_the_arrows_move(mode: InputMode, control: bool)
    ensures
        ({
            let up = Event::Key(KeyEvent { code: KeyCode::Up, control, release: false });
            let down = Event::Key(KeyEvent { code: KeyCode::Down, control, release: false });
            let back = Event::Key(KeyEvent { code: KeyCode::PageUp, control, release: false });
            let on = Event::Key(KeyEvent { code: KeyCode::PageDown, control, release: false });
            let list = mode is Normal || mode is Palette || mode is Approval;
            &&& list ==> meaning(up, mode) is SelectPrev && meaning(down, mode) is SelectNext
            &&& mode is Composer && control ==> meaning(up, mode) is PrevRun && meaning(
                down,
                mode,
            ) is NextRun
            &&& mode is Composer && !control ==> meaning(up, mode) is NoOp && meaning(
                down,
                mode,
            ) is NoOp
            &&& mode is Composer || mode is Normal ==> meaning(back, mode) is ScrollPageUp
                && meaning(on, mode) is ScrollPageDown
        }),
{
}

/// What is no key, no gesture and no pasted text means nothing, and neither does a click.
pub proof fn law_other_events_mean_nothing(event: Event, mode: InputMode)
    ensures
        event is Resize || event is FocusGained || event is FocusLost ==> meaning(event, mode) is NoOp,
        event matches Event::Mouse(mouse) ==> (!(mouse.kind is ScrollUp || mouse.kind is ScrollDown)
            ==> meaning(event, mode) is NoOp),
{
}

/// In a browser each letter of a command means that command, and a letter of none means nothing.
pub proof fn law_letters_are_commands_in_a_browser(c: char)
    ensures
        ({
            let action = meaning(
                Event::Key(KeyEvent { code: KeyCode::Char(c), control: false, release: false }),
                InputMode::Normal,
            );
            &&& action is SelectPrev <==> c == 'k'
            &&& action is SelectNext <==> c == 'j'
            &&& action is NewRun <==> c == 'n'
            &&& action is Pause <==> c == 'p'
            &&& action is Cancel <==> c == 'c'
            &&& action is Steer <==> c == 's'
            &&& action is Detach <==> c == 'q'
            &&& action is Help <==> c == '?'
            &&& action == Action::Approve(ApprovalScope::Once) <==> c == 'a'
            &&& action == Action::Approve(ApprovalScope::Run) <==> c == 'A'
            &&& action is Reject <==> c == 'r'
            &&& action is OpenSkills <==> c == 'S'
            &&& action is OpenMemory <==> c == 'M'
            &&& action is OpenSource <==> c == 'o'
            &&& action is OpenDocs <==> c == 'D'
            &&& action is OpenEdges <==> c == 'G'
            &&& action is OpenPalette <==> c == '/'
        }),
{
}

/// A browser is left with Esc, its item opened with Enter, and the focus moved on with Tab.
pub proof fn law_a_browser_is_left_with_escape(control: bool)
    ensures
        meaning(
            Event::Key(KeyEvent { code: KeyCode::Esc, control, release: false }),
            InputMode::Normal,
        ) is Dismiss,
        meaning(
            Event::Key(KeyEvent { code: KeyCode::Enter, control, release: false }),
            InputMode::Normal,
        ) is Expand,
        meaning(
            Event::Key(KeyEvent { code: KeyCode::Tab, control, release: false }),
            InputMode::Normal,
        ) is CyclePane,
{
}

/// The layout is toggled by its key where a message is composed and where an approval waits, and
/// by no other function key.
pub proof fn law_one_function_key_toggles_the_layout(n: u8, mode: InputMode, control: bool)
    ensures
        ({
            let action = meaning(
                Event::Key(KeyEvent { code: KeyCode::F(n), control, release: false }),
                mode,
            );
            action is ToggleLayout <==> n == 2 && (mode is Composer || mode is Approval)
        }),
{
}

/// A run that has just been added waits to be taken up: it is for what was asked, in the mode that
/// was asked for, has said and cost nothing, and is followed.
pub proof fn law_a_new_run_waits_to_be_taken_up(
    run: RunView,
    run_id: RunId,
    objective: String,
    mode: AgentMode,
)
    requires
        is_new_run(run, run_id, objective, mode),
    ensures
        run.run_id == run_id,
        run.objective@ == objective@,
        run.mode == mode,
        run.state is Queued,
        run.activity is Idle,
        run.transcript@.len() == 0,
        run.scroll == 0,
        run.transcript_selected == 0,
        run.follow,
        run.cost_minor is None,
        run.context_percent is None,
        run.model is None,
        run.worktree is None,
        run.disposition is None,
{
}

/// In a fresh state nothing is open, nothing is drafted and nothing waits: the next key is composed,
/// nothing is up and nothing is to be sent.
pub proof fn law_a_fresh_state_is_ready_to_compose(
    s: AppState,
    theme: crate::tui::theme::Theme,
    capability: Seq<char>,
)
    requires
        is_fresh(s),
    ensures
        s.mode_of_input() is Composer,
        s.run() is None,
        s.doc() is None,
        crate::tui::dialogs::overlays_view(s, theme, capability).len() == 0,
        s.composer@.len() == 0,
        s.outbox@.len() == 0,
        s.notice is None,
        !s.should_detach,
        !s.session_closed,
        s.default_mode is Build,
        s.layout is Chat,
{
}

} // verus!
