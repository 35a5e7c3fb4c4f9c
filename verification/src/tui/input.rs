//! What keys, mouse gestures and pasted text mean.
//!
//! [`map_event`] takes a terminal event and the mode it is read in to the one action it
//! means. It is total: what means nothing is [`Action::NoOp`].
use vstd::prelude::*;

use crate::tui::action::Action;
use crate::tui::protocol::ApprovalScope;
use crate::tui::state::{InputMode, Pane};

verus! {

/// A key, as far as any binding tells keys apart.
#[derive(Clone, Copy, Debug, PartialEq, Eq, Structural)]
pub enum KeyCode {
    Tab,
    Enter,
    Up,
    Down,
    PageUp,
    PageDown,
    Esc,
    Backspace,
    F(u8),
    Char(char),
    /// Any other key.
    Other,
}

/// A key event.
#[derive(Clone, Copy, Debug, PartialEq, Eq, Structural)]
pub struct KeyEvent {
    pub code: KeyCode,
    /// Whether Control was held.
    pub control: bool,
    /// Whether the key was let go rather than pressed.
    pub release: bool,
}

/// A mouse gesture, as far as any binding tells gestures apart.
#[derive(Clone, Copy, Debug, PartialEq, Eq, Structural)]
pub enum MouseEventKind {
    ScrollUp,
    ScrollDown,
    /// The left button pressed.
    LeftDown,
    /// Any other gesture.
    Other,
}

/// A mouse event.
#[derive(Clone, Copy, Debug, PartialEq, Eq, Structural)]
pub struct MouseEvent {
    pub kind: MouseEventKind,
    pub column: u16,
    pub row: u16,
}

/// A terminal event.
#[derive(Clone, Debug, PartialEq, Eq)]
pub enum Event {
    Key(KeyEvent),
    Mouse(MouseEvent),
    /// Bracketed paste.
    Paste(String),
    Resize(u16, u16),
    FocusGained,
    FocusLost,
}

/// A key binding, as the help overlay lists it.
#[derive(Clone, Copy, Debug)]
pub struct KeyBinding {
    /// The key or keys.
    pub keys: &'static str,
    pub description: &'static str,
    /// The mouse gesture that does the same, if there is one.
    pub mouse: Option<&'static str>,
}

/// The key table.
pub open spec fn binding_table() -> Seq<KeyBinding> {
    seq![
        KeyBinding {
            keys: "type\u{2026}",
            description: "compose a message in the bottom composer",
            mouse: None,
        },
        KeyBinding {
            keys: "Enter",
            description: "send: start a run, or steer the active one",
            mouse: None,
        },
        KeyBinding {
            keys: "/",
            description: "command palette \u{2014} every command, searchable",
            mouse: None,
        },
        KeyBinding {
            keys: "PgUp / PgDn",
            description: "scroll the conversation",
            mouse: Some("wheel"),
        },
        KeyBinding {
            keys: "Ctrl-\u{2191} / Ctrl-\u{2193}",
            description: "switch to the previous / next run",
            mouse: None,
        },
        KeyBinding {
            keys: "F2",
            description: "toggle layout: chat \u{21c4} workspace panes",
            mouse: None,
        },
        KeyBinding {
            keys: "a / A",
            description: "approve once / for the run (when prompted)",
            mouse: None,
        },
        KeyBinding {
            keys: "r",
            description: "reject the pending action",
            mouse: None,
        },
        KeyBinding {
            keys: "Esc",
            description: "clear the draft, or close an overlay",
            mouse: None,
        },
        KeyBinding {
            keys: "?",
            description: "show / hide this help overlay",
            mouse: None,
        },
        KeyBinding {
            keys: "\u{2191} / \u{2193}",
            description: "move selection in a browser or the palette",
            mouse: Some("wheel"),
        },
        KeyBinding {
            keys: "Ctrl-C",
            description: "detach (the run keeps going)",
            mouse: None,
        },
    ]
}

/// The key table.
pub fn key_bindings() -> (out: Vec<KeyBinding>)
    ensures
        out@ == binding_table(),
{
    let mut out: Vec<KeyBinding> = Vec::new();
    out.push(
        KeyBinding {
            keys: "type\u{2026}",
            description: "compose a message in the bottom composer",
            mouse: None,
        },
    );
    out.push(
        KeyBinding {
            keys: "Enter",
            description: "send: start a run, or steer the active one",
            mouse: None,
        },
    );
    out.push(
        KeyBinding {
            keys: "/",
            description: "command palette \u{2014} every command, searchable",
            mouse: None,
        },
    );
    out.push(
        KeyBinding {
            keys: "PgUp / PgDn",
            description: "scroll the conversation",
            mouse: Some("wheel"),
        },
    );
    out.push(
        KeyBinding {
            keys: "Ctrl-\u{2191} / Ctrl-\u{2193}",
            description: "switch to the previous / next run",
            mouse: None,
        },
    );
    out.push(
        KeyBinding {
            keys: "F2",
            description: "toggle layout: chat \u{21c4} workspace panes",
            mouse: None,
        },
    );
    out.push(
        KeyBinding {
            keys: "a / A",
            description: "approve once / for the run (when prompted)",
            mouse: None,
        },
    );
    out.push(
        KeyBinding {
            keys: "r",
            description: "reject the pending action",
            mouse: None,
        },
    );
    out.push(
        KeyBinding {
            keys: "Esc",
            description: "clear the draft, or close an overlay",
            mouse: None,
        },
    );
    out.push(
        KeyBinding {
            keys: "?",
            description: "show / hide this help overlay",
            mouse: None,
        },
    );
    out.push(
        KeyBinding {
            keys: "\u{2191} / \u{2193}",
            description: "move selection in a browser or the palette",
            mouse: Some("wheel"),
        },
    );
    out.push(
        KeyBinding {
            keys: "Ctrl-C",
            description: "detach (the run keeps going)",
            mouse: None,
        },
    );
    out
}

/// Every binding names its keys, so that whatever the mouse does a key does too.
pub proof fn law_every_binding_names_its_keys(i: int)
    requires
        0 <= i < binding_table().len(),
    ensures
        binding_table()[i].keys@.len() > 0,
{
    reveal_strlit("type\u{2026}");
    reveal_strlit("Enter");
    reveal_strlit("/");
    reveal_strlit("PgUp / PgDn");
    reveal_strlit("Ctrl-\u{2191} / Ctrl-\u{2193}");
    reveal_strlit("F2");
    reveal_strlit("a / A");
    reveal_strlit("r");
    reveal_strlit("Esc");
    reveal_strlit("?");
    reveal_strlit("\u{2191} / \u{2193}");
    reveal_strlit("Ctrl-C");
}

/// What a character means in a browser.
pub open spec fn command_of(c: char) -> Action {
    match c {
        'k' => Action::SelectPrev,
        'j' => Action::SelectNext,
        'n' => Action::NewRun,
        'p' => Action::Pause,
        'c' => Action::Cancel,
        's' => Action::Steer,
        'q' => Action::Detach,
        '?' => Action::Help,
        'a' => Action::Approve(ApprovalScope::Once),
        'A' => Action::Approve(ApprovalScope::Run),
        'r' => Action::Reject,
        'S' => Action::OpenSkills,
        'M' => Action::OpenMemory,
        'o' => Action::OpenSource,
        'D' => Action::OpenDocs,
        'G' => Action::OpenEdges,
        '/' => Action::OpenPalette,
        _ => Action::NoOp,
    }
}

/// What a key means where text is taken: it is submitted, abandoned, shortened or
/// lengthened.
pub open spec fn typed(key: KeyEvent) -> Action {
    match key.code {
        KeyCode::Enter => Action::InputSubmit,
        KeyCode::Esc => Action::InputCancel,
        KeyCode::Backspace => Action::InputBackspace,
        KeyCode::Char(c) => if !key.control {
            Action::InputChar(c)
        } else {
            Action::NoOp
        },
        _ => Action::NoOp,
    }
}

/// Whether the key is Control-C.
pub open spec fn is_interrupt(key: KeyEvent) -> bool {
    key.control && key.code == KeyCode::Char('c')
}

/// What a pressed key means in each mode.
pub open spec fn pressed(key: KeyEvent, mode: InputMode) -> Action {
    match mode {
        InputMode::Editing => if is_interrupt(key) {
            Action::InputCancel
        } else {
            typed(key)
        },
        InputMode::Palette => if is_interrupt(key) {
            Action::InputCancel
        } else {
            match key.code {
                KeyCode::Up => Action::SelectPrev,
                KeyCode::Down => Action::SelectNext,
                _ => typed(key),
            }
        },
        InputMode::Composer => if is_interrupt(key) {
            Action::Detach
        } else {
            match key.code {
                KeyCode::PageUp => Action::ScrollPageUp,
                KeyCode::PageDown => Action::ScrollPageDown,
                KeyCode::Up => if key.control {
                    Action::PrevRun
                } else {
                    Action::NoOp
                },
                KeyCode::Down => if key.control {
                    Action::NextRun
                } else {
                    Action::NoOp
                },
                KeyCode::F(n) => if n == 2 {
                    Action::ToggleLayout
                } else {
                    Action::NoOp
                },
                _ => typed(key),
            }
        },
        InputMode::Approval => if is_interrupt(key) {
            Action::Detach
        } else {
            match key.code {
                KeyCode::Char(c) => match c {
                    'a' => Action::Approve(ApprovalScope::Once),
                    'A' => Action::Approve(ApprovalScope::Run),
                    'r' => Action::Reject,
                    _ => Action::NoOp,
                },
                KeyCode::Up => Action::SelectPrev,
                KeyCode::Down => Action::SelectNext,
                KeyCode::F(n) => if n == 2 {
                    Action::ToggleLayout
                } else {
                    Action::NoOp
                },
                _ => Action::NoOp,
            }
        },
        InputMode::Confirm => if is_interrupt(key) {
            Action::Dismiss
        } else {
            match key.code {
                KeyCode::Enter => Action::ConfirmCancel,
                KeyCode::Esc => Action::Dismiss,
                KeyCode::Char(c) => match c {
                    'y' => Action::ConfirmCancel,
                    'Y' => Action::ConfirmCancel,
                    'n' => Action::Dismiss,
                    'N' => Action::Dismiss,
                    _ => Action::NoOp,
                },
                _ => Action::NoOp,
            }
        },
        InputMode::Normal => if is_interrupt(key) {
            Action::Detach
        } else {
            match key.code {
                KeyCode::Tab => Action::CyclePane,
                KeyCode::Enter => Action::Expand,
                KeyCode::Up => Action::SelectPrev,
                KeyCode::Down => Action::SelectNext,
                KeyCode::PageUp => Action::ScrollPageUp,
                KeyCode::PageDown => Action::ScrollPageDown,
                KeyCode::Esc => Action::Dismiss,
                KeyCode::Char(c) => command_of(c),
                _ => Action::NoOp,
            }
        },
    }
}

/// What a mouse gesture means in each mode: the wheel scrolls the conversation and moves
/// the selection of lists.
pub open spec fn gestured(kind: MouseEventKind, mode: InputMode) -> Action {
    match mode {
        InputMode::Editing | InputMode::Confirm => Action::NoOp,
        InputMode::Composer => match kind {
            MouseEventKind::ScrollUp => Action::ScrollPageUp,
            MouseEventKind::ScrollDown => Action::ScrollPageDown,
            _ => Action::NoOp,
        },
        InputMode::Normal | InputMode::Palette | InputMode::Approval => match kind {
            MouseEventKind::ScrollUp => Action::SelectPrev,
            MouseEventKind::ScrollDown => Action::SelectNext,
            _ => Action::NoOp,
        },
    }
}

/// Whether the mode takes text.
pub open spec fn takes_text(mode: InputMode) -> bool {
    mode == InputMode::Editing || mode == InputMode::Composer || mode == InputMode::Palette
}

/// What an event means in each mode.
pub open spec fn meaning(event: Event, mode: InputMode) -> Action {
    match event {
        Event::Key(key) => if key.release {
            Action::NoOp
        } else {
            pressed(key, mode)
        },
        Event::Mouse(mouse) => gestured(mouse.kind, mode),
        Event::Paste(text) => if takes_text(mode) {
            Action::InputPaste(text)
        } else {
            Action::NoOp
        },
        _ => Action::NoOp,
    }
}

/// The action that `event` means in `mode`. Nothing depends on the terminal's width.
#[must_use]
pub fn map_event(event: &Event, mode: InputMode, width: u16) -> (r: Action)
    ensures
        r == meaning(*event, mode),
{
    match event {
        Event::Key(key) => map_key(key, mode),
        Event::Mouse(mouse) => map_mouse(mouse, mode),
        Event::Paste(text) => match mode {
            InputMode::Editing | InputMode::Composer | InputMode::Palette => {
                Action::InputPaste(text.clone())
            },
            _ => Action::NoOp,
        },
        Event::Resize(_, _) | Event::FocusGained | Event::FocusLost => Action::NoOp,
    }
}

fn map_key(key: &KeyEvent, mode: InputMode) -> (r: Action)
    ensures
        r == meaning(Event::Key(*key), mode),
{
    if key.release {
        return Action::NoOp;
    }
    match mode {
        InputMode::Editing => map_editing_key(key),
        InputMode::Confirm => map_confirm_key(key),
        InputMode::Palette => map_palette_key(key),
        InputMode::Composer => map_composer_key(key),
        InputMode::Approval => map_approval_key(key),
        InputMode::Normal => map_normal_key(key),
    }
}

fn interrupts(key: &KeyEvent) -> (r: bool)
    ensures
        r == is_interrupt(*key),
{
    key.control && matches!(key.code, KeyCode::Char('c'))
}

fn map_normal_key(key: &KeyEvent) -> (r: Action)
    ensures
        r == pressed(*key, InputMode::Normal),
{
    if interrupts(key) {
        return Action::Detach;
    }
    match key.code {
        KeyCode::Tab => Action::CyclePane,
        KeyCode::Enter => Action::Expand,
        KeyCode::Up => Action::SelectPrev,
        KeyCode::Down => Action::SelectNext,
        KeyCode::PageUp => Action::ScrollPageUp,
        KeyCode::PageDown => Action::ScrollPageDown,
        KeyCode::Esc => Action::Dismiss,
        KeyCode::Char(c) => map_normal_char(c),
        _ => Action::NoOp,
    }
}

fn map_normal_char(c: char) -> (r: Action)
    ensures
        r == command_of(c),
{
    match c {
        'k' => Action::SelectPrev,
        'j' => Action::SelectNext,
        'n' => Action::NewRun,
        'p' => Action::Pause,
        'c' => Action::Cancel,
        's' => Action::Steer,
        'q' => Action::Detach,
        '?' => Action::Help,
        'a' => Action::Approve(ApprovalScope::Once),
        'A' => Action::Approve(ApprovalScope::Run),
        'r' => Action::Reject,
        'S' => Action::OpenSkills,
        'M' => Action::OpenMemory,
        'o' => Action::OpenSource,
        'D' => Action::OpenDocs,
        'G' => Action::OpenEdges,
        '/' => Action::OpenPalette,
        _ => Action::NoOp,
    }
}

fn map_editing_key(key: &KeyEvent) -> (r: Action)
    ensures
        r == pressed(*key, InputMode::Editing),
{
    if interrupts(key) {
        return Action::InputCancel;
    }
    map_typed_key(key)
}

fn map_typed_key(key: &KeyEvent) -> (r: Action)
    ensures
        r == typed(*key),
{
    match key.code {
        KeyCode::Enter => Action::InputSubmit,
        KeyCode::Esc => Action::InputCancel,
        KeyCode::Backspace => Action::InputBackspace,
        KeyCode::Char(c) => {
            if !key.control {
                Action::InputChar(c)
            } else {
                Action::NoOp
            }
        },
        _ => Action::NoOp,
    }
}

fn map_palette_key(key: &KeyEvent) -> (r: Action)
    ensures
        r == pressed(*key, InputMode::Palette),
{
    if interrupts(key) {
        return Action::InputCancel;
    }
    match key.code {
        KeyCode::Up => Action::SelectPrev,
        KeyCode::Down => Action::SelectNext,
        _ => map_typed_key(key),
    }
}

fn map_composer_key(key: &KeyEvent) -> (r: Action)
    ensures
        r == pressed(*key, InputMode::Composer),
{
    if interrupts(key) {
        return Action::Detach;
    }
    match key.code {
        KeyCode::PageUp => Action::ScrollPageUp,
        KeyCode::PageDown => Action::ScrollPageDown,
        KeyCode::Up => {
            if key.control {
                Action::PrevRun
            } else {
                Action::NoOp
            }
        },
        KeyCode::Down => {
            if key.control {
                Action::NextRun
            } else {
                Action::NoOp
            }
        },
        KeyCode::F(n) => {
            if n == 2 {
                Action::ToggleLayout
            } else {
                Action::NoOp
            }
        },
        _ => map_typed_key(key),
    }
}

fn map_approval_key(key: &KeyEvent) -> (r: Action)
    ensures
        r == pressed(*key, InputMode::Approval),
{
    if interrupts(key) {
        return Action::Detach;
    }
    match key.code {
        KeyCode::Char('a') => Action::Approve(ApprovalScope::Once),
        KeyCode::Char('A') => Action::Approve(ApprovalScope::Run),
        KeyCode::Char('r') => Action::Reject,
        KeyCode::Up => Action::SelectPrev,
        KeyCode::Down => Action::SelectNext,
        KeyCode::F(n) => {
            if n == 2 {
                Action::ToggleLayout
            } else {
                Action::NoOp
            }
        },
        _ => Action::NoOp,
    }
}

fn map_confirm_key(key: &KeyEvent) -> (r: Action)
    ensures
        r == pressed(*key, InputMode::Confirm),
{
    if interrupts(key) {
        return Action::Dismiss;
    }
    match key.code {
        KeyCode::Enter | KeyCode::Char('y') | KeyCode::Char('Y') => Action::ConfirmCancel,
        KeyCode::Esc | KeyCode::Char('n') | KeyCode::Char('N') => Action::Dismiss,
        _ => Action::NoOp,
    }
}

fn map_mouse(mouse: &MouseEvent, mode: InputMode) -> (r: Action)
    ensures
        r == gestured(mouse.kind, mode),
{
    match mode {
        InputMode::Editing | InputMode::Confirm => Action::NoOp,
        InputMode::Composer => match mouse.kind {
            MouseEventKind::ScrollUp => Action::ScrollPageUp,
            MouseEventKind::ScrollDown => Action::ScrollPageDown,
            _ => Action::NoOp,
        },
        InputMode::Normal | InputMode::Palette | InputMode::Approval => match mouse.kind {
            MouseEventKind::ScrollUp => Action::SelectPrev,
            MouseEventKind::ScrollDown => Action::SelectNext,
            _ => Action::NoOp,
        },
    }
}

/// How wide each of the outer panes is: three tenths.
pub open spec fn outer_width(width: u16) -> int {
    width as int * 3 / 10
}

/// The pane that `column` falls in: the outer panes take three tenths of `width` each, the
/// transcript what is left between them.
#[must_use]
pub fn pane_at(column: u16, width: u16) -> (r: Pane)
    requires
        width * 3 <= u16::MAX,
    ensures
        column < outer_width(width) ==> r == Pane::Sessions,
        outer_width(width) <= column < width - outer_width(width) ==> r == Pane::Transcript,
        outer_width(width) <= column && width - outer_width(width) <= column ==> r == Pane::Approvals,
{
    let left: u16 = width * 3 / 10;
    let right_start: u16 = width - left;
    if column < left {
        Pane::Sessions
    } else if column >= right_start {
        Pane::Approvals
    } else {
        Pane::Transcript
    }
}

/// The key that does what a mouse gesture does.
pub open spec fn key_for(kind: MouseEventKind, mode: InputMode) -> KeyEvent {
    let code = match kind {
        MouseEventKind::ScrollUp => match mode {
            InputMode::Composer => KeyCode::PageUp,
            InputMode::Editing | InputMode::Confirm => KeyCode::Other,
            _ => KeyCode::Up,
        },
        MouseEventKind::ScrollDown => match mode {
            InputMode::Composer => KeyCode::PageDown,
            InputMode::Editing | InputMode::Confirm => KeyCode::Other,
            _ => KeyCode::Down,
        },
        _ => KeyCode::Other,
    };
    KeyEvent { code, control: false, release: false }
}

/// Every mouse gesture has a key that means the same, in every mode.
pub proof fn law_every_gesture_has_a_key(mouse: MouseEvent, mode: InputMode)
    ensures
        meaning(Event::Mouse(mouse), mode) == meaning(Event::Key(key_for(mouse.kind, mode)), mode),
{
}

/// Letting a key go means nothing, in every mode.
pub proof fn law_releases_mean_nothing(key: KeyEvent, mode: InputMode)
    requires
        key.release,
    ensures
        meaning(Event::Key(key), mode) == Action::NoOp,
{
}

/// Where text is taken, a plain character is text and never a command.
pub proof fn law_characters_are_text_where_text_is_taken(c: char, mode: InputMode)
    requires
        takes_text(mode),
    ensures
        meaning(
            Event::Key(KeyEvent { code: KeyCode::Char(c), control: false, release: false }),
            mode,
        ) == Action::InputChar(c),
{
}

/// While an approval owns the screen, nothing types, pastes or submits.
pub proof fn law_an_approval_is_never_typed_past(event: Event)
    ensures
        !(meaning(event, InputMode::Approval) is InputChar),
        !(meaning(event, InputMode::Approval) is InputPaste),
        !(meaning(event, InputMode::Approval) is InputSubmit),
{
}

/// Control-C always leads out, and never types or runs a command: of a prompt, of the
/// question, or of the shell.
pub proof fn law_control_c_leads_out(key: KeyEvent, mode: InputMode)
    requires
        is_interrupt(key),
        !key.release,
    ensures
        ({
            let action = meaning(Event::Key(key), mode);
            action == Action::Detach || action == Action::InputCancel || action == Action::Dismiss
        }),
{
}

} // verus!
