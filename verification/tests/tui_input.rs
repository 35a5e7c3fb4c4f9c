//! What keys and gestures mean.
use codypendent::tui::action::Action;
use codypendent::tui::input::{
    key_bindings, map_event, pane_at, Event, KeyCode, KeyEvent, MouseEvent, MouseEventKind,
};
use codypendent::tui::protocol::{ApprovalScope, SessionEvent};
use codypendent::tui::state::{InputMode, Pane};

const W: u16 = 90;

fn key(code: KeyCode) -> Event {
    Event::Key(KeyEvent {
        code,
        control: false,
        release: false,
    })
}

fn ch(c: char) -> Event {
    key(KeyCode::Char(c))
}

fn ctrl(code: KeyCode) -> Event {
    Event::Key(KeyEvent {
        code,
        control: true,
        release: false,
    })
}

fn wheel(kind: MouseEventKind, column: u16) -> Event {
    Event::Mouse(MouseEvent {
        kind,
        column,
        row: 5,
    })
}

#[test]
fn normal_command_keys_map() {
    let normal = InputMode::Normal;
    assert_eq!(map_event(&key(KeyCode::Tab), normal, W), Action::CyclePane);
    assert_eq!(map_event(&ch('n'), normal, W), Action::NewRun);
    assert_eq!(map_event(&ch('p'), normal, W), Action::Pause);
    assert_eq!(map_event(&ch('c'), normal, W), Action::Cancel);
    assert_eq!(map_event(&ch('s'), normal, W), Action::Steer);
    assert_eq!(map_event(&ch('q'), normal, W), Action::Detach);
    assert_eq!(map_event(&ch('?'), normal, W), Action::Help);
    assert_eq!(map_event(&key(KeyCode::Enter), normal, W), Action::Expand);
    assert_eq!(
        map_event(&ch('a'), normal, W),
        Action::Approve(ApprovalScope::Once)
    );
    assert_eq!(
        map_event(&ch('A'), normal, W),
        Action::Approve(ApprovalScope::Run)
    );
    assert_eq!(map_event(&ch('r'), normal, W), Action::Reject);
    assert_eq!(map_event(&ch('S'), normal, W), Action::OpenSkills);
    assert_eq!(map_event(&ch('M'), normal, W), Action::OpenMemory);
    assert_eq!(map_event(&ch('o'), normal, W), Action::OpenSource);
    assert_eq!(map_event(&ch('D'), normal, W), Action::OpenDocs);
    assert_eq!(map_event(&ch('G'), normal, W), Action::OpenEdges);
    assert_eq!(map_event(&ch('/'), normal, W), Action::OpenPalette);
}

#[test]
fn normal_navigation_keys_map() {
    let normal = InputMode::Normal;
    assert_eq!(map_event(&ch('k'), normal, W), Action::SelectPrev);
    assert_eq!(map_event(&ch('j'), normal, W), Action::SelectNext);
    assert_eq!(map_event(&key(KeyCode::Up), normal, W), Action::SelectPrev);
    assert_eq!(map_event(&key(KeyCode::Down), normal, W), Action::SelectNext);
    assert_eq!(
        map_event(&key(KeyCode::PageUp), normal, W),
        Action::ScrollPageUp
    );
    assert_eq!(
        map_event(&key(KeyCode::PageDown), normal, W),
        Action::ScrollPageDown
    );
    assert_eq!(map_event(&key(KeyCode::Esc), normal, W), Action::Dismiss);
    assert_eq!(map_event(&ch('z'), normal, W), Action::NoOp);
    assert_eq!(map_event(&key(KeyCode::Other), normal, W), Action::NoOp);
    assert_eq!(map_event(&key(KeyCode::F(2)), normal, W), Action::NoOp);
    assert_eq!(
        map_event(&ctrl(KeyCode::Char('c')), normal, W),
        Action::Detach
    );
}

#[test]
fn palette_mode_filters_but_stays_navigable() {
    let palette = InputMode::Palette;
    assert_eq!(map_event(&ch('d'), palette, W), Action::InputChar('d'));
    assert_eq!(map_event(&key(KeyCode::Up), palette, W), Action::SelectPrev);
    assert_eq!(
        map_event(&key(KeyCode::Down), palette, W),
        Action::SelectNext
    );
    assert_eq!(
        map_event(&key(KeyCode::Enter), palette, W),
        Action::InputSubmit
    );
    assert_eq!(
        map_event(&key(KeyCode::Esc), palette, W),
        Action::InputCancel
    );
}

#[test]
fn editing_mode_routes_text_not_commands() {
    let editing = InputMode::Editing;
    assert_eq!(map_event(&ch('n'), editing, W), Action::InputChar('n'));
    assert_eq!(
        map_event(&key(KeyCode::Enter), editing, W),
        Action::InputSubmit
    );
    assert_eq!(
        map_event(&key(KeyCode::Esc), editing, W),
        Action::InputCancel
    );
    assert_eq!(
        map_event(&key(KeyCode::Backspace), editing, W),
        Action::InputBackspace
    );
    assert_eq!(
        map_event(&Event::Paste("hello".to_owned()), editing, W),
        Action::InputPaste("hello".to_owned())
    );
}

#[test]
fn pasted_text_needs_a_buffer() {
    let paste = Event::Paste("hello".to_owned());
    assert_eq!(
        map_event(&paste, InputMode::Composer, W),
        Action::InputPaste("hello".to_owned())
    );
    assert_eq!(
        map_event(&paste, InputMode::Palette, W),
        Action::InputPaste("hello".to_owned())
    );
    for mode in [InputMode::Normal, InputMode::Confirm, InputMode::Approval] {
        assert_eq!(map_event(&paste, mode, W), Action::NoOp);
    }
    assert_eq!(
        map_event(&Event::Resize(3, 4), InputMode::Composer, W),
        Action::NoOp
    );
    assert_eq!(
        map_event(&Event::FocusGained, InputMode::Composer, W),
        Action::NoOp
    );
}

#[test]
fn confirm_mode_yes_no() {
    let confirm = InputMode::Confirm;
    assert_eq!(map_event(&ch('y'), confirm, W), Action::ConfirmCancel);
    assert_eq!(
        map_event(&key(KeyCode::Enter), confirm, W),
        Action::ConfirmCancel
    );
    assert_eq!(map_event(&ch('n'), confirm, W), Action::Dismiss);
    assert_eq!(map_event(&key(KeyCode::Esc), confirm, W), Action::Dismiss);
}

#[test]
fn key_releases_are_ignored() {
    let released = Event::Key(KeyEvent {
        code: KeyCode::Char('q'),
        control: false,
        release: true,
    });
    assert_eq!(map_event(&released, InputMode::Normal, W), Action::NoOp);
}

#[test]
fn pane_hit_testing_uses_the_render_split() {
    assert_eq!(pane_at(1, W), Pane::Sessions);
    assert_eq!(pane_at(W / 2, W), Pane::Transcript);
    assert_eq!(pane_at(W - 2, W), Pane::Approvals);
}

#[test]
fn pane_edges_fall_to_the_right_side() {
    assert_eq!(pane_at(26, W), Pane::Sessions);
    assert_eq!(pane_at(27, W), Pane::Transcript);
    assert_eq!(pane_at(62, W), Pane::Transcript);
    assert_eq!(pane_at(63, W), Pane::Approvals);
    assert_eq!(pane_at(0, 0), Pane::Approvals);
    assert_eq!(pane_at(21844, 21845), Pane::Approvals);
}

#[test]
fn composer_mode_captures_text_and_controls() {
    let composer = InputMode::Composer;
    assert_eq!(map_event(&ch('h'), composer, W), Action::InputChar('h'));
    assert_eq!(map_event(&ch('/'), composer, W), Action::InputChar('/'));
    assert_eq!(
        map_event(&key(KeyCode::Enter), composer, W),
        Action::InputSubmit
    );
    assert_eq!(
        map_event(&key(KeyCode::Esc), composer, W),
        Action::InputCancel
    );
    assert_eq!(
        map_event(&key(KeyCode::PageUp), composer, W),
        Action::ScrollPageUp
    );
    assert_eq!(
        map_event(&ctrl(KeyCode::Char('c')), composer, W),
        Action::Detach
    );
    assert_eq!(map_event(&ctrl(KeyCode::Up), composer, W), Action::PrevRun);
    assert_eq!(
        map_event(&ctrl(KeyCode::Down), composer, W),
        Action::NextRun
    );
    assert_eq!(
        map_event(&key(KeyCode::F(2)), composer, W),
        Action::ToggleLayout
    );
    assert_eq!(map_event(&key(KeyCode::Up), composer, W), Action::NoOp);
    assert_eq!(map_event(&key(KeyCode::F(3)), composer, W), Action::NoOp);
    assert_eq!(
        map_event(&ctrl(KeyCode::Char('x')), composer, W),
        Action::NoOp
    );
}

#[test]
fn approval_mode_only_decision_keys() {
    let approval = InputMode::Approval;
    assert_eq!(
        map_event(&ch('a'), approval, W),
        Action::Approve(ApprovalScope::Once)
    );
    assert_eq!(
        map_event(&ch('A'), approval, W),
        Action::Approve(ApprovalScope::Run)
    );
    assert_eq!(map_event(&ch('r'), approval, W), Action::Reject);
    assert_eq!(map_event(&ch('x'), approval, W), Action::NoOp);
    assert_eq!(map_event(&key(KeyCode::Up), approval, W), Action::SelectPrev);
}

#[test]
fn every_mouse_gesture_has_a_keyboard_equivalent() {
    for binding in key_bindings() {
        if binding.mouse.is_some() {
            assert!(
                !binding.keys.is_empty(),
                "mouse gesture {:?} has no keyboard equivalent",
                binding.mouse
            );
        }
    }

    let wheel_up = map_event(&wheel(MouseEventKind::ScrollUp, 10), InputMode::Normal, W);
    assert_eq!(wheel_up, Action::SelectPrev);
    assert_eq!(wheel_up, map_event(&key(KeyCode::Up), InputMode::Normal, W));

    let wheel_down = map_event(&wheel(MouseEventKind::ScrollDown, 10), InputMode::Normal, W);
    assert_eq!(wheel_down, Action::SelectNext);
    assert_eq!(
        wheel_down,
        map_event(&key(KeyCode::Down), InputMode::Normal, W)
    );

    assert_eq!(
        map_event(&wheel(MouseEventKind::ScrollUp, 10), InputMode::Composer, W),
        Action::ScrollPageUp
    );
    assert_eq!(
        map_event(&key(KeyCode::PageUp), InputMode::Composer, W),
        Action::ScrollPageUp
    );

    let click = map_event(&wheel(MouseEventKind::LeftDown, 1), InputMode::Normal, W);
    assert_eq!(click, Action::NoOp);
}

#[test]
fn control_c_leads_out_of_every_mode() {
    let interrupt = ctrl(KeyCode::Char('c'));
    for (mode, action) in [
        (InputMode::Normal, Action::Detach),
        (InputMode::Composer, Action::Detach),
        (InputMode::Approval, Action::Detach),
        (InputMode::Editing, Action::InputCancel),
        (InputMode::Palette, Action::InputCancel),
        (InputMode::Confirm, Action::Dismiss),
    ] {
        assert_eq!(map_event(&interrupt, mode, W), action);
    }
}

#[test]
fn the_key_table_lists_twelve_bindings() {
    let table = key_bindings();
    assert_eq!(table.len(), 12);
    assert_eq!(table[0].keys, "type…");
    assert_eq!(table[4].keys, "Ctrl-↑ / Ctrl-↓");
    assert_eq!(table[5].description, "toggle layout: chat ⇄ workspace panes");
    assert_eq!(table[3].mouse, Some("wheel"));
}

#[test]
fn a_daemon_event_is_carried_whole() {
    let event = SessionEvent {
        sequence: 7,
        body: "{}".to_owned(),
    };
    assert_eq!(
        Action::daemon_event(event.clone()),
        Action::DaemonEvent(Box::new(event))
    );
}
