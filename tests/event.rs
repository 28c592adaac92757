use interax_tui_fwk::event::{ALT, CONTROL, SHIFT};
use interax_tui_fwk::{Event, Key, KeyKind, KeyPress, MouseAction, MouseButton, MouseInput};

fn key(code: Key, modifiers: u8) -> Event {
    Event::Key(KeyPress {
        code,
        modifiers,
        kind: KeyKind::Press,
    })
}

fn mouse(kind: MouseAction) -> Event {
    Event::Mouse(MouseInput {
        kind,
        column: 12,
        row: 3,
        modifiers: 0,
    })
}

#[test]
fn quit_chord_is_control_c_or_q_alone() {
    assert!(key(Key::Char('c'), CONTROL).is_quit());
    assert!(key(Key::Char('q'), CONTROL).is_quit());
    assert!(!key(Key::Char('q'), 0).is_quit());
    assert!(!key(Key::Char('c'), CONTROL | SHIFT).is_quit());
    assert!(!key(Key::Char('x'), CONTROL).is_quit());
    assert!(!Event::FocusGained.is_quit());
}

#[test]
fn key_matching() {
    let e = key(Key::Tab, ALT);
    assert!(e.is_key(Key::Tab));
    assert!(!e.is_key(Key::BackTab));
    assert!(e.is_key_with_modifiers(Key::Tab, ALT));
    assert!(!e.is_key_with_modifiers(Key::Tab, 0));
    assert!(!Event::Paste("x".to_string()).is_key(Key::Char('x')));
}

#[test]
fn mouse_queries() {
    let down = mouse(MouseAction::Down(MouseButton::Left));
    assert!(down.is_mouse_click());
    assert_eq!(down.mouse_position(), Some((12, 3)));
    let moved = mouse(MouseAction::Moved);
    assert!(!moved.is_mouse_click());
    assert_eq!(moved.mouse_position(), Some((12, 3)));
    let resize = Event::Resize {
        width: 80,
        height: 24,
    };
    assert!(!resize.is_mouse_click());
    assert_eq!(resize.mouse_position(), None);
}

#[test]
fn key_kind_is_kept() {
    let release = Event::Key(KeyPress {
        code: Key::Enter,
        modifiers: 0,
        kind: KeyKind::Release,
    });
    assert!(!release.is_key_press());
    assert!(release.is_key(Key::Enter));
    assert!(key(Key::Enter, 0).is_key_press());
    let repeat = Event::Key(KeyPress {
        code: Key::Down,
        modifiers: 0,
        kind: KeyKind::Repeat,
    });
    assert!(repeat.is_key_press());
    assert!(!Event::FocusLost.is_key_press());
}
