//! The loop's own representation of input notifications.
//!
//! Raw notifications from the terminal are converted into these values
//! before dispatch, so that every decision about them reads plain data.

use vstd::prelude::*;

verus! {

/// Modifier bit: shift.
pub const SHIFT: u8 = 0b0000_0001;

/// Modifier bit: control.
pub const CONTROL: u8 = 0b0000_0010;

/// Modifier bit: alt.
pub const ALT: u8 = 0b0000_0100;

/// Modifier bit: super.
pub const SUPER: u8 = 0b0000_1000;

/// Modifier bit: hyper.
pub const HYPER: u8 = 0b0001_0000;

/// Modifier bit: meta.
pub const META: u8 = 0b0010_0000;

/// A key.
#[derive(Debug, Clone, Copy, PartialEq, Eq, Structural)]
pub enum Key {
    Char(char),
    F(u8),
    Backspace,
    Enter,
    Left,
    Right,
    Up,
    Down,
    Home,
    End,
    PageUp,
    PageDown,
    Tab,
    BackTab,
    Delete,
    Insert,
    Esc,
    Null,
    CapsLock,
    ScrollLock,
    NumLock,
    PrintScreen,
    Pause,
    Menu,
    KeypadBegin,
    /// A media key or a lone modifier key.
    Other,
}

/// Whether a key went down, repeats while held, or came up. Terminals that
/// do not report repeats and releases report every key as `Press`.
#[derive(Debug, Clone, Copy, PartialEq, Eq, Structural)]
pub enum KeyKind {
    Press,
    Repeat,
    Release,
}

/// A key notification: the key, the modifier bits held with it, and what
/// the key did.
#[derive(Debug, Clone, Copy, PartialEq, Eq, Structural)]
pub struct KeyPress {
    pub code: Key,
    pub modifiers: u8,
    pub kind: KeyKind,
}

/// A pointer button.
#[derive(Debug, Clone, Copy, PartialEq, Eq, Structural)]
pub enum MouseButton {
    Left,
    Right,
    Middle,
}

/// What the pointer did.
#[derive(Debug, Clone, Copy, PartialEq, Eq, Structural)]
pub enum MouseAction {
    Down(MouseButton),
    Up(MouseButton),
    Drag(MouseButton),
    Moved,
    ScrollDown,
    ScrollUp,
    ScrollLeft,
    ScrollRight,
}

/// A pointer notification.
#[derive(Debug, Clone, Copy, PartialEq, Eq, Structural)]
pub struct MouseInput {
    pub kind: MouseAction,
    pub column: u16,
    pub row: u16,
    pub modifiers: u8,
}

/// An input notification.
#[derive(Debug, Clone)]
pub enum Event {
    Key(KeyPress),
    Mouse(MouseInput),
    Resize { width: u16, height: u16 },
    FocusGained,
    FocusLost,
    Paste(String),
}

/// The quit chord: control with `c` or `q`, and no other modifier.
pub open spec fn is_quit_chord(k: KeyPress) -> bool {
    (k.code == Key::Char('c') || k.code == Key::Char('q')) && k.modifiers == CONTROL
}

impl Event {
    /// Whether this is a key going down or repeating, not coming up.
    pub fn is_key_press(&self) -> (r: bool)
        ensures
            r == match self {
                Event::Key(k) => k.kind != KeyKind::Release,
                _ => false,
            },
    {
        match self {
            Event::Key(k) => !matches!(k.kind, KeyKind::Release),
            _ => false,
        }
    }

    /// Whether this is the quit chord.
    pub fn is_quit(&self) -> (r: bool)
        ensures
            r == match self {
                Event::Key(k) => is_quit_chord(*k),
                _ => false,
            },
    {
        match self {
            Event::Key(k) => (k.code == Key::Char('c') || k.code == Key::Char('q')) && k.modifiers
                == CONTROL,
            _ => false,
        }
    }

    /// Whether this is `code`, whatever the modifiers.
    pub fn is_key(&self, code: Key) -> (r: bool)
        ensures
            r == match self {
                Event::Key(k) => k.code == code,
                _ => false,
            },
    {
        match self {
            Event::Key(k) => k.code == code,
            _ => false,
        }
    }

    /// Whether this is `code` with exactly the modifier bits `modifiers`.
    pub fn is_key_with_modifiers(&self, code: Key, modifiers: u8) -> (r: bool)
        ensures
            r == match self {
                Event::Key(k) => k.code == code && k.modifiers == modifiers,
                _ => false,
            },
    {
        match self {
            Event::Key(k) => k.code == code && k.modifiers == modifiers,
            _ => false,
        }
    }

    /// Whether this is a pointer button going down.
    pub fn is_mouse_click(&self) -> (r: bool)
        ensures
            r == match self {
                Event::Mouse(m) => m.kind is Down,
                _ => false,
            },
    {
        match self {
            Event::Mouse(m) => matches!(m.kind, MouseAction::Down(_)),
            _ => false,
        }
    }

    /// The pointer position, as (column, row), for a pointer notification.
    pub fn mouse_position(&self) -> (r: Option<(u16, u16)>)
        ensures
            r == match self {
                Event::Mouse(m) => Some((m.column, m.row)),
                _ => None,
            },
    {
        match self {
            Event::Mouse(m) => Some((m.column, m.row)),
            _ => None,
        }
    }
}

} // verus!
