//! Input events, as plain values.
//!
//! The types follow the vocabulary of terminal input libraries: an event may
//! be a key, and a key event names the key and says whether it was pressed,
//! held or released.

use vstd::prelude::*;

verus! {

/// The key a key event is about.
#[derive(Debug, Clone, Copy, PartialEq, Eq, Structural)]
pub enum KeyCode {
    Backspace,
    Enter,
    Left,
    Right,
    Up,
    Down,
    Home,
    End,
    PageUp,
    PageDown,
    Tab,
    BackTab,
    Delete,
    Insert,
    /// A function key, by its number.
    F(u8),
    /// A character key.
    Char(char),
    Null,
    Esc,
    CapsLock,
    ScrollLock,
    NumLock,
    PrintScreen,
    Pause,
    Menu,
    KeypadBegin,
    /// Any media key.
    Media,
    /// Any modifier key on its own.
    Modifier,
}

/// What happened to the key.
#[derive(Debug, Clone, Copy, PartialEq, Eq, Structural)]
pub enum KeyEventKind {
    Press,
    Repeat,
    Release,
}

/// One key event.
#[derive(Debug, Clone, Copy, PartialEq, Eq, Structural)]
pub struct KeyEvent {
    pub code: KeyCode,
    pub kind: KeyEventKind,
}

/// One input event.
#[derive(Debug, Clone, Copy, PartialEq, Eq, Structural)]
pub enum Event {
    FocusGained,
    FocusLost,
    Key(KeyEvent),
    /// Any mouse event.
    Mouse,
    /// Pasted text.
    Paste,
    /// The terminal was resized to this many columns and rows.
    Resize(u16, u16),
}

impl KeyEvent {
    /// The press of `code`.
    pub open spec fn pressed(code: KeyCode) -> KeyEvent {
        KeyEvent { code, kind: KeyEventKind::Press }
    }

    /// A key event of the given kind.
    pub fn new(code: KeyCode, kind: KeyEventKind) -> (event: KeyEvent)
        ensures
            event == (KeyEvent { code, kind }),
    {
        KeyEvent { code, kind }
    }
}

impl From<KeyCode> for KeyEvent {
    /// A key code alone stands for the press of that key.
    fn from(code: KeyCode) -> (event: KeyEvent) {
        KeyEvent { code, kind: KeyEventKind::Press }
    }
}

impl vstd::std_specs::convert::FromSpecImpl<KeyCode> for KeyEvent {
    open spec fn obeys_from_spec() -> bool {
        true
    }

    open spec fn from_spec(code: KeyCode) -> KeyEvent {
        KeyEvent::pressed(code)
    }
}

impl Event {
    /// The key event that the loop acts on: a key *press*. Releases and
    /// repeats, and everything that is not a key, carry none.
    pub open spec fn key_press(self) -> Option<KeyEvent> {
        match self {
            Event::Key(key_event) => if key_event.kind == KeyEventKind::Press {
                Some(key_event)
            } else {
                None
            },
            _ => None,
        }
    }
}

} // verus!
