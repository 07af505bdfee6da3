//! Key events as the widgets see them.
//!
//! A terminal reports more than the widgets act on. What they read is kept
//! here as plain data: which key it was, and whether it went down, repeated
//! or came up.

use vstd::prelude::*;

verus! {

/// What happened to the key.
#[derive(Clone, Copy, Debug, PartialEq, Eq, Structural)]
pub enum KeyEventKind {
    Press,
    Repeat,
    Release,
}

/// Which key it was. Keys that no widget acts on are `Other`.
#[derive(Clone, Copy, Debug, PartialEq, Eq, Structural)]
pub enum KeyCode {
    Enter,
    Backspace,
    Left,
    Right,
    Char(char),
    Other,
}

/// One key event.
#[derive(Clone, Copy, Debug, PartialEq, Eq, Structural)]
pub struct KeyEvent {
    pub code: KeyCode,
    pub kind: KeyEventKind,
}

impl KeyEvent {
    /// Whether the widgets act on the event at all: they act on a key going
    /// down, never on its repeating or coming up.
    pub open spec fn is_press(self) -> bool {
        self.kind == KeyEventKind::Press
    }

    /// Whether the event is the key that submits the line going down.
    pub open spec fn is_submit(self) -> bool {
        self.is_press() && self.code == KeyCode::Enter
    }

    /// The press of the key `code`.
    pub fn press(code: KeyCode) -> (key: KeyEvent)
        ensures
            key == (KeyEvent { code, kind: KeyEventKind::Press }),
            key.is_press(),
    {
        KeyEvent { code, kind: KeyEventKind::Press }
    }
}

} // verus!
