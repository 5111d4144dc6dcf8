//! Input events, reduced to what the viewer decides on.

use vstd::prelude::*;

verus! {

/// The key that an event carries: a character, or any other key.
#[derive(Clone, Copy, Debug, PartialEq, Eq)]
pub enum KeyCode {
    Char(char),
    Other,
}

/// Whether a key went down, is held, or came up.
#[derive(Clone, Copy, Debug, PartialEq, Eq)]
pub enum KeyEventKind {
    Press,
    Repeat,
    Release,
}

/// One key transition.
#[derive(Clone, Copy, Debug, PartialEq, Eq)]
pub struct KeyEvent {
    pub code: KeyCode,
    pub kind: KeyEventKind,
}

/// One terminal event: a key transition, or anything else (mouse, resize,
/// focus, paste).
#[derive(Clone, Copy, Debug, PartialEq, Eq)]
pub enum Event {
    Key(KeyEvent),
    Other,
}

/// The key that ends the viewer.
pub const KEY_QUIT: char = 'q';

/// The key that moves the selection one entry up.
pub const KEY_UP: char = 'k';

/// The key that moves the selection one entry down.
pub const KEY_DOWN: char = 'j';

impl Event {
    /// Whether the event is a press of the quit key.
    pub open spec fn is_quit(self) -> bool {
        self == Event::Key(KeyEvent { code: KeyCode::Char(KEY_QUIT), kind: KeyEventKind::Press })
    }
}

} // verus!
