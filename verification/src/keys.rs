//! Key presses, as far as the screens tell them apart.

use vstd::prelude::*;

verus! {

/// The key that was pressed.
#[derive(Clone, Copy, Debug, PartialEq, Eq, Structural)]
pub enum KeyCode {
    Char(char),
    Enter,
    Esc,
    Up,
    Down,
    Left,
    Right,
    Home,
    End,
    Backspace,
    Delete,
    Tab,
    BackTab,
    /// Any key that no screen reacts to.
    Other,
}

/// A key press: the key, and whether shift was held.
#[derive(Clone, Copy, Debug, PartialEq, Eq, Structural)]
pub struct KeyEvent {
    pub code: KeyCode,
    pub shift: bool,
}

impl KeyEvent {
    /// The press of `code` alone.
    pub fn plain(code: KeyCode) -> (key: KeyEvent)
        ensures
            key == (KeyEvent { code, shift: false }),
    {
        KeyEvent { code, shift: false }
    }
}

} // verus!
