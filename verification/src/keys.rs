//! Keystrokes as the editing engine sees them: a key and the modifiers held
//! with it.  Whatever delivers input events converts them into these values.

use vstd::prelude::*;

verus! {

/// The key that was pressed.
#[derive(Clone, Copy, Debug, PartialEq, Eq, Structural)]
pub enum Key {
    /// A key that produces a character.
    Char(char),
    Backspace,
    Delete,
    Left,
    Right,
    Up,
    Down,
    Esc,
    /// Any key the engine has no use for.
    Other,
}

/// The modifiers held while a key was pressed.
#[derive(Clone, Copy, Debug, PartialEq, Eq, Structural)]
pub struct Modifiers {
    /// The word-jump and shortcut modifier.
    pub control: bool,
    /// The extend-selection modifier.
    pub shift: bool,
}

/// One keystroke: a key together with the modifiers held.
#[derive(Clone, Copy, Debug, PartialEq, Eq, Structural)]
pub struct KeyPress {
    pub code: Key,
    pub modifiers: Modifiers,
}

} // verus!
