//! Which of the two editable lines receives the keystrokes.

use vstd::prelude::*;
use crate::keys::{Key, KeyPress};

verus! {

/// The line that has the focus.
#[derive(Debug, Clone, Copy, PartialEq, Eq, Structural)]
pub enum Focus {
    /// The search line.
    Search,
    /// The line in which a new note is written.
    NewNote,
}

impl Default for Focus {
    fn default() -> (r: Self)
        ensures
            r == Focus::Search,
    {
        Focus::Search
    }
}

/// Whether `key` is the character `c` typed with the control modifier held.
pub open spec fn is_control_char(key: KeyPress, c: char) -> bool {
    key.modifiers.control && key.code == Key::Char(c)
}

/// Whether `key` is the character `c` typed with the control modifier held.
pub fn control_char(key: KeyPress, c: char) -> (r: bool)
    ensures
        r == is_control_char(key, c),
{
    key.modifiers.control && match key.code {
        Key::Char(typed) => typed == c,
        _ => false,
    }
}

impl Focus {
    /// The focus after `key`: control-n on the search line opens the new
    /// note, escape on the new note goes back to the search line, and no
    /// other keystroke moves the focus.
    pub open spec fn after(self, key: KeyPress) -> Focus {
        match self {
            Focus::Search => if is_control_char(key, 'n') {
                Focus::NewNote
            } else {
                Focus::Search
            },
            Focus::NewNote => if key.code == Key::Esc {
                Focus::Search
            } else {
                Focus::NewNote
            },
        }
    }

    /// Moves the focus if `key` asks for it, and says whether it moved.
    pub fn maybe_update(&mut self, key: KeyPress) -> (updated: bool)
        ensures
            *final(self) == old(self).after(key),
            updated == (*final(self) != *old(self)),
    {
        match self {
            Focus::Search => {
                if control_char(key, 'n') {
                    *self = Focus::NewNote;
                    return true;
                }
            },
            Focus::NewNote => {
                if let Key::Esc = key.code {
                    *self = Focus::Search;
                    return true;
                }
            },
        }
        false
    }
}

} // verus!
