//! The mathematical model of an editable line: its characters, the cursor
//! and the selection anchor, and what each editing intent makes of them.

use vstd::prelude::*;
use crate::chars::WordClass;
use crate::keys::{Key, KeyPress};
use crate::scan::spec_next_word_bound;

verus! {

/// An editable line as a value: the text, the cursor position and the other
/// end of the selection, if there is one.
pub struct EditState {
    pub text: Seq<char>,
    pub position: int,
    pub anchor: Option<int>,
}

/// What a keystroke asks of the clipboard, as a value.
pub enum RequestModel {
    Nothing,
    Copy(Seq<char>),
    Cut(Seq<char>),
    Paste,
}

impl EditState {
    /// The empty line with the cursor at its start.
    pub open spec fn empty() -> EditState {
        EditState { text: Seq::empty(), position: 0, anchor: None }
    }

    /// Positions lie in the text, and a selection is never empty.
    pub open spec fn wf(self) -> bool {
        &&& 0 <= self.position <= self.text.len()
        &&& match self.anchor {
            Some(a) => 0 <= a <= self.text.len() && a != self.position,
            None => true,
        }
    }

    /// The selected range, from its lower end up to (not including) its
    /// upper end.
    pub open spec fn selection_range(self) -> Option<(int, int)> {
        match self.anchor {
            Some(a) => Some(
                if a <= self.position {
                    (a, self.position)
                } else {
                    (self.position, a)
                },
            ),
            None => None,
        }
    }

    /// The selected characters.
    pub open spec fn selected_text(self) -> Option<Seq<char>> {
        match self.selection_range() {
            Some((start, end)) => Some(self.text.subrange(start, end)),
            None => None,
        }
    }

    /// The line without its selected characters, the cursor where they
    /// began; unchanged where nothing is selected.
    pub open spec fn delete_selection(self) -> EditState {
        match self.selection_range() {
            Some((start, end)) => EditState {
                text: self.text.subrange(0, start) + self.text.subrange(end, self.text.len() as int),
                position: start,
                anchor: None,
            },
            None => self,
        }
    }

    /// `chars` put in at the cursor, the cursor behind them.
    pub open spec fn insert_at_cursor(self, chars: Seq<char>) -> EditState {
        EditState {
            text: self.text.subrange(0, self.position) + chars + self.text.subrange(
                self.position,
                self.text.len() as int,
            ),
            position: self.position + chars.len(),
            anchor: self.anchor,
        }
    }

    /// Typing `c`: it replaces the selection, or goes in at the cursor.
    pub open spec fn insert_char(self, c: char) -> EditState {
        self.delete_selection().insert_at_cursor(seq![c])
    }

    /// Pasting `chars`: they replace the selection, or go in at the cursor.
    pub open spec fn paste(self, chars: Seq<char>) -> EditState {
        self.delete_selection().insert_at_cursor(chars)
    }

    /// The line without the character at `index`.
    pub open spec fn without_char(self, index: int) -> Seq<char> {
        self.text.subrange(0, index) + self.text.subrange(index + 1, self.text.len() as int)
    }

    /// Backspace: the selection goes, or else the character before the
    /// cursor; at the start of the line nothing happens.
    pub open spec fn backspace(self) -> EditState {
        if self.anchor is Some {
            self.delete_selection()
        } else if self.position > 0 {
            EditState {
                text: self.without_char(self.position - 1),
                position: self.position - 1,
                anchor: None,
            }
        } else {
            self
        }
    }

    /// Forward delete: the selection goes, or else the character at the
    /// cursor; at the end of the line nothing happens.
    pub open spec fn delete_forward(self) -> EditState {
        if self.anchor is Some {
            self.delete_selection()
        } else if self.position < self.text.len() {
            EditState { text: self.without_char(self.position), position: self.position, anchor: None }
        } else {
            self
        }
    }

    /// Everything selected: the anchor at the start, the cursor at the end.
    /// On the empty line there is nothing to select.
    pub open spec fn select_all(self) -> EditState {
        EditState {
            text: self.text,
            position: self.text.len() as int,
            anchor: if self.text.len() == 0 {
                None
            } else {
                Some(0)
            },
        }
    }

    /// The anchor with which a move starts: none when the selection is not
    /// being extended, the old one when there is one, else the cursor.
    pub open spec fn anchor_for_move(self, selecting: bool) -> Option<int> {
        if !selecting {
            None
        } else if self.anchor is Some {
            self.anchor
        } else {
            Some(self.position)
        }
    }

    /// Where the cursor goes on a move that is not stopped by an edge of the
    /// line: one character on, or to the next word boundary.
    pub open spec fn move_target(self, right: bool, by_word: bool, class: WordClass) -> int {
        if by_word {
            spec_next_word_bound(self.text, self.position, right, class)
        } else if right {
            self.position + 1
        } else {
            self.position - 1
        }
    }

    /// Left or right.  Without `selecting`, a selection collapses to its edge
    /// in the direction of travel and the cursor goes no further; otherwise
    /// the cursor moves, by a character or by a word, unless it stands at the
    /// edge of the line.  With `selecting` the anchor stays where the
    /// selection began, and goes when the cursor is back on it.
    pub open spec fn move_horizontal(
        self,
        right: bool,
        selecting: bool,
        by_word: bool,
        class: WordClass,
    ) -> EditState {
        if !selecting && self.selection_range() is Some {
            let (start, end) = self.selection_range()->0;
            EditState {
                text: self.text,
                position: if right {
                    end
                } else {
                    start
                },
                anchor: None,
            }
        } else {
            let anchor = self.anchor_for_move(selecting);
            let at_edge = (!right && self.position == 0) || (right && self.position
                == self.text.len());
            let position = if at_edge {
                self.position
            } else {
                self.move_target(right, by_word, class)
            };
            EditState {
                text: self.text,
                position,
                anchor: if anchor == Some(position) {
                    None
                } else {
                    anchor
                },
            }
        }
    }

    /// Whether `c`, typed with the shortcut modifier held, is a shortcut:
    /// select all, copy, cut or paste.
    pub open spec fn is_shortcut(c: char) -> bool {
        c == 'a' || c == 'c' || c == 'x' || c == 'v'
    }

    /// What the shortcut `c` asks of the clipboard: copy and cut ask for the
    /// selected text to be stored, if there is any; paste asks for the
    /// stored text.
    pub open spec fn shortcut_request(self, c: char) -> RequestModel {
        if c == 'c' {
            match self.selected_text() {
                Some(t) => RequestModel::Copy(t),
                None => RequestModel::Nothing,
            }
        } else if c == 'x' {
            match self.selected_text() {
                Some(t) => RequestModel::Cut(t),
                None => RequestModel::Nothing,
            }
        } else if c == 'v' {
            RequestModel::Paste
        } else {
            RequestModel::Nothing
        }
    }

    /// What the shortcut `c` does to the line at once: select-all selects;
    /// copy, cut and paste change nothing until the clipboard has answered.
    pub open spec fn apply_shortcut(self, c: char) -> EditState {
        if c == 'a' {
            self.select_all()
        } else {
            self
        }
    }

    /// The line after the keystroke `key`.
    pub open spec fn apply_key(self, key: KeyPress, class: WordClass) -> EditState {
        match key.code {
            Key::Char(c) => if key.modifiers.control && Self::is_shortcut(c) {
                self.apply_shortcut(c)
            } else {
                self.insert_char(c)
            },
            Key::Backspace => self.backspace(),
            Key::Delete => self.delete_forward(),
            Key::Left => self.move_horizontal(false, key.modifiers.shift, key.modifiers.control, class),
            Key::Right => self.move_horizontal(true, key.modifiers.shift, key.modifiers.control, class),
            _ => self,
        }
    }

    /// What the keystroke `key` asks of the clipboard.
    pub open spec fn key_request(self, key: KeyPress) -> RequestModel {
        match key.code {
            Key::Char(c) => if key.modifiers.control {
                self.shortcut_request(c)
            } else {
                RequestModel::Nothing
            },
            _ => RequestModel::Nothing,
        }
    }
}

} // verus!
