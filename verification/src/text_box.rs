//! The text boxes: a titled line of text, and the editable line with its
//! cursor and selection that keystrokes act on.

use vstd::prelude::*;
use crate::chars::{chars_of, string_of, WordClass};
use crate::clipboard::{ClipboardError, ClipboardRequest};
use crate::keys::{Key, KeyPress, Modifiers};
use crate::model::EditState;
use crate::render::{cell_styles, spec_cell_styles, CellStyle};
use crate::scan::get_next_word_bound;

verus! {

/// The insertion point of a line and the other end of its selection.
#[derive(Debug, Clone, Copy)]
pub struct Cursor {
    pub position: usize,
    pub selection_anchor: Option<usize>,
}

impl Default for Cursor {
    fn default() -> (r: Self)
        ensures
            r == (Cursor { position: 0, selection_anchor: None }),
    {
        Cursor { position: 0, selection_anchor: None }
    }
}

impl Cursor {
    /// The selected range, lower end first; `None` without an anchor.
    pub open spec fn spec_selection_range(&self) -> Option<(usize, usize)> {
        match self.selection_anchor {
            Some(a) => Some(
                if a <= self.position {
                    (a, self.position)
                } else {
                    (self.position, a)
                },
            ),
            None => None,
        }
    }

    /// The selected range, lower end first; `None` without an anchor.
    pub fn selection_range(&self) -> (r: Option<(usize, usize)>)
        ensures
            r == self.spec_selection_range(),
    {
        match self.selection_anchor {
            Some(a) => if a <= self.position {
                Some((a, self.position))
            } else {
                Some((self.position, a))
            },
            None => None,
        }
    }

    /// Puts the cursor at `offset` and discards the selection.
    pub fn collapse_to(&mut self, offset: usize)
        ensures
            *final(self) == (Cursor { position: offset, selection_anchor: None }),
    {
        self.position = offset;
        self.selection_anchor = None;
    }
}

/// The line that `text` and `cursor` make.
pub open spec fn state_of(text: Seq<char>, cursor: Cursor) -> EditState {
    EditState {
        text,
        position: cursor.position as int,
        anchor: match cursor.selection_anchor {
            Some(a) => Some(a as int),
            None => None,
        },
    }
}

/// A titled box that shows a line of text.
#[derive(Debug, Clone)]
pub struct TextBox {
    pub title: String,
    pub text: Vec<char>,
}

impl Default for TextBox {
    fn default() -> (r: Self)
        ensures
            r.title@ == Seq::<char>::empty(),
            r.text@ == Seq::<char>::empty(),
    {
        TextBox { title: String::new(), text: Vec::new() }
    }
}

impl TextBox {
    /// The box with its title replaced.
    pub fn title(self, title: String) -> (r: Self)
        ensures
            r.title == title,
            r.text == self.text,
    {
        let mut r = self;
        r.title = title;
        r
    }

    /// The box with its text replaced by the characters of `text`.
    pub fn text(self, text: String) -> (r: Self)
        ensures
            r.title == self.title,
            r.text@ == text@,
    {
        let mut r = self;
        r.text = chars_of(text.as_str());
        r
    }

    /// The text as a string.
    pub fn text_string(&self) -> (s: String)
        ensures
            s@ == self.text@,
    {
        let s = string_of(&self.text, 0, self.text.len());
        assert(self.text@.subrange(0, self.text@.len() as int) == self.text@);
        s
    }
}

/// Takes the characters `text[start..end]` out of `text`.
fn remove_range(text: &mut Vec<char>, start: usize, end: usize)
    requires
        start <= end <= old(text).len(),
    ensures
        final(text)@ == old(text)@.subrange(0, start as int) + old(text)@.subrange(
            end as int,
            old(text)@.len() as int,
        ),
{
    let mut tail = text.split_off(end);
    text.truncate(start);
    text.append(&mut tail);
    assert(old(text)@.subrange(0, end as int).subrange(0, start as int) == old(text)@.subrange(
        0,
        start as int,
    ));
}

/// Puts `items` into `text` before the character at `at`.
fn insert_all(text: &mut Vec<char>, at: usize, items: Vec<char>)
    requires
        at <= old(text).len(),
    ensures
        final(text)@ == old(text)@.subrange(0, at as int) + items@ + old(text)@.subrange(
            at as int,
            old(text)@.len() as int,
        ),
{
    let mut items = items;
    let mut tail = text.split_off(at);
    text.append(&mut items);
    text.append(&mut tail);
}

/// An editable line: a text box with a cursor and a selection.  Its fields
/// are its own, so every value is one that its operations made: the cursor
/// and the anchor lie in the text, and the anchor, where there is one, is
/// never where the cursor is (`self@.wf()`).
#[derive(Debug)]
pub struct InteractiveTextBox {
    text_box: TextBox,
    cursor: Cursor,
    word_class: WordClass,
}

impl View for InteractiveTextBox {
    type V = EditState;

    closed spec fn view(&self) -> EditState {
        state_of(self.text_box.text@, self.cursor)
    }
}

impl Clone for InteractiveTextBox {
    fn clone(&self) -> (r: Self)
        ensures
            r@ == self@,
            r.same_frame(self),
    {
        let text = self.text_box.text.clone();
        assert(text@ =~= self.text_box.text@);
        InteractiveTextBox {
            text_box: TextBox { title: self.text_box.title.clone(), text },
            cursor: self.cursor,
            word_class: self.word_class,
        }
    }
}

impl Default for InteractiveTextBox {
    fn default() -> (r: Self)
        ensures
            r@ == EditState::empty(),
            r@.wf(),
            r.spec_title() == Seq::<char>::empty(),
            r.spec_word_class() == WordClass::Plain,
    {
        InteractiveTextBox {
            text_box: TextBox { title: String::new(), text: Vec::new() },
            cursor: Cursor { position: 0, selection_anchor: None },
            word_class: WordClass::Plain,
        }
    }
}

impl InteractiveTextBox {
    /// The title of the box.
    pub closed spec fn spec_title(&self) -> Seq<char> {
        self.text_box.title@
    }

    /// The word characters of word-wise moves in this box.
    pub closed spec fn spec_word_class(&self) -> WordClass {
        self.word_class
    }

    /// Whether `other` has the title and the word characters of this box.
    pub open spec fn same_frame(&self, other: &Self) -> bool {
        self.spec_title() == other.spec_title() && self.spec_word_class()
            == other.spec_word_class()
    }

    /// The box with its title replaced.
    pub fn title(self, title: String) -> (r: Self)
        ensures
            r@ == self@,
            r.spec_title() == title@,
            r.spec_word_class() == self.spec_word_class(),
    {
        InteractiveTextBox {
            text_box: TextBox { title, text: self.text_box.text },
            cursor: self.cursor,
            word_class: self.word_class,
        }
    }

    /// The box with `class` deciding what a word is.
    pub fn word_class(self, class: WordClass) -> (r: Self)
        ensures
            r@ == self@,
            r.spec_title() == self.spec_title(),
            r.spec_word_class() == class,
    {
        InteractiveTextBox { text_box: self.text_box, cursor: self.cursor, word_class: class }
    }

    /// The cursor and the selection anchor.
    pub fn cursor(&self) -> (c: Cursor)
        ensures
            state_of(self@.text, c) == self@,
    {
        self.cursor
    }

    /// What counts as a word character in word-wise moves.
    pub fn word_chars(&self) -> (class: WordClass)
        ensures
            class == self.spec_word_class(),
    {
        self.word_class
    }

    /// The characters of the line.
    pub fn chars(&self) -> (t: &Vec<char>)
        ensures
            t@ == self@.text,
    {
        &self.text_box.text
    }

    /// The title and the text of the line.
    pub fn text_box(&self) -> (t: &TextBox)
        ensures
            t.title@ == self.spec_title(),
            t.text@ == self@.text,
    {
        &self.text_box
    }

    /// The styles of the cells of the line.
    pub fn cell_styles(&self) -> (styles: Vec<CellStyle>)
        ensures
            styles@ == spec_cell_styles(self@, None),
    {
        cell_styles(&self.text_box.text, self.cursor, None)
    }

    /// Whether the cursor and the anchor lie in the text and differ.
    pub fn is_well_formed(&self) -> (r: bool)
        ensures
            r == self@.wf(),
    {
        let len: usize = self.text_box.text.len();
        self.cursor.position <= len && match self.cursor.selection_anchor {
            Some(a) => a <= len && a != self.cursor.position,
            None => true,
        }
    }

    /// The selected range, lower end first; `None` where nothing is selected.
    pub fn get_selection_range(&self) -> (r: Option<(usize, usize)>)
        ensures
            match r {
                Some((start, end)) => self@.selection_range() == Some((start as int, end as int)),
                None => self@.selection_range() is None,
            },
    {
        self.cursor.selection_range()
    }

    /// The selected characters as a string; `None` where nothing is selected.
    pub fn get_selection(&self) -> (r: Option<String>)
        requires
            self@.wf(),
        ensures
            match r {
                Some(s) => self@.selected_text() == Some(s@),
                None => self@.selected_text() is None,
            },
    {
        match self.get_selection_range() {
            Some((start, end)) => Some(string_of(&self.text_box.text, start, end)),
            None => None,
        }
    }

    /// Takes the selected characters out and puts the cursor where they
    /// began.  Says whether there was a selection.
    pub fn delete_selection(&mut self) -> (deleted: bool)
        requires
            old(self)@.wf(),
        ensures
            deleted == old(self)@.anchor is Some,
            final(self)@ == old(self)@.delete_selection(),
            final(self)@.wf(),
            final(self).same_frame(old(self)),
    {
        match self.get_selection_range() {
            Some((start, end)) => {
                remove_range(&mut self.text_box.text, start, end);
                self.cursor.collapse_to(start);
                true
            },
            None => false,
        }
    }

    /// Types `c`: it replaces the selection, or goes in at the cursor, and
    /// the cursor moves behind it.
    pub fn insert_char(&mut self, c: char)
        requires
            old(self)@.wf(),
        ensures
            final(self)@ == old(self)@.insert_char(c),
            final(self)@.wf(),
            final(self).same_frame(old(self)),
    {
        self.delete_selection();
        let at: usize = self.cursor.position;
        let ghost before = self@;
        self.text_box.text.insert(at, c);
        let len: usize = self.text_box.text.len();
        self.cursor.position = at + 1;
        assert(self@.text =~= before.insert_at_cursor(seq![c]).text);
    }

    /// Backspace: takes out the selection, or else the character before the
    /// cursor; at the start of the line it does nothing.
    pub fn backspace(&mut self)
        requires
            old(self)@.wf(),
        ensures
            final(self)@ == old(self)@.backspace(),
            final(self)@.wf(),
            final(self).same_frame(old(self)),
    {
        if self.delete_selection() {
            return ;
        }
        if self.cursor.position > 0 {
            let at: usize = self.cursor.position - 1;
            self.text_box.text.remove(at);
            self.cursor.position = at;
            assert(self@.text =~= old(self)@.without_char(at as int));
        }
    }

    /// Forward delete: takes out the selection, or else the character at the
    /// cursor; at the end of the line it does nothing.
    pub fn delete_forward(&mut self)
        requires
            old(self)@.wf(),
        ensures
            final(self)@ == old(self)@.delete_forward(),
            final(self)@.wf(),
            final(self).same_frame(old(self)),
    {
        if self.delete_selection() {
            return ;
        }
        if self.cursor.position < self.text_box.text.len() {
            let at: usize = self.cursor.position;
            self.text_box.text.remove(at);
            assert(self@.text =~= old(self)@.without_char(at as int));
        }
    }

    /// Selects the whole line: the anchor at its start, the cursor at its
    /// end.  On the empty line there is nothing to select.
    pub fn select_all(&mut self)
        requires
            old(self)@.wf(),
        ensures
            final(self)@ == old(self)@.select_all(),
            final(self)@.wf(),
            final(self).same_frame(old(self)),
    {
        let len: usize = self.text_box.text.len();
        self.cursor.position = len;
        self.cursor.selection_anchor = if len == 0 {
            None
        } else {
            Some(0)
        };
    }

    /// Moves the cursor left or right.  `modifiers.shift` extends the
    /// selection, `modifiers.control` moves by a word.  Without shift a
    /// selection collapses to its edge in the direction of travel.
    pub fn handle_horizontal_move(&mut self, direction_right: bool, modifiers: Modifiers)
        requires
            old(self)@.wf(),
        ensures
            final(self)@ == old(self)@.move_horizontal(
                direction_right,
                modifiers.shift,
                modifiers.control,
                old(self).spec_word_class(),
            ),
            final(self)@.wf(),
            final(self).same_frame(old(self)),
    {
        let selecting: bool = modifiers.shift;
        let position: usize = self.cursor.position;
        let len: usize = self.text_box.text.len();
        if !selecting {
            if let Some((start, end)) = self.get_selection_range() {
                self.cursor.collapse_to(
                    if direction_right {
                        end
                    } else {
                        start
                    },
                );
                return ;
            }
        }
        // The anchor this move starts with: where the selection began, or
        // the cursor when a selection begins now.
        let anchor: Option<usize> = if !selecting {
            None
        } else if self.cursor.selection_anchor.is_none() {
            Some(position)
        } else {
            self.cursor.selection_anchor
        };
        let at_edge: bool = (!direction_right && position == 0) || (direction_right && position
            == len);
        let target: usize = if at_edge {
            position
        } else if modifiers.control {
            get_next_word_bound(self.text_box.text.as_slice(), position, direction_right, self.word_class)
        } else if direction_right {
            position + 1
        } else {
            position - 1
        };
        // A selection that shrinks to nothing is no selection.
        let kept: Option<usize> = match anchor {
            Some(a) => if a == target {
                None
            } else {
                Some(a)
            },
            None => None,
        };
        self.cursor.position = target;
        self.cursor.selection_anchor = kept;
    }

    /// Carries out the shortcut `c` where `modifiers.control` is held.
    /// `None`: this was no shortcut and nothing happened.  Otherwise select
    /// all has been done, and for copy, cut and paste the answer says what
    /// to ask of the clipboard; the line changes only when the outcome comes
    /// back through `complete_cut` or `complete_paste`.
    pub fn handle_shortcut(&mut self, c: char, modifiers: Modifiers) -> (r: Option<ClipboardRequest>)
        requires
            old(self)@.wf(),
        ensures
            final(self)@.wf(),
            final(self).same_frame(old(self)),
            modifiers.control && EditState::is_shortcut(c) ==> r is Some && r->0@ == old(
                self,
            )@.shortcut_request(c) && final(self)@ == old(self)@.apply_shortcut(c),
            !(modifiers.control && EditState::is_shortcut(c)) ==> r is None && final(self)@ == old(
                self,
            )@,
    {
        if !modifiers.control {
            return None;
        }
        match c {
            'a' => {
                self.select_all();
                Some(ClipboardRequest::Nothing)
            },
            'c' => match self.get_selection() {
                Some(selection) => Some(ClipboardRequest::Copy(selection)),
                None => Some(ClipboardRequest::Nothing),
            },
            'x' => match self.get_selection() {
                Some(selection) => Some(ClipboardRequest::Cut(selection)),
                None => Some(ClipboardRequest::Nothing),
            },
            'v' => Some(ClipboardRequest::Paste),
            _ => None,
        }
    }

    /// Applies one keystroke to the line and says what it asks of the
    /// clipboard.
    pub fn handle_key_event(&mut self, key: KeyPress) -> (r: ClipboardRequest)
        requires
            old(self)@.wf(),
        ensures
            final(self)@ == old(self)@.apply_key(key, old(self).spec_word_class()),
            r@ == old(self)@.key_request(key),
            final(self)@.wf(),
            final(self).same_frame(old(self)),
    {
        match key.code {
            Key::Char(c) => {
                match self.handle_shortcut(c, key.modifiers) {
                    Some(request) => request,
                    None => {
                        self.insert_char(c);
                        ClipboardRequest::Nothing
                    },
                }
            },
            Key::Backspace => {
                self.backspace();
                ClipboardRequest::Nothing
            },
            Key::Delete => {
                self.delete_forward();
                ClipboardRequest::Nothing
            },
            Key::Left => {
                self.handle_horizontal_move(false, key.modifiers);
                ClipboardRequest::Nothing
            },
            Key::Right => {
                self.handle_horizontal_move(true, key.modifiers);
                ClipboardRequest::Nothing
            },
            _ => ClipboardRequest::Nothing,
        }
    }

    /// Finishes a cut once the clipboard has answered.  Where the text was
    /// stored, the selection is taken out; where it was not, the line stays
    /// as it is and the error is handed on.
    pub fn complete_cut(&mut self, stored: Result<(), ClipboardError>) -> (r: Result<
        (),
        ClipboardError,
    >)
        requires
            old(self)@.wf(),
        ensures
            r == stored,
            stored is Ok ==> final(self)@ == old(self)@.delete_selection(),
            stored is Err ==> final(self)@ == old(self)@,
            final(self)@.wf(),
            final(self).same_frame(old(self)),
    {
        if stored.is_ok() {
            self.delete_selection();
        }
        stored
    }

    /// Finishes a paste once the clipboard has answered.  Where text was
    /// fetched, it replaces the selection or goes in at the cursor, and the
    /// cursor moves behind it; where none was, the line stays as it is and
    /// the error is handed on.
    pub fn complete_paste(&mut self, fetched: Result<String, ClipboardError>) -> (r: Result<
        (),
        ClipboardError,
    >)
        requires
            old(self)@.wf(),
        ensures
            match fetched {
                Ok(text) => r is Ok && final(self)@ == old(self)@.paste(text@),
                Err(e) => r == Err::<(), ClipboardError>(e) && final(self)@ == old(self)@,
            },
            final(self)@.wf(),
            final(self).same_frame(old(self)),
    {
        match fetched {
            Ok(text) => {
                let items: Vec<char> = chars_of(text.as_str());
                self.delete_selection();
                let at: usize = self.cursor.position;
                let ghost before = self@;
                let count: usize = items.len();
                insert_all(&mut self.text_box.text, at, items);
                let len: usize = self.text_box.text.len();
                self.cursor.position = at + count;
                Ok(())
            },
            Err(e) => Err(e),
        }
    }
}

} // verus!
