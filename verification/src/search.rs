//! The search line, whose text is read as a query after every keystroke,
//! and the list of notes that the query found.

use vstd::prelude::*;
use crate::chars::WordClass;
use crate::clipboard::{ClipboardError, ClipboardRequest};
use crate::keys::KeyPress;
use crate::model::EditState;
use crate::query::{parse_chars, spec_parse, view_of, views_of, QueryModel};
use crate::render::{cell_styles, spec_cell_styles, CellStyle};
use crate::request::GetNotesFiltered;
use crate::response;
use crate::text_box::InteractiveTextBox;

verus! {

/// How many notes a query asks for.
pub const RESULT_LIMIT: u32 = 10;

/// The search line: an editable line together with the query that its text
/// holds.  The query is derived from the text and never set by itself.
#[derive(Debug, Clone)]
pub struct SearchBox {
    text_box: InteractiveTextBox,
    parsed_tags: Vec<String>,
    parsed_search_text: Option<String>,
}

impl Default for SearchBox {
    fn default() -> (r: Self)
        ensures
            r.wf(),
            r.line() == EditState::empty(),
            r.inner().spec_title() == "Search"@,
    {
        let r = SearchBox {
            text_box: InteractiveTextBox::default().title("Search".to_owned()).word_class(
                WordClass::Tagged,
            ),
            parsed_tags: Vec::new(),
            parsed_search_text: None,
        };
        assert(views_of(r.parsed_tags@) =~= Seq::<Seq<char>>::empty());
        r
    }
}

impl SearchBox {
    /// The editable line of the search box.
    pub closed spec fn inner(&self) -> InteractiveTextBox {
        self.text_box
    }

    /// The line as a value.
    pub open spec fn line(&self) -> EditState {
        self.inner()@
    }

    /// The query that the box holds.
    pub closed spec fn query(&self) -> QueryModel {
        QueryModel { tags: views_of(self.parsed_tags@), free_text: view_of(self.parsed_search_text) }
    }

    /// The line is well formed, a tag counts as one word in it, and the
    /// query is the one that its text holds.
    pub open spec fn wf(&self) -> bool {
        &&& self.line().wf()
        &&& self.inner().spec_word_class() == WordClass::Tagged
        &&& self.query() == spec_parse(self.line().text)
    }

    /// The editable line.
    pub fn text_box(&self) -> (t: &InteractiveTextBox)
        ensures
            *t == self.inner(),
    {
        &self.text_box
    }

    /// The tags of the query, in order.
    pub fn parsed_tags(&self) -> (tags: &Vec<String>)
        ensures
            views_of(tags@) == self.query().tags,
    {
        &self.parsed_tags
    }

    /// The free text of the query, if it has any.
    pub fn parsed_search_text(&self) -> (text: &Option<String>)
        ensures
            view_of(*text) == self.query().free_text,
    {
        &self.parsed_search_text
    }

    /// Whether the line is well formed, a tag counts as one word in it, and
    /// the query is the one that its text holds.
    pub fn is_well_formed(&self) -> (r: bool)
        ensures
            r == self.wf(),
    {
        let tagged: bool = match self.text_box.word_chars() {
            WordClass::Tagged => true,
            WordClass::Plain => false,
        };
        if !(self.text_box.is_well_formed() && tagged) {
            return false;
        }
        let (tags, search_text) = parse_chars(self.text_box.chars());
        let same_text: bool = match (&self.parsed_search_text, &search_text) {
            (Some(held), Some(read)) => *held == *read,
            (None, None) => true,
            _ => false,
        };
        if !same_text || tags.len() != self.parsed_tags.len() {
            assert(views_of(tags@).len() == tags@.len());
            assert(views_of(self.parsed_tags@).len() == self.parsed_tags@.len());
            return false;
        }
        let mut i: usize = 0;
        while i < tags.len()
            invariant
                i <= tags.len() == self.parsed_tags.len(),
                views_of(tags@) == spec_parse(self.line().text).tags,
                forall|j: int| 0 <= j < i ==> tags@[j]@ == self.parsed_tags@[j]@,
            decreases tags.len() - i,
        {
            if tags[i] != self.parsed_tags[i] {
                assert(views_of(tags@)[i as int] != views_of(self.parsed_tags@)[i as int]);
                return false;
            }
            i += 1;
        }
        assert(views_of(tags@) =~= views_of(self.parsed_tags@));
        true
    }

    /// Reads the query anew from the text of the line.
    fn derive_query(&mut self)
        ensures
            final(self).inner() == old(self).inner(),
            final(self).query() == spec_parse(old(self).line().text),
    {
        let (tags, search_text) = parse_chars(self.text_box.chars());
        self.parsed_tags = tags;
        self.parsed_search_text = search_text;
    }

    /// Applies one keystroke to the line, reads the query anew, and says
    /// what the keystroke asks of the clipboard.
    pub fn handle_key_event(&mut self, key: KeyPress) -> (r: ClipboardRequest)
        requires
            old(self).wf(),
        ensures
            final(self).wf(),
            final(self).line() == old(self).line().apply_key(key, WordClass::Tagged),
            final(self).inner().same_frame(&old(self).inner()),
            r@ == old(self).line().key_request(key),
    {
        let r = self.text_box.handle_key_event(key);
        self.derive_query();
        r
    }

    /// Finishes a cut once the clipboard has answered, and reads the query
    /// anew.
    pub fn complete_cut(&mut self, stored: Result<(), ClipboardError>) -> (r: Result<
        (),
        ClipboardError,
    >)
        requires
            old(self).wf(),
        ensures
            final(self).wf(),
            r == stored,
            stored is Ok ==> final(self).line() == old(self).line().delete_selection(),
            stored is Err ==> final(self).line() == old(self).line(),
            final(self).inner().same_frame(&old(self).inner()),
    {
        let r = self.text_box.complete_cut(stored);
        self.derive_query();
        r
    }

    /// Finishes a paste once the clipboard has answered, and reads the
    /// query anew.
    pub fn complete_paste(&mut self, fetched: Result<String, ClipboardError>) -> (r: Result<
        (),
        ClipboardError,
    >)
        requires
            old(self).wf(),
        ensures
            final(self).wf(),
            match fetched {
                Ok(text) => r is Ok && final(self).line() == old(self).line().paste(text@),
                Err(e) => r == Err::<(), ClipboardError>(e) && final(self).line() == old(
                    self,
                ).line(),
            },
            final(self).inner().same_frame(&old(self).inner()),
    {
        let r = self.text_box.complete_paste(fetched);
        self.derive_query();
        r
    }

    /// The styles of the cells of the line, the leading tags marked.
    pub fn cell_styles(&self) -> (styles: Vec<CellStyle>)
        ensures
            styles@ == spec_cell_styles(self.line(), Some(self.query().tags.len())),
    {
        cell_styles(self.text_box.chars(), self.text_box.cursor(), Some(self.parsed_tags.len()))
    }

    /// The request that asks the note store for what the query describes:
    /// the free text, the tags, and the first page of results.
    pub fn notes_request(&self) -> (r: GetNotesFiltered)
        ensures
            view_of(r.search_text) == self.query().free_text,
            r.tags is Some,
            views_of(r.tags->0@) == self.query().tags,
            r.limit == Some(RESULT_LIMIT),
            r.offset == Some(0u32),
    {
        let search_text: Option<String> = match &self.parsed_search_text {
            Some(text) => Some(text.clone()),
            None => None,
        };
        let mut tags: Vec<String> = Vec::new();
        let mut i: usize = 0;
        while i < self.parsed_tags.len()
            invariant
                i <= self.parsed_tags.len(),
                tags@.len() == i,
                forall|j: int| 0 <= j < i ==> tags@[j]@ == self.parsed_tags@[j]@,
            decreases self.parsed_tags.len() - i,
        {
            tags.push(self.parsed_tags[i].clone());
            i += 1;
        }
        assert(views_of(tags@) =~= views_of(self.parsed_tags@));
        GetNotesFiltered { search_text, tags: Some(tags), limit: Some(RESULT_LIMIT), offset: Some(0) }
    }
}

/// A note as the result list shows it.
#[derive(Debug, Clone)]
pub struct Note(pub response::Note);

impl Note {
    /// The list entry for `note`.
    pub fn new(note: response::Note) -> (r: Self)
        ensures
            r.0 == note,
    {
        Note(note)
    }

    /// The text of the note.
    pub fn text(&self) -> (t: String)
        ensures
            t@ == self.0.text@,
    {
        self.0.text.clone()
    }
}

impl From<response::Note> for Note {
    fn from(note: response::Note) -> (r: Self) {
        Note(note)
    }
}

impl vstd::std_specs::convert::FromSpecImpl<response::Note> for Note {
    open spec fn obeys_from_spec() -> bool {
        true
    }

    open spec fn from_spec(note: response::Note) -> Self {
        Note(note)
    }
}

/// The notes that the last query found, and the one that is highlighted.
/// The highlighted index is 0 in an empty list and within the list
/// otherwise, after every operation.
#[derive(Debug, Clone)]
pub struct SearchResultsBox {
    pub search_results: Vec<Note>,
    pub selected_index: usize,
}

impl Default for SearchResultsBox {
    fn default() -> (r: Self)
        ensures
            r.search_results@ == Seq::<Note>::empty(),
            r.selected_index == 0,
    {
        SearchResultsBox { search_results: Vec::new(), selected_index: 0 }
    }
}

/// The index that is highlighted after a move in a list of `len` entries
/// with the entry at `index` highlighted: one further down or up, but never
/// past the first or the last entry; 0 in an empty list.
pub open spec fn spec_move_selection(len: int, index: int, down: bool) -> int {
    let target = if down {
        index + 1
    } else {
        index - 1
    };
    if len <= 0 || target < 0 {
        0
    } else if target > len - 1 {
        len - 1
    } else {
        target
    }
}

impl SearchResultsBox {
    /// The highlighted index lies in the list, or is 0 where the list is
    /// empty.
    pub open spec fn wf(&self) -> bool {
        if self.search_results@.len() == 0 {
            self.selected_index == 0
        } else {
            self.selected_index < self.search_results@.len()
        }
    }

    /// Replaces the list by `notes`, in their order, and highlights the
    /// first.
    pub fn set_notes(&mut self, notes: Vec<response::Note>)
        ensures
            final(self).selected_index == 0,
            final(self).search_results@.len() == notes@.len(),
            forall|i: int| 0 <= i < notes@.len() ==> final(self).search_results@[i].0 == notes@[i],
            final(self).wf(),
    {
        let ghost given = notes@;
        let mut results: Vec<Note> = Vec::new();
        for note in it: notes
            invariant
                it.seq() == given,
                results@.len() == it.index(),
                forall|i: int| 0 <= i < results@.len() ==> results@[i].0 == given[i],
        {
            results.push(Note::from(note));
        }
        self.search_results = results;
        self.selected_index = 0;
    }

    /// Moves the highlight one entry down or up, stopping at the ends of
    /// the list.
    pub fn move_selection(&mut self, direction_down: bool)
        ensures
            final(self).search_results == old(self).search_results,
            final(self).selected_index == spec_move_selection(
                old(self).search_results@.len() as int,
                old(self).selected_index as int,
                direction_down,
            ),
            final(self).wf(),
    {
        let len: usize = self.search_results.len();
        if len == 0 {
            self.selected_index = 0;
            return ;
        }
        self.selected_index = if direction_down {
            if self.selected_index >= len - 1 {
                len - 1
            } else {
                self.selected_index + 1
            }
        } else {
            if self.selected_index == 0 {
                0
            } else if self.selected_index > len {
                len - 1
            } else {
                self.selected_index - 1
            }
        };
    }
}

} // verus!
