//! The state of the client and what each event makes of it.  Input, the
//! clipboard and the connection to the note store are someone else's: an
//! event comes in, the state changes, and the answer says what to ask of
//! the clipboard and what to send to the store.

use vstd::prelude::*;
use crate::chars::{chars_of, WordClass, TAG_MARKER};
use crate::clipboard::{ClipboardError, ClipboardRequest};
use crate::focus::{control_char, is_control_char, Focus};
use crate::keys::{Key, KeyPress};
use crate::model::{EditState, RequestModel};
use crate::query::{view_of, views_of, QueryModel};
use crate::request;
use crate::response;
use crate::search::{spec_move_selection, SearchBox, SearchResultsBox, RESULT_LIMIT};
use crate::text_box::{InteractiveTextBox, TextBox};

verus! {

/// What `String`'s `Debug` formatting makes of the characters `s`: the text
/// in double quotes, with the characters escaped that Rust escapes there.
pub uninterp spec fn debug_form(s: Seq<char>) -> Seq<char>;

/// The standard library's `Debug` formatting of a string, through
/// `format!`.  The result depends on the characters alone; it is given the
/// name [`debug_form`] and nothing more is claimed of it.
#[verifier::external_body]
fn debug_string(s: &String) -> (r: String)
    ensures
        r@ == debug_form(s@),
{
    format!("{s:?}")
}

/// The separator between the lines of the response box.
pub const LINE_BREAK: char = '\n';

/// `lines` one after the other, a line break between each two.
pub open spec fn join_lines(lines: Seq<Seq<char>>) -> Seq<char>
    decreases lines.len(),
{
    if lines.len() == 0 {
        Seq::empty()
    } else if lines.len() == 1 {
        lines[0]
    } else {
        join_lines(lines.drop_last()) + seq![LINE_BREAK] + lines.last()
    }
}

/// The texts of `notes`, in order.
pub open spec fn note_lines(notes: Seq<response::Note>) -> Seq<Seq<char>> {
    Seq::new(notes.len(), |i: int| notes[i].text@)
}

/// The names of `tags`, in order, each behind the tag marker.
pub open spec fn tag_lines(tags: Seq<response::Tag>) -> Seq<Seq<char>> {
    Seq::new(tags.len(), |i: int| seq![TAG_MARKER] + tags[i].name@)
}

/// What the response box shows for `message`: the notes' texts or the
/// tags' names, one to a line, or an unknown message as Rust writes a
/// string for debugging.
pub open spec fn spec_response_text(message: response::Message) -> Seq<char> {
    match message {
        response::Message::Notes(notes) => join_lines(note_lines(notes@)),
        response::Message::Tags(tags) => join_lines(tag_lines(tags@)),
        response::Message::Unknown(text) => debug_form(text@),
    }
}

/// Puts `line` behind `text`, after a line break unless it is the first
/// line.
fn push_line(text: &mut Vec<char>, line: &Vec<char>, first: bool)
    ensures
        first ==> final(text)@ == old(text)@ + line@,
        !first ==> final(text)@ == old(text)@ + seq![LINE_BREAK] + line@,
{
    if !first {
        text.push(LINE_BREAK);
    }
    let mut i: usize = 0;
    let ghost start = text@;
    while i < line.len()
        invariant
            i <= line.len(),
            text@ == start + line@.subrange(0, i as int),
        decreases line.len() - i,
    {
        text.push(line[i]);
        i += 1;
        assert(line@.subrange(0, i as int) =~= line@.subrange(0, i - 1).push(line@[i - 1]));
    }
    assert(line@.subrange(0, line@.len() as int) =~= line@);
}

/// What the response box shows for `message`.
pub fn response_text(message: &response::Message) -> (text: Vec<char>)
    ensures
        text@ == spec_response_text(*message),
{
    match message {
        response::Message::Notes(notes) => {
            let mut text: Vec<char> = Vec::new();
            let mut i: usize = 0;
            while i < notes.len()
                invariant
                    i <= notes.len(),
                    text@ == join_lines(note_lines(notes@).subrange(0, i as int)),
                decreases notes.len() - i,
            {
                let line: Vec<char> = chars_of(notes[i].text.as_str());
                push_line(&mut text, &line, i == 0);
                i += 1;
                proof {
                    let lines = note_lines(notes@).subrange(0, i as int);
                    assert(lines.drop_last() =~= note_lines(notes@).subrange(0, i - 1));
                    assert(lines.last() == line@);
                }
            }
            assert(note_lines(notes@).subrange(0, notes@.len() as int) =~= note_lines(notes@));
            text
        },
        response::Message::Tags(tags) => {
            let mut text: Vec<char> = Vec::new();
            let mut i: usize = 0;
            while i < tags.len()
                invariant
                    i <= tags.len(),
                    text@ == join_lines(tag_lines(tags@).subrange(0, i as int)),
                decreases tags.len() - i,
            {
                let mut line: Vec<char> = Vec::new();
                line.push(TAG_MARKER);
                let mut name: Vec<char> = chars_of(tags[i].name.as_str());
                line.append(&mut name);
                push_line(&mut text, &line, i == 0);
                i += 1;
                proof {
                    let lines = tag_lines(tags@).subrange(0, i as int);
                    assert(lines.drop_last() =~= tag_lines(tags@).subrange(0, i - 1));
                    assert(lines.last() =~= line@);
                }
            }
            assert(tag_lines(tags@).subrange(0, tags@.len() as int) =~= tag_lines(tags@));
            text
        },
        response::Message::Unknown(text) => chars_of(debug_string(text).as_str()),
    }
}

/// The client: whether it is running, which line has the focus, the search
/// line with its results, the box that shows the last response, and the
/// line in which a new note is written.
#[derive(Debug)]
pub struct AppState {
    pub running: bool,
    pub focus: Focus,
    pub search: SearchBox,
    pub search_results: SearchResultsBox,
    pub response_box: TextBox,
    pub new_note: InteractiveTextBox,
}

/// What a keystroke leaves for others to do.
#[derive(Debug)]
pub struct KeyOutcome {
    /// What to ask of the clipboard.
    pub clipboard: ClipboardRequest,
    /// What to send to the note store, if anything.
    pub request: Option<request::Message>,
}

/// What becomes of a keystroke.
pub enum KeyRoute {
    /// It ends the program.
    Exit,
    /// It moves the focus.
    Focus,
    /// It moves the highlight in the result list.
    Selection,
    /// It goes to the line that has the focus.
    Edit,
}

/// Whether `key` ends the program: control-q on the search line.
pub open spec fn is_exit_key(focus: Focus, key: KeyPress) -> bool {
    focus == Focus::Search && is_control_char(key, 'q')
}

/// What becomes of `key` under `focus`.
pub open spec fn route(focus: Focus, key: KeyPress) -> KeyRoute {
    if is_exit_key(focus, key) {
        KeyRoute::Exit
    } else if focus.after(key) != focus {
        KeyRoute::Focus
    } else if key.code == Key::Up || key.code == Key::Down {
        KeyRoute::Selection
    } else {
        KeyRoute::Edit
    }
}

/// Whether `key`, handled by the search line, calls for a new query: every
/// character key, backspace and delete do.
pub open spec fn asks_for_notes(key: KeyPress) -> bool {
    key.code is Char || key.code == Key::Backspace || key.code == Key::Delete
}

/// Whether `message` asks the note store for what `query` describes.
pub open spec fn is_notes_request(message: request::Message, query: QueryModel) -> bool {
    match message {
        request::Message::GetNotesFiltered(r) => {
            &&& view_of(r.search_text) == query.free_text
            &&& r.tags is Some
            &&& views_of(r.tags->0@) == query.tags
            &&& r.limit == Some(RESULT_LIMIT)
            &&& r.offset == Some(0u32)
        },
        _ => false,
    }
}

/// Whether `request` is what is sent after an edit of the search line whose
/// query is now `query`: a request for the notes where one is `due`, none
/// where it is not.
pub open spec fn is_request_for(
    request: Option<request::Message>,
    due: bool,
    query: QueryModel,
) -> bool {
    match request {
        Some(message) => due && is_notes_request(message, query),
        None => !due,
    }
}

impl AppState {
    /// Both lines are well formed, and so is the result list.
    pub open spec fn wf(&self) -> bool {
        &&& self.search.wf()
        &&& self.new_note@.wf()
        &&& self.search_results.wf()
    }

    /// Whether both lines and the result list are well formed.
    pub fn is_well_formed(&self) -> (r: bool)
        ensures
            r == self.wf(),
    {
        let len: usize = self.search_results.search_results.len();
        let in_list: bool = if len == 0 {
            self.search_results.selected_index == 0
        } else {
            self.search_results.selected_index < len
        };
        self.search.is_well_formed() && self.new_note.is_well_formed() && in_list
    }

    /// Whether `after` is this state with, at most, other contents in the
    /// two lines and the result list.
    pub open spec fn same_session(&self, after: &AppState) -> bool {
        &&& after.running == self.running
        &&& after.focus == self.focus
        &&& after.response_box == self.response_box
    }

    /// Whether `after` and `outcome` are what the keystroke `key` makes of
    /// this state.
    pub open spec fn key_effect(&self, key: KeyPress, after: &AppState, outcome: &KeyOutcome) -> bool {
        match route(self.focus, key) {
            KeyRoute::Exit => {
                &&& !after.running
                &&& after.focus == self.focus
                &&& after.response_box == self.response_box
                &&& after.search == self.search
                &&& after.new_note == self.new_note
                &&& after.search_results == self.search_results
                &&& outcome.clipboard@ == RequestModel::Nothing
                &&& outcome.request is None
            },
            KeyRoute::Focus => {
                &&& after.running == self.running
                &&& after.focus == self.focus.after(key)
                &&& after.response_box == self.response_box
                &&& after.search == self.search
                &&& after.new_note == self.new_note
                &&& after.search_results == self.search_results
                &&& outcome.clipboard@ == RequestModel::Nothing
                &&& outcome.request is None
            },
            KeyRoute::Selection => {
                &&& self.same_session(after)
                &&& after.search == self.search
                &&& after.new_note == self.new_note
                &&& after.search_results.search_results == self.search_results.search_results
                &&& after.search_results.selected_index == spec_move_selection(
                    self.search_results.search_results@.len() as int,
                    self.search_results.selected_index as int,
                    key.code == Key::Down,
                )
                &&& outcome.clipboard@ == RequestModel::Nothing
                &&& outcome.request is None
            },
            KeyRoute::Edit => {
                &&& self.same_session(after)
                &&& after.search_results == self.search_results
                &&& match self.focus {
                    Focus::Search => {
                        &&& after.new_note == self.new_note
                        &&& after.search.line() == self.search.line().apply_key(
                            key,
                            WordClass::Tagged,
                        )
                        &&& after.search.inner().same_frame(&self.search.inner())
                        &&& outcome.clipboard@ == self.search.line().key_request(key)
                        &&& is_request_for(
                            outcome.request,
                            asks_for_notes(key),
                            after.search.query(),
                        )
                    },
                    Focus::NewNote => {
                        &&& after.search == self.search
                        &&& after.new_note@ == self.new_note@.apply_key(
                            key,
                            self.new_note.spec_word_class(),
                        )
                        &&& after.new_note.same_frame(&self.new_note)
                        &&& outcome.clipboard@ == self.new_note@.key_request(key)
                        &&& outcome.request is None
                    },
                }
            },
        }
    }

    /// The client before it runs: the focus on the empty search line, no
    /// results, nothing shown, and an empty line titled "New Note".
    pub fn new() -> (r: Self)
        ensures
            r.wf(),
            !r.running,
            r.focus == Focus::Search,
            r.search.line() == EditState::empty(),
            r.search_results.search_results@.len() == 0,
            r.response_box.text@ == Seq::<char>::empty(),
            r.new_note@ == EditState::empty(),
            r.new_note.spec_title() == "New Note"@,
    {
        AppState {
            running: false,
            focus: Focus::default(),
            search: SearchBox::default(),
            search_results: SearchResultsBox::default(),
            response_box: TextBox::default(),
            new_note: InteractiveTextBox::default().title("New Note".to_owned()),
        }
    }

    /// Stops the client.
    pub fn quit(&mut self)
        ensures
            !final(self).running,
            final(self).focus == old(self).focus,
            final(self).search == old(self).search,
            final(self).search_results == old(self).search_results,
            final(self).response_box == old(self).response_box,
            final(self).new_note == old(self).new_note,
    {
        self.running = false;
    }

    /// Stops the client if `key` is the exit key, and says whether it was.
    pub fn maybe_exit(&mut self, key: KeyPress) -> (exits: bool)
        ensures
            exits == is_exit_key(old(self).focus, key),
            final(self).running == (old(self).running && !exits),
            final(self).focus == old(self).focus,
            final(self).search == old(self).search,
            final(self).search_results == old(self).search_results,
            final(self).response_box == old(self).response_box,
            final(self).new_note == old(self).new_note,
    {
        let on_search: bool = match self.focus {
            Focus::Search => true,
            Focus::NewNote => false,
        };
        if on_search && control_char(key, 'q') {
            self.quit();
            return true;
        }
        false
    }

    /// The request for the notes that the search line's query describes.
    fn notes_request(&self) -> (message: request::Message)
        ensures
            is_notes_request(message, self.search.query()),
    {
        request::Message::GetNotesFiltered(self.search.notes_request())
    }

    /// Handles one keystroke: it ends the program, moves the focus, moves
    /// the highlight in the result list, or goes to the line that has the
    /// focus.  After an edit of the search line the answer holds the
    /// request for the notes that the query now describes.
    pub fn on_key_event(&mut self, key: KeyPress) -> (outcome: KeyOutcome)
        requires
            old(self).wf(),
        ensures
            final(self).wf(),
            old(self).key_effect(key, final(self), &outcome),
    {
        if self.maybe_exit(key) || self.focus.maybe_update(key) {
            return KeyOutcome { clipboard: ClipboardRequest::Nothing, request: None };
        }
        match key.code {
            Key::Up => {
                self.search_results.move_selection(false);
                return KeyOutcome { clipboard: ClipboardRequest::Nothing, request: None };
            },
            Key::Down => {
                self.search_results.move_selection(true);
                return KeyOutcome { clipboard: ClipboardRequest::Nothing, request: None };
            },
            _ => {},
        }
        match self.focus {
            Focus::Search => {
                let clipboard = self.search.handle_key_event(key);
                // Every key that can change the text calls for a new query.
                let due: bool = match key.code {
                    Key::Char(_) => true,
                    Key::Backspace => true,
                    Key::Delete => true,
                    _ => false,
                };
                let request = if due {
                    Some(self.notes_request())
                } else {
                    None
                };
                KeyOutcome { clipboard, request }
            },
            Focus::NewNote => {
                let clipboard = self.new_note.handle_key_event(key);
                KeyOutcome { clipboard, request: None }
            },
        }
    }

    /// Finishes a cut in the line that has the focus once the clipboard has
    /// answered.  Where the text was stored, the selection is taken out,
    /// and after a cut in the search line the answer holds the request for
    /// the notes that the query now describes.  Where it was not stored,
    /// nothing changes and the error is handed on.
    pub fn complete_cut(&mut self, stored: Result<(), ClipboardError>) -> (r: Result<
        Option<request::Message>,
        ClipboardError,
    >)
        requires
            old(self).wf(),
        ensures
            final(self).wf(),
            old(self).same_session(final(self)),
            final(self).search_results == old(self).search_results,
            match stored {
                Ok(_) => {
                    &&& r is Ok
                    &&& match old(self).focus {
                        Focus::Search => {
                            &&& final(self).new_note == old(self).new_note
                            &&& final(self).search.line() == old(
                                self,
                            ).search.line().delete_selection()
                            &&& final(self).search.inner().same_frame(&old(self).search.inner())
                            &&& is_request_for(r->Ok_0, true, final(self).search.query())
                        },
                        Focus::NewNote => {
                            &&& final(self).search == old(self).search
                            &&& final(self).new_note@ == old(self).new_note@.delete_selection()
                            &&& final(self).new_note.same_frame(&old(self).new_note)
                            &&& r->Ok_0 is None
                        },
                    }
                },
                Err(e) => {
                    &&& r == Err::<Option<request::Message>, ClipboardError>(e)
                    &&& final(self).search == old(self).search
                    &&& final(self).new_note == old(self).new_note
                },
            },
    {
        match stored {
            Ok(_) => match self.focus {
                Focus::Search => {
                    let _ = self.search.complete_cut(stored);
                    Ok(Some(self.notes_request()))
                },
                Focus::NewNote => {
                    let _ = self.new_note.complete_cut(stored);
                    Ok(None)
                },
            },
            Err(e) => Err(e),
        }
    }

    /// Finishes a paste in the line that has the focus once the clipboard
    /// has answered.  Where text was fetched, it goes into the line, and
    /// after a paste in the search line the answer holds the request for
    /// the notes that the query now describes.  Where none was fetched,
    /// nothing changes and the error is handed on.
    pub fn complete_paste(&mut self, fetched: Result<String, ClipboardError>) -> (r: Result<
        Option<request::Message>,
        ClipboardError,
    >)
        requires
            old(self).wf(),
        ensures
            final(self).wf(),
            old(self).same_session(final(self)),
            final(self).search_results == old(self).search_results,
            match fetched {
                Ok(text) => {
                    &&& r is Ok
                    &&& match old(self).focus {
                        Focus::Search => {
                            &&& final(self).new_note == old(self).new_note
                            &&& final(self).search.line() == old(self).search.line().paste(text@)
                            &&& final(self).search.inner().same_frame(&old(self).search.inner())
                            &&& is_request_for(r->Ok_0, true, final(self).search.query())
                        },
                        Focus::NewNote => {
                            &&& final(self).search == old(self).search
                            &&& final(self).new_note@ == old(self).new_note@.paste(text@)
                            &&& final(self).new_note.same_frame(&old(self).new_note)
                            &&& r->Ok_0 is None
                        },
                    }
                },
                Err(e) => {
                    &&& r == Err::<Option<request::Message>, ClipboardError>(e)
                    &&& final(self).search == old(self).search
                    &&& final(self).new_note == old(self).new_note
                },
            },
    {
        match fetched {
            Ok(text) => match self.focus {
                Focus::Search => {
                    let _ = self.search.complete_paste(Ok(text));
                    Ok(Some(self.notes_request()))
                },
                Focus::NewNote => {
                    let _ = self.new_note.complete_paste(Ok(text));
                    Ok(None)
                },
            },
            Err(e) => Err(e),
        }
    }

    /// Takes in a message from the note store, if one came: the response
    /// box shows it, and notes replace the result list, the first of them
    /// highlighted.
    pub fn handle_websocket_message(&mut self, message: Option<response::Message>)
        requires
            old(self).wf(),
        ensures
            final(self).wf(),
            final(self).running == old(self).running,
            final(self).focus == old(self).focus,
            final(self).search == old(self).search,
            final(self).new_note == old(self).new_note,
            final(self).response_box.title == old(self).response_box.title,
            match message {
                Some(m) => {
                    &&& final(self).response_box.text@ == spec_response_text(m)
                    &&& match m {
                        response::Message::Notes(notes) => {
                            &&& final(self).search_results.selected_index == 0
                            &&& final(self).search_results.search_results@.len() == notes@.len()
                            &&& forall|i: int|
                                0 <= i < notes@.len() ==> final(self).search_results.search_results@[i].0
                                    == notes@[i]
                        },
                        _ => final(self).search_results == old(self).search_results,
                    }
                },
                None => {
                    &&& final(self).response_box == old(self).response_box
                    &&& final(self).search_results == old(self).search_results
                },
            },
    {
        match message {
            Some(m) => {
                self.response_box.text = response_text(&m);
                match m {
                    response::Message::Notes(notes) => {
                        self.search_results.set_notes(notes);
                    },
                    _ => {},
                }
            },
            None => {},
        }
    }
}

} // verus!
