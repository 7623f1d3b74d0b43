//! What the note store does with a request: which question it puts to its
//! database, and what it answers once the database has replied.  The
//! database itself is someone else's.

use vstd::prelude::*;
use crate::request;
use crate::response;

verus! {

/// What to ask of the database for one request.
#[derive(Debug, Clone, PartialEq, Eq)]
pub enum StoreCommand {
    /// Store a note with these tags.
    CreateNote { text: String, tags: Vec<String> },
    /// Store a tag.
    CreateTag { name: String },
    /// Fetch every note.
    GetAllNotes,
    /// Fetch every tag.
    GetAllTags,
    /// Fetch the notes that hold `search_text` and carry all of `tags`.
    GetNotesFiltered { search_text: String, tags: Vec<String>, limit: Option<u32>, offset: Option<u32> },
    /// Ask nothing: this is the answer.
    Answer(response::Message),
}

/// What the database replied.
#[derive(Debug, Clone, PartialEq, Eq)]
pub enum StoreOutcome {
    Notes(Vec<response::Note>),
    Tags(Vec<response::Tag>),
    /// The database failed, with this description.
    Failed(String),
}

/// What a test message is answered with.
pub open spec fn test_reply() -> Seq<char> {
    "test message received"@
}

/// The text, or the empty text where there is none.
pub open spec fn text_or_empty(text: Option<String>) -> Seq<char> {
    match text {
        Some(s) => s@,
        None => Seq::empty(),
    }
}

/// The list's views, or none where there is no list.
pub open spec fn list_or_empty(list: Option<Vec<String>>) -> Seq<String> {
    match list {
        Some(v) => v@,
        None => Seq::empty(),
    }
}

/// Whether `command` is what the request `message` asks of the database.
pub open spec fn is_plan_for(message: request::Message, command: StoreCommand) -> bool {
    match message {
        request::Message::CreateNote(note) => command == (StoreCommand::CreateNote {
            text: note.text,
            tags: note.tags,
        }),
        request::Message::CreateTag(tag) => command == (StoreCommand::CreateTag { name: tag.name }),
        request::Message::GetNotes(_) => command == StoreCommand::GetAllNotes,
        request::Message::GetTags => command == StoreCommand::GetAllTags,
        request::Message::GetNotesFiltered(filter) => match command {
            StoreCommand::GetNotesFiltered { search_text, tags, limit, offset } => {
                &&& search_text@ == text_or_empty(filter.search_text)
                &&& tags@ == list_or_empty(filter.tags)
                &&& limit == filter.limit
                &&& offset == filter.offset
            },
            _ => false,
        },
        request::Message::Test(_) => match command {
            StoreCommand::Answer(response::Message::Unknown(text)) => text@ == test_reply(),
            _ => false,
        },
        request::Message::Unknown(kind) => command == StoreCommand::Answer(
            response::Message::Unknown(kind),
        ),
    }
}

/// What to ask of the database for `message`.  A filter without a search
/// text searches for the empty text, and one without tags for no tags; a
/// test message and a message of unknown kind are answered at once.
pub fn plan(message: request::Message) -> (command: StoreCommand)
    ensures
        is_plan_for(message, command),
{
    match message {
        request::Message::CreateNote(note) => StoreCommand::CreateNote {
            text: note.text,
            tags: note.tags,
        },
        request::Message::CreateTag(tag) => StoreCommand::CreateTag { name: tag.name },
        request::Message::GetNotes(_) => StoreCommand::GetAllNotes,
        request::Message::GetTags => StoreCommand::GetAllTags,
        request::Message::GetNotesFiltered(filter) => {
            let search_text: String = match filter.search_text {
                Some(text) => text,
                None => String::new(),
            };
            let tags: Vec<String> = match filter.tags {
                Some(tags) => tags,
                None => Vec::new(),
            };
            StoreCommand::GetNotesFiltered {
                search_text,
                tags,
                limit: filter.limit,
                offset: filter.offset,
            }
        },
        request::Message::Test(_) => StoreCommand::Answer(
            response::Message::Unknown("test message received".to_owned()),
        ),
        request::Message::Unknown(kind) => StoreCommand::Answer(response::Message::Unknown(kind)),
    }
}

/// The answer to a request once the database has replied: what it found,
/// or the description of its failure as a message of unknown kind.
pub fn respond(outcome: StoreOutcome) -> (message: response::Message)
    ensures
        message == match outcome {
            StoreOutcome::Notes(notes) => response::Message::Notes(notes),
            StoreOutcome::Tags(tags) => response::Message::Tags(tags),
            StoreOutcome::Failed(description) => response::Message::Unknown(description),
        },
{
    match outcome {
        StoreOutcome::Notes(notes) => response::Message::Notes(notes),
        StoreOutcome::Tags(tags) => response::Message::Tags(tags),
        StoreOutcome::Failed(description) => response::Message::Unknown(description),
    }
}

} // verus!
