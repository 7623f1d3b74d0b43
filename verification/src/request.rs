//! The messages a client sends to the note store.

use vstd::prelude::*;

verus! {

/// A message that only checks the connection.
#[derive(Debug, Clone, PartialEq, Eq)]
pub struct TestStruct {
    pub field1: String,
    pub field2: String,
}

/// Store a new note with these tags.
#[derive(Debug, Clone, PartialEq, Eq)]
pub struct CreateNote {
    pub text: String,
    pub tags: Vec<String>,
}

/// Store a new tag.
#[derive(Debug, Clone, PartialEq, Eq)]
pub struct CreateTag {
    pub name: String,
}

/// Ask for the notes, a page at a time.
#[derive(Debug, Clone, PartialEq, Eq)]
pub struct GetNotes {
    pub limit: Option<u32>,
    pub offset: Option<u32>,
}

/// Ask for the notes that hold `search_text` and carry all of `tags`.
#[derive(Debug, Clone, PartialEq, Eq)]
pub struct GetNotesFiltered {
    pub search_text: Option<String>,
    pub tags: Option<Vec<String>>,
    pub limit: Option<u32>,
    pub offset: Option<u32>,
}

/// A message to the note store.
#[derive(Debug, Clone, PartialEq, Eq)]
pub enum Message {
    CreateNote(CreateNote),
    CreateTag(CreateTag),
    GetNotes(GetNotes),
    GetTags,
    GetNotesFiltered(GetNotesFiltered),
    Test(TestStruct),
    Unknown(String),
}

} // verus!
