//! The messages the note store sends back.

use vstd::prelude::*;

verus! {

/// A stored note.
#[derive(Debug, Clone, PartialEq, Eq)]
pub struct Note {
    /// The note's identifier, as a 128-bit number.
    pub id: u128,
    pub text: String,
    /// When the note was stored, in microseconds since the Unix epoch.
    pub created_at: i64,
}

/// A stored tag.
#[derive(Debug, Clone, PartialEq, Eq)]
pub struct Tag {
    /// The tag's identifier, as a 128-bit number.
    pub id: u128,
    pub name: String,
}

/// A message from the note store.
#[derive(Debug, Clone, PartialEq, Eq)]
pub enum Message {
    Notes(Vec<Note>),
    Tags(Vec<Tag>),
    Unknown(String),
}

} // verus!
