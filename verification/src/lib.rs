//! A single-line text editing engine for a terminal note client: a text
//! buffer with a cursor and a selection, keystroke-driven editing, word-wise
//! navigation, and the derivation of a structured query (tags and free text)
//! from the buffer.  Positions are offsets in characters, never in bytes.

pub mod app_state;
pub mod chars;
pub mod clipboard;
pub mod engine;
pub mod focus;
pub mod keys;
pub mod laws;
pub mod model;
pub mod query;
pub mod render;
pub mod request;
pub mod response;
pub mod scan;
pub mod search;
pub mod text_box;
