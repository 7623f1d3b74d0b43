//! The clipboard as the editing engine meets it.  The engine never touches
//! the clipboard itself: a keystroke yields a request, whoever owns the
//! clipboard carries it out, and the outcome is handed back to the engine.

use vstd::prelude::*;
use crate::model::RequestModel;

verus! {

/// Why a clipboard operation failed.
#[derive(Clone, Copy, Debug, PartialEq, Eq, Structural)]
pub enum ClipboardError {
    /// The platform clipboard could not be read or written.
    Unavailable,
}

/// What a keystroke asks of the clipboard.
#[derive(Clone, Debug, PartialEq, Eq)]
pub enum ClipboardRequest {
    /// Nothing.
    Nothing,
    /// Store this text; the line stays as it is.
    Copy(String),
    /// Store this text, then report the outcome with `complete_cut`.
    Cut(String),
    /// Fetch the stored text and hand it over with `complete_paste`.
    Paste,
}

impl View for ClipboardRequest {
    type V = RequestModel;

    open spec fn view(&self) -> RequestModel {
        match self {
            ClipboardRequest::Nothing => RequestModel::Nothing,
            ClipboardRequest::Copy(s) => RequestModel::Copy(s@),
            ClipboardRequest::Cut(s) => RequestModel::Cut(s@),
            ClipboardRequest::Paste => RequestModel::Paste,
        }
    }
}

} // verus!
