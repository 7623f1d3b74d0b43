//! What a renderer needs to draw an editable line: for each character, how
//! it is highlighted and whether it belongs to the tags of a query.
//! Colours and layout are the renderer's business.

use vstd::prelude::*;
use crate::chars::whitespace;
use crate::model::EditState;
use crate::text_box::{state_of, Cursor};

verus! {

/// How a cell stands to the cursor and the selection.
#[derive(Clone, Copy, Debug, PartialEq, Eq, Structural)]
pub enum Highlight {
    /// Neither under the cursor nor selected.
    Plain,
    /// Under the cursor.
    Cursor,
    /// Under the cursor, at the lower end of the selection.
    SelectionCursor,
    /// Selected.
    Selection,
}

/// How one cell of the line is to be drawn.
#[derive(Clone, Copy, Debug, PartialEq, Eq, Structural)]
pub struct CellStyle {
    pub highlight: Highlight,
    /// Whether the character belongs to the tags of the query.
    pub tag: bool,
}

/// The highlight of the character at `i`.
pub open spec fn spec_highlight(state: EditState, i: int) -> Highlight {
    match state.selection_range() {
        Some((start, end)) => if i == state.position {
            if i == start {
                Highlight::SelectionCursor
            } else {
                Highlight::Cursor
            }
        } else if start <= i < end {
            Highlight::Selection
        } else {
            Highlight::Plain
        },
        None => if i == state.position {
            Highlight::Cursor
        } else {
            Highlight::Plain
        },
    }
}

/// Whether a word begins at `i`: a character that is not whitespace, at the
/// start of the text or after whitespace.
pub open spec fn word_begins(text: Seq<char>, i: int) -> bool {
    0 <= i < text.len() && !whitespace(text[i]) && (i == 0 || whitespace(text[i - 1]))
}

/// The number of words that begin before `upto`.
pub open spec fn words_begun(text: Seq<char>, upto: int) -> nat
    decreases upto,
{
    if upto <= 0 {
        0
    } else {
        words_begun(text, upto - 1) + if word_begins(text, upto - 1) {
            1nat
        } else {
            0nat
        }
    }
}

/// Whether the character at `i` is drawn as part of the tags, in a line
/// whose query has `tags` tags: it is, as long as no more than `tags` words
/// have begun up to and including it.  A line without a query has no tags.
pub open spec fn spec_is_tag_cell(text: Seq<char>, i: int, tags: Option<nat>) -> bool {
    match tags {
        Some(n) => words_begun(text, i + 1) <= n,
        None => false,
    }
}

/// The style of a cursor that stands behind the last character.
pub open spec fn end_cursor_style() -> CellStyle {
    CellStyle { highlight: Highlight::Cursor, tag: false }
}

/// The styles of the cells of a line: one for each character, in order,
/// and, where the cursor stands at the end of the text, one more for the
/// blank cell that shows it.
pub open spec fn spec_cell_styles(state: EditState, tags: Option<nat>) -> Seq<CellStyle> {
    Seq::new(
        if state.position == state.text.len() {
            state.text.len() + 1
        } else {
            state.text.len()
        },
        |i: int|
            if i < state.text.len() {
                CellStyle {
                    highlight: spec_highlight(state, i),
                    tag: spec_is_tag_cell(state.text, i, tags),
                }
            } else {
                end_cursor_style()
            },
    )
}

/// The number of tags as a number of the model.
pub open spec fn tag_count(tags: Option<usize>) -> Option<nat> {
    match tags {
        Some(n) => Some(n as nat),
        None => None,
    }
}

/// The styles of the cells of the line `text` with `cursor` in it.  `tags`
/// is the number of tags of the line's query, or `None` for a line that has
/// no query.
pub fn cell_styles(text: &Vec<char>, cursor: Cursor, tags: Option<usize>) -> (styles: Vec<CellStyle>)
    ensures
        styles@ == spec_cell_styles(state_of(text@, cursor), tag_count(tags)),
{
    let ghost state = state_of(text@, cursor);
    let range: Option<(usize, usize)> = cursor.selection_range();
    let mut styles: Vec<CellStyle> = Vec::new();
    let mut words: usize = 0;
    let mut after_space: bool = true;
    let mut i: usize = 0;
    while i < text.len()
        invariant
            i <= text.len(),
            state == state_of(text@, cursor),
            range == cursor.spec_selection_range(),
            words == words_begun(text@, i as int),
            words <= i,
            after_space == (i == 0 || whitespace(text@[i - 1])),
            styles@.len() == i,
            forall|j: int|
                0 <= j < i ==> styles@[j] == (CellStyle {
                    highlight: spec_highlight(state, j),
                    tag: spec_is_tag_cell(text@, j, tag_count(tags)),
                }),
        decreases text.len() - i,
    {
        let space: bool = text[i].is_whitespace();
        if !space && after_space {
            words += 1;
        }
        after_space = space;
        let tag: bool = match tags {
            Some(n) => words <= n,
            None => false,
        };
        let highlight: Highlight = match range {
            Some((start, end)) => if i == cursor.position {
                if i == start {
                    Highlight::SelectionCursor
                } else {
                    Highlight::Cursor
                }
            } else if start <= i && i < end {
                Highlight::Selection
            } else {
                Highlight::Plain
            },
            None => if i == cursor.position {
                Highlight::Cursor
            } else {
                Highlight::Plain
            },
        };
        styles.push(CellStyle { highlight, tag });
        i += 1;
    }
    if cursor.position == text.len() {
        styles.push(CellStyle { highlight: Highlight::Cursor, tag: false });
    }
    assert(styles@ =~= spec_cell_styles(state, tag_count(tags)));
    styles
}

} // verus!
