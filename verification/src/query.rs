//! The query of a search line: its leading `#tags` and the free text that
//! follows them.
//!
//! The line is read as words separated by whitespace.  Each leading word
//! that begins with the tag marker is a tag, named by what follows the
//! marker up to the end of the word.  The first word that does not begin
//! with the marker starts the free text, which runs to the end of the line
//! as it stands, whatever it holds.

use vstd::prelude::*;
use crate::chars::{chars_of, string_of, whitespace, TAG_MARKER};

verus! {

/// A query as a value: the tag names in order, and the free text if any.
pub struct QueryModel {
    pub tags: Seq<Seq<char>>,
    pub free_text: Option<Seq<char>>,
}

/// The first position at or after `pos` at which the text ends or a
/// whitespace character stands: the end of the word around `pos`.
pub open spec fn word_end(text: Seq<char>, pos: int) -> int
    decreases text.len() - pos,
{
    if 0 <= pos < text.len() && !whitespace(text[pos]) {
        word_end(text, pos + 1)
    } else {
        pos
    }
}

/// The end of a word lies in the text, at or after its start; no character
/// of the word is whitespace, and the word ends at the end of the text or
/// before a whitespace character.
pub proof fn lemma_word_end(text: Seq<char>, pos: int)
    requires
        0 <= pos <= text.len(),
    ensures
        pos <= word_end(text, pos) <= text.len(),
        forall|i: int| pos <= i < word_end(text, pos) ==> !whitespace(#[trigger] text[i]),
        word_end(text, pos) < text.len() ==> whitespace(text[word_end(text, pos)]),
    decreases text.len() - pos,
{
    if pos < text.len() && !whitespace(text[pos]) {
        lemma_word_end(text, pos + 1);
    }
}

/// The query that the text holds from `pos` on, where `pos` is not inside a
/// word.
pub open spec fn parse_from(text: Seq<char>, pos: int) -> QueryModel
    decreases text.len() - pos,
{
    if !(0 <= pos < text.len()) {
        QueryModel { tags: Seq::empty(), free_text: None }
    } else if text[pos] == TAG_MARKER {
        let end = word_end(text, pos + 1);
        proof {
            lemma_word_end(text, pos + 1);
        }
        let rest = parse_from(text, end);
        QueryModel { tags: seq![text.subrange(pos + 1, end)] + rest.tags, free_text: rest.free_text }
    } else if whitespace(text[pos]) {
        parse_from(text, pos + 1)
    } else {
        QueryModel { tags: Seq::empty(), free_text: Some(text.subrange(pos, text.len() as int)) }
    }
}

/// The query that `text` holds.
pub open spec fn spec_parse(text: Seq<char>) -> QueryModel {
    parse_from(text, 0)
}

/// The character sequences of `strings`, in order.
pub open spec fn views_of(strings: Seq<String>) -> Seq<Seq<char>> {
    Seq::new(strings.len(), |i: int| strings[i]@)
}

/// The character sequence of `text`, if there is one.
pub open spec fn view_of(text: Option<String>) -> Option<Seq<char>> {
    match text {
        Some(s) => Some(s@),
        None => None,
    }
}

/// The end of the word around `pos`.
fn find_word_end(text: &Vec<char>, pos: usize) -> (end: usize)
    requires
        pos <= text.len(),
    ensures
        end == word_end(text@, pos as int),
        pos <= end <= text.len(),
{
    let mut end: usize = pos;
    while end < text.len() && !text[end].is_whitespace()
        invariant
            pos <= end <= text.len(),
            word_end(text@, end as int) == word_end(text@, pos as int),
        decreases text.len() - end,
    {
        end += 1;
    }
    end
}

/// Reads the characters of a search line: the tag names in order, and the
/// free text if there is any.
pub fn parse_chars(text: &Vec<char>) -> (r: (Vec<String>, Option<String>))
    ensures
        views_of(r.0@) == spec_parse(text@).tags,
        view_of(r.1) == spec_parse(text@).free_text,
{
    let mut tags: Vec<String> = Vec::new();
    let mut free_text: Option<String> = None;
    let mut pos: usize = 0;
    let len: usize = text.len();
    assert(views_of(tags@) =~= Seq::<Seq<char>>::empty());
    while pos < len
        invariant
            pos <= len == text.len(),
            free_text is None,
            spec_parse(text@).tags == views_of(tags@) + parse_from(text@, pos as int).tags,
            spec_parse(text@).free_text == parse_from(text@, pos as int).free_text,
        decreases len - pos,
    {
        let c: char = text[pos];
        if c == TAG_MARKER {
            let end: usize = find_word_end(text, pos + 1);
            let name: String = string_of(text, pos + 1, end);
            let ghost before = tags@;
            tags.push(name);
            assert(views_of(tags@) =~= views_of(before) + seq![name@]);
            assert(views_of(tags@) + parse_from(text@, end as int).tags =~= views_of(before)
                + parse_from(text@, pos as int).tags);
            pos = end;
        } else if c.is_whitespace() {
            pos += 1;
        } else {
            free_text = Some(string_of(text, pos, len));
            assert(views_of(tags@) + Seq::<Seq<char>>::empty() =~= views_of(tags@));
            return (tags, free_text);
        }
    }
    assert(views_of(tags@) + Seq::<Seq<char>>::empty() =~= views_of(tags@));
    (tags, free_text)
}

/// Reads a search line: the tag names in order, and the free text if there
/// is any.
pub fn parse_search_text(text: &str) -> (r: (Vec<String>, Option<String>))
    ensures
        views_of(r.0@) == spec_parse(text@).tags,
        view_of(r.1) == spec_parse(text@).free_text,
{
    let chars: Vec<char> = chars_of(text);
    parse_chars(&chars)
}

} // verus!
