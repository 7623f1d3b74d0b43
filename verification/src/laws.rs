//! What holds of the editing model as a whole: laws that relate several
//! operations, proved over the values that the operations' contracts speak
//! of.

use vstd::prelude::*;
use crate::chars::WordClass;
use crate::keys::{Key, KeyPress};
use crate::model::{EditState, RequestModel};
use crate::chars::{whitespace, TAG_MARKER};
use crate::query::{lemma_word_end, parse_from, spec_parse, word_end, QueryModel};
use crate::scan::{lemma_next_word_bound_range, spec_next_word_bound};
use crate::search::spec_move_selection;

verus! {

/// One cursor move: its direction and the modifiers held.
pub struct Move {
    pub right: bool,
    pub selecting: bool,
    pub by_word: bool,
}

/// The line after the moves `moves`, one after the other.
pub open spec fn apply_moves(state: EditState, moves: Seq<Move>, class: WordClass) -> EditState
    decreases moves.len(),
{
    if moves.len() == 0 {
        state
    } else {
        apply_moves(state, moves.drop_last(), class).move_horizontal(
            moves.last().right,
            moves.last().selecting,
            moves.last().by_word,
            class,
        )
    }
}

/// A move leaves a well-formed line well formed and its text as it was.
pub proof fn lemma_move_wf(
    state: EditState,
    right: bool,
    selecting: bool,
    by_word: bool,
    class: WordClass,
)
    requires
        state.wf(),
    ensures
        state.move_horizontal(right, selecting, by_word, class).wf(),
        state.move_horizontal(right, selecting, by_word, class).text == state.text,
{
    lemma_next_word_bound_range(state.text, state.position, right, class);
}

/// A move that does not extend the selection leaves nothing selected.
pub proof fn lemma_plain_move_clears_selection(
    state: EditState,
    right: bool,
    by_word: bool,
    class: WordClass,
)
    ensures
        state.move_horizontal(right, false, by_word, class).anchor is None,
{
}

/// After one or more moves, none of which extends the selection, nothing
/// is selected, whatever was selected before.
pub proof fn lemma_plain_moves_clear_selection(state: EditState, moves: Seq<Move>, class: WordClass)
    requires
        moves.len() > 0,
        forall|i: int| 0 <= i < moves.len() ==> !(#[trigger] moves[i]).selecting,
    ensures
        apply_moves(state, moves, class).anchor is None,
{
    let before = apply_moves(state, moves.drop_last(), class);
    lemma_plain_move_clears_selection(before, moves.last().right, moves.last().by_word, class);
}

/// A left or right arrow key pressed without the extend-selection modifier
/// leaves nothing selected.
pub proof fn lemma_plain_arrow_clears_selection(state: EditState, key: KeyPress, class: WordClass)
    requires
        key.code == Key::Left || key.code == Key::Right,
        !key.modifiers.shift,
    ensures
        state.apply_key(key, class).anchor is None,
{
}

/// Every keystroke leaves a well-formed line well formed: the cursor and
/// the anchor stay in the text, and no selection is empty.
pub proof fn lemma_key_wf(state: EditState, key: KeyPress, class: WordClass)
    requires
        state.wf(),
    ensures
        state.apply_key(key, class).wf(),
{
    match key.code {
        Key::Left => lemma_move_wf(state, false, key.modifiers.shift, key.modifiers.control, class),
        Key::Right => lemma_move_wf(state, true, key.modifiers.shift, key.modifiers.control, class),
        _ => {},
    }
}

/// A pasted text leaves a well-formed line well formed, with nothing
/// selected.
pub proof fn lemma_paste_wf(state: EditState, chars: Seq<char>)
    requires
        state.wf(),
    ensures
        state.paste(chars).wf(),
        state.paste(chars).anchor is None,
{
}

/// A word-wise jump to the left from the start of the text stays at the
/// start, and one to the right from the end of the text, or from beyond
/// it, stays at the end.
pub proof fn lemma_word_bound_at_edges(text: Seq<char>, pos: int, class: WordClass)
    ensures
        spec_next_word_bound(text, 0, false, class) == 0,
        pos >= text.len() ==> spec_next_word_bound(text, pos, true, class) == text.len(),
{
}

/// A word-wise jump repeated from where the text begins or ends changes
/// nothing: at the edges the jump is idempotent.
pub proof fn lemma_word_bound_idempotent_at_edges(text: Seq<char>, class: WordClass)
    ensures
        spec_next_word_bound(text, spec_next_word_bound(text, 0, false, class), false, class)
            == spec_next_word_bound(text, 0, false, class),
        spec_next_word_bound(
            text,
            spec_next_word_bound(text, text.len() as int, true, class),
            true,
            class,
        ) == spec_next_word_bound(text, text.len() as int, true, class),
{
    lemma_word_bound_at_edges(text, text.len() as int, class);
}

/// Cut and paste are inverse: where something is selected, taking it out
/// and pasting what was taken at the cursor gives the text back as it was,
/// the cursor at the upper end of what was selected and nothing selected.
pub proof fn lemma_cut_then_paste(state: EditState)
    requires
        state.wf(),
        state.anchor is Some,
    ensures
        state.shortcut_request('x') == RequestModel::Cut(state.selected_text()->0),
        state.delete_selection().paste(state.selected_text()->0).text == state.text,
        match state.selection_range() {
            Some((start, end)) => state.delete_selection().paste(state.selected_text()->0).position
                == end,
            None => false,
        },
        state.delete_selection().paste(state.selected_text()->0).anchor is None,
{
    let (start, end) = state.selection_range()->0;
    let taken = state.selected_text()->0;
    let cut = state.delete_selection();
    assert(cut.delete_selection() == cut);
    assert(cut.text.subrange(0, start) =~= state.text.subrange(0, start));
    assert(cut.text.subrange(start, cut.text.len() as int) =~= state.text.subrange(
        end,
        state.text.len() as int,
    ));
    assert(cut.paste(taken).text =~= state.text);
}

/// Backspace undoes typing: where nothing is selected, typing a character
/// and pressing backspace gives the line back as it was.
pub proof fn lemma_type_then_backspace(state: EditState, c: char)
    requires
        state.wf(),
        state.anchor is None,
    ensures
        state.insert_char(c).backspace() == state,
{
    let typed = state.insert_char(c);
    assert(typed.backspace().text =~= state.text);
}

/// Selecting everything and pressing backspace empties the line and puts
/// the cursor at its start.
pub proof fn lemma_select_all_then_backspace(state: EditState)
    requires
        state.wf(),
    ensures
        state.select_all().backspace() == EditState::empty(),
{
    let cleared = state.select_all().backspace();
    assert(cleared.text =~= Seq::<char>::empty());
}

/// In an empty result list the highlight is on index 0 after every move.
pub proof fn lemma_move_selection_empty(index: int, down: bool)
    ensures
        spec_move_selection(0, index, down) == 0,
{
}

/// In a list that is not empty the highlight stays in the list after every
/// move, and moves by at most one entry from where it was in the list.
pub proof fn lemma_move_selection_in_range(len: int, index: int, down: bool)
    requires
        0 < len,
    ensures
        0 <= spec_move_selection(len, index, down) < len,
        0 <= index < len ==> if down {
            index <= spec_move_selection(len, index, down) <= index + 1
        } else {
            index - 1 <= spec_move_selection(len, index, down) <= index
        },
{
}

/// The empty line holds the empty query: no tags and no free text.
pub proof fn lemma_parse_empty()
    ensures
        spec_parse(Seq::<char>::empty()) == (QueryModel {
            tags: Seq::<Seq<char>>::empty(),
            free_text: None,
        }),
{
}

/// What holds of the query read from `pos` on: no tag name holds a
/// whitespace character, and the free text, where there is any, is the
/// rest of the line from a character on that is neither whitespace nor the
/// tag marker.
pub proof fn lemma_parse_from_shape(text: Seq<char>, pos: int)
    requires
        0 <= pos <= text.len(),
    ensures
        forall|k: int, i: int|
            #![trigger parse_from(text, pos).tags[k][i]]
            0 <= k < parse_from(text, pos).tags.len() && 0 <= i < parse_from(text, pos).tags[k].len()
                ==> !whitespace(parse_from(text, pos).tags[k][i]),
        match parse_from(text, pos).free_text {
            Some(rest) => exists|start: int|
                pos <= start < text.len() && rest == text.subrange(start, text.len() as int)
                    && !whitespace(text[start]) && text[start] != TAG_MARKER,
            None => true,
        },
    decreases text.len() - pos,
{
    if pos < text.len() {
        if text[pos] == TAG_MARKER {
            let end = word_end(text, pos + 1);
            lemma_word_end(text, pos + 1);
            lemma_parse_from_shape(text, end);
            let rest = parse_from(text, end);
            let all = parse_from(text, pos);
            assert(all.tags =~= seq![text.subrange(pos + 1, end)] + rest.tags);
            assert forall|k: int, i: int|
                0 <= k < all.tags.len() && 0 <= i < all.tags[k].len() implies !whitespace(
                #[trigger] all.tags[k][i],
            ) by {
                if k == 0 {
                    assert(all.tags[0][i] == text[pos + 1 + i]);
                } else {
                    assert(all.tags[k] == rest.tags[k - 1]);
                }
            }
        } else if whitespace(text[pos]) {
            lemma_parse_from_shape(text, pos + 1);
        } else {
            assert(parse_from(text, pos).free_text == Some(text.subrange(pos, text.len() as int)));
        }
    }
}

/// No tag name of a query holds a whitespace character, and the free text,
/// where there is any, is the rest of the line from a character on that is
/// neither whitespace nor the tag marker.
pub proof fn lemma_parse_shape(text: Seq<char>)
    ensures
        forall|k: int, i: int|
            #![trigger spec_parse(text).tags[k][i]]
            0 <= k < spec_parse(text).tags.len() && 0 <= i < spec_parse(text).tags[k].len()
                ==> !whitespace(spec_parse(text).tags[k][i]),
        match spec_parse(text).free_text {
            Some(rest) => exists|start: int|
                0 <= start < text.len() && rest == text.subrange(start, text.len() as int)
                    && !whitespace(text[start]) && text[start] != TAG_MARKER,
            None => true,
        },
{
    lemma_parse_from_shape(text, 0);
}

} // verus!
