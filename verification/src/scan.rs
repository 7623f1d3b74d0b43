//! The word-boundary scanner: where a word-wise cursor jump lands.
//!
//! A jump first passes over the characters that are not word characters, if
//! any lie directly ahead, and then over the word that follows.  So a jump
//! from inside a word stops at its end, and a jump from between two words
//! stops at the far end of the next one.

use vstd::prelude::*;
use crate::chars::{is_word_char, spec_is_word_char, WordClass};

verus! {

/// The first position at or after `pos` at which the text ends or the
/// character is not of the class `word`: the right end of the run of
/// characters of that class that starts at `pos`.
pub open spec fn run_end(text: Seq<char>, pos: int, word: bool, class: WordClass) -> int
    decreases text.len() - pos,
{
    if 0 <= pos < text.len() && spec_is_word_char(text[pos], class) == word {
        run_end(text, pos + 1, word, class)
    } else {
        pos
    }
}

/// The last position at or before `pos` at which the text begins or the
/// character before it is not of the class `word`: the left end of the run
/// of characters of that class that ends at `pos`.
pub open spec fn run_start(text: Seq<char>, pos: int, word: bool, class: WordClass) -> int
    decreases pos,
{
    if 0 < pos <= text.len() && spec_is_word_char(text[pos - 1], class) == word {
        run_start(text, pos - 1, word, class)
    } else {
        pos
    }
}

/// `pos` brought into the text: positions past the end count as the end.
pub open spec fn clamp_pos(text: Seq<char>, pos: int) -> int {
    if pos > text.len() {
        text.len() as int
    } else {
        pos
    }
}

/// Where a word-wise jump from `pos` lands: past the run of non-word
/// characters directly ahead, then past the run of word characters after it.
pub open spec fn spec_next_word_bound(
    text: Seq<char>,
    pos: int,
    right: bool,
    class: WordClass,
) -> int {
    let p = clamp_pos(text, pos);
    if right {
        run_end(text, run_end(text, p, false, class), true, class)
    } else {
        run_start(text, run_start(text, p, false, class), true, class)
    }
}

/// A run to the right stays in the text, covers characters of its class
/// only, and stops at the end of the text or before a character of the other
/// class.
pub proof fn lemma_run_end(text: Seq<char>, pos: int, word: bool, class: WordClass)
    requires
        0 <= pos <= text.len(),
    ensures
        pos <= run_end(text, pos, word, class) <= text.len(),
        forall|i: int|
            pos <= i < run_end(text, pos, word, class) ==> spec_is_word_char(
                #[trigger] text[i],
                class,
            ) == word,
        run_end(text, pos, word, class) < text.len() ==> spec_is_word_char(
            text[run_end(text, pos, word, class)],
            class,
        ) != word,
    decreases text.len() - pos,
{
    if pos < text.len() && spec_is_word_char(text[pos], class) == word {
        lemma_run_end(text, pos + 1, word, class);
    }
}

/// A run to the left stays in the text, covers characters of its class only,
/// and stops at the start of the text or after a character of the other
/// class.
pub proof fn lemma_run_start(text: Seq<char>, pos: int, word: bool, class: WordClass)
    requires
        0 <= pos <= text.len(),
    ensures
        0 <= run_start(text, pos, word, class) <= pos,
        forall|i: int|
            run_start(text, pos, word, class) <= i < pos ==> spec_is_word_char(
                #[trigger] text[i],
                class,
            ) == word,
        run_start(text, pos, word, class) > 0 ==> spec_is_word_char(
            text[run_start(text, pos, word, class) - 1],
            class,
        ) != word,
    decreases pos,
{
    if pos > 0 && spec_is_word_char(text[pos - 1], class) == word {
        lemma_run_start(text, pos - 1, word, class);
    }
}

/// A word-wise jump lands inside the text, never behind where it started,
/// and strictly ahead wherever there is room to move.
pub proof fn lemma_next_word_bound_range(text: Seq<char>, pos: int, right: bool, class: WordClass)
    requires
        0 <= pos,
    ensures
        0 <= spec_next_word_bound(text, pos, right, class) <= text.len(),
        right ==> clamp_pos(text, pos) <= spec_next_word_bound(text, pos, right, class),
        !right ==> spec_next_word_bound(text, pos, right, class) <= clamp_pos(text, pos),
        right && pos < text.len() ==> pos < spec_next_word_bound(text, pos, right, class),
        !right && 0 < clamp_pos(text, pos) ==> spec_next_word_bound(text, pos, right, class) < clamp_pos(
            text,
            pos,
        ),
{
    let p = clamp_pos(text, pos);
    if right {
        let m = run_end(text, p, false, class);
        lemma_run_end(text, p, false, class);
        lemma_run_end(text, m, true, class);
    } else {
        let m = run_start(text, p, false, class);
        lemma_run_start(text, p, false, class);
        lemma_run_start(text, m, true, class);
    }
}

/// The shape of a jump to the right: from where it starts up to some point
/// there are no word characters, from that point up to where it lands
/// there are word characters only, and it lands at the end of the text or
/// before a character that is no word character.
pub proof fn lemma_jump_right_shape(text: Seq<char>, pos: int, class: WordClass)
    requires
        0 <= pos <= text.len(),
    ensures
        ({
            let land = spec_next_word_bound(text, pos, true, class);
            let middle = run_end(text, pos, false, class);
            &&& pos <= middle <= land <= text.len()
            &&& forall|i: int| pos <= i < middle ==> !spec_is_word_char(#[trigger] text[i], class)
            &&& forall|i: int| middle <= i < land ==> spec_is_word_char(#[trigger] text[i], class)
            &&& land < text.len() ==> !spec_is_word_char(text[land], class)
        }),
{
    let middle = run_end(text, pos, false, class);
    lemma_run_end(text, pos, false, class);
    lemma_run_end(text, middle, true, class);
}

/// The shape of a jump to the left: from where it starts back to some
/// point there are no word characters, from that point back to where it
/// lands there are word characters only, and it lands at the start of the
/// text or behind a character that is no word character.
pub proof fn lemma_jump_left_shape(text: Seq<char>, pos: int, class: WordClass)
    requires
        0 <= pos <= text.len(),
    ensures
        ({
            let land = spec_next_word_bound(text, pos, false, class);
            let middle = run_start(text, pos, false, class);
            &&& 0 <= land <= middle <= pos
            &&& forall|i: int| middle <= i < pos ==> !spec_is_word_char(#[trigger] text[i], class)
            &&& forall|i: int| land <= i < middle ==> spec_is_word_char(#[trigger] text[i], class)
            &&& land > 0 ==> !spec_is_word_char(text[land - 1], class)
        }),
{
    let middle = run_start(text, pos, false, class);
    lemma_run_start(text, pos, false, class);
    lemma_run_start(text, middle, true, class);
}

/// Passes over the run of characters of the class `word` that lies ahead of
/// `cursor` in the direction of travel.
fn skip_run(text: &[char], cursor: usize, word: bool, right: bool, class: WordClass) -> (r: usize)
    requires
        cursor <= text.len(),
    ensures
        r <= text.len(),
        right ==> r == run_end(text@, cursor as int, word, class),
        !right ==> r == run_start(text@, cursor as int, word, class),
{
    let mut cur: usize = cursor;
    if right {
        while cur < text.len() && is_word_char(text[cur], class) == word
            invariant
                cursor <= cur <= text.len(),
                run_end(text@, cur as int, word, class) == run_end(
                    text@,
                    cursor as int,
                    word,
                    class,
                ),
            decreases text.len() - cur,
        {
            cur += 1;
        }
    } else {
        while cur > 0 && is_word_char(text[cur - 1], class) == word
            invariant
                cur <= cursor <= text.len(),
                run_start(text@, cur as int, word, class) == run_start(
                    text@,
                    cursor as int,
                    word,
                    class,
                ),
            decreases cur,
        {
            cur -= 1;
        }
    }
    cur
}

/// The position at which a word-wise jump from `cursor` lands, to the right
/// or to the left.  A `cursor` past the end of the text counts as the end.
pub fn get_next_word_bound(text: &[char], cursor: usize, direction_right: bool, class: WordClass) -> (r: usize)
    ensures
        r == spec_next_word_bound(text@, cursor as int, direction_right, class),
        r <= text.len(),
        direction_right && cursor < text.len() ==> cursor < r,
        !direction_right && 0 < cursor <= text.len() ==> r < cursor,
{
    proof {
        lemma_next_word_bound_range(text@, cursor as int, direction_right, class);
    }
    let len: usize = text.len();
    let start: usize = if cursor > len { len } else { cursor };
    if !direction_right && start == 0 {
        return 0;
    }
    if direction_right && start >= len {
        return len;
    }
    // The character next to the cursor in the direction of travel decides
    // whether the jump starts inside a word.
    let starts_in_word: bool = if direction_right {
        is_word_char(text[start], class)
    } else {
        is_word_char(text[start - 1], class)
    };
    let first: usize = skip_run(text, start, starts_in_word, direction_right, class);
    if starts_in_word {
        return first;
    }
    skip_run(text, first, true, direction_right, class)
}

} // verus!
