//! Character classes, and the passage between strings and character vectors.

use vstd::prelude::*;

verus! {

/// What `char::is_alphanumeric` answers for `c`: membership in the Unicode
/// categories of letters and numbers, as the standard library's tables have it.
pub uninterp spec fn alphanumeric(c: char) -> bool;

/// What `char::is_whitespace` answers for `c`: the Unicode `White_Space`
/// property, as the standard library's tables have it.
pub uninterp spec fn whitespace(c: char) -> bool;

/// `char::is_alphanumeric` is a function of the character alone; its answer
/// is given the name [`alphanumeric`] and nothing more is claimed of it.
pub assume_specification[ char::is_alphanumeric ](c: char) -> (r: bool)
    ensures
        r == alphanumeric(c),
;

/// `char::is_whitespace` is a function of the character alone; its answer is
/// given the name [`whitespace`] and nothing more is claimed of it.
pub assume_specification[ char::is_whitespace ](c: char) -> (r: bool)
    ensures
        r == whitespace(c),
;

/// `String::push` appends one character to the end of the string.
pub assume_specification[ String::push ](s: &mut String, c: char)
    ensures
        final(s)@ == old(s)@.push(c),
;

/// The marker that opens a tag in a query.
pub const TAG_MARKER: char = '#';

/// Which characters count as part of a word when the cursor jumps by words.
#[derive(Clone, Copy, Debug, PartialEq, Eq, Structural)]
pub enum WordClass {
    /// Letters and digits only.
    Plain,
    /// Letters, digits and the tag marker, so that a whole tag is one word.
    Tagged,
}

impl Default for WordClass {
    fn default() -> (r: Self)
        ensures
            r == WordClass::Plain,
    {
        WordClass::Plain
    }
}

/// Whether `c` is a word character under `class`.
pub open spec fn spec_is_word_char(c: char, class: WordClass) -> bool {
    alphanumeric(c) || (class == WordClass::Tagged && c == TAG_MARKER)
}

/// Whether `c` is a word character under `class`.
pub fn is_word_char(c: char, class: WordClass) -> (r: bool)
    ensures
        r == spec_is_word_char(c, class),
{
    c.is_alphanumeric() || (class == WordClass::Tagged && c == TAG_MARKER)
}

/// The characters of `s`, in order.
pub fn chars_of(s: &str) -> (out: Vec<char>)
    ensures
        out@ == s@,
{
    let mut out: Vec<char> = Vec::new();
    for c in it: s.chars()
        invariant
            out@ == it.seq().take(it.index()),
            it.seq() == s@,
    {
        out.push(c);
    }
    out
}

/// The string made of the characters `v[from..to]`.
pub fn string_of(v: &Vec<char>, from: usize, to: usize) -> (out: String)
    requires
        from <= to <= v.len(),
    ensures
        out@ == v@.subrange(from as int, to as int),
{
    let mut out = String::new();
    let mut i: usize = from;
    while i < to
        invariant
            from <= i <= to <= v.len(),
            out@ == v@.subrange(from as int, i as int),
        decreases to - i,
    {
        out.push(v[i]);
        i += 1;
        assert(v@.subrange(from as int, i as int) == v@.subrange(from as int, i - 1).push(v@[i - 1]));
    }
    assert(v@.subrange(from as int, from as int) == Seq::<char>::empty());
    out
}

} // verus!
