//! Small helpers on text.

use vstd::prelude::*;

verus! {

/// The characters of a string, in order.
pub fn chars_of(text: &str) -> (chars: Vec<char>)
    ensures
        chars@ == text@,
{
    broadcast use vstd::string::group_string_axioms;

    let mut chars: Vec<char> = Vec::new();
    for c in iter: text.chars()
        invariant
            iter.seq() == text@,
            chars@ == text@.take(iter.index()),
    {
        chars.push(c);
        assert(chars@ =~= text@.take(iter.index() + 1));
    }
    assert(chars@ =~= text@);
    chars
}

} // verus!
