//! Include tags in template sources.
//!
//! A template includes another one with a tag that opens with two braces
//! and goes on with `>`, or with `#` and `>` where the include has a block;
//! a `~` and white space may stand in between. The engine follows includes
//! without counting how deep it is, so the service takes no source that
//! holds such a tag. The test here looks at the characters alone: it also
//! finds the tag inside a comment or a raw block, where the engine would
//! pass over it.

use vstd::prelude::*;
use crate::text::chars_of;

verus! {

/// Whether `c` may stand between the braces that open a tag and the `>`
/// of an include: white space, `~` or `#`.
pub open spec fn is_tag_filler(c: char) -> bool {
    c == ' ' || c == '\t' || c == '\n' || c == '\r' || c == '~' || c == '#'
}

/// Whether a tag opens at `start` and nothing but filler follows its braces
/// up to `end`.
pub open spec fn opens_tag(source: Seq<char>, start: int, end: int) -> bool {
    &&& 0 <= start
    &&& start + 2 <= end <= source.len()
    &&& source[start] == '{'
    &&& source[start + 1] == '{'
    &&& forall|k: int| start + 2 <= k < end ==> is_tag_filler(#[trigger] source[k])
}

/// Whether an include tag opens at `start` and has its `>` at `mark`.
pub open spec fn include_at(source: Seq<char>, start: int, mark: int) -> bool {
    opens_tag(source, start, mark) && mark < source.len() && source[mark] == '>'
}

/// Whether the source holds an include tag.
pub open spec fn has_include(source: Seq<char>) -> bool {
    exists|start: int, mark: int| include_at(source, start, mark)
}

/// Says whether a source holds an include tag.
pub fn holds_include(source: &str) -> (found: bool)
    ensures
        found == has_include(source@),
{
    let chars = chars_of(source);
    let n = chars.len();
    let mut pending = false;
    let ghost mut opened_at: int = 0;
    let mut p: usize = 0;
    while p < n
        invariant
            p <= n,
            n == chars.len(),
            chars@ == source@,
            pending ==> opens_tag(source@, opened_at, p as int),
            !pending ==> forall|start: int| !opens_tag(source@, start, p as int),
            forall|start: int, mark: int| mark < p ==> !include_at(source@, start, mark),
        decreases n - p,
    {
        let c = chars[p];
        if pending && c == '>' {
            assert(include_at(source@, opened_at, p as int));
            return true;
        }
        let filler = c == ' ' || c == '\t' || c == '\n' || c == '\r' || c == '~' || c == '#';
        let braces = p >= 1 && chars[p - 1] == '{' && c == '{';
        proof {
            let next: int = p + 1;
            assert forall|start: int, mark: int| mark < p + 1 implies !include_at(
                source@,
                start,
                mark,
            ) by {
                if mark == p && include_at(source@, start, mark) {
                    assert(opens_tag(source@, start, p as int));
                }
            }
            if braces {
                opened_at = p - 1;
            } else if !(pending && filler) {
                assert forall|start: int| !opens_tag(source@, start, next) by {
                    if opens_tag(source@, start, next) {
                        if start + 2 == next {
                            assert(source@[start] == '{' && source@[start + 1] == '{');
                        } else {
                            assert(opens_tag(source@, start, p as int));
                            assert(is_tag_filler(source@[p as int]));
                        }
                    }
                }
            }
        }
        pending = braces || (pending && filler);
        p += 1;
    }
    assert(!has_include(source@)) by {
        assert forall|start: int, mark: int| !include_at(source@, start, mark) by {
            if include_at(source@, start, mark) {
                assert(mark < p);
            }
        }
    }
    false
}

} // verus!
