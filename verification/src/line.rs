//! A single text row with character-indexed, clamped slicing.

use vstd::prelude::*;
use vstd::string::StrSliceExecFns;
use core::ops::Range;

verus! {

/// One row of text, created from one physical line of the source file and
/// never mutated afterwards. Its view is the sequence of its characters.
#[derive(Debug)]
pub struct Line {
    text: String,
}

impl View for Line {
    type V = Seq<char>;

    closed spec fn view(&self) -> Seq<char> {
        self.text@
    }
}

/// The characters of `s` with indices in `[start, end)`, where `end` is first
/// clamped to the length of `s`. A reversed or out-of-range window yields the
/// empty sequence.
pub open spec fn line_get(s: Seq<char>, start: int, end: int) -> Seq<char> {
    let e = if end > s.len() { s.len() as int } else { end };
    if start >= e {
        Seq::empty()
    } else {
        s.subrange(start, e)
    }
}

impl Line {
    pub fn from(text: &str) -> (r: Self)
        ensures
            r@ == text@,
    {
        Self { text: text.to_owned() }
    }

    /// The visible characters of this line within `[range.start, range.end)`,
    /// clamped to the line's actual length; an out-of-range or reversed range
    /// yields an empty string rather than failing.
    pub fn get(&self, range: Range<usize>) -> (r: String)
        ensures
            r@ == line_get(self@, range.start as int, range.end as int),
            self@.len() <= usize::MAX,
    {
        let len = self.text.as_str().unicode_len();
        let end = if range.end < len {
            range.end
        } else {
            len
        };
        if range.start >= end {
            String::new()
        } else {
            self.text.as_str().substring_char(range.start, end).to_owned()
        }
    }
}

/// A window that starts past the end of the line, or ends before it starts,
/// selects nothing.
pub proof fn lemma_get_outside_is_empty(s: Seq<char>, start: int, end: int)
    requires
        start > s.len() || end < start,
    ensures
        line_get(s, start, end).len() == 0,
{
}

} // verus!
