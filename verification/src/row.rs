use vstd::prelude::*;
use vstd::string::StrSliceExecFns;

use crate::text::clipped_slice;

verus! {

/// One line of stored text, addressable for its character count and for a
/// clipped substring. Its view is the sequence of its characters.
pub struct Row {
    string: String,
}

impl View for Row {
    type V = Seq<char>;

    closed spec fn view(&self) -> Seq<char> {
        self.string@
    }
}

impl Row {
    /// Wraps one line of text as a row.
    pub fn new(string: String) -> (r: Row)
        ensures
            r@ == string@,
    {
        Row { string }
    }

    /// The number of characters in the row.
    pub fn len(&self) -> (l: usize)
        ensures
            l == self@.len(),
    {
        self.string.as_str().unicode_len()
    }

    /// Whether the row holds no characters.
    pub fn is_empty(&self) -> (b: bool)
        ensures
            b == (self@.len() == 0),
    {
        self.len() == 0
    }

    /// The characters of the row between `start` and `end`, clipped to the
    /// row's actual bounds: a shorter row yields only its available
    /// characters, never padding.
    pub fn render(&self, start: usize, end: usize) -> (r: String)
        ensures
            r@ == clipped_slice(self@, start as int, end as int),
            self@.len() <= usize::MAX,
    {
        let len = self.string.as_str().unicode_len();
        let e = if end > len {
            len
        } else {
            end
        };
        let st = if start > e {
            e
        } else {
            start
        };
        let cut = self.string.as_str().substring_char(st, e);
        cut.to_owned()
    }
}

} // verus!
