use vstd::prelude::*;

use crate::row::Row;

verus! {

/// An ordered sequence of text rows, with the name of the file they came
/// from, if any. Its view is the sequence of the rows' character sequences.
pub struct Document {
    pub rows: Vec<Row>,
    pub file_name: Option<String>,
}

impl View for Document {
    type V = Seq<Seq<char>>;

    closed spec fn view(&self) -> Seq<Seq<char>> {
        self.rows@.map(|i: int, r: Row| r@)
    }
}

impl Document {
    /// Builds a document from rows, with no file name.
    pub fn from_rows(rows: Vec<Row>) -> (d: Document)
        ensures
            d@.len() == rows@.len(),
            forall|i: int| 0 <= i < rows@.len() ==> d@[i] == rows@[i]@,
            d.file_name is None,
    {
        Document { rows, file_name: None }
    }

    /// The number of rows.
    pub fn len(&self) -> (n: usize)
        ensures
            n == self@.len(),
    {
        self.rows.len()
    }

    /// Whether the document holds no rows.
    pub fn is_empty(&self) -> (b: bool)
        ensures
            b == (self@.len() == 0),
    {
        self.rows.len() == 0
    }

    /// The row at `index`: present exactly when `index` is within the
    /// document.
    pub fn row(&self, index: usize) -> (r: Option<&Row>)
        ensures
            self@.len() <= usize::MAX,
            match r {
                Some(row) => index < self@.len() && row@ == self@[index as int],
                None => index >= self@.len(),
            },
    {
        if index < self.rows.len() {
            Some(&self.rows[index])
        } else {
            None
        }
    }
}

impl Default for Document {
    /// An empty document with no file name.
    fn default() -> (d: Document)
        ensures
            d@ == Seq::<Seq<char>>::empty(),
            d.file_name is None,
    {
        let d = Document { rows: Vec::new(), file_name: None };
        proof {
            assert(d@ =~= Seq::<Seq<char>>::empty());
        }
        d
    }
}

} // verus!
