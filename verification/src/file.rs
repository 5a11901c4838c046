//! An in-memory text buffer: an ordered sequence of rows plus its identity.

use vstd::prelude::*;
use crate::row::Row;

verus! {

/// A loaded buffer. Row order is the document's line order: index `i` holds
/// line `i`. The buffer is immutable after it is built.
#[derive(Debug)]
pub struct OpenFile {
    rows: Vec<Row>,
    path: String,
}

impl OpenFile {
    /// The lines of the buffer, as characters, in document order.
    pub closed spec fn lines(self) -> Seq<Seq<char>> {
        Seq::new(self.rows.len() as nat, |i: int| self.rows[i].text())
    }

    /// The path the buffer was loaded from.
    pub closed spec fn path(self) -> Seq<char> {
        self.path@
    }

    /// Every row's cached cluster count agrees with its text.
    pub closed spec fn wf(self) -> bool {
        forall|i: int| 0 <= i < self.rows.len() ==> (#[trigger] self.rows[i]).wf()
    }

    /// Builds a buffer from its source path and the lines of its text,
    /// one row per line, in order.
    pub fn from_lines(path: String, lines: Vec<String>) -> (r: Self)
        ensures
            r.wf(),
            r.lines().len() == lines.len(),
            forall|i: int| 0 <= i < lines.len() ==> r.lines()[i] == lines.deep_view()[i],
            r.path() == path@,
    {
        let mut rows: Vec<Row> = Vec::new();
        let mut i: usize = 0;
        while i < lines.len()
            invariant
                i == rows.len() <= lines.len(),
                forall|j: int| 0 <= j < i ==> (#[trigger] rows[j]).wf(),
                forall|j: int| 0 <= j < i ==> (#[trigger] rows[j]).text() == lines.deep_view()[j],
            decreases lines.len() - i,
        {
            rows.push(Row::new(lines[i].as_str()));
            i = i + 1;
        }
        let r = Self { rows, path };
        proof {
            assert(forall|j: int|
                0 <= j < lines.len() ==> r.lines()[j] == (#[trigger] r.rows[j]).text());
        }
        r
    }

    /// The row holding line `idx`, or nothing when `idx` is out of range.
    pub fn get(&self, idx: usize) -> (r: Option<&Row>)
        requires
            self.wf(),
        ensures
            idx < self.lines().len() ==> (r matches Some(row) && row.wf() && row.text()
                == self.lines()[idx as int]),
            idx >= self.lines().len() ==> r is None,
    {
        self.rows.get(idx)
    }

    pub fn is_empty(&self) -> (r: bool)
        ensures
            r == (self.lines().len() == 0),
    {
        self.rows.len() == 0
    }

    /// The number of lines in the buffer.
    pub fn len(&self) -> (r: usize)
        ensures
            r == self.lines().len(),
    {
        self.rows.len()
    }
}

impl Default for OpenFile {
    /// The empty buffer with an empty path: what stands in for a source
    /// that could not be read.
    fn default() -> (r: Self)
        ensures
            r.wf(),
            r.lines().len() == 0,
            r.path().len() == 0,
    {
        Self { rows: Vec::new(), path: String::new() }
    }
}

} // verus!
