//! The trace log: the rows that execution has recorded so far, which can be
//! cut back to an earlier length.

use vstd::prelude::*;

verus! {

/// An append-only log of trace rows. It is generic in the row, so that the
/// same log serves whichever field the proving backend works in.
#[derive(Debug)]
pub struct Traces<R> {
    pub rows: Vec<R>,
}

/// A position in a trace log: the number of rows written when it was taken.
#[derive(Clone, Copy, Debug, PartialEq, Eq, Structural)]
pub struct TraceCheckpoint {
    pub len: usize,
}

/// The first `len` rows of a log, or the whole log where it has fewer.
pub open spec fn truncated<R>(rows: Seq<R>, len: int) -> Seq<R> {
    if 0 <= len <= rows.len() {
        rows.subrange(0, len)
    } else {
        rows
    }
}

impl<R> View for Traces<R> {
    type V = Seq<R>;

    open spec fn view(&self) -> Seq<R> {
        self.rows@
    }
}

impl<R> Traces<R> {
    /// A log without rows.
    pub fn new() -> (traces: Traces<R>)
        ensures
            traces@ == Seq::<R>::empty(),
    {
        Traces { rows: Vec::new() }
    }

    /// The number of rows written.
    pub fn len(&self) -> (len: usize)
        ensures
            len == self@.len(),
    {
        self.rows.len()
    }

    /// Appends one row.
    pub fn push(&mut self, row: R)
        ensures
            final(self)@ == old(self)@.push(row),
    {
        self.rows.push(row);
    }

    /// Marks the current end of the log.
    pub fn checkpoint(&self) -> (mark: TraceCheckpoint)
        ensures
            mark.len == self@.len(),
    {
        TraceCheckpoint { len: self.rows.len() }
    }

    /// Drops every row written after `mark` was taken.
    pub fn rollback(&mut self, mark: TraceCheckpoint)
        ensures
            final(self)@ == truncated(old(self)@, mark.len as int),
    {
        self.rows.truncate(mark.len);
    }
}

impl<R> Default for Traces<R> {
    fn default() -> (traces: Traces<R>)
        ensures
            traces@ == Seq::<R>::empty(),
    {
        Traces { rows: Vec::new() }
    }
}

} // verus!
