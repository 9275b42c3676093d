//! The directory-handle state machine: lazily paged iteration over a
//! stateless backend directory object.
//!
//! The total entry count is captured once when the handle is built and is
//! authoritative thereafter; entries are fetched in fixed-size batches
//! only when the cursor runs past what is buffered, and the buffer is
//! never cleared, so a rewind reuses everything already fetched.

use vstd::prelude::*;
use crate::error::FsError;
use crate::types::{DirRef, DirectoryEntry};

verus! {

/// How many entries one backend batch requests.
pub const DIRECTORY_ENTRY_BATCH: usize = 16;

/// What one iteration step asks of the caller.
#[derive(Clone, Copy, Debug, PartialEq, Eq, Structural)]
pub enum DirectoryPoll {
    /// Iteration is over; no backend call is needed, now or ever.
    Exhausted,
    /// The handle needs one backend batch before it can yield; fetch up to
    /// `DIRECTORY_ENTRY_BATCH` entries and hand them to `refresh`.
    NeedBatch,
    /// The next buffered entry; the cursor has advanced past it.
    Entry(DirectoryEntry),
}

/// The mathematical state of a directory handle.
#[verifier::ext_equal]
pub struct SpecDirectory {
    pub dir: DirRef,
    pub offset: usize,
    pub entry_count: usize,
    pub entries: Seq<DirectoryEntry>,
}

/// An open directory: a backend directory reference, the entry-count
/// snapshot, the cursor, and the buffered entries fetched so far.
pub struct Directory {
    dir: DirRef,
    offset: usize,
    entry_count: usize,
    entries: Vec<DirectoryEntry>,
}

impl View for Directory {
    type V = SpecDirectory;

    closed spec fn view(&self) -> SpecDirectory {
        SpecDirectory {
            dir: self.dir,
            offset: self.offset,
            entry_count: self.entry_count,
            entries: self.entries@,
        }
    }
}

impl Directory {
    /// Wraps a backend directory reference. The entry count is queried
    /// exactly once, at open time; a failed query fails the open and its
    /// error is propagated unchanged.
    pub fn new(dir: DirRef, entry_count_query: Result<usize, FsError>) -> (r: Result<Self, FsError>)
        ensures
            match entry_count_query {
                Ok(total) => r matches Ok(d) && d@ == (SpecDirectory {
                    dir,
                    offset: 0,
                    entry_count: total,
                    entries: Seq::<DirectoryEntry>::empty(),
                }),
                Err(e) => r == Err::<Directory, FsError>(e),
            },
    {
        match entry_count_query {
            Ok(total) => Ok(Self { dir, offset: 0, entry_count: total, entries: Vec::new() }),
            Err(e) => Err(e),
        }
    }

    /// The backend directory reference, for issuing the next round trip.
    pub fn dir_ref(&self) -> (r: DirRef)
        ensures
            r == self@.dir,
    {
        self.dir
    }

    /// The cursor position and the entry-count snapshot.
    pub fn rel(&self) -> (r: (usize, usize))
        ensures
            r.0 == self@.offset,
            r.1 == self@.entry_count,
    {
        (self.offset, self.entry_count)
    }

    /// Resets the cursor to the first entry. The buffer is kept, so
    /// entries already fetched are yielded again without a backend call.
    pub fn rewind(&mut self)
        ensures
            final(self)@ == (SpecDirectory { offset: 0, ..old(self)@ }),
    {
        self.offset = 0;
    }

    /// Folds one fetched batch into the buffer and completes the step
    /// that demanded it: the batch is appended, then iteration resumes
    /// where `next` stopped — the end is reported when the cursor already
    /// sits at the snapshot count, the entry under the cursor is yielded
    /// when the batch reached it, and a batch too short to reach the
    /// cursor leaves the step demanding another batch.
    pub fn refresh(&mut self, batch: Vec<DirectoryEntry>) -> (r: DirectoryPoll)
        ensures
            final(self)@.dir == old(self)@.dir,
            final(self)@.entry_count == old(self)@.entry_count,
            final(self)@.entries == old(self)@.entries + batch@,
            ({
                let entries = old(self)@.entries + batch@;
                let offset = old(self)@.offset;
                if offset == old(self)@.entry_count {
                    r == DirectoryPoll::Exhausted && final(self)@.offset == offset
                } else if (offset as int) < entries.len() {
                    r == DirectoryPoll::Entry(entries[offset as int]) && final(self)@.offset
                        == offset + 1
                } else {
                    r == DirectoryPoll::NeedBatch && final(self)@.offset == offset
                }
            }),
    {
        let mut batch = batch;
        self.entries.append(&mut batch);
        if self.offset == self.entry_count {
            DirectoryPoll::Exhausted
        } else if self.offset < self.entries.len() {
            let entry = self.entries[self.offset];
            self.offset = self.offset + 1;
            DirectoryPoll::Entry(entry)
        } else {
            DirectoryPoll::NeedBatch
        }
    }

    /// One iteration step. Once the buffer holds the whole snapshot the
    /// handle is exhausted outright; otherwise a cursor past the buffer
    /// demands one batch, a cursor at the snapshot count ends iteration,
    /// and anything else yields the buffered entry under the cursor and
    /// advances past it.
    pub fn next(&mut self) -> (r: DirectoryPoll)
        ensures
            final(self)@.dir == old(self)@.dir,
            final(self)@.entry_count == old(self)@.entry_count,
            final(self)@.entries == old(self)@.entries,
            if old(self)@.entries.len() == old(self)@.entry_count {
                r == DirectoryPoll::Exhausted && final(self)@.offset == old(self)@.offset
            } else if old(self)@.offset >= old(self)@.entries.len() {
                r == DirectoryPoll::NeedBatch && final(self)@.offset == old(self)@.offset
            } else if old(self)@.offset == old(self)@.entry_count {
                r == DirectoryPoll::Exhausted && final(self)@.offset == old(self)@.offset
            } else {
                r == DirectoryPoll::Entry(old(self)@.entries[old(self)@.offset as int])
                    && final(self)@.offset == old(self)@.offset + 1
            },
    {
        if self.entries.len() == self.entry_count {
            DirectoryPoll::Exhausted
        } else if self.offset >= self.entries.len() {
            DirectoryPoll::NeedBatch
        } else if self.offset == self.entry_count {
            DirectoryPoll::Exhausted
        } else {
            let entry = self.entries[self.offset];
            self.offset = self.offset + 1;
            DirectoryPoll::Entry(entry)
        }
    }
}

} // verus!
