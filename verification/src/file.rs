//! The file-handle state machine: seek/read/write cursor semantics over a
//! stateless backend file object.
//!
//! The backend reads and writes at explicit offsets and keeps no cursor;
//! this handle keeps the cursor. The caller performs each backend round
//! trip and hands the reply in; the handle decides how the cursor moves
//! and what is reported, and two deliberate quirks of that policy are part
//! of the contract: `End` seeks *add* the offset to the size, and a read
//! advances the cursor by the *requested* size even when the backend
//! transferred fewer bytes.

use vstd::prelude::*;
use crate::error::FsError;
use crate::types::FileRef;

verus! {

/// The origin a seek offset is measured from.
#[derive(Clone, Copy, Debug, PartialEq, Eq, Structural)]
pub enum Whence {
    Start,
    Current,
    End,
}

/// The mathematical state of a file handle.
#[verifier::ext_equal]
pub struct SpecFile {
    pub file: FileRef,
    pub offset: usize,
}

/// An open file: a backend file reference plus the local cursor.
pub struct File {
    file: FileRef,
    offset: usize,
}

impl View for File {
    type V = SpecFile;

    closed spec fn view(&self) -> SpecFile {
        SpecFile { file: self.file, offset: self.offset }
    }
}

impl File {
    /// Wraps a backend file reference; the cursor starts at 0.
    pub fn new(file: FileRef) -> (r: Self)
        ensures
            r@ == (SpecFile { file, offset: 0 }),
    {
        Self { file, offset: 0 }
    }

    /// Wraps a backend file reference opened for append: the cursor starts
    /// at the size the backend reported, defaulting to 0 when the size
    /// query itself failed.
    pub fn new_append(file: FileRef, size_query: Result<usize, FsError>) -> (r: Self)
        ensures
            r@.file == file,
            r@.offset == (match size_query {
                Ok(size) => size,
                Err(_) => 0,
            }),
    {
        match size_query {
            Ok(size) => Self { file, offset: size },
            Err(_) => Self { file, offset: 0 },
        }
    }

    /// The backend file reference, for issuing the next round trip.
    pub fn file_ref(&self) -> (r: FileRef)
        ensures
            r == self@.file,
    {
        self.file
    }

    /// The current cursor position.
    pub fn cursor(&self) -> (r: usize)
        ensures
            r == self@.offset,
    {
        self.offset
    }

    /// Moves the cursor. `Start` sets it to `offset`, `Current` adds
    /// `offset` to it, and `End` sets it to the backend-reported size
    /// *plus* `offset` — addition, not subtraction, deliberately kept.
    /// Only an `End` seek consults `size_query`; a failed size query is
    /// the one way a seek fails, and then the cursor does not move.
    pub fn seek(&mut self, offset: usize, whence: Whence, size_query: Result<usize, FsError>) -> (r:
        Result<(), FsError>)
        requires
            whence == Whence::Current ==> old(self)@.offset + offset <= usize::MAX,
            whence == Whence::End ==> (size_query matches Ok(size) ==> size + offset <= usize::MAX),
        ensures
            final(self)@.file == old(self)@.file,
            whence == Whence::Start ==> r == Ok::<(), FsError>(()) && final(self)@.offset == offset,
            whence == Whence::Current ==> r == Ok::<(), FsError>(()) && final(self)@.offset == old(
                self,
            )@.offset + offset,
            whence == Whence::End ==> (match size_query {
                Ok(size) => r == Ok::<(), FsError>(()) && final(self)@.offset == size + offset,
                Err(e) => r == Err::<(), FsError>(e) && final(self)@.offset == old(self)@.offset,
            }),
    {
        match whence {
            Whence::Start => {
                self.offset = offset;
                Ok(())
            },
            Whence::Current => {
                self.offset = self.offset + offset;
                Ok(())
            },
            Whence::End => match size_query {
                Ok(size) => {
                    self.offset = size + offset;
                    Ok(())
                },
                Err(e) => Err(e),
            },
        }
    }

    /// Folds the backend's reply to a read of `size` bytes at the cursor
    /// into the handle. On success the cursor advances by the *requested*
    /// `size`, not by the transferred count, so a short read leaves the
    /// cursor ahead of the bytes actually consumed — deliberately kept.
    /// A backend failure is propagated unchanged and the cursor stays.
    pub fn read(&mut self, size: usize, transfer: Result<usize, FsError>) -> (r: Result<
        usize,
        FsError,
    >)
        requires
            transfer is Ok ==> old(self)@.offset + size <= usize::MAX,
        ensures
            final(self)@.file == old(self)@.file,
            match transfer {
                Ok(transferred) => r == Ok::<usize, FsError>(transferred) && final(self)@.offset
                    == old(self)@.offset + size,
                Err(e) => r == Err::<usize, FsError>(e) && final(self)@.offset == old(self)@.offset,
            },
    {
        match transfer {
            Ok(transferred) => {
                self.offset = self.offset + size;
                Ok(transferred)
            },
            Err(e) => Err(e),
        }
    }

    /// Folds the backend's reply to a write of `size` bytes at the cursor
    /// into the handle. The backend reports no written count, so on
    /// success the handle reports `size` as written and advances the
    /// cursor by `size`; a failure is propagated unchanged.
    pub fn write(&mut self, size: usize, status: Result<(), FsError>) -> (r: Result<usize, FsError>)
        requires
            status is Ok ==> old(self)@.offset + size <= usize::MAX,
        ensures
            final(self)@.file == old(self)@.file,
            match status {
                Ok(_) => r == Ok::<usize, FsError>(size) && final(self)@.offset == old(self)@.offset
                    + size,
                Err(e) => r == Err::<usize, FsError>(e) && final(self)@.offset == old(self)@.offset,
            },
    {
        match status {
            Ok(_) => {
                self.offset = self.offset + size;
                Ok(size)
            },
            Err(e) => Err(e),
        }
    }
}

} // verus!
