//! The error taxonomy of the filesystem layer.

use vstd::prelude::*;

verus! {

/// Every failure a filesystem operation can report.
///
/// `NotInitialized`, `InvalidPath` and `DeviceNotFound` are produced by this
/// layer itself. `PathNotFound` is the one backend error the layer inspects
/// (it drives the create-on-open recovery); every other backend error is
/// carried through unchanged as `Backend` with the backend's raw code.
#[derive(Clone, Copy, Debug, PartialEq, Eq, Structural)]
pub enum FsError {
    /// An operation was attempted before a session was installed.
    NotInitialized,
    /// Unpacking a path produced an empty segment sequence.
    InvalidPath,
    /// The first segment of a path names no mounted device.
    DeviceNotFound,
    /// The backend reported that the addressed entry does not exist.
    PathNotFound,
    /// Any other backend failure, carried through unchanged.
    Backend(u32),
}

} // verus!
