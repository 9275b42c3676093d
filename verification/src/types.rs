//! Plain-value stand-ins for the backend's objects and wire types.
//!
//! The backend is a remote service reached over a session transport; this
//! library never performs the round trips itself. A `*Ref` value is an
//! opaque identifier the caller associates with one backend object (a
//! session, a filesystem, an open file, an open directory); the caller
//! performs each backend call and hands the reply back as plain values.

use vstd::prelude::*;

verus! {

/// An opaque reference to the backend filesystem-proxy session.
#[derive(Clone, Copy, Debug, PartialEq, Eq, Structural)]
pub struct SessionRef {
    pub id: u64,
}

/// An opaque reference to one backend filesystem object.
#[derive(Clone, Copy, Debug, PartialEq, Eq, Structural)]
pub struct FsRef {
    pub id: u64,
}

/// An opaque reference to one backend file object.
#[derive(Clone, Copy, Debug, PartialEq, Eq, Structural)]
pub struct FileRef {
    pub id: u64,
}

/// An opaque reference to one backend directory object.
#[derive(Clone, Copy, Debug, PartialEq, Eq, Structural)]
pub struct DirRef {
    pub id: u64,
}

/// The caller-facing open options: a set over create, read, write, append.
#[derive(Clone, Copy, Debug, PartialEq, Eq, Structural)]
pub struct FileOpenOption {
    pub create: bool,
    pub read: bool,
    pub write: bool,
    pub append: bool,
}

/// The backend's open mode: a set over read, write, append. The backend
/// knows nothing of create-on-open; that recovery is local to this layer.
#[derive(Clone, Copy, Debug, PartialEq, Eq, Structural)]
pub struct FileOpenMode {
    pub read: bool,
    pub write: bool,
    pub append: bool,
}

/// The backend open mode an option set translates to: the same three
/// backend bits, with the `create` option dropped.
pub open spec fn mode_of_option(option: FileOpenOption) -> FileOpenMode {
    FileOpenMode { read: option.read, write: option.write, append: option.append }
}

/// Translates caller open options into the backend's open mode. The
/// `create` option only drives the local create-on-open fallback and is
/// never passed to the backend.
pub fn convert_file_open_option(option: FileOpenOption) -> (mode: FileOpenMode)
    ensures
        mode == mode_of_option(option),
{
    let mut mode = FileOpenMode { read: false, write: false, append: false };
    if option.read {
        mode.read = true;
    }
    if option.write {
        mode.write = true;
    }
    if option.append {
        mode.append = true;
    }
    mode
}

/// Backend file attribute bits, carried through this layer unchanged.
#[derive(Clone, Copy, Debug, PartialEq, Eq, Structural)]
pub struct FileAttribute {
    pub raw: u32,
}

impl FileAttribute {
    /// The empty attribute set, used for the create-on-open recovery.
    pub fn empty() -> (r: Self)
        ensures
            r.raw == 0,
    {
        FileAttribute { raw: 0 }
    }
}

/// Backend directory open-mode bits, carried through unchanged.
#[derive(Clone, Copy, Debug, PartialEq, Eq, Structural)]
pub struct DirectoryOpenMode {
    pub raw: u32,
}

/// What kind of entry a path addresses.
#[derive(Clone, Copy, Debug, PartialEq, Eq, Structural)]
pub enum DirectoryEntryType {
    Directory,
    File,
}

/// One backend-reported directory entry, as this layer models it: the
/// fields the caller consumes through paged iteration.
#[derive(Clone, Copy, Debug, PartialEq, Eq, Structural)]
pub struct DirectoryEntry {
    pub entry_type: DirectoryEntryType,
    pub file_size: u64,
}

} // verus!
