//! The mount registry, lifecycle gating, and the facade that turns a
//! logical path into one addressed backend request.
//!
//! A context holds the backend proxy session (present only between
//! `initialize` and `finalize`) and the ordered device registry. Every
//! facade operation first checks that a session is present, then unpacks
//! the path, resolves the first segment against the registry, and repacks
//! the remainder into a backend-local path; the caller issues the
//! resulting request over the session and feeds replies back into the
//! handle constructors.

use vstd::prelude::*;
use vstd::string::*;
use crate::error::FsError;
use crate::path::{
    PathSegment, PathSegmentType, SpecPathSegment, pack_path, pack_spec, segs_view, unpack_path,
    unpack_spec,
};
use crate::types::{
    DirectoryOpenMode, FileAttribute, FileOpenMode, FileOpenOption, FileRef, FsRef, SessionRef,
    convert_file_open_option, mode_of_option,
};

verus! {

/// A named association between a root segment and a backend filesystem.
pub struct Device {
    pub root_name: PathSegment,
    pub fs: FsRef,
}

/// The mathematical form of a device entry.
#[verifier::ext_equal]
pub struct SpecDevice {
    pub root_name: SpecPathSegment,
    pub fs: FsRef,
}

impl View for Device {
    type V = SpecDevice;

    open spec fn view(&self) -> SpecDevice {
        SpecDevice { root_name: self.root_name@, fs: self.fs }
    }
}

impl Device {
    pub fn from(root_name: PathSegment, fs: FsRef) -> (r: Self)
        ensures
            r@ == (SpecDevice { root_name: root_name@, fs }),
    {
        Self { root_name, fs }
    }
}

/// The device views of a registry, in mount order.
pub open spec fn devices_view(s: Seq<Device>) -> Seq<SpecDevice> {
    s.map_values(|d: Device| d@)
}

/// The first mounted device whose stored root name equals `name`; mounts
/// are scanned in insertion order, so an earlier mount shadows a later
/// one of the same name.
pub open spec fn find_device_spec(devs: Seq<SpecDevice>, name: Seq<char>) -> Option<FsRef>
    decreases devs.len(),
{
    if devs.len() == 0 {
        Option::None
    } else if devs.first().root_name.name == name {
        Option::Some(devs.first().fs)
    } else {
        find_device_spec(devs.drop_first(), name)
    }
}

/// A device name stripped of one trailing device delimiter, if any.
pub open spec fn bare_name(s: Seq<char>) -> Seq<char> {
    if s.len() > 0 && s.last() == ':' {
        s.drop_last()
    } else {
        s
    }
}

/// The registry left after unmounting `name`: every device whose stored
/// root name is the bare form of `name` plus the delimiter is removed,
/// and the rest keep their order.
pub open spec fn unmount_spec(devs: Seq<SpecDevice>, name: Seq<char>) -> Seq<SpecDevice>
    decreases devs.len(),
{
    if devs.len() == 0 {
        devs
    } else {
        let rest = unmount_spec(devs.drop_first(), name);
        if devs.first().root_name.name == bare_name(name).push(':') {
            rest
        } else {
            seq![devs.first()] + rest
        }
    }
}

/// The mathematical state of a context: the optional session and the
/// mounted devices in mount order.
#[verifier::ext_equal]
pub struct SpecFsContext {
    pub session: Option<SessionRef>,
    pub devices: Seq<SpecDevice>,
}

/// What a facade operation does to a path before any backend call:
/// check the session, unpack, resolve the first segment, repack the rest as
/// a backend-local path.
pub open spec fn resolve_spec(ctx: SpecFsContext, path: Seq<char>) -> Result<
    (FsRef, Seq<char>),
    FsError,
> {
    if ctx.session is None {
        Err(FsError::NotInitialized)
    } else {
        let segs = unpack_spec(path);
        if segs.len() == 0 {
            Err(FsError::InvalidPath)
        } else {
            match find_device_spec(ctx.devices, segs.first().name) {
                Option::Some(fs) => Ok((fs, pack_spec(segs, false))),
                Option::None => Err(FsError::DeviceNotFound),
            }
        }
    }
}

/// One backend operation, fully addressed and ready for the caller to
/// issue over the session.
#[derive(Clone, Copy, Debug, PartialEq, Eq, Structural)]
pub enum FsOperation {
    /// Create a file with the given attribute bits and initial size.
    CreateFile(FileAttribute, usize),
    DeleteFile,
    CreateDirectory,
    /// The facade's directory delete maps to the backend's recursive one.
    DeleteDirectoryRecursively,
    GetEntryType,
    OpenDirectory(DirectoryOpenMode),
}

/// An addressed backend request: which filesystem, which backend-local
/// path, and what to do there.
pub struct BackendRequest {
    pub fs: FsRef,
    pub local_path: String,
    pub operation: FsOperation,
}

/// Everything decided before the first backend open-file call: where to
/// open, with which backend mode, and the caller options that drive the
/// local recovery afterwards.
pub struct OpenFileRequest {
    pub fs: FsRef,
    pub local_path: String,
    pub mode: FileOpenMode,
    pub option: FileOpenOption,
}

/// The decision taken on the backend's first open-file reply.
#[derive(Clone, Copy, Debug, PartialEq, Eq, Structural)]
pub enum OpenFileNext {
    /// The open succeeded; wrap this reference.
    Opened(FileRef),
    /// The entry is missing and creation was requested: create the file
    /// with empty attributes and zero size, then retry the same open
    /// once. A failure of either follow-up call is surfaced as-is.
    CreateThenRetry,
    /// Any other failure, surfaced unchanged.
    Fail(FsError),
}

/// Decides what follows the backend's first open-file reply: exactly a
/// `PathNotFound` failure with the `create` option requested is recovered
/// by create-then-retry; everything else passes through.
pub fn open_file_next(option: FileOpenOption, opened: Result<FileRef, FsError>) -> (r:
    OpenFileNext)
    ensures
        match opened {
            Ok(f) => r == OpenFileNext::Opened(f),
            Err(e) => if e == FsError::PathNotFound && option.create {
                r == OpenFileNext::CreateThenRetry
            } else {
                r == OpenFileNext::Fail(e)
            },
        },
{
    match opened {
        Ok(f) => OpenFileNext::Opened(f),
        Err(e) => match e {
            FsError::PathNotFound => if option.create {
                OpenFileNext::CreateThenRetry
            } else {
                OpenFileNext::Fail(e)
            },
            _ => OpenFileNext::Fail(e),
        },
    }
}

/// The device entry a mount of `fs` under `name` appends.
pub open spec fn mounted_device(name: Seq<char>, fs: FsRef) -> SpecDevice {
    SpecDevice {
        root_name: SpecPathSegment {
            name: name.push(':'),
            segment_type: PathSegmentType::Root,
        },
        fs,
    }
}

/// The filesystem layer's state: session plus mount registry.
pub struct FsContext {
    session: Option<SessionRef>,
    devices: Vec<Device>,
}

impl View for FsContext {
    type V = SpecFsContext;

    closed spec fn view(&self) -> SpecFsContext {
        SpecFsContext { session: self.session, devices: devices_view(self.devices@) }
    }
}

impl FsContext {
    /// A fresh context: no session, nothing mounted.
    pub fn new() -> (r: Self)
        ensures
            r@ == (SpecFsContext {
                session: Option::<SessionRef>::None,
                devices: Seq::<SpecDevice>::empty(),
            }),
    {
        let r = Self { session: Option::None, devices: Vec::new() };
        proof {
            assert(devices_view(r.devices@) =~= Seq::<SpecDevice>::empty());
        }
        r
    }

    /// Installs the backend proxy session the caller obtained. A failed
    /// session acquisition is propagated unchanged and nothing changes;
    /// on success a session already present is simply replaced.
    pub fn initialize(&mut self, session: Result<SessionRef, FsError>) -> (r: Result<(), FsError>)
        ensures
            match session {
                Ok(s) => r == Ok::<(), FsError>(()) && final(self)@ == (SpecFsContext {
                    session: Option::Some(s),
                    devices: old(self)@.devices,
                }),
                Err(e) => r == Err::<(), FsError>(e) && final(self)@ == old(self)@,
            },
    {
        match session {
            Ok(s) => {
                self.session = Option::Some(s);
                Ok(())
            },
            Err(e) => Err(e),
        }
    }

    /// Whether a session is present; every other operation requires one.
    pub fn is_initialized(&self) -> (r: bool)
        ensures
            r == (self@.session is Some),
    {
        match &self.session {
            Option::Some(_) => true,
            Option::None => false,
        }
    }

    /// The session, for the caller's next round trip; `NotInitialized`
    /// when none is present.
    pub fn session(&self) -> (r: Result<SessionRef, FsError>)
        ensures
            match self@.session {
                Option::Some(s) => r == Ok::<SessionRef, FsError>(s),
                Option::None => r == Err::<SessionRef, FsError>(FsError::NotInitialized),
            },
    {
        match &self.session {
            Option::Some(s) => Ok(*s),
            Option::None => Err(FsError::NotInitialized),
        }
    }

    /// Drops every mounted device and the session. Safe to call when
    /// already uninitialized.
    pub fn finalize(&mut self)
        ensures
            final(self)@ == (SpecFsContext {
                session: Option::<SessionRef>::None,
                devices: Seq::<SpecDevice>::empty(),
            }),
    {
        self.devices.clear();
        self.session = Option::None;
        proof {
            assert(devices_view(self.devices@) =~= Seq::<SpecDevice>::empty());
        }
    }

    /// Mounts `fs` under `name`: requires a session, then appends a root
    /// segment `name:` to the registry. Nothing is de-duplicated; a
    /// second mount of the same name is shadowed by the first until that
    /// one is unmounted.
    pub fn mount(&mut self, name: &str, fs: FsRef) -> (r: Result<(), FsError>)
        ensures
            old(self)@.session is None ==> r == Err::<(), FsError>(FsError::NotInitialized)
                && final(self)@ == old(self)@,
            old(self)@.session is Some ==> r == Ok::<(), FsError>(()) && final(self)@
                == (SpecFsContext {
                session: old(self)@.session,
                devices: old(self)@.devices.push(mounted_device(name@, fs)),
            }),
    {
        if !self.is_initialized() {
            return Err(FsError::NotInitialized);
        }
        let root: String = name.to_owned().concat(":");
        proof {
            reveal_strlit(":");
            assert(root@ =~= name@.push(':'));
        }
        let root_name = PathSegment::from(root, PathSegmentType::Root);
        let device = Device::from(root_name, fs);
        let ghost pushed = device@;
        self.devices.push(device);
        proof {
            assert(devices_view(self.devices@) =~= devices_view(old(self).devices@).push(pushed));
        }
        Ok(())
    }

    /// Removes every device mounted under `name`; a trailing delimiter on
    /// `name` is ignored, and the registry otherwise keeps its order.
    /// No session is required: unmounting from an uninitialized context is a no-op on
    /// an empty registry.
    pub fn unmount(&mut self, name: &str)
        ensures
            final(self)@ == (SpecFsContext {
                session: old(self)@.session,
                devices: unmount_spec(old(self)@.devices, name@),
            }),
    {
        let name_len: usize = name.unicode_len();
        let bare: &str = if name_len > 0 && name.get_char(name_len - 1) == ':' {
            name.substring_char(0, name_len - 1)
        } else {
            name
        };
        let target: String = bare.to_owned().concat(":");
        proof {
            reveal_strlit(":");
            assert(target@ =~= bare_name(name@).push(':'));
        }
        let mut olddevs: Vec<Device> = Vec::new();
        core::mem::swap(&mut self.devices, &mut olddevs);
        let ghost orig = devices_view(olddevs@);
        let mut kept: Vec<Device> = Vec::new();
        proof {
            assert(devices_view(kept@) =~= Seq::<SpecDevice>::empty());
            assert(devices_view(kept@) + unmount_spec(devices_view(olddevs@), name@)
                =~= unmount_spec(orig, name@));
        }
        while olddevs.len() > 0
            invariant
                target@ == bare_name(name@).push(':'),
                unmount_spec(orig, name@) == devices_view(kept@) + unmount_spec(
                    devices_view(olddevs@),
                    name@,
                ),
            decreases olddevs.len(),
        {
            let ghost pre = devices_view(olddevs@);
            let d = olddevs.remove(0);
            proof {
                assert(pre.first() == d@);
                assert(devices_view(olddevs@) =~= pre.drop_first());
            }
            if d.root_name.name == target {
                proof {
                    assert(unmount_spec(pre, name@) == unmount_spec(pre.drop_first(), name@));
                }
            } else {
                let ghost kept_pre = devices_view(kept@);
                kept.push(d);
                proof {
                    assert(devices_view(kept@) =~= kept_pre.push(d@));
                    assert(unmount_spec(pre, name@) == seq![d@] + unmount_spec(
                        pre.drop_first(),
                        name@,
                    ));
                    assert(kept_pre.push(d@) + unmount_spec(pre.drop_first(), name@) =~= kept_pre
                        + unmount_spec(pre, name@));
                }
            }
        }
        proof {
            assert(devices_view(olddevs@) =~= Seq::<SpecDevice>::empty());
            assert(unmount_spec(devices_view(olddevs@), name@) =~= Seq::<SpecDevice>::empty());
            assert(devices_view(kept@) =~= unmount_spec(orig, name@));
        }
        self.devices = kept;
    }

    /// Resolves a segment to the first device whose stored root name
    /// equals the segment's name.
    pub fn find_device(&self, name: &PathSegment) -> (r: Result<FsRef, FsError>)
        ensures
            match find_device_spec(self@.devices, name@.name) {
                Option::Some(fs) => r == Ok::<FsRef, FsError>(fs),
                Option::None => r == Err::<FsRef, FsError>(FsError::DeviceNotFound),
            },
    {
        let n: usize = self.devices.len();
        let mut i: usize = 0;
        proof {
            assert(devices_view(self.devices@).skip(0) =~= devices_view(self.devices@));
        }
        while i < n
            invariant
                i <= n,
                n == self.devices@.len(),
                find_device_spec(self@.devices, name@.name) == find_device_spec(
                    devices_view(self.devices@).skip(i as int),
                    name@.name,
                ),
            decreases n - i,
        {
            let ghost suffix = devices_view(self.devices@).skip(i as int);
            proof {
                assert(suffix.first() == devices_view(self.devices@)[i as int]);
                assert(suffix.drop_first() =~= devices_view(self.devices@).skip(i + 1 as int));
            }
            if self.devices[i].root_name.name == name.name {
                return Ok(self.devices[i].fs);
            }
            i = i + 1;
        }
        proof {
            assert(devices_view(self.devices@).skip(n as int) =~= Seq::<SpecDevice>::empty());
        }
        Err(FsError::DeviceNotFound)
    }

    /// Check, unpack, resolve and repack: returns the backend filesystem
    /// and the backend-local path string for `path`, performing no
    /// operation. Fails with `NotInitialized` before looking at the path,
    /// `InvalidPath` when the path unpacks to nothing, and
    /// `DeviceNotFound` when the first segment names no mounted device.
    pub fn format_path(&self, path: String) -> (r: Result<(FsRef, String), FsError>)
        ensures
            match resolve_spec(self@, path@) {
                Ok(p) => r matches Ok(rp) && rp.0 == p.0 && rp.1@ == p.1,
                Err(e) => r == Err::<(FsRef, String), FsError>(e),
            },
    {
        if !self.is_initialized() {
            return Err(FsError::NotInitialized);
        }
        let ghost path_chars = path@;
        let unpacked = match unpack_path(path) {
            Ok(u) => u,
            Err(e) => {
                return Err(e);
            },
        };
        proof {
            assert(segs_view(unpacked@)[0] == unpacked@[0]@);
            assert(segs_view(unpacked@).first() == unpack_spec(path_chars).first());
        }
        let fs = match self.find_device(&unpacked[0]) {
            Ok(fs) => fs,
            Err(e) => {
                return Err(e);
            },
        };
        let processed = pack_path(unpacked, false);
        Ok((fs, processed))
    }

    /// The convenience SD-card mount: the session presence is checked before anything
    /// else, then the filesystem the caller obtained from the session's
    /// SD-card request (or the failure that attempt produced, propagated
    /// unchanged) is mounted under `name`.
    pub fn mount_sd_card(&mut self, name: &str, sd_fs: Result<FsRef, FsError>) -> (r: Result<
        (),
        FsError,
    >)
        ensures
            old(self)@.session is None ==> r == Err::<(), FsError>(FsError::NotInitialized)
                && final(self)@ == old(self)@,
            old(self)@.session is Some ==> match sd_fs {
                Ok(fs) => r == Ok::<(), FsError>(()) && final(self)@ == (SpecFsContext {
                    session: old(self)@.session,
                    devices: old(self)@.devices.push(mounted_device(name@, fs)),
                }),
                Err(e) => r == Err::<(), FsError>(e) && final(self)@ == old(self)@,
            },
    {
        if !self.is_initialized() {
            return Err(FsError::NotInitialized);
        }
        match sd_fs {
            Ok(fs) => self.mount(name, fs),
            Err(e) => Err(e),
        }
    }

    /// Addresses a create-file request: a single backend call with the
    /// resolved local path, the attribute bits and the initial size.
    pub fn create_file(&self, path: String, size: usize, attribute: FileAttribute) -> (r: Result<
        BackendRequest,
        FsError,
    >)
        ensures
            match resolve_spec(self@, path@) {
                Ok(p) => r matches Ok(req) && req.fs == p.0 && req.local_path@ == p.1
                    && req.operation == FsOperation::CreateFile(attribute, size),
                Err(e) => r matches Err(e2) && e2 == e,
            },
    {
        match self.format_path(path) {
            Ok((fs, local_path)) => Ok(
                BackendRequest { fs, local_path, operation: FsOperation::CreateFile(attribute, size) },
            ),
            Err(e) => Err(e),
        }
    }

    /// Addresses a delete-file request.
    pub fn delete_file(&self, path: String) -> (r: Result<BackendRequest, FsError>)
        ensures
            match resolve_spec(self@, path@) {
                Ok(p) => r matches Ok(req) && req.fs == p.0 && req.local_path@ == p.1
                    && req.operation == FsOperation::DeleteFile,
                Err(e) => r matches Err(e2) && e2 == e,
            },
    {
        match self.format_path(path) {
            Ok((fs, local_path)) => Ok(
                BackendRequest { fs, local_path, operation: FsOperation::DeleteFile },
            ),
            Err(e) => Err(e),
        }
    }

    /// Addresses a create-directory request.
    pub fn create_directory(&self, path: String) -> (r: Result<BackendRequest, FsError>)
        ensures
            match resolve_spec(self@, path@) {
                Ok(p) => r matches Ok(req) && req.fs == p.0 && req.local_path@ == p.1
                    && req.operation == FsOperation::CreateDirectory,
                Err(e) => r matches Err(e2) && e2 == e,
            },
    {
        match self.format_path(path) {
            Ok((fs, local_path)) => Ok(
                BackendRequest { fs, local_path, operation: FsOperation::CreateDirectory },
            ),
            Err(e) => Err(e),
        }
    }

    /// Addresses a delete-directory request; it maps to the backend's
    /// recursive delete.
    pub fn delete_directory(&self, path: String) -> (r: Result<BackendRequest, FsError>)
        ensures
            match resolve_spec(self@, path@) {
                Ok(p) => r matches Ok(req) && req.fs == p.0 && req.local_path@ == p.1
                    && req.operation == FsOperation::DeleteDirectoryRecursively,
                Err(e) => r matches Err(e2) && e2 == e,
            },
    {
        match self.format_path(path) {
            Ok((fs, local_path)) => Ok(
                BackendRequest {
                    fs,
                    local_path,
                    operation: FsOperation::DeleteDirectoryRecursively,
                },
            ),
            Err(e) => Err(e),
        }
    }

    /// Addresses an entry-type query; the backend's reply is returned to
    /// the caller unchanged.
    pub fn get_entry_type(&self, path: String) -> (r: Result<BackendRequest, FsError>)
        ensures
            match resolve_spec(self@, path@) {
                Ok(p) => r matches Ok(req) && req.fs == p.0 && req.local_path@ == p.1
                    && req.operation == FsOperation::GetEntryType,
                Err(e) => r matches Err(e2) && e2 == e,
            },
    {
        match self.format_path(path) {
            Ok((fs, local_path)) => Ok(
                BackendRequest { fs, local_path, operation: FsOperation::GetEntryType },
            ),
            Err(e) => Err(e),
        }
    }

    /// Addresses an open-directory request; the caller wraps the opened
    /// reference and the entry-count reply in a `Directory`.
    pub fn open_directory(&self, path: String, mode: DirectoryOpenMode) -> (r: Result<
        BackendRequest,
        FsError,
    >)
        ensures
            match resolve_spec(self@, path@) {
                Ok(p) => r matches Ok(req) && req.fs == p.0 && req.local_path@ == p.1
                    && req.operation == FsOperation::OpenDirectory(mode),
                Err(e) => r matches Err(e2) && e2 == e,
            },
    {
        match self.format_path(path) {
            Ok((fs, local_path)) => Ok(
                BackendRequest { fs, local_path, operation: FsOperation::OpenDirectory(mode) },
            ),
            Err(e) => Err(e),
        }
    }

    /// Addresses an open-file request and translates the caller options
    /// into the backend mode; the `create` option stays local, driving
    /// `open_file_next` once the backend has replied.
    pub fn open_file(&self, path: String, option: FileOpenOption) -> (r: Result<
        OpenFileRequest,
        FsError,
    >)
        ensures
            match resolve_spec(self@, path@) {
                Ok(p) => r matches Ok(req) && req.fs == p.0 && req.local_path@ == p.1 && req.mode
                    == mode_of_option(option) && req.option == option,
                Err(e) => r matches Err(e2) && e2 == e,
            },
    {
        match self.format_path(path) {
            Ok((fs, local_path)) => {
                let mode = convert_file_open_option(option);
                Ok(OpenFileRequest { fs, local_path, mode, option })
            },
            Err(e) => Err(e),
        }
    }
}

/// Law: a freshly mounted device resolves under `name:` exactly when no
/// earlier device shadows it — resolution returns the new filesystem when
/// `name:` was unresolved before the mount, and is untouched otherwise.
pub proof fn lemma_resolve_after_mount(devs: Seq<SpecDevice>, name: Seq<char>, fs: FsRef)
    ensures
        find_device_spec(devs, name.push(':')) is None ==> find_device_spec(
            devs.push(mounted_device(name, fs)),
            name.push(':'),
        ) == Option::Some(fs),
        find_device_spec(devs, name.push(':')) is Some ==> find_device_spec(
            devs.push(mounted_device(name, fs)),
            name.push(':'),
        ) == find_device_spec(devs, name.push(':')),
    decreases devs.len(),
{
    let d = mounted_device(name, fs);
    if devs.len() == 0 {
        assert(devs.push(d).first() == d);
        assert(devs.push(d).drop_first() =~= Seq::<SpecDevice>::empty());
    } else {
        assert(devs.push(d).first() == devs.first());
        assert(devs.push(d).drop_first() =~= devs.drop_first().push(d));
        lemma_resolve_after_mount(devs.drop_first(), name, fs);
    }
}

/// Law: every path a context resolves successfully yields a
/// backend-local string: it begins with the path separator.
pub proof fn lemma_resolved_local_path_form(ctx: SpecFsContext, path: Seq<char>)
    ensures
        resolve_spec(ctx, path) matches Ok(p) ==> p.1.len() >= 1 && p.1[0] == '/',
{
    if resolve_spec(ctx, path) matches Ok(p) {
        crate::path::lemma_pack_local_path_starts_with_slash(unpack_spec(path));
    }
}

/// Law: after an unmount of `name` no device resolves under its bare
/// name plus the delimiter any more, whether the caller passed the bare
/// name or kept the delimiter.
pub proof fn lemma_resolve_after_unmount(devs: Seq<SpecDevice>, name: Seq<char>)
    ensures
        find_device_spec(unmount_spec(devs, name), bare_name(name).push(':')) is None,
    decreases devs.len(),
{
    if devs.len() > 0 {
        lemma_resolve_after_unmount(devs.drop_first(), name);
        let rest = unmount_spec(devs.drop_first(), name);
        if devs.first().root_name.name == bare_name(name).push(':') {
        } else {
            let whole = seq![devs.first()] + rest;
            assert(whole.first() == devs.first());
            assert(whole.drop_first() =~= rest);
        }
    }
}

} // verus!
