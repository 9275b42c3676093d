use nx_fs::context::{open_file_next, FsContext, FsOperation, OpenFileNext};
use nx_fs::error::FsError;
use nx_fs::path::{PathSegment, PathSegmentType};
use nx_fs::types::{DirectoryOpenMode, FileAttribute, FileOpenOption, FsRef, SessionRef};

fn ready_context() -> FsContext {
    let mut ctx = FsContext::new();
    ctx.initialize(Ok(SessionRef { id: 1 })).unwrap();
    ctx
}

fn seg(name: &str) -> PathSegment {
    PathSegment::from(name.to_string(), PathSegmentType::Root)
}

#[test]
fn initialize_unlocks_everything() {
    let mut ctx = FsContext::new();
    assert!(!ctx.is_initialized());
    assert_eq!(ctx.mount("sdmc", FsRef { id: 7 }), Err(FsError::NotInitialized));
    assert_eq!(ctx.format_path("sdmc:/a".to_string()).err(), Some(FsError::NotInitialized));
    assert_eq!(ctx.session(), Err(FsError::NotInitialized));
    ctx.initialize(Ok(SessionRef { id: 3 })).unwrap();
    assert!(ctx.is_initialized());
    assert_eq!(ctx.session(), Ok(SessionRef { id: 3 }));
}

#[test]
fn initialize_propagates_a_failed_session() {
    let mut ctx = FsContext::new();
    assert_eq!(ctx.initialize(Err(FsError::Backend(11))), Err(FsError::Backend(11)));
    assert!(!ctx.is_initialized());
}

#[test]
fn mount_then_find_then_unmount() {
    let mut ctx = ready_context();
    let fs_a = FsRef { id: 40 };
    ctx.mount("sdmc", fs_a).unwrap();
    assert_eq!(ctx.find_device(&seg("sdmc:")), Ok(fs_a));
    ctx.unmount("sdmc");
    assert_eq!(ctx.find_device(&seg("sdmc:")), Err(FsError::DeviceNotFound));
}

#[test]
fn unmount_accepts_a_trailing_delimiter() {
    let mut ctx = ready_context();
    ctx.mount("sdmc", FsRef { id: 40 }).unwrap();
    ctx.unmount("sdmc:");
    assert_eq!(ctx.find_device(&seg("sdmc:")), Err(FsError::DeviceNotFound));
}

#[test]
fn earlier_mount_shadows_later_and_unmount_removes_all() {
    let mut ctx = ready_context();
    let fs_a = FsRef { id: 1 };
    let fs_b = FsRef { id: 2 };
    ctx.mount("sdmc", fs_a).unwrap();
    ctx.mount("sdmc", fs_b).unwrap();
    assert_eq!(ctx.find_device(&seg("sdmc:")), Ok(fs_a));
    ctx.unmount("sdmc");
    assert_eq!(ctx.find_device(&seg("sdmc:")), Err(FsError::DeviceNotFound));
}

#[test]
fn unmount_keeps_other_devices() {
    let mut ctx = ready_context();
    ctx.mount("sdmc", FsRef { id: 1 }).unwrap();
    ctx.mount("save", FsRef { id: 2 }).unwrap();
    ctx.unmount("sdmc");
    assert_eq!(ctx.find_device(&seg("save:")), Ok(FsRef { id: 2 }));
}

#[test]
fn finalize_clears_registry_and_session() {
    let mut ctx = ready_context();
    ctx.mount("sdmc", FsRef { id: 9 }).unwrap();
    ctx.finalize();
    assert!(!ctx.is_initialized());
    assert_eq!(ctx.find_device(&seg("sdmc:")), Err(FsError::DeviceNotFound));
    // Safe when already uninitialized.
    ctx.finalize();
}

#[test]
fn mount_sd_card_checks_session_then_mounts() {
    let mut ctx = FsContext::new();
    assert_eq!(ctx.mount_sd_card("sdmc", Ok(FsRef { id: 5 })), Err(FsError::NotInitialized));
    ctx.initialize(Ok(SessionRef { id: 1 })).unwrap();
    assert_eq!(ctx.mount_sd_card("sdmc", Err(FsError::Backend(4))), Err(FsError::Backend(4)));
    ctx.mount_sd_card("sdmc", Ok(FsRef { id: 5 })).unwrap();
    assert_eq!(ctx.find_device(&seg("sdmc:")), Ok(FsRef { id: 5 }));
}

#[test]
fn format_path_resolves_device_and_local_path() {
    let mut ctx = ready_context();
    ctx.mount("sdmc", FsRef { id: 7 }).unwrap();
    let (fs, local) = ctx.format_path("sdmc:/a/b".to_string()).unwrap();
    assert_eq!(fs, FsRef { id: 7 });
    assert_eq!(local, "/a/b");
}

#[test]
fn format_path_applies_parent_segments() {
    let mut ctx = ready_context();
    ctx.mount("sdmc", FsRef { id: 7 }).unwrap();
    let (_, local) = ctx.format_path("sdmc:/a/../b".to_string()).unwrap();
    assert_eq!(local, "/b");
}

#[test]
fn format_path_of_root_only_is_slash() {
    let mut ctx = ready_context();
    ctx.mount("sdmc", FsRef { id: 7 }).unwrap();
    let (_, local) = ctx.format_path("sdmc:".to_string()).unwrap();
    assert_eq!(local, "/");
}

#[test]
fn facade_rejects_parent_only_paths_as_invalid() {
    let mut ctx = ready_context();
    ctx.mount("sdmc", FsRef { id: 7 }).unwrap();
    assert_eq!(ctx.format_path("../..".to_string()).err(), Some(FsError::InvalidPath));
    assert_eq!(
        ctx.open_file("..".to_string(), FileOpenOption {
            create: false,
            read: true,
            write: false,
            append: false,
        }).err(),
        Some(FsError::InvalidPath)
    );
}

#[test]
fn facade_rejects_unknown_devices() {
    let ctx = ready_context();
    assert_eq!(
        ctx.format_path("sdmc:/a".to_string()).err(),
        Some(FsError::DeviceNotFound)
    );
}

#[test]
fn facade_rejects_paths_without_a_root_first_segment() {
    let mut ctx = ready_context();
    ctx.mount("a", FsRef { id: 7 }).unwrap();
    // First segment "a" is Normal, not Root "a:", so resolution fails.
    assert_eq!(ctx.format_path("a/b".to_string()).err(), Some(FsError::DeviceNotFound));
}

#[test]
fn create_file_request_carries_attribute_and_size() {
    let mut ctx = ready_context();
    ctx.mount("sdmc", FsRef { id: 7 }).unwrap();
    let req = ctx.create_file("sdmc:/new.bin".to_string(), 128, FileAttribute { raw: 3 }).unwrap();
    assert_eq!(req.fs, FsRef { id: 7 });
    assert_eq!(req.local_path, "/new.bin");
    assert_eq!(req.operation, FsOperation::CreateFile(FileAttribute { raw: 3 }, 128));
}

#[test]
fn delete_and_directory_requests_pick_their_operations() {
    let mut ctx = ready_context();
    ctx.mount("sdmc", FsRef { id: 7 }).unwrap();
    let del = ctx.delete_file("sdmc:/f".to_string()).unwrap();
    assert_eq!(del.operation, FsOperation::DeleteFile);
    let mkdir = ctx.create_directory("sdmc:/d".to_string()).unwrap();
    assert_eq!(mkdir.operation, FsOperation::CreateDirectory);
    let rmdir = ctx.delete_directory("sdmc:/d".to_string()).unwrap();
    assert_eq!(rmdir.operation, FsOperation::DeleteDirectoryRecursively);
    let stat = ctx.get_entry_type("sdmc:/d".to_string()).unwrap();
    assert_eq!(stat.operation, FsOperation::GetEntryType);
    let opendir = ctx.open_directory("sdmc:/d".to_string(), DirectoryOpenMode { raw: 3 }).unwrap();
    assert_eq!(opendir.operation, FsOperation::OpenDirectory(DirectoryOpenMode { raw: 3 }));
    assert_eq!(opendir.local_path, "/d");
}

#[test]
fn open_file_request_translates_options_and_drops_create() {
    let mut ctx = ready_context();
    ctx.mount("sdmc", FsRef { id: 7 }).unwrap();
    let option = FileOpenOption { create: true, read: true, write: true, append: false };
    let req = ctx.open_file("sdmc:/f".to_string(), option).unwrap();
    assert!(req.mode.read);
    assert!(req.mode.write);
    assert!(!req.mode.append);
    assert_eq!(req.option, option);
    assert_eq!(req.local_path, "/f");
}

#[test]
fn open_file_next_recovers_only_missing_paths_with_create() {
    let create = FileOpenOption { create: true, read: false, write: true, append: false };
    let plain = FileOpenOption { create: false, read: false, write: true, append: false };
    assert_eq!(
        open_file_next(create, Err(FsError::PathNotFound)),
        OpenFileNext::CreateThenRetry
    );
    assert_eq!(
        open_file_next(plain, Err(FsError::PathNotFound)),
        OpenFileNext::Fail(FsError::PathNotFound)
    );
    assert_eq!(
        open_file_next(create, Err(FsError::Backend(17))),
        OpenFileNext::Fail(FsError::Backend(17))
    );
    assert_eq!(
        open_file_next(create, Ok(nx_fs::types::FileRef { id: 12 })),
        OpenFileNext::Opened(nx_fs::types::FileRef { id: 12 })
    );
}
