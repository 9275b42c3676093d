use nx_fs::context::{open_file_next, FsContext, OpenFileNext};
use nx_fs::error::FsError;
use nx_fs::file::{File, Whence};
use nx_fs::types::{FileAttribute, FileOpenOption, FileRef, FsRef, SessionRef};

fn ready_context() -> FsContext {
    let mut ctx = FsContext::new();
    ctx.initialize(Ok(SessionRef { id: 1 })).unwrap();
    ctx
}

/// A stand-in backend filesystem holding one path that may not exist
/// yet; it counts the create and open calls it serves.
struct RecordingFs {
    exists: bool,
    create_calls: usize,
    open_calls: usize,
}

impl RecordingFs {
    fn open(&mut self) -> Result<FileRef, FsError> {
        self.open_calls += 1;
        if self.exists {
            Ok(FileRef { id: 21 })
        } else {
            Err(FsError::PathNotFound)
        }
    }

    fn create(&mut self, _attribute: FileAttribute, _size: usize) {
        self.create_calls += 1;
        self.exists = true;
    }
}

#[test]
fn create_on_open_runs_one_create_and_one_retry() {
    let mut ctx = ready_context();
    ctx.mount("sdmc", FsRef { id: 7 }).unwrap();
    let option = FileOpenOption { create: true, read: false, write: true, append: false };
    let req = ctx.open_file("sdmc:/new.txt".to_string(), option).unwrap();

    let mut backend = RecordingFs { exists: false, create_calls: 0, open_calls: 0 };
    let first = backend.open();
    let file_ref = match open_file_next(req.option, first) {
        OpenFileNext::Opened(f) => f,
        OpenFileNext::CreateThenRetry => {
            // One corrective create with empty attributes and zero size,
            // then exactly one retried open.
            backend.create(FileAttribute::empty(), 0);
            backend.open().unwrap()
        },
        OpenFileNext::Fail(e) => panic!("unexpected failure {:?}", e),
    };
    assert_eq!(backend.create_calls, 1);
    assert_eq!(backend.open_calls, 2);

    // No append requested: the handle starts at cursor 0.
    let file = File::new(file_ref);
    assert_eq!(file.cursor(), 0);
    assert_eq!(file.file_ref(), FileRef { id: 21 });
}

#[test]
fn append_open_of_a_fresh_file_starts_at_zero() {
    // Create|Write|Append on a newly created file: the size query reports
    // 0, so the initial cursor is 0.
    let file = File::new_append(FileRef { id: 3 }, Ok(0));
    assert_eq!(file.cursor(), 0);
}

#[test]
fn append_open_starts_at_reported_size() {
    let file = File::new_append(FileRef { id: 3 }, Ok(42));
    assert_eq!(file.cursor(), 42);
}

#[test]
fn append_open_defaults_to_zero_when_the_size_query_fails() {
    let file = File::new_append(FileRef { id: 3 }, Err(FsError::Backend(9)));
    assert_eq!(file.cursor(), 0);
}

#[test]
fn seek_current_adds_to_seek_start() {
    let mut file = File::new(FileRef { id: 1 });
    file.seek(10, Whence::Start, Ok(0)).unwrap();
    file.seek(5, Whence::Current, Ok(0)).unwrap();
    assert_eq!(file.cursor(), 15);
}

#[test]
fn seek_end_adds_offset_to_size() {
    let mut file = File::new(FileRef { id: 1 });
    file.seek(0, Whence::End, Ok(100)).unwrap();
    assert_eq!(file.cursor(), 100);
    // The deliberate quirk: End *adds* the offset to the size.
    file.seek(8, Whence::End, Ok(100)).unwrap();
    assert_eq!(file.cursor(), 108);
}

#[test]
fn seek_end_propagates_a_failed_size_query() {
    let mut file = File::new(FileRef { id: 1 });
    file.seek(10, Whence::Start, Ok(0)).unwrap();
    assert_eq!(file.seek(0, Whence::End, Err(FsError::Backend(2))), Err(FsError::Backend(2)));
    assert_eq!(file.cursor(), 10);
}

#[test]
fn short_read_still_advances_by_requested_size() {
    let mut file = File::new(FileRef { id: 1 });
    // The backend transferred only 30 of the 50 requested bytes.
    assert_eq!(file.read(50, Ok(30)), Ok(30));
    assert_eq!(file.cursor(), 50);
}

#[test]
fn failed_read_leaves_the_cursor() {
    let mut file = File::new(FileRef { id: 1 });
    file.seek(12, Whence::Start, Ok(0)).unwrap();
    assert_eq!(file.read(8, Err(FsError::Backend(5))), Err(FsError::Backend(5)));
    assert_eq!(file.cursor(), 12);
}

#[test]
fn write_reports_the_requested_size_and_advances() {
    let mut file = File::new(FileRef { id: 1 });
    assert_eq!(file.write(7, Ok(())), Ok(7));
    assert_eq!(file.cursor(), 7);
    assert_eq!(file.write(3, Err(FsError::Backend(6))), Err(FsError::Backend(6)));
    assert_eq!(file.cursor(), 7);
}
