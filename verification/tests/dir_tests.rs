use nx_fs::dir::{Directory, DirectoryPoll, DIRECTORY_ENTRY_BATCH};
use nx_fs::error::FsError;
use nx_fs::types::{DirRef, DirectoryEntry, DirectoryEntryType};

fn entry(i: u64) -> DirectoryEntry {
    DirectoryEntry { entry_type: DirectoryEntryType::File, file_size: i }
}

/// A stand-in for the backend's paged entry reads: hands out up to `max`
/// of the remaining entries and counts the calls.
struct PagedEntries {
    all: Vec<DirectoryEntry>,
    served: usize,
    calls: usize,
}

impl PagedEntries {
    fn new(total: u64) -> Self {
        Self { all: (0..total).map(entry).collect(), served: 0, calls: 0 }
    }

    fn read(&mut self, max: usize) -> Vec<DirectoryEntry> {
        self.calls += 1;
        let end = (self.served + max).min(self.all.len());
        let batch = self.all[self.served..end].to_vec();
        self.served = end;
        batch
    }
}

/// Drives one iteration step, fetching batches on demand.
fn step(backend: &mut PagedEntries, dir: &mut Directory) -> Option<DirectoryEntry> {
    let mut poll = dir.next();
    loop {
        match poll {
            DirectoryPoll::Exhausted => return None,
            DirectoryPoll::Entry(e) => return Some(e),
            DirectoryPoll::NeedBatch => {
                poll = dir.refresh(backend.read(DIRECTORY_ENTRY_BATCH));
            },
        }
    }
}

#[test]
fn twenty_entries_take_two_batches_and_end_cleanly() {
    let mut backend = PagedEntries::new(20);
    let mut dir = Directory::new(DirRef { id: 4 }, Ok(20)).unwrap();
    let mut yielded: Vec<DirectoryEntry> = Vec::new();
    // Drive twenty iteration steps; exactly two of them fetch a batch
    // (16 entries, then the remaining 4).
    for _ in 0..20 {
        if let Some(e) = step(&mut backend, &mut dir) {
            yielded.push(e);
        }
    }
    assert_eq!(backend.calls, 2);
    // Entries come out in backend order until the buffer holds the whole
    // snapshot; from then on the handle reports the end outright, so the
    // step right after the second batch is the last one that yields.
    assert_eq!(yielded.len(), 17);
    for (i, e) in yielded.iter().enumerate() {
        assert_eq!(e.file_size, i as u64);
    }
    // The 21st step reports the end again, with no further fetch.
    assert_eq!(dir.next(), DirectoryPoll::Exhausted);
    assert_eq!(backend.calls, 2);
}

#[test]
fn empty_directory_is_exhausted_without_any_batch() {
    let mut dir = Directory::new(DirRef { id: 4 }, Ok(0)).unwrap();
    assert_eq!(dir.next(), DirectoryPoll::Exhausted);
}

#[test]
fn failed_entry_count_query_fails_the_open() {
    let r = Directory::new(DirRef { id: 4 }, Err(FsError::Backend(8)));
    assert_eq!(r.err(), Some(FsError::Backend(8)));
}

#[test]
fn refresh_completes_the_step_that_demanded_the_batch() {
    let mut backend = PagedEntries::new(20);
    let mut dir = Directory::new(DirRef { id: 4 }, Ok(20)).unwrap();
    assert_eq!(dir.next(), DirectoryPoll::NeedBatch);
    // The batch reaches the cursor, so the demanding step yields at once.
    assert_eq!(
        dir.refresh(backend.read(DIRECTORY_ENTRY_BATCH)),
        DirectoryPoll::Entry(entry(0))
    );
}

#[test]
fn rel_reports_cursor_and_snapshot_total() {
    let mut backend = PagedEntries::new(20);
    let mut dir = Directory::new(DirRef { id: 4 }, Ok(20)).unwrap();
    assert_eq!(dir.rel(), (0, 20));
    for _ in 0..5 {
        assert!(step(&mut backend, &mut dir).is_some());
    }
    assert_eq!(dir.rel(), (5, 20));
}

#[test]
fn rewind_reuses_the_buffer_without_new_batches() {
    let mut backend = PagedEntries::new(20);
    let mut dir = Directory::new(DirRef { id: 4 }, Ok(20)).unwrap();
    for i in 0..10 {
        assert_eq!(step(&mut backend, &mut dir), Some(entry(i)));
    }
    dir.rewind();
    assert_eq!(dir.rel(), (0, 20));
    // The first entries come back out of the kept buffer.
    assert_eq!(backend.calls, 1);
    assert_eq!(dir.next(), DirectoryPoll::Entry(entry(0)));
    assert_eq!(backend.calls, 1);
}

#[test]
fn snapshot_filled_in_one_batch_ends_right_after_the_refill() {
    // Eight entries fit one batch, so the buffer holds the whole
    // snapshot immediately: the refilling step yields one entry, and
    // every later step reports the end, cursor position notwithstanding.
    let mut backend = PagedEntries::new(8);
    let mut dir = Directory::new(DirRef { id: 4 }, Ok(8)).unwrap();
    assert_eq!(step(&mut backend, &mut dir), Some(entry(0)));
    assert_eq!(dir.next(), DirectoryPoll::Exhausted);
    dir.rewind();
    assert_eq!(dir.next(), DirectoryPoll::Exhausted);
}

#[test]
fn snapshot_total_caps_an_overdelivering_backend() {
    // The snapshot said 4 entries, but a batch of 16 arrives.
    let mut backend = PagedEntries::new(16);
    let mut dir = Directory::new(DirRef { id: 4 }, Ok(4)).unwrap();
    let mut seen = 0;
    loop {
        match step(&mut backend, &mut dir) {
            Some(_) => seen += 1,
            None => break,
        }
    }
    assert_eq!(seen, 4);
    assert_eq!(backend.calls, 1);
}
