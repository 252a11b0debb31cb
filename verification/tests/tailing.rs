use staart::{FileState, IoErrorKind, Snapshot, StaartError, TailedFile, CHUNK_SIZE};

fn file(ident: u64, bytes: &[u8]) -> FileState {
    FileState {
        ident,
        data: bytes.to_vec(),
    }
}

#[test]
fn tailed_file() {
    let tailed = TailedFile::new(Snapshot { ident: 1, len: 0 });
    assert_eq!(tailed.pos, 0);
    assert_eq!(tailed.meta.ident, 1);
}

#[test]
fn test_read() {
    let test_data = b"Some data";
    let mut tailed = TailedFile::new(Snapshot { ident: 1, len: 0 });
    let f = file(1, test_data);
    let data = tailed.read(&f);
    assert_eq!(data.len(), test_data.len());
    assert_eq!(tailed.pos, 9);
    assert_eq!(data, test_data.to_vec());
}

#[test]
fn test_check_rotate() {
    let mut tailed = TailedFile::new(Snapshot { ident: 1, len: 9 });
    let fresh = Snapshot { ident: 2, len: 3 };
    tailed.check_rotate(&fresh);
    assert_eq!(tailed.meta.ident, fresh.ident);
    assert_eq!(tailed.pos, 0);
}

#[test]
fn test_check_truncate() {
    let mut tailed = TailedFile::new(Snapshot { ident: 1, len: 9 });
    let fresh = Snapshot { ident: 1, len: 3 };
    tailed.check_truncate(&fresh);
    assert_eq!(tailed.pos, 0)
}

#[test]
fn construction_after_write_reads_nothing() {
    // "Some data" was already present when the source was constructed, so it
    // is never replayed: the offset starts at 9 and the first read is empty.
    let mut tailed = TailedFile::new(Snapshot { ident: 7, len: 9 });
    assert_eq!(tailed.pos, 9);
    let f = file(7, b"Some data");
    let data = tailed.read(&f);
    assert!(data.is_empty());
    assert_eq!(tailed.pos, 9);
}

#[test]
fn construction_before_write_reads_everything() {
    // The source was constructed on an empty file; a later read returns the
    // nine bytes written since and leaves the offset at 9.
    let mut tailed = TailedFile::new(Snapshot { ident: 7, len: 0 });
    let f = file(7, b"Some data");
    let data = tailed.read(&f);
    assert_eq!(data, b"Some data".to_vec());
    assert_eq!(tailed.pos, 9);
}

#[test]
fn rotation_reads_new_file_from_start() {
    // "Some data" was tailed to its end, then the path was replaced by a new
    // file holding "fun": the read reports the new identity, resets the
    // offset, and returns the new file's bytes.
    let mut tailed = TailedFile::new(Snapshot { ident: 1, len: 9 });
    let replacement = file(2, b"fun");
    let data = tailed.read(&replacement);
    assert_eq!(data, b"fun".to_vec());
    assert_eq!(tailed.meta.ident, 2);
    assert_eq!(tailed.pos, 3);
}

#[test]
fn rotation_wins_regardless_of_size() {
    // The new incarnation is larger than the old offset, so no truncation
    // would be detected; the identifier change alone must reset the offset.
    let mut tailed = TailedFile::new(Snapshot { ident: 1, len: 4 });
    let replacement = file(2, b"abcdefgh");
    let data = tailed.read(&replacement);
    assert_eq!(data, b"abcdefgh".to_vec());
    assert_eq!(tailed.pos, 8);
}

#[test]
fn truncation_reads_shorter_file_from_start() {
    // The same file (identifier unchanged) was rewritten with shorter
    // content: the offset resets and the new content is returned.
    let mut tailed = TailedFile::new(Snapshot { ident: 1, len: 9 });
    let shrunk = file(1, b"fun");
    let data = tailed.read(&shrunk);
    assert_eq!(data, b"fun".to_vec());
    assert_eq!(tailed.pos, 3);
}

#[test]
fn idempotent_read_changes_nothing() {
    let mut tailed = TailedFile::new(Snapshot { ident: 3, len: 0 });
    let f = file(3, b"steady");
    let first = tailed.read(&f);
    assert_eq!(first, b"steady".to_vec());
    let before = tailed;
    let second = tailed.read(&f);
    assert!(second.is_empty());
    assert_eq!(tailed, before);
}

#[test]
fn repeated_reads_return_appends_without_gap_or_overlap() {
    let mut tailed = TailedFile::new(Snapshot { ident: 5, len: 0 });
    let mut written: Vec<u8> = Vec::new();
    let mut collected: Vec<u8> = Vec::new();

    written.extend_from_slice(b"first line\n");
    collected.extend_from_slice(&tailed.read(&file(5, &written)));

    written.extend_from_slice(b"second line\n");
    collected.extend_from_slice(&tailed.read(&file(5, &written)));

    written.extend_from_slice(b"third line\n");
    collected.extend_from_slice(&tailed.read(&file(5, &written)));

    assert_eq!(collected, written);
    assert_eq!(tailed.pos as usize, written.len());
}

#[test]
fn read_returns_at_most_one_chunk_per_call() {
    let total: usize = CHUNK_SIZE as usize + 4464;
    let bytes: Vec<u8> = (0..total).map(|i| (i % 251) as u8).collect();
    let f = FileState {
        ident: 9,
        data: bytes.clone(),
    };
    let mut tailed = TailedFile::new(Snapshot { ident: 9, len: 0 });

    let first = tailed.read(&f);
    assert_eq!(first.len(), CHUNK_SIZE as usize);
    assert_eq!(tailed.pos, CHUNK_SIZE);

    let second = tailed.read(&f);
    assert_eq!(second.len(), 4464);
    assert_eq!(tailed.pos as usize, total);

    let third = tailed.read(&f);
    assert!(third.is_empty());

    let mut collected = first;
    collected.extend_from_slice(&second);
    assert_eq!(collected, bytes);
}

#[test]
fn begin_read_returns_resume_offset() {
    let mut tailed = TailedFile::new(Snapshot { ident: 1, len: 9 });

    // Plain growth: resume where we left off and adopt the fresh size.
    let grown = Snapshot { ident: 1, len: 20 };
    assert_eq!(tailed.begin_read(&grown), 9);
    assert_eq!(tailed.meta, grown);

    // Rotation: resume from zero under the new identity.
    let rotated = Snapshot { ident: 2, len: 1 };
    assert_eq!(tailed.begin_read(&rotated), 0);
    assert_eq!(tailed.meta, rotated);
}

#[test]
fn advance_moves_offset() {
    let mut tailed = TailedFile::new(Snapshot { ident: 1, len: 10 });
    assert!(tailed.advance(5).is_ok());
    assert_eq!(tailed.pos, 15);
}

#[test]
fn advance_overflow_is_int_error() {
    let mut tailed = TailedFile::new(Snapshot {
        ident: 1,
        len: u64::MAX,
    });
    let r = tailed.advance(1);
    assert_eq!(r, Err(StaartError::IntError));
    assert_eq!(tailed.pos, u64::MAX);
}

#[test]
fn read_and_passes_bytes_to_consumer() {
    let mut tailed = TailedFile::new(Snapshot { ident: 4, len: 0 });
    let f = file(4, b"callback data");
    let seen: std::cell::RefCell<Vec<u8>> = std::cell::RefCell::new(Vec::new());
    tailed.read_and(&f, |d: &[u8]| {
        seen.borrow_mut().extend_from_slice(d);
    });
    assert_eq!(seen.into_inner(), b"callback data".to_vec());
    assert_eq!(tailed.pos, 13);
}

#[test]
fn error_messages_name_the_kind() {
    assert_eq!(
        StaartError::IO(IoErrorKind::Other).message(),
        "encountered IO error"
    );
    assert_eq!(
        StaartError::Utf8(3).message(),
        "encountered UTF8 error"
    );
    assert_eq!(
        StaartError::IntError.message(),
        "encountered integer conversion error"
    );
}

#[test]
fn not_found_is_the_transient_error() {
    assert!(StaartError::IO(IoErrorKind::NotFound).is_not_found());
    assert!(!StaartError::IO(IoErrorKind::Other).is_not_found());
    assert!(!StaartError::Utf8(0).is_not_found());
    assert!(!StaartError::IntError.is_not_found());
}
