//! `staart` follows a growing log-like file, in the spirit of a continuous
//! `tail -f`.
//!
//! The heart of the library is the tracking state machine on [`TailedFile`]:
//! every poll compares a fresh identity snapshot of the file against the one
//! stored, detects rotation (the path now names a different file) and
//! truncation (the same file shrank below the tracked offset), resets the
//! offset accordingly, and resumes reading from the right place. All of that
//! logic operates on plain values — an identifier, a size, bytes — and is
//! verified here; opening files and fetching metadata is left to the caller,
//! which hands the results in as a [`Snapshot`] or a [`FileState`].

use vstd::prelude::*;

pub mod errors;

pub use errors::IoErrorKind;
pub use errors::StaartError;

verus! {

/// Upper bound on the bytes returned by a single read: at most one chunk per
/// poll, the remainder being picked up by later calls.
pub const CHUNK_SIZE: u64 = 65536;

/// An identity snapshot: the minimal filesystem metadata needed to detect
/// rotation and truncation. `ident` is a stable unique identifier of the
/// underlying file (inode number where available, creation time otherwise);
/// `len` is the file's size in bytes when the snapshot was captured.
#[derive(Clone, Copy, Debug, PartialEq, Eq, Structural)]
pub struct Snapshot {
    pub ident: u64,
    pub len: u64,
}

/// One observation of the file currently at the followed path: its unique
/// identifier together with its full contents at that moment.
#[derive(Debug)]
pub struct FileState {
    pub ident: u64,
    pub data: Vec<u8>,
}

/// Tracking state of a followed file: the offset just past the last byte
/// returned, and the identity snapshot captured by the most recent poll.
#[derive(Clone, Copy, Debug, PartialEq, Eq, Structural)]
pub struct TailedFile {
    pub pos: u64,
    pub meta: Snapshot,
}

/// The fresh identifier differs from the stored one: the path was rotated.
pub open spec fn is_rotation(s: TailedFile, ident: u64) -> bool {
    ident != s.meta.ident
}

/// Same underlying file, but it now ends before the tracked offset.
pub open spec fn is_truncation(s: TailedFile, ident: u64, len: int) -> bool {
    ident == s.meta.ident && len < s.pos
}

/// Offset from which a read resumes, given the fresh identifier and size:
/// zero after rotation or truncation, the tracked offset otherwise. Rotation
/// is decided first, so a new file smaller than the old offset still counts
/// as rotation, never as truncation.
pub open spec fn resume_pos(s: TailedFile, ident: u64, len: int) -> int {
    if is_rotation(s, ident) || is_truncation(s, ident, len) {
        0
    } else {
        s.pos as int
    }
}

/// Number of bytes a read returns: everything from the resume offset to the
/// end of the file, capped at one chunk.
pub open spec fn read_amount(s: TailedFile, ident: u64, len: int) -> int {
    let start = resume_pos(s, ident, len);
    if len - start > CHUNK_SIZE {
        CHUNK_SIZE as int
    } else {
        len - start
    }
}

/// The bytes a read of `f` returns from state `s`.
pub open spec fn read_window(s: TailedFile, f: FileState) -> Seq<u8> {
    let len = f.data@.len() as int;
    let start = resume_pos(s, f.ident, len);
    f.data@.subrange(start, start + read_amount(s, f.ident, len))
}

/// The tracking state after a read of `f` from state `s`: the offset sits
/// just past the returned window, and the fresh snapshot is adopted.
pub open spec fn read_step(s: TailedFile, f: FileState) -> TailedFile {
    let len = f.data@.len() as int;
    TailedFile {
        pos: (resume_pos(s, f.ident, len) + read_amount(s, f.ident, len)) as u64,
        meta: Snapshot { ident: f.ident, len: len as u64 },
    }
}

impl TailedFile {
    /// The tracked offset never runs past the size in the stored snapshot.
    pub open spec fn wf(self) -> bool {
        self.pos <= self.meta.len
    }

    /// Starts following a file whose identity snapshot is `meta`. The initial
    /// offset is the current size, so no historical content is replayed: only
    /// growth after construction is surfaced.
    pub fn new(meta: Snapshot) -> (t: TailedFile)
        ensures
            t.pos == meta.len,
            t.meta == meta,
            t.wf(),
    {
        TailedFile { pos: meta.len, meta }
    }

    /// Rotation check: if the fresh identifier differs from the stored one,
    /// the path names a new file, so the offset falls back to zero and the
    /// fresh snapshot is adopted; otherwise nothing changes.
    pub fn check_rotate(&mut self, meta: &Snapshot)
        ensures
            is_rotation(*old(self), meta.ident) ==> *final(self) == (TailedFile {
                pos: 0,
                meta: *meta,
            }),
            !is_rotation(*old(self), meta.ident) ==> *final(self) == *old(self),
    {
        if meta.ident != self.meta.ident {
            self.pos = 0;
            self.meta = *meta;
        }
    }

    /// Truncation check: if the identifier is unchanged but the fresh size is
    /// strictly below the tracked offset, the same file shrank in place, so
    /// the offset falls back to zero. The stored snapshot is not touched.
    pub fn check_truncate(&mut self, meta: &Snapshot)
        ensures
            final(self).meta == old(self).meta,
            is_truncation(*old(self), meta.ident, meta.len as int) ==> final(self).pos == 0,
            !is_truncation(*old(self), meta.ident, meta.len as int) ==> final(self).pos == old(
                self,
            ).pos,
    {
        if meta.ident == self.meta.ident && meta.len < self.pos {
            self.pos = 0;
        }
    }

    /// Runs the rotation and truncation checks against a fresh snapshot,
    /// adopts it, and returns the offset from which the caller should read.
    /// The returned offset never exceeds the fresh size.
    pub fn begin_read(&mut self, meta: &Snapshot) -> (start: u64)
        ensures
            final(self).meta == *meta,
            final(self).pos as int == resume_pos(*old(self), meta.ident, meta.len as int),
            start == final(self).pos,
            final(self).wf(),
    {
        self.check_rotate(meta);
        self.check_truncate(meta);
        self.meta = *meta;
        self.pos
    }

    /// Advances the offset by the number of bytes just read. Reports a
    /// numeric-conversion error, leaving the state untouched, if the advanced
    /// offset cannot be represented in 64 bits.
    pub fn advance(&mut self, n: u64) -> (r: Result<(), StaartError>)
        ensures
            old(self).pos + n <= u64::MAX ==> r == Ok::<(), StaartError>(()) && final(self).pos
                == old(self).pos + n && final(self).meta == old(self).meta,
            old(self).pos + n > u64::MAX ==> r == Err::<(), StaartError>(StaartError::IntError)
                && *final(self) == *old(self),
    {
        match self.pos.checked_add(n) {
            Some(p) => {
                self.pos = p;
                Ok(())
            },
            None => Err(StaartError::IntError),
        }
    }

    /// One full read of the file currently at the followed path: detect
    /// rotation and truncation against `file`'s identity, adopt its snapshot,
    /// return the bytes between the resume offset and the end of the file —
    /// capped at one chunk — and advance the offset past them.
    pub fn read(&mut self, file: &FileState) -> (r: Vec<u8>)
        ensures
            r@ == read_window(*old(self), *file),
            *final(self) == read_step(*old(self), *file),
            final(self).wf(),
    {
        let len_bytes: usize = file.data.len();
        let len: u64 = len_bytes as u64;
        let snap = Snapshot { ident: file.ident, len };
        let start = self.begin_read(&snap);
        let remaining = len - start;
        let n = if remaining > CHUNK_SIZE {
            CHUNK_SIZE
        } else {
            remaining
        };
        proof {
            assert(start <= len_bytes);
        }
        let start_bytes: usize = start as usize;
        let n_bytes: usize = n as usize;
        let mut out: Vec<u8> = Vec::new();
        while out.len() < n_bytes
            invariant
                n_bytes == n,
                start_bytes == start,
                len_bytes == len,
                start + n <= len,
                len == file.data@.len(),
                out@.len() <= n,
                out@ == file.data@.subrange(start as int, start as int + out@.len()),
            decreases n_bytes - out.len(),
        {
            let b = file.data[start_bytes + out.len()];
            out.push(b);
            proof {
                assert(out@ =~= file.data@.subrange(start as int, start as int + out@.len()));
            }
        }
        self.pos = start + n;
        out
    }

    /// Performs one read and hands the bytes to a caller-supplied consumer,
    /// advancing the tracking state exactly as [`TailedFile::read`] does.
    pub fn read_and<F: Fn(&[u8])>(&mut self, file: &FileState, f: F)
        requires
            forall|d: &[u8]|
                d@ == read_window(*old(self), *file) ==> #[trigger] call_requires(f, (d,)),
        ensures
            *final(self) == read_step(*old(self), *file),
            exists|d: &[u8]|
                d@ == read_window(*old(self), *file) && #[trigger] call_ensures(f, (d,), ()),
    {
        let data = self.read(file);
        f(data.as_slice());
    }
}

/// The contents of a file observation fit in memory, so their length is
/// representable in the 64-bit offset width.
pub proof fn lemma_file_fits(f: &FileState)
    ensures
        f.data@.len() <= usize::MAX,
{
    broadcast use vstd::std_specs::vec::axiom_spec_len;

    assert(f.data.len() == f.data@.len());
}

/// Under pure appends — same file, grown or unchanged, offset still inside it
/// — a read resumes exactly at the tracked offset: it returns the bytes
/// between that offset and the end of the window, skipping none and repeating
/// none, and whenever at most one chunk is pending the new offset equals the
/// file's total size.
pub proof fn lemma_append_only_read_exact(s: TailedFile, f: FileState)
    requires
        f.ident == s.meta.ident,
        s.pos <= f.data@.len(),
    ensures
        read_window(s, f) == f.data@.subrange(
            s.pos as int,
            s.pos + read_amount(s, f.ident, f.data@.len() as int),
        ),
        read_step(s, f).pos == s.pos + read_amount(s, f.ident, f.data@.len() as int),
        f.data@.len() - s.pos <= CHUNK_SIZE ==> read_step(s, f).pos == f.data@.len(),
{
    lemma_file_fits(&f);
}

/// Two consecutive reads under pure appends cover one contiguous byte range:
/// their concatenation is exactly the bytes from the first offset to the end
/// of the second window, with no duplication and no gap between the calls.
pub proof fn lemma_consecutive_reads_no_gap(s: TailedFile, f1: FileState, f2: FileState)
    requires
        f1.ident == s.meta.ident,
        s.pos <= f1.data@.len(),
        f2.ident == f1.ident,
        f1.data@.len() <= f2.data@.len(),
        f2.data@.subrange(0, f1.data@.len() as int) == f1.data@,
    ensures
        read_window(s, f1) + read_window(read_step(s, f1), f2) == f2.data@.subrange(
            s.pos as int,
            read_step(read_step(s, f1), f2).pos as int,
        ),
{
    lemma_file_fits(&f1);
    lemma_file_fits(&f2);
    let len1 = f1.data@.len() as int;
    let len2 = f2.data@.len() as int;
    let mid = s.pos + read_amount(s, f1.ident, len1);
    let s1 = read_step(s, f1);
    assert(s1.pos == mid);
    assert(!is_rotation(s1, f2.ident));
    assert(!is_truncation(s1, f2.ident, len2));
    let end = mid + read_amount(s1, f2.ident, len2);
    assert(forall|k: int| 0 <= k < len1 ==> f1.data@[k] == #[trigger] f2.data@.subrange(
        0,
        len1,
    )[k]);
    assert(read_window(s, f1) =~= f2.data@.subrange(s.pos as int, mid));
    assert(read_window(s1, f2) =~= f2.data@.subrange(mid, end));
    assert(read_window(s, f1) + read_window(s1, f2) =~= f2.data@.subrange(s.pos as int, end));
}

/// Idempotence: a read that finds the same file at the same size, with the
/// offset already at the end, returns nothing and leaves the offset and the
/// stored size unchanged — the identifier is re-confirmed, not altered.
pub proof fn lemma_read_idempotent(s: TailedFile, f: FileState)
    requires
        f.ident == s.meta.ident,
        f.data@.len() == s.meta.len,
        s.pos == s.meta.len,
    ensures
        read_window(s, f) == Seq::<u8>::empty(),
        read_step(s, f).pos == s.pos,
        read_step(s, f).meta.ident == s.meta.ident,
        read_step(s, f).meta.len == s.meta.len,
{
    assert(read_window(s, f) =~= Seq::<u8>::empty());
}

/// Rotation: when the path names a file with a new identifier, the next read
/// starts from offset zero of that file — regardless of the new file's size
/// relative to the old offset — and adopts the new identity. A new file that
/// happens to be smaller than the old offset is rotation, never truncation.
pub proof fn lemma_rotation_resets(s: TailedFile, f: FileState)
    requires
        f.ident != s.meta.ident,
    ensures
        read_window(s, f) == f.data@.subrange(0, read_amount(s, f.ident, f.data@.len() as int)),
        read_step(s, f).pos == read_amount(s, f.ident, f.data@.len() as int),
        read_step(s, f).meta.ident == f.ident,
        f.data@.len() <= CHUNK_SIZE ==> read_window(s, f) == f.data@,
{
    if f.data@.len() <= CHUNK_SIZE {
        assert(read_window(s, f) =~= f.data@);
    }
}

/// Truncation: when the same file shrank below the tracked offset, the next
/// read resets the offset to zero and returns data from the start of the
/// now-shorter file.
pub proof fn lemma_truncation_resets(s: TailedFile, f: FileState)
    requires
        f.ident == s.meta.ident,
        f.data@.len() < s.pos,
    ensures
        read_window(s, f) == f.data@.subrange(0, read_amount(s, f.ident, f.data@.len() as int)),
        read_step(s, f).pos == read_amount(s, f.ident, f.data@.len() as int),
        f.data@.len() <= CHUNK_SIZE ==> read_window(s, f) == f.data@,
{
    if f.data@.len() <= CHUNK_SIZE {
        assert(read_window(s, f) =~= f.data@);
    }
}

/// Construction: a source built from a snapshot of the current file starts at
/// the file's end, so an immediate read with no intervening writes returns
/// nothing and leaves the offset at the file's size.
pub proof fn lemma_new_then_read_empty(meta: Snapshot, f: FileState)
    requires
        f.ident == meta.ident,
        f.data@.len() == meta.len,
    ensures
        read_window((TailedFile { pos: meta.len, meta: meta }), f) == Seq::<u8>::empty(),
        read_step((TailedFile { pos: meta.len, meta: meta }), f).pos == meta.len,
{
    lemma_read_idempotent(TailedFile { pos: meta.len, meta: meta }, f);
}

} // verus!
