use vstd::prelude::*;

verus! {

/// One named file of the storage area: a flat name and raw byte content.
#[derive(Debug)]
struct FileEntry {
    name: String,
    content: Vec<u8>,
}

/// An in-memory model of a sandboxed, flat storage area: named files with
/// byte contents, created lazily on first resolution. Every operation takes
/// the storage area explicitly, so the dependency on it stays visible and a
/// test can supply its own area.
#[derive(Debug)]
pub struct OpfsCore {
    files: Vec<FileEntry>,
}

impl Default for OpfsCore {
    /// An empty storage area, as `new` yields.
    fn default() -> (core: OpfsCore)
        ensures
            core.wf(),
            core.file_count() == 0,
    {
        OpfsCore::new()
    }
}

/// An opaque capability token referencing one file of a storage area. It is
/// only meaningful for the area it was resolved against.
#[derive(Clone, Copy, PartialEq, Eq, Structural, Debug)]
pub struct FileToken {
    id: usize,
}

impl FileToken {
    pub closed spec fn id_spec(&self) -> int {
        self.id as int
    }

    /// The token refers to a file that the given storage area holds.
    pub open spec fn valid(&self, core: OpfsCore) -> bool {
        0 <= self.id_spec() < core.file_count()
    }
}

/// The bytes a read of `size` bytes at `offset` yields from a file holding
/// `content`: the requested range clamped to end-of-file, so a range that
/// extends past the end yields only the bytes present, possibly none, and
/// never fails. This clamping policy is the contract of `OPFSFile::read`.
pub open spec fn read_range(content: Seq<u8>, offset: int, size: int) -> Seq<u8>
    recommends
        0 <= offset,
        0 <= size,
{
    let start = if offset <= content.len() {
        offset
    } else {
        content.len() as int
    };
    let end = if offset + size <= content.len() {
        offset + size
    } else {
        content.len() as int
    };
    content.subrange(start, end)
}

/// The content of a file after `bytes` are written at `offset` into a file
/// holding `content`: bytes in the written range come from `bytes`, bytes
/// before and after it are unchanged, the file never shrinks, and when the
/// offset lies past the old end-of-file the gap is zero-filled.
pub open spec fn write_range(content: Seq<u8>, bytes: Seq<u8>, offset: int) -> Seq<u8>
    recommends
        0 <= offset,
{
    let end = offset + bytes.len();
    let newlen = if end > content.len() {
        end
    } else {
        content.len() as int
    };
    Seq::new(
        newlen as nat,
        |i: int|
            if offset <= i && i < end {
                bytes[i - offset]
            } else if i < content.len() {
                content[i]
            } else {
                0u8
            },
    )
}

impl OpfsCore {
    /// How many files the storage area holds.
    pub closed spec fn file_count(&self) -> int {
        self.files@.len() as int
    }

    /// The name of the file in slot `i`.
    pub closed spec fn name_at(&self, i: int) -> Seq<char> {
        self.files@[i].name@
    }

    /// The current content of the file in slot `i`.
    pub closed spec fn content_at(&self, i: int) -> Seq<u8> {
        self.files@[i].content@
    }

    /// Well-formedness of the storage area: filenames are unique, so a name
    /// resolves to at most one file.
    pub open spec fn wf(&self) -> bool {
        forall|i: int, j: int|
            0 <= i < j < self.file_count() ==> self.name_at(i) != self.name_at(j)
    }

    /// The storage area holds a file of the given name.
    pub open spec fn has_file(&self, name: Seq<char>) -> bool {
        exists|i: int| 0 <= i < self.file_count() && #[trigger] self.name_at(i) == name
    }

    /// An empty storage area.
    pub fn new() -> (core: OpfsCore)
        ensures
            core.wf(),
            core.file_count() == 0,
    {
        OpfsCore { files: Vec::new() }
    }

    /// Resolves `filename` to a capability token, creating a zero-length file
    /// under that name when none exists yet: resolution of a missing name
    /// succeeds rather than failing. An existing file, and every other file,
    /// is left untouched.
    pub fn get_handle_by_filename(&mut self, filename: &str) -> (token: FileToken)
        requires
            old(self).wf(),
        ensures
            final(self).wf(),
            token.valid(*final(self)),
            final(self).name_at(token.id_spec()) == filename@,
            old(self).has_file(filename@) ==> *final(self) == *old(self),
            !old(self).has_file(filename@) ==> final(self).file_count() == old(self).file_count()
                + 1 && token.id_spec() == old(self).file_count() && final(self).content_at(
                token.id_spec(),
            ) == Seq::<u8>::empty(),
            forall|j: int|
                0 <= j < old(self).file_count() ==> final(self).name_at(j) == old(self).name_at(j)
                    && final(self).content_at(j) == old(self).content_at(j),
    {
        let owned: String = filename.to_owned();
        let n = self.files.len();
        let mut i: usize = 0;
        while i < n
            invariant
                old(self).wf(),
                n == self.files@.len(),
                i <= n,
                owned@ == filename@,
                forall|j: int| 0 <= j < i ==> self.name_at(j) != filename@,
                *self == *old(self),
            decreases n - i,
        {
            if self.files[i].name == owned {
                return FileToken { id: i };
            }
            i += 1;
        }
        assert(!self.has_file(filename@));
        let ghost before = self.files@;
        self.files.push(FileEntry { name: owned, content: Vec::new() });
        assert forall|j: int| 0 <= j < before.len() implies self.name_at(j) == old(self).name_at(j)
            && self.content_at(j) == old(self).content_at(j) by {
            assert(self.files@[j] == before[j]);
        }
        FileToken { id: n }
    }
}

/// One opened file of a storage area: an opaque token plus a size snapshot
/// taken when the file was materialized. The snapshot is not refreshed by
/// reads or writes; a caller that needs a fresh size resolves the file again.
pub struct OPFSFile {
    token: FileToken,
    snapshot_size: u64,
}

impl OPFSFile {
    /// The slot of the file this handle refers to.
    pub closed spec fn id_spec(&self) -> int {
        self.token.id_spec()
    }

    /// The size recorded when the handle was constructed.
    pub closed spec fn snapshot_size_spec(&self) -> u64 {
        self.snapshot_size
    }

    /// The handle refers to a file that the given storage area holds.
    pub open spec fn valid(&self, core: OpfsCore) -> bool {
        0 <= self.id_spec() < core.file_count()
    }

    /// Wraps an already-resolved token, eagerly materializing the file's
    /// current size as the handle's snapshot.
    pub fn from_handle(core: &OpfsCore, token: FileToken) -> (f: OPFSFile)
        requires
            token.valid(*core),
        ensures
            f.id_spec() == token.id_spec(),
            f.snapshot_size_spec() == core.content_at(token.id_spec()).len(),
            f.valid(*core),
    {
        let size: usize = core.files[token.id].content.len();
        OPFSFile { token, snapshot_size: size as u64 }
    }

    /// Resolves `filename` (creating a zero-length file when the name does
    /// not exist yet) and wraps the resulting token with a fresh size
    /// snapshot. Resolving a name that does not yet exist succeeds and yields
    /// a handle whose size is zero.
    pub fn from_filename(core: &mut OpfsCore, filename: &str) -> (f: OPFSFile)
        requires
            old(core).wf(),
        ensures
            final(core).wf(),
            f.valid(*final(core)),
            final(core).name_at(f.id_spec()) == filename@,
            f.snapshot_size_spec() == final(core).content_at(f.id_spec()).len(),
            old(core).has_file(filename@) ==> *final(core) == *old(core),
            !old(core).has_file(filename@) ==> final(core).file_count() == old(core).file_count()
                + 1 && f.id_spec() == old(core).file_count() && f.snapshot_size_spec() == 0,
            forall|j: int|
                0 <= j < old(core).file_count() ==> final(core).name_at(j) == old(core).name_at(j)
                    && final(core).content_at(j) == old(core).content_at(j),
    {
        let token = core.get_handle_by_filename(filename);
        OPFSFile::from_handle(core, token)
    }

    /// The byte length recorded in the snapshot at construction time. Pure:
    /// no access to the storage area, and never refreshed by writes.
    pub fn get_size(&self) -> (size: u64)
        ensures
            size == self.snapshot_size_spec(),
    {
        self.snapshot_size
    }

    /// Reads `size` bytes at `offset` from the file's current content,
    /// clamped to end-of-file: a range extending past the end yields exactly
    /// the bytes present from `offset` onwards, possibly none, never an
    /// error.
    pub fn read(&self, core: &OpfsCore, offset: u64, size: u64) -> (data: Vec<u8>)
        requires
            self.valid(*core),
        ensures
            data@ == read_range(core.content_at(self.id_spec()), offset as int, size as int),
    {
        let content: &Vec<u8> = &core.files[self.token.id].content;
        let len: usize = content.len();
        let start: usize = if offset < len as u64 {
            offset as usize
        } else {
            len
        };
        let avail: usize = len - start;
        let take: usize = if size < avail as u64 {
            size as usize
        } else {
            avail
        };
        let mut data: Vec<u8> = Vec::new();
        let mut k: usize = 0;
        while k < take
            invariant
                content@ == core.content_at(self.id_spec()),
                start + take <= content@.len(),
                content@.len() <= usize::MAX,
                k <= take,
                data@.len() == k,
                forall|m: int| 0 <= m < k ==> data@[m] == content@[start + m],
            decreases take - k,
        {
            let b: u8 = content[start + k];
            data.push(b);
            k += 1;
        }
        proof {
            assert(data@ =~= read_range(
                core.content_at(self.id_spec()),
                offset as int,
                size as int,
            ));
        }
        data
    }

    /// Writes `bytes` at `offset` into the file's content: the covered range
    /// is overwritten, bytes outside it are unchanged, the file never
    /// shrinks, and a gap between the old end-of-file and `offset` is
    /// zero-filled. Every other file, and every filename, is untouched. The
    /// handle's size snapshot is not refreshed.
    pub fn write(&self, core: &mut OpfsCore, bytes: &[u8], offset: u64)
        requires
            self.valid(*old(core)),
            offset + bytes@.len() <= usize::MAX,
        ensures
            final(core).file_count() == old(core).file_count(),
            final(core).content_at(self.id_spec()) == write_range(
                old(core).content_at(self.id_spec()),
                bytes@,
                offset as int,
            ),
            forall|j: int|
                0 <= j < old(core).file_count() ==> final(core).name_at(j) == old(core).name_at(j),
            forall|j: int|
                0 <= j < old(core).file_count() && j != self.id_spec() ==> final(core).content_at(j)
                    == old(core).content_at(j),
            old(core).wf() ==> final(core).wf(),
    {
        let id = self.token.id;
        let ghost before = core.files@;
        let entry = core.files.remove(id);
        let FileEntry { name, content: old_content } = entry;
        let off: usize = offset as usize;
        let end: usize = off + bytes.len();
        let oldlen: usize = old_content.len();
        let newlen: usize = if end > oldlen {
            end
        } else {
            oldlen
        };
        let ghost target = write_range(before[id as int].content@, bytes@, offset as int);
        let mut new_content: Vec<u8> = Vec::new();
        let mut i: usize = 0;
        while i < newlen
            invariant
                off == offset,
                end == off + bytes@.len(),
                oldlen == old_content@.len(),
                newlen == target.len(),
                target == write_range(old_content@, bytes@, off as int),
                i <= newlen,
                new_content@.len() == i,
                forall|m: int| 0 <= m < i ==> new_content@[m] == target[m],
            decreases newlen - i,
        {
            let b: u8 = if off <= i && i < end {
                bytes[i - off]
            } else if i < oldlen {
                old_content[i]
            } else {
                0u8
            };
            new_content.push(b);
            i += 1;
        }
        assert(new_content@ =~= target);
        core.files.insert(id, FileEntry { name, content: new_content });
        proof {
            assert(core.files@ =~= before.update(
                id as int,
                FileEntry { name: before[id as int].name, content: new_content },
            )) by {
                assert(core.files@ == before.remove(id as int).insert(
                    id as int,
                    FileEntry { name: before[id as int].name, content: new_content },
                ));
            }
            assert forall|j: int| 0 <= j < before.len() implies core.name_at(j) == old(
                core,
            ).name_at(j) by {
                if j != id as int {
                    assert(core.files@[j] == before[j]);
                }
            }
            assert forall|j: int| 0 <= j < before.len() && j != id as int implies core.content_at(
                j,
            ) == old(core).content_at(j) by {
                assert(core.files@[j] == before[j]);
            }
            assert(core.content_at(id as int) == new_content@);
        }
    }
}

/// Writing a byte sequence and then reading the same range back yields
/// exactly the bytes written, whatever the file held before.
pub proof fn lemma_write_read_roundtrip(content: Seq<u8>, bytes: Seq<u8>, offset: int)
    requires
        0 <= offset,
    ensures
        read_range(write_range(content, bytes, offset), offset, bytes.len() as int) == bytes,
{
    let w = write_range(content, bytes, offset);
    assert(read_range(w, offset, bytes.len() as int) =~= bytes);
}

/// An overwrite that stays within the current file length does not change
/// the length, and leaves every byte outside the written range unchanged. In
/// particular a write at offset zero of fewer bytes than the file holds does
/// not shrink the file.
pub proof fn lemma_overwrite_within(content: Seq<u8>, bytes: Seq<u8>, offset: int)
    requires
        0 <= offset,
        offset + bytes.len() <= content.len(),
    ensures
        write_range(content, bytes, offset).len() == content.len(),
        forall|i: int|
            0 <= i < content.len() && !(offset <= i < offset + bytes.len())
                ==> write_range(content, bytes, offset)[i] == content[i],
{
}

/// A read whose range extends past end-of-file yields exactly the bytes from
/// the offset to the end, and nothing at all when the offset itself lies at
/// or past the end; it never fails.
pub proof fn lemma_read_clamps(content: Seq<u8>, offset: int, size: int)
    requires
        0 <= offset,
        0 <= size,
        content.len() <= offset + size,
    ensures
        offset <= content.len() ==> read_range(content, offset, size) == content.subrange(
            offset,
            content.len() as int,
        ),
        content.len() <= offset ==> read_range(content, offset, size) == Seq::<u8>::empty(),
{
    if content.len() <= offset {
        assert(read_range(content, offset, size) =~= Seq::<u8>::empty());
    }
}

/// Two sequential writes to disjoint byte ranges are both visible to
/// subsequent reads covering each range.
pub proof fn lemma_disjoint_writes(content: Seq<u8>, b1: Seq<u8>, o1: int, b2: Seq<u8>, o2: int)
    requires
        0 <= o1,
        0 <= o2,
        o1 + b1.len() <= o2 || o2 + b2.len() <= o1,
    ensures
        read_range(write_range(write_range(content, b1, o1), b2, o2), o2, b2.len() as int) == b2,
        read_range(write_range(write_range(content, b1, o1), b2, o2), o1, b1.len() as int) == b1,
{
    let w1 = write_range(content, b1, o1);
    let w2 = write_range(w1, b2, o2);
    lemma_write_read_roundtrip(w1, b2, o2);
    assert(o1 + b1.len() <= w1.len());
    assert(w1.len() <= w2.len());
    assert(read_range(w2, o1, b1.len() as int) =~= b1);
}

/// Writing past end-of-file zero-fills the gap between the old end and the
/// write offset, and extends the file to the end of the written range.
pub proof fn lemma_gap_zero_filled(content: Seq<u8>, bytes: Seq<u8>, offset: int)
    requires
        content.len() <= offset,
    ensures
        write_range(content, bytes, offset).len() == offset + bytes.len(),
        forall|i: int|
            content.len() <= i < offset ==> write_range(content, bytes, offset)[i] == 0u8,
{
}

} // verus!
