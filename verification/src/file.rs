//! Open files: seeking, reading directories entry by entry, and the table of file descriptors.
use vstd::prelude::*;
use std::collections::BTreeMap;
use crate::errno::Errno;
use crate::flags::InodeMode;

verus! {

broadcast use vstd::laws_cmp::group_laws_cmp;

pub const PAGE_SIZE: usize = 4096;

/// Where a seek moves the file offset to (see lseek(2)).
#[derive(Debug, Clone, Copy, PartialEq, Eq, Structural)]
pub enum Seek {
    /// To `offset` bytes.
    Absolute(isize),
    /// To the current offset plus `offset` bytes.
    Cur(isize),
    /// To the size of the file plus `offset` bytes.
    End(isize),
}

impl Seek {
    /// The seek that `whence` (0 for set, 1 for current, 2 for end) names; any other `whence`
    /// is `EINVAL`.
    pub fn from_whence(whence: i32, offset: isize) -> (r: Result<Seek, Errno>)
        ensures
            whence == 0 ==> r == Ok::<Seek, Errno>(Seek::Absolute(offset)),
            whence == 1 ==> r == Ok::<Seek, Errno>(Seek::Cur(offset)),
            whence == 2 ==> r == Ok::<Seek, Errno>(Seek::End(offset)),
            whence < 0 || whence > 2 ==> r == Err::<Seek, Errno>(Errno::EINVAL),
    {
        match whence {
            0 => Ok(Seek::Absolute(offset)),
            1 => Ok(Seek::Cur(offset)),
            2 => Ok(Seek::End(offset)),
            _ => Err(Errno::EINVAL),
        }
    }
}

/// `base + offset` when it is a file offset, that is at least 0 and fits an `isize`; `EINVAL`
/// when it is negative, `EOVERFLOW` when it is too large (see lseek(2)).
pub open spec fn offset_from(base: isize, offset: isize) -> Result<isize, Errno> {
    if base + offset < 0 {
        Err(Errno::EINVAL)
    } else if base + offset <= isize::MAX {
        Ok((base + offset) as isize)
    } else {
        Err(Errno::EOVERFLOW)
    }
}

/// The new offset `base + offset`, as `offset_from` gives it.
fn add_offset(base: isize, offset: isize) -> (r: Result<isize, Errno>)
    ensures
        r == offset_from(base, offset),
{
    match base.checked_add(offset) {
        Some(new_pos) => if new_pos < 0 { Err(Errno::EINVAL) } else { Ok(new_pos) },
        None => Err(if offset < 0 { Errno::EINVAL } else { Errno::EOVERFLOW }),
    }
}

/// The new offset of a regular file whose offset is `pos` and size `size` after `seek`.
pub open spec fn spec_seek_offset(pos: isize, size: isize, seek: Seek) -> Result<isize, Errno> {
    match seek {
        Seek::Absolute(offset) => if offset < 0 { Err(Errno::EINVAL) } else { Ok(offset) },
        Seek::Cur(offset) => offset_from(pos, offset),
        Seek::End(offset) => offset_from(size, offset),
    }
}

/// The new offset of a regular file whose offset is `pos` and size `size` after `seek`: a
/// seek to before the start of the file is `EINVAL`, one past the largest offset `EOVERFLOW`.
/// The offset stays where it was when this fails.
pub fn seek_offset(pos: isize, size: isize, seek: Seek) -> (r: Result<isize, Errno>)
    ensures
        r == spec_seek_offset(pos, size, seek),
        r matches Ok(p) ==> p >= 0,
{
    match seek {
        Seek::Absolute(offset) => {
            if offset < 0 {
                return Err(Errno::EINVAL);
            }
            Ok(offset)
        },
        Seek::Cur(offset) => add_offset(pos, offset),
        Seek::End(offset) => add_offset(size, offset),
    }
}

/// Moves the offset `pos` of a regular file of size `size` as `seek` says, and gives the new
/// offset; a failed seek leaves `pos` where it was.
pub fn apply_seek(pos: &mut isize, size: isize, seek: Seek) -> (r: Result<isize, Errno>)
    ensures
        r == spec_seek_offset(*old(pos), size, seek),
        r matches Ok(p) ==> *final(pos) == p,
        r is Err ==> *final(pos) == *old(pos),
{
    let r = seek_offset(*pos, size, seek);
    if let Ok(p) = r {
        *pos = p;
    }
    r
}

/// What each seek does (see lseek(2)): to `offset` itself, to the current offset `pos` plus
/// `offset`, or to the size plus `offset`, whenever that is a file offset (at least 0 and at
/// most `isize::MAX`); to before the start of the file it is `EINVAL`, past the largest offset
/// `EOVERFLOW`. In particular a seek by 0 from the end lands on the size, where a write appends.
pub proof fn lemma_seek_targets(pos: isize, size: isize, offset: isize)
    ensures
        offset >= 0 ==> spec_seek_offset(pos, size, Seek::Absolute(offset)) == Ok::<isize, Errno>(offset),
        offset < 0 ==> spec_seek_offset(pos, size, Seek::Absolute(offset)) == Err::<isize, Errno>(Errno::EINVAL),
        0 <= pos + offset <= isize::MAX ==> spec_seek_offset(pos, size, Seek::Cur(offset)) == Ok::<isize, Errno>((pos + offset) as isize),
        0 <= size + offset <= isize::MAX ==> spec_seek_offset(pos, size, Seek::End(offset)) == Ok::<isize, Errno>((size + offset) as isize),
        pos + offset < 0 ==> spec_seek_offset(pos, size, Seek::Cur(offset)) == Err::<isize, Errno>(Errno::EINVAL),
        size + offset < 0 ==> spec_seek_offset(pos, size, Seek::End(offset)) == Err::<isize, Errno>(Errno::EINVAL),
        pos + offset > isize::MAX ==> spec_seek_offset(pos, size, Seek::Cur(offset)) == Err::<isize, Errno>(Errno::EOVERFLOW),
        size + offset > isize::MAX ==> spec_seek_offset(pos, size, Seek::End(offset)) == Err::<isize, Errno>(Errno::EOVERFLOW),
        size >= 0 ==> spec_seek_offset(pos, size, Seek::End(0)) == Ok::<isize, Errno>(size),
{
}

/// Seeking to a non-negative offset and then by zero from there keeps the offset there.
pub proof fn lemma_seek_set_then_cur_zero(pos: isize, size: isize, offset: isize)
    requires
        offset >= 0,
    ensures
        spec_seek_offset(pos, size, Seek::Absolute(offset)) == Ok::<isize, Errno>(offset),
        spec_seek_offset(offset, size, Seek::Cur(0)) == Ok::<isize, Errno>(offset),
{
}

/// Whether an inode can be looked in, created in, moved into or removed from: one that was
/// unlinked is `ENOENT`, one that is not a directory `ENOTDIR`.
pub fn check_live_dir(unlinked: bool, ifmt: InodeMode) -> (r: Result<(), Errno>)
    ensures
        unlinked ==> r == Err::<(), Errno>(Errno::ENOENT),
        !unlinked && ifmt@ & 0xF000 != 0x4000 ==> r == Err::<(), Errno>(Errno::ENOTDIR),
        !unlinked && ifmt@ & 0xF000 == 0x4000 ==> r is Ok,
{
    if unlinked {
        return Err(Errno::ENOENT);
    }
    if !ifmt.is_dir() {
        return Err(Errno::ENOTDIR);
    }
    Ok(())
}

/// The entry a directory read at position `pos` gives.
#[derive(Debug, Clone, Copy, PartialEq, Eq, Structural)]
pub enum DirEntryAt {
    /// The directory itself, listed as ".".
    Itself,
    /// Its parent (or itself when it has none), listed as "..".
    Parent,
    /// Its child with this index.
    Child(usize),
}

/// The entry at position `pos` of a directory: ".", "..", then the children in order.
pub fn dir_entry_at(pos: usize) -> (r: DirEntryAt)
    ensures
        pos == 0 ==> r == DirEntryAt::Itself,
        pos == 1 ==> r == DirEntryAt::Parent,
        pos >= 2 ==> r == DirEntryAt::Child((pos - 2) as usize),
{
    if pos == 0 {
        DirEntryAt::Itself
    } else if pos == 1 {
        DirEntryAt::Parent
    } else {
        DirEntryAt::Child(pos - 2)
    }
}

/// The name a directory listing shows for an entry: its own name, or "." and ".." for the
/// unnamed entries at positions 0 and 1.
pub fn listing_name(idx: usize, name: &[u8]) -> (r: Vec<u8>)
    ensures
        name@.len() > 0 ==> r@ == name@,
        name@.len() == 0 && idx == 0 ==> r@ == seq![0x2Eu8],
        name@.len() == 0 && idx != 0 ==> r@ == seq![0x2Eu8, 0x2E],
{
    let mut out = Vec::new();
    if name.len() == 0 {
        out.push(0x2E);
        if idx != 0 {
            out.push(0x2E);
        }
    } else {
        crate::bytes::push_bytes(&mut out, name);
    }
    proof {
        if name@.len() > 0 {
            assert(out@ =~= name@);
        } else if idx == 0 {
            assert(out@ =~= seq![0x2Eu8]);
        } else {
            assert(out@ =~= seq![0x2Eu8, 0x2E]);
        }
    }
    out
}

/// The table of open files: descriptors from 3 up (0, 1 and 2 are kept for the standard
/// streams), each handed out once.
pub struct FdTable<F> {
    next_fd: i32,
    files: BTreeMap<i32, F>,
}

impl<F> FdTable<F> {
    /// The open files by descriptor.
    pub closed spec fn spec_files(&self) -> Map<i32, F> {
        self.files@
    }

    /// The descriptor the next open file gets.
    pub closed spec fn spec_next_fd(&self) -> i32 {
        self.next_fd
    }

    /// Every open descriptor is at least 3 and below the next one.
    pub open spec fn wf(&self) -> bool {
        &&& self.spec_next_fd() >= 3
        &&& forall|fd: i32| #[trigger] self.spec_files().contains_key(fd) ==> 3 <= fd < self.spec_next_fd()
    }

    /// An empty table.
    pub fn new() -> (r: Self)
        ensures
            r.wf(),
            r.spec_next_fd() == 3,
            r.spec_files() == Map::<i32, F>::empty(),
    {
        FdTable { next_fd: 3, files: BTreeMap::new() }
    }

    /// The descriptor the next open file gets.
    pub fn next_fd(&self) -> (r: i32)
        ensures
            r == self.spec_next_fd(),
    {
        self.next_fd
    }

    /// Opens `file` under the next descriptor, and gives that descriptor.
    pub fn allocate(&mut self, file: F) -> (fd: i32)
        requires
            old(self).wf(),
            old(self).spec_next_fd() < i32::MAX,
        ensures
            final(self).wf(),
            fd == old(self).spec_next_fd(),
            !old(self).spec_files().contains_key(fd),
            final(self).spec_files() == old(self).spec_files().insert(fd, file),
            final(self).spec_next_fd() == fd + 1,
    {
        let fd = self.next_fd;
        self.next_fd += 1;
        self.files.insert(fd, file);
        assert(self.files@ == old(self).files@.insert(fd, file));
        assert forall|k: i32| #[trigger] self.files@.contains_key(k) implies 3 <= k < self.next_fd by {
            if k != fd {
                assert(old(self).spec_files().contains_key(k));
            }
        }
        fd
    }

    /// The file open under `fd`, if any.
    pub fn get(&self, fd: i32) -> (r: Option<&F>)
        ensures
            r matches Some(f) ==> self.spec_files().contains_key(fd) && *f == self.spec_files()[fd],
            r is None ==> !self.spec_files().contains_key(fd),
    {
        self.files.get(&fd)
    }

    /// Closes `fd`; whether it was open.
    pub fn close(&mut self, fd: i32) -> (r: bool)
        requires
            old(self).wf(),
        ensures
            final(self).wf(),
            r == old(self).spec_files().contains_key(fd),
            final(self).spec_files() == old(self).spec_files().remove(fd),
            final(self).spec_next_fd() == old(self).spec_next_fd(),
    {
        let r = self.files.remove(&fd).is_some();
        assert(self.files@ == old(self).files@.remove(fd));
        assert forall|k: i32| #[trigger] self.files@.contains_key(k) implies 3 <= k < self.next_fd by {
            assert(old(self).spec_files().contains_key(k));
        }
        r
    }
}

} // verus!
