//! Open flags and inode modes, as bit sets.
use vstd::prelude::*;

verus! {

/// Flags of an open request, as Linux numbers them.
#[derive(Debug, Clone, Copy, PartialEq, Eq, Structural)]
pub struct OpenFlags(u32);

impl View for OpenFlags {
    type V = u32;

    closed spec fn view(&self) -> u32 {
        self.0
    }
}

impl OpenFlags {
    pub const O_RDONLY: u32 = 0o0;
    pub const O_WRONLY: u32 = 0o1;
    pub const O_RDWR: u32 = 0o2;
    pub const O_CREAT: u32 = 0o100;
    pub const O_EXCL: u32 = 0o200;
    pub const O_NOCTTY: u32 = 0o400;
    pub const O_TRUNC: u32 = 0o1000;
    pub const O_APPEND: u32 = 0o2000;
    pub const O_NONBLOCK: u32 = 0o4000;
    pub const O_DSYNC: u32 = 0o10000;
    pub const O_ASYNC: u32 = 0o20000;
    pub const O_DIRECT: u32 = 0o40000;
    pub const O_LARGEFILE: u32 = 0o100000;
    pub const O_DIRECTORY: u32 = 0o200000;
    pub const O_NOFOLLOW: u32 = 0o400000;
    pub const O_NOATIME: u32 = 0o1000000;
    pub const O_CLOEXEC: u32 = 0o2000000;
    pub const O_SYNC: u32 = 0o4010000;
    pub const O_PATH: u32 = 0o10000000;
    pub const O_STATUS: u32 = 0o1066000;
    /// Every known flag.
    pub const ALL: u32 = 0x3f_ffc3;

    /// The known flags among `bits`.
    pub fn from_bits_truncate(bits: u32) -> (r: Self)
        ensures
            r@ == bits & 0x3f_ffc3,
    {
        OpenFlags(bits & Self::ALL)
    }

    /// The flags `bits`, known or not.
    pub fn from_bits_retain(bits: u32) -> (r: Self)
        ensures
            r@ == bits,
    {
        OpenFlags(bits)
    }

    /// The bits of the set.
    pub fn bits(&self) -> (r: u32)
        ensures
            r == self@,
    {
        self.0
    }

    /// The set holds all of `flags`.
    pub fn contains(&self, flags: u32) -> (r: bool)
        ensures
            r == (self@ & flags == flags),
    {
        self.0 & flags == flags
    }

    /// Both sets together.
    pub fn union(self, other: Self) -> (r: Self)
        ensures
            r@ == self@ | other@,
    {
        OpenFlags(self.0 | other.0)
    }

    /// Whether the flags allow reading. `O_RDONLY` is 0, so every set contains it and every
    /// set allows reading.
    pub fn readable(&self) -> (r: bool)
        ensures
            r == (self@ & 0 == 0 || self@ & 2 == 2),
            r,
    {
        proof {
            let b = self@;
            assert(b & 0 == 0) by (bit_vector);
        }
        self.contains(OpenFlags::O_RDONLY) || self.contains(OpenFlags::O_RDWR)
    }

    /// Whether the flags allow writing: write-only or read-write.
    pub fn writable(&self) -> (r: bool)
        ensures
            r == (self@ & 1 == 1 || self@ & 2 == 2),
    {
        self.contains(OpenFlags::O_WRONLY) || self.contains(OpenFlags::O_RDWR)
    }
}

/// The type and permission bits of an inode, as Linux numbers them.
#[derive(Debug, Clone, Copy, PartialEq, Eq, Structural)]
pub struct InodeMode(u32);

impl View for InodeMode {
    type V = u32;

    closed spec fn view(&self) -> u32 {
        self.0
    }
}

impl InodeMode {
    pub const S_IFIFO: u32 = 0x1000;
    pub const S_IFCHR: u32 = 0x2000;
    pub const S_IFDIR: u32 = 0x4000;
    pub const S_IFBLK: u32 = 0x6000;
    pub const S_IFREG: u32 = 0x8000;
    pub const S_IFLNK: u32 = 0xA000;
    pub const S_IFSOCK: u32 = 0xC000;
    pub const S_IFMT: u32 = 0xF000;
    pub const S_ISUID: u32 = 0x0800;
    pub const S_ISGID: u32 = 0x0400;
    pub const S_ISVTX: u32 = 0x0200;
    pub const S_IRUSR: u32 = 0x0100;
    pub const S_IWUSR: u32 = 0x0080;
    pub const S_IXUSR: u32 = 0x0040;
    pub const S_IRWXU: u32 = 0x01C0;
    pub const S_IRGRP: u32 = 0x0020;
    pub const S_IWGRP: u32 = 0x0010;
    pub const S_IXGRP: u32 = 0x0008;
    pub const S_IRWXG: u32 = 0x0038;
    pub const S_IROTH: u32 = 0x0004;
    pub const S_IWOTH: u32 = 0x0002;
    pub const S_IXOTH: u32 = 0x0001;
    pub const S_IRWXO: u32 = 0x0007;
    pub const S_ACCESS: u32 = 0x01FF;
    pub const S_MISC: u32 = 0x0FFF;

    /// The mode `bits`, known or not.
    pub fn from_bits_retain(bits: u32) -> (r: Self)
        ensures
            r@ == bits,
    {
        InodeMode(bits)
    }

    /// The bits of the mode.
    pub fn bits(&self) -> (r: u32)
        ensures
            r == self@,
    {
        self.0
    }

    /// A directory readable, writable and searchable by all.
    pub fn def_dir() -> (r: Self)
        ensures
            r@ == 0x4000 | 0o777,
    {
        InodeMode(Self::S_IFDIR | 0o777)
    }

    /// A regular file readable and writable by all.
    pub fn def_file() -> (r: Self)
        ensures
            r@ == 0x8000 | 0o666,
    {
        InodeMode(Self::S_IFREG | 0o666)
    }

    /// A symbolic link with all permissions.
    pub fn def_lnk() -> (r: Self)
        ensures
            r@ == 0xA000 | 0o777,
    {
        InodeMode(Self::S_IFLNK | 0o777)
    }

    /// The permission bits of `bits`.
    pub fn from_bits_access(bits: u32) -> (r: Self)
        ensures
            r@ == bits & 0x01FF,
    {
        InodeMode(bits & Self::S_ACCESS)
    }

    /// The permission, set-id and sticky bits of `bits`.
    pub fn from_bits_misc(bits: u32) -> (r: Self)
        ensures
            r@ == bits & 0x0FFF,
    {
        InodeMode(bits & Self::S_MISC)
    }

    /// The file type bits.
    pub fn file_type(&self) -> (r: InodeMode)
        ensures
            r@ == self@ & 0xF000,
    {
        InodeMode(self.0 & Self::S_IFMT)
    }

    /// Whether this is a directory.
    pub fn is_dir(&self) -> (r: bool)
        ensures
            r == (self@ & 0xF000 == 0x4000),
    {
        self.file_type().0 == Self::S_IFDIR
    }

    /// Whether this is a regular file.
    pub fn is_reg(&self) -> (r: bool)
        ensures
            r == (self@ & 0xF000 == 0x8000),
    {
        self.file_type().0 == Self::S_IFREG
    }

    /// Whether this is a symbolic link.
    pub fn is_lnk(&self) -> (r: bool)
        ensures
            r == (self@ & 0xF000 == 0xA000),
    {
        self.file_type().0 == Self::S_IFLNK
    }
}

/// The default modes have the type they are named after.
pub proof fn lemma_default_mode_types()
    ensures
        (0x4000u32 | 0o777u32) & 0xF000 == 0x4000,
        (0x8000u32 | 0o666u32) & 0xF000 == 0x8000,
        (0xA000u32 | 0o777u32) & 0xF000 == 0xA000,
{
    assert((0x4000u32 | 0o777u32) & 0xF000 == 0x4000) by (bit_vector);
    assert((0x8000u32 | 0o666u32) & 0xF000 == 0x8000) by (bit_vector);
    assert((0xA000u32 | 0o777u32) & 0xF000 == 0xA000) by (bit_vector);
}

} // verus!
