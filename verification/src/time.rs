//! Time stamps of inodes, and the mutable part of an inode's metadata.
use vstd::prelude::*;
use crate::flags::InodeMode;

verus! {

const MICROS_PER_SEC: u64 = 1_000_000;
const CPU_FREQ: u64 = 10_000_000;

/// A point in time: seconds and nanoseconds.
#[derive(Debug, Clone, Copy, PartialEq, Eq, Structural)]
pub struct TimeSpec {
    pub sec: i64,
    pub nsec: i64,
}

impl TimeSpec {
    pub fn new(sec: i64, nsec: i64) -> (r: Self)
        ensures
            r.sec == sec,
            r.nsec == nsec,
    {
        TimeSpec { sec, nsec }
    }

    /// The point `us` microseconds after the epoch.
    pub fn from_micros(us: u64) -> (r: Self)
        ensures
            r.sec == us / 1_000_000,
            r.nsec == (us % 1_000_000) * 1000,
    {
        TimeSpec { sec: (us / MICROS_PER_SEC) as i64, nsec: ((us % MICROS_PER_SEC) * 1000) as i64 }
    }
}

impl Default for TimeSpec {
    fn default() -> (r: Self)
        ensures
            r.sec == 0,
            r.nsec == 0,
    {
        TimeSpec { sec: 0, nsec: 0 }
    }
}

/// The time now: the hardware time stamp, counted at 10 MHz, in microseconds. There is no time
/// source yet, and the stamp reads 0.
pub fn real_time() -> (r: TimeSpec)
    ensures
        r.sec == 0,
        r.nsec == 0,
{
    let hardware_ts: u64 = 0;
    let us = hardware_ts / (CPU_FREQ / MICROS_PER_SEC);
    TimeSpec::from_micros(us)
}

/// The mutable part of an inode's metadata.
#[derive(Debug, Clone, Copy)]
pub struct InodeMetaInner {
    pub uid: u32,
    pub gid: u32,
    /// Type and access permissions.
    pub mode: InodeMode,
    /// The number of hard links.
    pub nlink: usize,
    pub atime: TimeSpec,
    pub mtime: TimeSpec,
    pub ctime: TimeSpec,
    /// The file size in bytes.
    pub size: isize,
    /// Whether the inode has been deleted.
    pub unlinked: bool,
}

impl InodeMetaInner {
    /// The metadata of a new inode: one link, not deleted.
    pub fn new(uid: u32, gid: u32, mode: InodeMode, atime: TimeSpec, mtime: TimeSpec, ctime: TimeSpec, size: isize) -> (r: Self)
        ensures
            r.uid == uid,
            r.gid == gid,
            r.mode == mode,
            r.nlink == 1,
            r.atime == atime,
            r.mtime == mtime,
            r.ctime == ctime,
            r.size == size,
            !r.unlinked,
    {
        InodeMetaInner { uid, gid, mode, nlink: 1, atime, mtime, ctime, size, unlinked: false }
    }
}

} // verus!
