//! File system error numbers.
use vstd::prelude::*;

verus! {

/// A file system error, numbered as Linux numbers it; `EUNDEF` stands for a failure of the
/// encrypting block layer that has no such number.
#[derive(Debug, Clone, Copy, PartialEq, Eq, Structural)]
pub enum Errno {
    EPERM,
    ENOENT,
    EIO,
    EBADF,
    EEXIST,
    ENOTDIR,
    EISDIR,
    EINVAL,
    ENOSPC,
    ENOSYS,
    EOVERFLOW,
    EBADFD,
    EOPNOTSUPP,
    EUNDEF,
}

/// The number of each error.
pub open spec fn errno_code(e: Errno) -> i64 {
    match e {
        Errno::EPERM => 1,
        Errno::ENOENT => 2,
        Errno::EIO => 5,
        Errno::EBADF => 9,
        Errno::EEXIST => 17,
        Errno::ENOTDIR => 20,
        Errno::EISDIR => 21,
        Errno::EINVAL => 22,
        Errno::ENOSPC => 28,
        Errno::ENOSYS => 38,
        Errno::EOVERFLOW => 75,
        Errno::EBADFD => 77,
        Errno::EOPNOTSUPP => 95,
        Errno::EUNDEF => 255,
    }
}

impl Errno {
    /// The number of this error.
    pub fn code(self) -> (r: i64)
        ensures
            r == errno_code(self),
            r > 0,
    {
        match self {
            Errno::EPERM => 1,
            Errno::ENOENT => 2,
            Errno::EIO => 5,
            Errno::EBADF => 9,
            Errno::EEXIST => 17,
            Errno::ENOTDIR => 20,
            Errno::EISDIR => 21,
            Errno::EINVAL => 22,
            Errno::ENOSPC => 28,
            Errno::ENOSYS => 38,
            Errno::EOVERFLOW => 75,
            Errno::EBADFD => 77,
            Errno::EOPNOTSUPP => 95,
            Errno::EUNDEF => 255,
        }
    }

    /// The reply value that reports this error to a client: the negated number.
    pub fn as_reply(self) -> (r: i64)
        ensures
            r == -errno_code(self),
            r < 0,
    {
        -self.code()
    }
}

/// Distinct errors have distinct numbers.
pub proof fn lemma_errno_codes_distinct(a: Errno, b: Errno)
    ensures
        errno_code(a) == errno_code(b) <==> a == b,
{
}

} // verus!
