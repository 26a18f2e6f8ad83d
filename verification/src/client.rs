//! The client's side of the file system protocol: the message each request is sent as, and
//! what the reply means.
use vstd::prelude::*;
use crate::ffi::{S3kCidx, S3kMsg, S3kReply};
use crate::flags::OpenFlags;
use crate::server::{decodes_to, Request, REQ_CLOSE, REQ_OPEN, REQ_READ, REQ_SEEK, REQ_WRITE};

verus! {

/// A client of the file system server, reached over a socket.
pub struct FileSystem {
    pub socket: S3kCidx,
}

/// A request message: the four data words, no capability sent along.
pub open spec fn is_request(m: S3kMsg, words: Seq<u64>) -> bool {
    m.data@ == words && m.cap_idx == 0 && !m.send_cap
}

/// The data words of an open request.
pub open spec fn open_words(flags: OpenFlags, path_len: u64, path_addr: u64) -> Seq<u64> {
    seq![REQ_OPEN, flags@ as u64, path_len, path_addr]
}

/// The data words of a read request.
pub open spec fn read_words(fd: i64, len: u64, buf_addr: u64) -> Seq<u64> {
    seq![REQ_READ, fd as u64, len, buf_addr]
}

/// The data words of a write request.
pub open spec fn write_words(fd: i64, len: u64, data_addr: u64) -> Seq<u64> {
    seq![REQ_WRITE, fd as u64, len, data_addr]
}

/// The data words of a seek request.
pub open spec fn seek_words(fd: i64, offset: isize, whence: i32) -> Seq<u64> {
    seq![REQ_SEEK, fd as u64, offset as u64, whence as u64]
}

/// The data words of a close request.
pub open spec fn close_words(fd: i64) -> Seq<u64> {
    seq![REQ_CLOSE, fd as u64, 0u64, 0u64]
}

impl FileSystem {
    /// A client on socket `sock`.
    pub fn new(sock: S3kCidx) -> (r: Self)
        ensures
            r.socket == sock,
    {
        FileSystem { socket: sock }
    }

    /// The message that opens the path of `path_len` bytes (its terminating zero counted) at
    /// `path_addr` with `flags`.
    pub fn open_request(&self, flags: OpenFlags, path_len: u64, path_addr: u64) -> (r: S3kMsg)
        ensures
            is_request(r, open_words(flags, path_len, path_addr)),
    {
        let data = [REQ_OPEN, flags.bits() as u64, path_len, path_addr];
        assert(data@ =~= seq![REQ_OPEN, flags@ as u64, path_len, path_addr]);
        S3kMsg { data, cap_idx: 0, send_cap: false }
    }

    /// The message that reads up to `len` bytes from `fd` into the buffer at `buf_addr`.
    pub fn read_request(&self, fd: i64, len: u64, buf_addr: u64) -> (r: S3kMsg)
        ensures
            is_request(r, read_words(fd, len, buf_addr)),
    {
        let data = [REQ_READ, fd as u64, len, buf_addr];
        assert(data@ =~= seq![REQ_READ, fd as u64, len, buf_addr]);
        S3kMsg { data, cap_idx: 0, send_cap: false }
    }

    /// The message that writes the `len` bytes at `data_addr` to `fd`.
    pub fn write_request(&self, fd: i64, len: u64, data_addr: u64) -> (r: S3kMsg)
        ensures
            is_request(r, write_words(fd, len, data_addr)),
    {
        let data = [REQ_WRITE, fd as u64, len, data_addr];
        assert(data@ =~= seq![REQ_WRITE, fd as u64, len, data_addr]);
        S3kMsg { data, cap_idx: 0, send_cap: false }
    }

    /// The message that moves the offset of `fd` by `offset` from where `whence` says.
    pub fn seek_request(&self, fd: i64, offset: isize, whence: i32) -> (r: S3kMsg)
        ensures
            is_request(r, seek_words(fd, offset, whence)),
    {
        let data = [REQ_SEEK, fd as u64, offset as u64, whence as u64];
        assert(data@ =~= seek_words(fd, offset, whence));
        S3kMsg { data, cap_idx: 0, send_cap: false }
    }

    /// The message that closes `fd`.
    pub fn close_request(&self, fd: i64) -> (r: S3kMsg)
        ensures
            is_request(r, close_words(fd)),
    {
        let data = [REQ_CLOSE, fd as u64, 0, 0];
        assert(data@ =~= close_words(fd));
        S3kMsg { data, cap_idx: 0, send_cap: false }
    }
}

/// What a reply says: the first data word, read as a signed number (negative for an error
/// number).
pub fn reply_result(reply: &S3kReply) -> (r: i64)
    ensures
        r == reply.data[0] as i64,
{
    reply.data[0] as i64
}

/// What the server reads from a request the client sends is what the client asked for: the
/// paths, buffers, counts, offsets and whence go through unchanged, the open flags come
/// through as the known flags among them, and descriptors as their low 32 bits.
pub proof fn lemma_requests_read_back(flags: OpenFlags, fd: i64, a: u64, b: u64, offset: isize, whence: i32)
    ensures
        forall|r: Request| #[trigger] decodes_to(open_words(flags, a, b), r) ==>
            (r matches Request::Open { flags: f, path_len, path_addr }
                && f@ == flags@ & 0x3f_ffc3 && path_len == a as usize && path_addr == b),
        forall|r: Request| #[trigger] decodes_to(read_words(fd, a, b), r) ==>
            r == (Request::Read { fd: fd as i32, count: a as usize, buffer_addr: b }),
        forall|r: Request| #[trigger] decodes_to(write_words(fd, a, b), r) ==>
            r == (Request::Write { fd: fd as i32, count: a as usize, buffer_addr: b }),
        forall|r: Request| #[trigger] decodes_to(seek_words(fd, offset, whence), r) ==>
            r == (Request::Seek { fd: fd as i32, offset, whence }),
        forall|r: Request| #[trigger] decodes_to(close_words(fd), r) ==>
            r == (Request::Close { fd: fd as i32 }),
{
    let f = flags@;
    assert(((f as u64) as u32) == f) by (bit_vector);
    assert((fd as u64) as i32 == fd as i32) by (bit_vector);
    assert((offset as u64) as isize == offset) by (bit_vector);
    assert((whence as u64) as i32 == whence) by (bit_vector);
}

} // verus!
