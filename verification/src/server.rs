//! The file system server's side of the protocol: what a request word asks for, which rule an
//! open or mkdir request follows, and how paths break into components.
use vstd::prelude::*;
use crate::errno::Errno;
use crate::ffi::S3kErr;
use crate::flags::{OpenFlags, InodeMode};

verus! {

pub const REQ_OPEN: u64 = 1;
pub const REQ_CLOSE: u64 = 2;
pub const REQ_READ: u64 = 3;
pub const REQ_WRITE: u64 = 4;
pub const REQ_SEEK: u64 = 5;
pub const REQ_LS: u64 = 6;
pub const REQ_SIZE: u64 = 7;
pub const REQ_MKDIR: u64 = 8;
pub const REQ_ENABLE_ENCRYPTION: u64 = 20;
pub const REQ_DISABLE_ENCRYPTION: u64 = 21;
pub const REQ_UNLOCK_DEVICE: u64 = 22;

/// A request of a client, read from the four data words of its message.
#[derive(Debug, Clone, Copy, PartialEq, Eq, Structural)]
pub enum Request {
    /// Open the path of `path_len` bytes at `path_addr` in shared memory.
    Open { flags: OpenFlags, path_len: usize, path_addr: u64 },
    Close { fd: i32 },
    /// Read up to `count` bytes into shared memory at `buffer_addr`.
    Read { fd: i32, count: usize, buffer_addr: u64 },
    /// Write `count` bytes from shared memory at `buffer_addr`.
    Write { fd: i32, count: usize, buffer_addr: u64 },
    /// Seek as `whence` says (0 set, 1 current, 2 end).
    Seek { fd: i32, offset: isize, whence: i32 },
    /// List the next entry; its name goes to shared memory at `buffer_addr`.
    Ls { fd: i32, buffer_addr: u64 },
    /// The size of the file open under `fd` when `fd` is not negative; otherwise of the file at
    /// the path of `path_len` bytes at `path_addr`.
    Size { fd: i64, path_len: usize, path_addr: u64 },
    /// Make the directory at the path of `path_len` bytes at `path_addr`, with its parents when
    /// `recursive`.
    Mkdir { recursive: bool, path_len: usize, path_addr: u64 },
    /// A request code the server does not know.
    Unknown { code: u64 },
}

/// The request that the data words `data` of a message carry: word 0 is the code, words 1 to
/// 3 its arguments, each taken at the width the request uses.
pub open spec fn decodes_to(data: Seq<u64>, r: Request) -> bool {
    &&& data[0] == REQ_OPEN ==> (r matches Request::Open { flags, path_len, path_addr }
        && flags@ == (data[1] as u32) & 0x3f_ffc3 && path_len == data[2] as usize && path_addr == data[3])
    &&& data[0] == REQ_CLOSE ==> r == Request::Close { fd: data[1] as i32 }
    &&& data[0] == REQ_READ ==> r == Request::Read { fd: data[1] as i32, count: data[2] as usize, buffer_addr: data[3] }
    &&& data[0] == REQ_WRITE ==> r == Request::Write { fd: data[1] as i32, count: data[2] as usize, buffer_addr: data[3] }
    &&& data[0] == REQ_SEEK ==> r == Request::Seek { fd: data[1] as i32, offset: data[2] as isize, whence: data[3] as i32 }
    &&& data[0] == REQ_LS ==> r == Request::Ls { fd: data[1] as i32, buffer_addr: data[3] }
    &&& data[0] == REQ_SIZE ==> r == Request::Size { fd: data[1] as i64, path_len: data[2] as usize, path_addr: data[3] }
    &&& data[0] == REQ_MKDIR ==> r == Request::Mkdir { recursive: data[1] != 0, path_len: data[2] as usize, path_addr: data[3] }
    &&& data[0] < 1 || data[0] > 8 ==> r == Request::Unknown { code: data[0] }
}

/// Reads a request from the data words of a message.
pub fn decode_request(data: &[u64; 4]) -> (r: Request)
    ensures
        decodes_to(data@, r),
{
    let code = data[0];
    if code == REQ_OPEN {
        Request::Open { flags: OpenFlags::from_bits_truncate(data[1] as u32), path_len: data[2] as usize, path_addr: data[3] }
    } else if code == REQ_CLOSE {
        Request::Close { fd: data[1] as i32 }
    } else if code == REQ_READ {
        Request::Read { fd: data[1] as i32, count: data[2] as usize, buffer_addr: data[3] }
    } else if code == REQ_WRITE {
        Request::Write { fd: data[1] as i32, count: data[2] as usize, buffer_addr: data[3] }
    } else if code == REQ_SEEK {
        Request::Seek { fd: data[1] as i32, offset: data[2] as isize, whence: data[3] as i32 }
    } else if code == REQ_LS {
        Request::Ls { fd: data[1] as i32, buffer_addr: data[3] }
    } else if code == REQ_SIZE {
        Request::Size { fd: data[1] as i64, path_len: data[2] as usize, path_addr: data[3] }
    } else if code == REQ_MKDIR {
        Request::Mkdir { recursive: data[1] != 0, path_len: data[2] as usize, path_addr: data[3] }
    } else {
        Request::Unknown { code }
    }
}

/// The reply message for a request: the result in the first data word.
pub fn reply_data(result: i64) -> (r: [u64; 4])
    ensures
        r@ == seq![result as u64, 0u64, 0u64, 0u64],
{
    let r = [result as u64, 0, 0, 0];
    assert(r@ =~= seq![result as u64, 0u64, 0u64, 0u64]);
    r
}

/// The reply to an outcome: the value itself, or the negated error number.
pub fn reply_value(outcome: Result<i64, Errno>) -> (r: i64)
    ensures
        outcome matches Ok(v) ==> r == v,
        outcome matches Err(e) ==> r == -crate::errno::errno_code(e),
{
    match outcome {
        Ok(v) => v,
        Err(e) => e.as_reply(),
    }
}

/// The length of a path read from shared memory: up to its first zero byte, or all of it.
pub fn path_len_until_nul(bytes: &[u8]) -> (r: usize)
    ensures
        r <= bytes@.len(),
        forall|i: int| 0 <= i < r ==> bytes@[i] != 0,
        r < bytes@.len() ==> bytes@[r as int] == 0,
{
    let mut i: usize = 0;
    while i < bytes.len()
        invariant
            i <= bytes@.len(),
            forall|j: int| 0 <= j < i ==> bytes@[j] != 0,
        decreases bytes@.len() - i,
    {
        if bytes[i] == 0 {
            return i;
        }
        i += 1;
    }
    i
}

/// Whether a path names the root: empty or a single slash.
pub fn is_root_path(path: &[u8]) -> (r: bool)
    ensures
        r == (path@.len() == 0 || path@ == seq![0x2Fu8]),
{
    if path.len() == 0 {
        return true;
    }
    if path.len() == 1 && path[0] == 0x2F {
        assert(path@ =~= seq![0x2Fu8]);
        return true;
    }
    false
}

/// The components of a path: the runs of bytes between slashes, empty ones left out.
pub open spec fn components_from(s: Seq<u8>, cur: Seq<u8>) -> Seq<Seq<u8>>
    decreases s.len(),
{
    if s.len() == 0 {
        if cur.len() > 0 { seq![cur] } else { Seq::empty() }
    } else if s[0] == 0x2F {
        (if cur.len() > 0 { seq![cur] } else { Seq::<Seq<u8>>::empty() }) + components_from(s.drop_first(), Seq::empty())
    } else {
        components_from(s.drop_first(), cur.push(s[0]))
    }
}

/// The components of a path.
pub open spec fn path_components_spec(s: Seq<u8>) -> Seq<Seq<u8>> {
    components_from(s, Seq::empty())
}

/// Breaks a path into its components: the runs of bytes between slashes, empty ones left out.
/// The components joined with single slashes between them.
pub open spec fn join_with_slashes(cs: Seq<Seq<u8>>) -> Seq<u8>
    decreases cs.len(),
{
    if cs.len() == 0 {
        Seq::empty()
    } else if cs.len() == 1 {
        cs[0]
    } else {
        cs[0] + seq![0x2Fu8] + join_with_slashes(cs.drop_first())
    }
}

/// A path with its leading and trailing slashes dropped and each run of slashes inside it
/// made one slash.
pub open spec fn squeeze_slashes(p: Seq<u8>) -> Seq<u8>
    decreases p.len(),
{
    if p.len() == 0 {
        Seq::empty()
    } else if p[0] == 0x2F {
        squeeze_slashes(p.drop_first())
    } else {
        let t = squeeze_slashes(p.drop_first());
        if p.len() > 1 && p[1] == 0x2F && t.len() > 0 {
            seq![p[0], 0x2Fu8] + t
        } else {
            seq![p[0]] + t
        }
    }
}

proof fn lemma_join_cons(c: Seq<u8>, rest: Seq<Seq<u8>>)
    ensures
        join_with_slashes(seq![c] + rest) == if rest.len() == 0 { c } else { c + seq![0x2Fu8] + join_with_slashes(rest) },
{
    assert((seq![c] + rest).drop_first() =~= rest);
    assert((seq![c] + rest)[0] == c);
}

proof fn lemma_join_empty(cs: Seq<Seq<u8>>)
    requires
        forall|i: int| 0 <= i < cs.len() ==> (#[trigger] cs[i]).len() > 0,
    ensures
        join_with_slashes(cs).len() == 0 <==> cs.len() == 0,
{
    if cs.len() > 1 {
        assert(cs[0].len() > 0);
    } else if cs.len() == 1 {
        assert(cs[0].len() > 0);
    }
}

/// The components of `s`, when a component `cur` is already under way: none is empty and none
/// holds a slash, and joined with slashes they give `cur` followed by the squeezed rest (with a
/// slash between where a slash ends `cur`).
proof fn lemma_components_from(s: Seq<u8>, cur: Seq<u8>)
    requires
        !cur.contains(0x2Fu8),
    ensures
        ({
            let cs = components_from(s, cur);
            let t = squeeze_slashes(s);
            &&& forall|i: int| 0 <= i < cs.len() ==> (#[trigger] cs[i]).len() > 0 && !cs[i].contains(0x2Fu8)
            &&& join_with_slashes(cs) == if cur.len() == 0 {
                t
            } else if s.len() > 0 && s[0] != 0x2F {
                cur + t
            } else if t.len() == 0 {
                cur
            } else {
                cur + seq![0x2Fu8] + t
            }
        }),
    decreases s.len(),
{
    let cs = components_from(s, cur);
    if s.len() == 0 {
        if cur.len() > 0 {
            assert(join_with_slashes(seq![cur]) == cur);
        }
    } else if s[0] == 0x2F {
        let rest = components_from(s.drop_first(), Seq::empty());
        assert(!Seq::<u8>::empty().contains(0x2Fu8));
        lemma_components_from(s.drop_first(), Seq::empty());
        lemma_join_empty(rest);
        if cur.len() > 0 {
            lemma_join_cons(cur, rest);
            assert(cs == seq![cur] + rest);
            assert forall|i: int| 0 <= i < cs.len() implies (#[trigger] cs[i]).len() > 0 && !cs[i].contains(0x2Fu8) by {
                if i > 0 {
                    assert(cs[i] == rest[i - 1]);
                }
            }
        } else {
            assert(cs =~= rest);
        }
    } else {
        let c2 = cur.push(s[0]);
        assert(!c2.contains(0x2Fu8)) by {
            if c2.contains(0x2Fu8) {
                let k = choose|k: int| 0 <= k < c2.len() && c2[k] == 0x2Fu8;
                if k < cur.len() {
                    assert(cur[k] == 0x2Fu8);
                }
            }
        }
        lemma_components_from(s.drop_first(), c2);
        let s2 = s.drop_first();
        let t2 = squeeze_slashes(s2);
        if s2.len() > 0 && s2[0] != 0x2F {
            assert(s[1] == s2[0]);
            assert(squeeze_slashes(s) == seq![s[0]] + t2);
            assert(c2 + t2 =~= cur + (seq![s[0]] + t2));
        } else if s2.len() == 0 {
            assert(t2.len() == 0);
            assert(squeeze_slashes(s) =~= seq![s[0]]);
            assert(c2 =~= cur + seq![s[0]]);
        } else if t2.len() == 0 {
            assert(s[1] == s2[0]);
            assert(squeeze_slashes(s) == seq![s[0]] + t2);
            assert(c2 =~= cur + (seq![s[0]] + t2));
        } else {
            assert(s[1] == s2[0]);
            assert(squeeze_slashes(s) == seq![s[0], 0x2Fu8] + t2);
            assert(c2 + seq![0x2Fu8] + t2 =~= cur + (seq![s[0], 0x2Fu8] + t2));
        }
    }
}

/// A path breaks into its components at its slashes and only there: no component is empty or
/// holds a slash, and the components joined with single slashes give the path with its
/// leading and trailing slashes dropped and each run of slashes inside it made one. So every
/// byte other than a slash stays in its component, in order (a dot is no separator).
pub proof fn lemma_path_components_split_at_slashes(path: Seq<u8>)
    ensures
        forall|i: int| 0 <= i < path_components_spec(path).len() ==>
            (#[trigger] path_components_spec(path)[i]).len() > 0 && !path_components_spec(path)[i].contains(0x2Fu8),
        join_with_slashes(path_components_spec(path)) == squeeze_slashes(path),
{
    assert(!Seq::<u8>::empty().contains(0x2Fu8));
    lemma_components_from(path, Seq::empty());
}

pub fn path_components(path: &[u8]) -> (r: Vec<Vec<u8>>)
    ensures
        r@.map_values(|c: Vec<u8>| c@) == path_components_spec(path@),
{
    let mut out: Vec<Vec<u8>> = Vec::new();
    let mut cur: Vec<u8> = Vec::new();
    let mut i: usize = 0;
    assert(path@.subrange(0, path@.len() as int) =~= path@);
    assert(out@.map_values(|c: Vec<u8>| c@) =~= Seq::<Seq<u8>>::empty());
    assert(cur@ =~= Seq::<u8>::empty());
    while i < path.len()
        invariant
            i <= path@.len(),
            out@.map_values(|c: Vec<u8>| c@) + components_from(path@.subrange(i as int, path@.len() as int), cur@)
                == path_components_spec(path@),
        decreases path@.len() - i,
    {
        let ghost rest = path@.subrange(i as int, path@.len() as int);
        let ghost before = out@.map_values(|c: Vec<u8>| c@);
        assert(rest.drop_first() =~= path@.subrange(i + 1, path@.len() as int));
        assert(rest[0] == path@[i as int]);
        if path[i] == 0x2F {
            if cur.len() > 0 {
                let ghost c = cur@;
                out.push(cur);
                assert(out@.map_values(|c: Vec<u8>| c@) =~= before.push(c));
                assert(before.push(c) + components_from(rest.drop_first(), Seq::empty())
                    =~= before + (seq![c] + components_from(rest.drop_first(), Seq::empty())));
            } else {
                assert(Seq::<Seq<u8>>::empty() + components_from(rest.drop_first(), Seq::empty())
                    =~= components_from(rest.drop_first(), Seq::empty()));
            }
            cur = Vec::new();
            assert(cur@ =~= Seq::<u8>::empty());
        } else {
            cur.push(path[i]);
        }
        i += 1;
    }
    let ghost before = out@.map_values(|c: Vec<u8>| c@);
    assert(path@.subrange(i as int, path@.len() as int) =~= Seq::<u8>::empty());
    if cur.len() > 0 {
        let ghost c = cur@;
        out.push(cur);
        assert(out@.map_values(|c: Vec<u8>| c@) =~= before.push(c));
        assert(before + seq![c] =~= before.push(c));
    } else {
        assert(before + Seq::<Seq<u8>>::empty() =~= before);
    }
    out
}

/// How an open request that found its inode opens it.
#[derive(Debug, Clone, Copy, PartialEq, Eq, Structural)]
pub enum OpenAs {
    Directory,
    /// A regular file, emptied first when `truncate`.
    Regular { truncate: bool },
}

/// The mode an open request creates a missing path with: only when the lookup failed with
/// `ENOENT` at the last component and `O_CREAT` is set; a directory when `O_DIRECTORY` is set,
/// a regular file otherwise.
pub fn open_create_mode(flags: OpenFlags, err: Errno, missing_is_last: bool) -> (r: Option<InodeMode>)
    ensures
        err == Errno::ENOENT && flags@ & 0o100 == 0o100 && missing_is_last ==> (r matches Some(m)
            && m@ == (if flags@ & 0o200000 == 0o200000 { 0x4000 | 0o777 } else { 0x8000 | 0o666 })),
        !(err == Errno::ENOENT && flags@ & 0o100 == 0o100 && missing_is_last) ==> r is None,
{
    if err == Errno::ENOENT && flags.contains(OpenFlags::O_CREAT) && missing_is_last {
        if flags.contains(OpenFlags::O_DIRECTORY) {
            Some(InodeMode::def_dir())
        } else {
            Some(InodeMode::def_file())
        }
    } else {
        None
    }
}

/// How an open request opens the inode it found: a directory only with `O_DIRECTORY`
/// (`EISDIR` otherwise), anything else only without it (`ENOTDIR` otherwise); a regular file is
/// emptied first when `O_TRUNC` is set.
pub fn open_as(flags: OpenFlags, is_dir: bool) -> (r: Result<OpenAs, Errno>)
    ensures
        flags@ & 0o200000 == 0o200000 && !is_dir ==> r == Err::<OpenAs, Errno>(Errno::ENOTDIR),
        flags@ & 0o200000 != 0o200000 && is_dir ==> r == Err::<OpenAs, Errno>(Errno::EISDIR),
        flags@ & 0o200000 == 0o200000 && is_dir ==> r == Ok::<OpenAs, Errno>(OpenAs::Directory),
        flags@ & 0o200000 != 0o200000 && !is_dir ==> r == Ok::<OpenAs, Errno>(
            OpenAs::Regular { truncate: flags@ & 0o1000 == 0o1000 }),
{
    let want_dir = flags.contains(OpenFlags::O_DIRECTORY);
    if want_dir && !is_dir {
        return Err(Errno::ENOTDIR);
    }
    if !want_dir && is_dir {
        return Err(Errno::EISDIR);
    }
    if is_dir {
        Ok(OpenAs::Directory)
    } else {
        Ok(OpenAs::Regular { truncate: flags.contains(OpenFlags::O_TRUNC) })
    }
}

/// What making a directory path does at one component, given what looking the component up
/// gave: whether it exists as a directory, or the lookup error.
#[derive(Debug, Clone, Copy, PartialEq, Eq, Structural)]
pub enum MkdirStep {
    /// The component is a directory: go into it.
    Descend,
    /// The component is missing: create it as a directory and go into it.
    Create,
    /// Stop with this error.
    Fail(Errno),
}

/// One component of making a directory path with its parents: go into existing directories,
/// create missing ones, stop at anything else.
pub fn mkdir_recursive_step(lookup: Result<bool, Errno>) -> (r: MkdirStep)
    ensures
        lookup == Ok::<bool, Errno>(true) ==> r == MkdirStep::Descend,
        lookup == Ok::<bool, Errno>(false) ==> r == MkdirStep::Fail(Errno::ENOTDIR),
        lookup == Err::<bool, Errno>(Errno::ENOENT) ==> r == MkdirStep::Create,
        lookup is Err && lookup != Err::<bool, Errno>(Errno::ENOENT) ==> r == MkdirStep::Fail(lookup->Err_0),
{
    match lookup {
        Ok(true) => MkdirStep::Descend,
        Ok(false) => MkdirStep::Fail(Errno::ENOTDIR),
        Err(Errno::ENOENT) => MkdirStep::Create,
        Err(e) => MkdirStep::Fail(e),
    }
}

/// Making a directory without its parents, given what looking the whole path up gave: an
/// existing path is `EEXIST`, a missing component is created in the directory that lacks it,
/// any other error stops.
pub fn mkdir_single(lookup: Result<(), Errno>) -> (r: MkdirStep)
    ensures
        lookup is Ok ==> r == MkdirStep::Fail(Errno::EEXIST),
        lookup == Err::<(), Errno>(Errno::ENOENT) ==> r == MkdirStep::Create,
        lookup is Err && lookup != Err::<(), Errno>(Errno::ENOENT) ==> r == MkdirStep::Fail(lookup->Err_0),
{
    match lookup {
        Ok(()) => MkdirStep::Fail(Errno::EEXIST),
        Err(Errno::ENOENT) => MkdirStep::Create,
        Err(e) => MkdirStep::Fail(e),
    }
}

/// What the server does with what a receive on its socket gave.
#[derive(Debug, Clone, Copy, PartialEq, Eq, Structural)]
pub enum ReceiveAction {
    /// Nothing came in time: receive again.
    Retry,
    /// The receive failed: drop it and receive the next request.
    Skip,
    /// A request came: serve it.
    Serve,
}

/// What to do after a receive that reported `err`: receive again on a timeout, serve a
/// request that came, and drop any other failure.
pub fn receive_action(err: S3kErr) -> (r: ReceiveAction)
    ensures
        err == S3kErr::Timeout ==> r == ReceiveAction::Retry,
        err == S3kErr::Success ==> r == ReceiveAction::Serve,
        err != S3kErr::Timeout && err != S3kErr::Success ==> r == ReceiveAction::Skip,
{
    match err {
        S3kErr::Timeout => ReceiveAction::Retry,
        S3kErr::Success => ReceiveAction::Serve,
        _ => ReceiveAction::Skip,
    }
}

} // verus!
