use s3k_fs::errno::Errno;
use s3k_fs::file::{apply_seek, check_live_dir, dir_entry_at, listing_name, seek_offset, DirEntryAt, FdTable, Seek, PAGE_SIZE};
use s3k_fs::flags::{InodeMode, OpenFlags};
use s3k_fs::server::{
    decode_request, is_root_path, mkdir_recursive_step, mkdir_single, open_as, open_create_mode,
    path_components, path_len_until_nul, reply_data, reply_value, MkdirStep, OpenAs, Request, REQ_CLOSE,
    REQ_LS, REQ_MKDIR, REQ_OPEN, REQ_READ, REQ_SEEK, REQ_SIZE, REQ_WRITE,
};

#[test]
fn error_numbers() {
    assert_eq!(Errno::ENOENT.code(), 2);
    assert_eq!(Errno::EBADF.code(), 9);
    assert_eq!(Errno::EINVAL.code(), 22);
    assert_eq!(Errno::ENOSPC.code(), 28);
    assert_eq!(Errno::EOVERFLOW.code(), 75);
    assert_eq!(Errno::ENOENT.as_reply(), -2);
    assert_eq!(Errno::EISDIR.as_reply(), -21);
}

#[test]
fn open_flags() {
    let f = OpenFlags::from_bits_truncate(OpenFlags::O_RDWR | OpenFlags::O_CREAT | 0x8000_0000);
    assert_eq!(f.bits(), 0o102);
    assert!(f.contains(OpenFlags::O_CREAT));
    assert!(!f.contains(OpenFlags::O_TRUNC));
    assert!(f.readable());
    assert!(f.writable());
    let r = OpenFlags::from_bits_retain(0);
    assert!(r.readable());
    assert!(!r.writable());
    assert!(OpenFlags::from_bits_retain(OpenFlags::O_WRONLY).writable());
    let u = r.union(OpenFlags::from_bits_retain(OpenFlags::O_DIRECTORY));
    assert_eq!(u.bits(), 0o200000);
    assert_eq!(OpenFlags::from_bits_retain(0xFFFF_FFFF).bits(), 0xFFFF_FFFF);
}

#[test]
fn inode_modes() {
    assert_eq!(InodeMode::def_dir().bits(), 0o40777);
    assert_eq!(InodeMode::def_file().bits(), 0o100666);
    assert_eq!(InodeMode::def_lnk().bits(), 0o120777);
    assert!(InodeMode::def_dir().is_dir());
    assert!(!InodeMode::def_dir().is_reg());
    assert!(InodeMode::def_file().is_reg());
    assert!(InodeMode::def_lnk().is_lnk());
    assert_eq!(InodeMode::def_file().file_type().bits(), InodeMode::S_IFREG);
    assert_eq!(InodeMode::from_bits_access(0o177777).bits(), 0o777);
    assert_eq!(InodeMode::from_bits_misc(0o177777).bits(), 0o7777);
    assert_eq!(InodeMode::from_bits_retain(0x1234).bits(), 0x1234);
}

#[test]
fn decoding_requests() {
    assert_eq!(
        decode_request(&[REQ_OPEN, 0o102 | 0x8000_0000, 5, 0x8012_0000]),
        Request::Open { flags: OpenFlags::from_bits_retain(0o102), path_len: 5, path_addr: 0x8012_0000 }
    );
    assert_eq!(decode_request(&[REQ_CLOSE, 3, 0, 0]), Request::Close { fd: 3 });
    assert_eq!(decode_request(&[REQ_READ, 4, 100, 0x10]), Request::Read { fd: 4, count: 100, buffer_addr: 0x10 });
    assert_eq!(decode_request(&[REQ_WRITE, 4, 7, 0x20]), Request::Write { fd: 4, count: 7, buffer_addr: 0x20 });
    assert_eq!(
        decode_request(&[REQ_SEEK, 4, (-5i64) as u64, 1]),
        Request::Seek { fd: 4, offset: -5, whence: 1 }
    );
    assert_eq!(decode_request(&[REQ_LS, 3, 0, 0x30]), Request::Ls { fd: 3, buffer_addr: 0x30 });
    assert_eq!(decode_request(&[REQ_SIZE, 3, 0, 0]), Request::Size { fd: 3, path_len: 0, path_addr: 0 });
    assert_eq!(
        decode_request(&[REQ_SIZE, (-1i64) as u64, 6, 0x9000]),
        Request::Size { fd: -1, path_len: 6, path_addr: 0x9000 }
    );
    assert_eq!(
        decode_request(&[REQ_MKDIR, 1, 4, 0x40]),
        Request::Mkdir { recursive: true, path_len: 4, path_addr: 0x40 }
    );
    assert_eq!(decode_request(&[0, 0, 0, 0]), Request::Unknown { code: 0 });
    assert_eq!(decode_request(&[99, 0, 0, 0]), Request::Unknown { code: 99 });
}

#[test]
fn replies() {
    assert_eq!(reply_data(5), [5, 0, 0, 0]);
    assert_eq!(reply_data(-2), [(-2i64) as u64, 0, 0, 0]);
    assert_eq!(reply_value(Ok(12)), 12);
    assert_eq!(reply_value(Err(Errno::EBADF)), -9);
}

#[test]
fn paths() {
    assert_eq!(path_len_until_nul(b"abc\0def"), 3);
    assert_eq!(path_len_until_nul(b"abc"), 3);
    assert_eq!(path_len_until_nul(b"\0"), 0);
    assert!(is_root_path(b""));
    assert!(is_root_path(b"/"));
    assert!(!is_root_path(b"//"));
    assert!(!is_root_path(b"/a"));
    assert_eq!(path_components(b"/a/bc//d/"), vec![b"a".to_vec(), b"bc".to_vec(), b"d".to_vec()]);
    assert_eq!(path_components(b"x"), vec![b"x".to_vec()]);
    assert_eq!(path_components(b"///"), Vec::<Vec<u8>>::new());
}

#[test]
fn opening() {
    let creat = OpenFlags::from_bits_retain(OpenFlags::O_CREAT);
    assert_eq!(open_create_mode(creat, Errno::ENOENT, true).map(|m| m.bits()), Some(0o100666));
    let creat_dir = OpenFlags::from_bits_retain(OpenFlags::O_CREAT | OpenFlags::O_DIRECTORY);
    assert_eq!(open_create_mode(creat_dir, Errno::ENOENT, true).map(|m| m.bits()), Some(0o40777));
    assert_eq!(open_create_mode(creat, Errno::ENOENT, false), None);
    assert_eq!(open_create_mode(creat, Errno::ENOTDIR, true), None);
    assert_eq!(open_create_mode(OpenFlags::from_bits_retain(0), Errno::ENOENT, true), None);

    let dir = OpenFlags::from_bits_retain(OpenFlags::O_DIRECTORY);
    assert_eq!(open_as(dir, true), Ok(OpenAs::Directory));
    assert_eq!(open_as(dir, false), Err(Errno::ENOTDIR));
    assert_eq!(open_as(OpenFlags::from_bits_retain(0), true), Err(Errno::EISDIR));
    assert_eq!(open_as(OpenFlags::from_bits_retain(0), false), Ok(OpenAs::Regular { truncate: false }));
    assert_eq!(
        open_as(OpenFlags::from_bits_retain(OpenFlags::O_TRUNC | OpenFlags::O_RDWR), false),
        Ok(OpenAs::Regular { truncate: true })
    );
}

#[test]
fn making_directories() {
    assert_eq!(mkdir_recursive_step(Ok(true)), MkdirStep::Descend);
    assert_eq!(mkdir_recursive_step(Ok(false)), MkdirStep::Fail(Errno::ENOTDIR));
    assert_eq!(mkdir_recursive_step(Err(Errno::ENOENT)), MkdirStep::Create);
    assert_eq!(mkdir_recursive_step(Err(Errno::EIO)), MkdirStep::Fail(Errno::EIO));
    assert_eq!(mkdir_single(Ok(())), MkdirStep::Fail(Errno::EEXIST));
    assert_eq!(mkdir_single(Err(Errno::ENOENT)), MkdirStep::Create);
    assert_eq!(mkdir_single(Err(Errno::ENOTDIR)), MkdirStep::Fail(Errno::ENOTDIR));
}

#[test]
fn seeking() {
    assert_eq!(Seek::from_whence(0, 10), Ok(Seek::Absolute(10)));
    assert_eq!(Seek::from_whence(1, -3), Ok(Seek::Cur(-3)));
    assert_eq!(Seek::from_whence(2, 0), Ok(Seek::End(0)));
    assert_eq!(Seek::from_whence(3, 0), Err(Errno::EINVAL));
    assert_eq!(Seek::from_whence(-1, 0), Err(Errno::EINVAL));
    assert_eq!(seek_offset(5, 100, Seek::Absolute(42)), Ok(42));
    assert_eq!(seek_offset(5, 100, Seek::Absolute(-1)), Err(Errno::EINVAL));
    assert_eq!(seek_offset(5, 100, Seek::Cur(10)), Ok(15));
    assert_eq!(seek_offset(5, 100, Seek::Cur(-10)), Err(Errno::EINVAL));
    assert_eq!(seek_offset(5, 100, Seek::Cur(-5)), Ok(0));
    assert_eq!(seek_offset(5, 100, Seek::End(-101)), Err(Errno::EINVAL));
    assert_eq!(seek_offset(5, 100, Seek::End(-100)), Ok(0));
    assert_eq!(seek_offset(5, 100, Seek::End(-1)), Ok(99));
    assert_eq!(seek_offset(isize::MAX, 100, Seek::Cur(1)), Err(Errno::EOVERFLOW));
    assert_eq!(seek_offset(isize::MIN, 100, Seek::Cur(-1)), Err(Errno::EINVAL));
    assert_eq!(seek_offset(5, isize::MAX, Seek::End(2)), Err(Errno::EOVERFLOW));
    let p = seek_offset(7, 100, Seek::Absolute(30)).unwrap();
    assert_eq!(seek_offset(p, 100, Seek::Cur(0)), Ok(30));
}

#[test]
fn directory_listing() {
    assert_eq!(dir_entry_at(0), DirEntryAt::Itself);
    assert_eq!(dir_entry_at(1), DirEntryAt::Parent);
    assert_eq!(dir_entry_at(2), DirEntryAt::Child(0));
    assert_eq!(dir_entry_at(7), DirEntryAt::Child(5));
    assert_eq!(listing_name(0, b""), b".".to_vec());
    assert_eq!(listing_name(1, b""), b"..".to_vec());
    assert_eq!(listing_name(4, b"notes"), b"notes".to_vec());
    assert_eq!(PAGE_SIZE, 4096);
}

#[test]
fn descriptor_table() {
    let mut t: FdTable<&str> = FdTable::new();
    assert!(t.get(3).is_none());
    let a = t.allocate("a");
    let b = t.allocate("b");
    assert_eq!((a, b), (3, 4));
    assert_eq!(t.get(a), Some(&"a"));
    assert_eq!(t.get(b), Some(&"b"));
    assert!(t.close(a));
    assert!(t.get(a).is_none());
    assert!(!t.close(a));
    assert!(!t.close(0));
    let c = t.allocate("c");
    assert_eq!(c, 5);
    assert_eq!(t.get(b), Some(&"b"));
}

#[test]
fn a_failed_seek_keeps_the_offset() {
    let mut pos: isize = 5;
    assert_eq!(apply_seek(&mut pos, 100, Seek::Cur(-10)), Err(Errno::EINVAL));
    assert_eq!(pos, 5);
    assert_eq!(apply_seek(&mut pos, 100, Seek::End(-20)), Ok(80));
    assert_eq!(pos, 80);
    assert_eq!(apply_seek(&mut pos, 100, Seek::Cur(isize::MAX)), Err(Errno::EOVERFLOW));
    assert_eq!(pos, 80);
    assert_eq!(apply_seek(&mut pos, 100, Seek::Cur(0)), Ok(80));
}

#[test]
fn only_live_directories_can_be_looked_in() {
    assert_eq!(check_live_dir(true, InodeMode::def_dir()), Err(Errno::ENOENT));
    assert_eq!(check_live_dir(false, InodeMode::def_file()), Err(Errno::ENOTDIR));
    assert_eq!(check_live_dir(false, InodeMode::def_dir()), Ok(()));
}
