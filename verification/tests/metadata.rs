use s3k_fs::fat32::dirent::{attr_of_mode, mode_of_attr, ATTR_DIRECTORY};
use s3k_fs::flags::InodeMode;
use s3k_fs::time::{real_time, InodeMetaInner, TimeSpec};

#[test]
fn times_from_microseconds() {
    assert_eq!(TimeSpec::from_micros(0), TimeSpec::new(0, 0));
    assert_eq!(TimeSpec::from_micros(1_500_000), TimeSpec::new(1, 500_000_000));
    assert_eq!(TimeSpec::from_micros(999_999), TimeSpec::new(0, 999_999_000));
    assert_eq!(TimeSpec::default(), TimeSpec::new(0, 0));
}

#[test]
fn the_clock_reads_the_epoch() {
    assert_eq!(real_time(), TimeSpec::new(0, 0));
}

#[test]
fn fresh_inode_metadata() {
    let t = TimeSpec::new(7, 9);
    let m = InodeMetaInner::new(1, 2, InodeMode::def_file(), t, TimeSpec::default(), t, 42);
    assert_eq!((m.uid, m.gid, m.nlink, m.size, m.unlinked), (1, 2, 1, 42, false));
    assert_eq!(m.mode, InodeMode::def_file());
    assert_eq!((m.atime, m.mtime, m.ctime), (t, TimeSpec::default(), t));
}

#[test]
fn entry_attributes_and_inode_types() {
    assert_eq!(mode_of_attr(ATTR_DIRECTORY).bits(), InodeMode::S_IFDIR);
    assert_eq!(mode_of_attr(ATTR_DIRECTORY | 0x01).bits(), InodeMode::S_IFDIR);
    assert_eq!(mode_of_attr(0x20).bits(), InodeMode::S_IFREG);
    assert_eq!(attr_of_mode(InodeMode::def_dir()), ATTR_DIRECTORY);
    assert_eq!(attr_of_mode(InodeMode::def_file()), 0);
    for attr in [0u8, ATTR_DIRECTORY] {
        assert_eq!(attr_of_mode(mode_of_attr(attr)), attr);
    }
}
