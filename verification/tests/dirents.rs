use bitvec_rs::BitVec;
use s3k_fs::fat32::dirent::{
    checksum, child_name, dirent_entries, ChildName, end_entry, entry_with_size, free_entry, long_name_of, scan_dir, short_entry_fields,
    short_name_for_units, short_name_of, ScannedChild, ATTR_ARCHIVE, ATTR_DIRECTORY,
};

fn units(s: &str) -> Vec<u16> {
    s.encode_utf16().collect()
}

fn reference_checksum(name: &[u8; 11]) -> u8 {
    let mut sum: u8 = 0;
    for &b in name {
        sum = (if sum & 1 != 0 { 0x80u8 } else { 0 }).wrapping_add(sum >> 1).wrapping_add(b);
    }
    sum
}

fn bits(v: &BitVec) -> Vec<bool> {
    (0..v.len()).map(|i| v[i]).collect()
}

fn short_only(name11: &[u8; 11], nt: u8, attr: u8, cluster: u32, size: u32) -> [u8; 32] {
    let mut e = [0u8; 32];
    e[0..11].copy_from_slice(name11);
    e[11] = attr;
    e[12] = nt;
    e[20..22].copy_from_slice(&((cluster >> 16) as u16).to_le_bytes());
    e[26..28].copy_from_slice(&((cluster & 0xffff) as u16).to_le_bytes());
    e[28..32].copy_from_slice(&size.to_le_bytes());
    e
}

#[test]
fn short_names_for_new_entries() {
    assert_eq!(&short_name_for_units(&units("notes.txt")), b"NOTES~1 TXT");
    assert_eq!(&short_name_for_units(&units("A very long name.markdown")), b"AVERYL~1MAR");
    assert_eq!(&short_name_for_units(&units("README")), b"README~1   ");
    assert_eq!(&short_name_for_units(&units(".hidden")), b"_~1     HID");
    assert_eq!(&short_name_for_units(&units("日本.txt")), b"_~1     TXT");
}

#[test]
fn checksums_follow_the_specification() {
    for n in [b"NOTES~1 TXT", b"README~1   ", b"FOO     BAR", b"_~1     HID"] {
        assert_eq!(checksum(n), reference_checksum(n));
    }
}

#[test]
fn entries_for_a_name_read_back() {
    let name = units("My Document.txt");
    let mut data = dirent_entries(&name, ATTR_ARCHIVE, 0x0001_2345, 777);
    assert_eq!(data.len(), 32 * 3);
    assert_eq!(data[0], 0x42);
    assert_eq!(data[32], 0x01);
    assert_eq!(data[11], 0x0F);
    let short = short_name_for_units(&name);
    assert_eq!(data[13], checksum(&short));
    assert_eq!(&data[64..75], &short);
    data.extend_from_slice(&end_entry());
    let mut occupy = BitVec::new();
    let children = scan_dir(&data, &mut occupy);
    assert_eq!(children, vec![ScannedChild { entry: 2, pos: 0, len: 3 }]);
    assert_eq!(bits(&occupy), vec![true, true, true]);
    assert_eq!(long_name_of(&data, 2, 2), name);
    assert_eq!(short_entry_fields(&data, 2), (ATTR_ARCHIVE, 0x0001_2345, 777));
}

#[test]
fn a_name_of_exactly_thirteen_units_has_no_terminator() {
    let name = units("abcdefghijklm");
    let mut data = dirent_entries(&name, 0, 5, 0);
    assert_eq!(data.len(), 64);
    data.extend_from_slice(&end_entry());
    assert_eq!(long_name_of(&data, 1, 1), name);
}

#[test]
fn dot_entries_are_short_only() {
    let dot = dirent_entries(&units("."), ATTR_DIRECTORY, 7, 0);
    assert_eq!(dot.len(), 32);
    assert_eq!(&dot[0..11], b".          ");
    let dotdot = dirent_entries(&units(".."), ATTR_DIRECTORY, 2, 0);
    assert_eq!(&dotdot[0..11], b"..         ");
    assert_eq!(dotdot[11], ATTR_DIRECTORY);
    assert_eq!(short_entry_fields(&dotdot, 0), (ATTR_DIRECTORY, 2, 0));
}

#[test]
fn scanning_a_directory() {
    let mut data = Vec::new();
    data.extend_from_slice(&dirent_entries(&units("."), ATTR_DIRECTORY, 9, 0));
    data.extend_from_slice(&dirent_entries(&units(".."), ATTR_DIRECTORY, 2, 0));
    data.extend_from_slice(&short_only(b"NOTES   TXT", 0x18, ATTR_ARCHIVE, 10, 42));
    data.extend_from_slice(&free_entry());
    data.extend_from_slice(&dirent_entries(&units("second file"), 0, 11, 5));
    data.extend_from_slice(&end_entry());
    data.extend_from_slice(&short_only(b"GHOST      ", 0, 0, 0, 0));
    let mut occupy = BitVec::new();
    let children = scan_dir(&data, &mut occupy);
    assert_eq!(
        children,
        vec![ScannedChild { entry: 2, pos: 2, len: 1 }, ScannedChild { entry: 5, pos: 4, len: 2 }]
    );
    assert_eq!(bits(&occupy), vec![true, true, true, false, true, true]);
    assert_eq!(short_name_of(&data, 2), b"notes.txt".to_vec());
    assert_eq!(short_entry_fields(&data, 2), (ATTR_ARCHIVE, 10, 42));
    assert_eq!(String::from_utf16(&long_name_of(&data, 5, 1)).unwrap(), "second file");
}

#[test]
fn a_free_entry_drops_a_broken_long_name() {
    let mut data = Vec::new();
    let run = dirent_entries(&units("orphan"), 0, 3, 0);
    data.extend_from_slice(&run[0..32]);
    data.extend_from_slice(&free_entry());
    data.extend_from_slice(&short_only(b"KEPT       ", 0, 0, 4, 0));
    data.extend_from_slice(&end_entry());
    let mut occupy = BitVec::new();
    let children = scan_dir(&data, &mut occupy);
    assert_eq!(children, vec![ScannedChild { entry: 2, pos: 2, len: 1 }]);
    assert_eq!(bits(&occupy), vec![true, false, true]);
    assert_eq!(short_name_of(&data, 2), b"KEPT".to_vec());
}

#[test]
fn short_names_as_written() {
    let e = short_only(b"\x05BC     D  ", 0, 0, 0, 0);
    assert_eq!(short_name_of(&e, 0), vec![0xE5, b'B', b'C', b'.', b'D']);
    let upper = short_only(b"READ    ME ", 0, 0, 0, 0);
    assert_eq!(short_name_of(&upper, 0), b"READ.ME".to_vec());
    let lower_base = short_only(b"READ    ME ", 0x08, 0, 0, 0);
    assert_eq!(short_name_of(&lower_base, 0), b"read.ME".to_vec());
}

#[test]
fn entry_helpers() {
    assert_eq!(end_entry(), [0u8; 32]);
    let f = free_entry();
    assert_eq!(f[0], 0xE5);
    assert!(f[1..].iter().all(|&b| b == 0));
    let e = short_only(b"A          ", 0, 0, 3, 10);
    let updated = entry_with_size(&e, 0x0102_0304);
    assert_eq!(&updated[0..28], &e[0..28]);
    assert_eq!(&updated[28..32], &[4, 3, 2, 1]);
}

#[test]
fn children_are_named_by_their_long_or_short_name() {
    let name = units("My Document.txt");
    let mut data = dirent_entries(&name, ATTR_ARCHIVE, 9, 0);
    data.extend_from_slice(&dirent_entries(&units("A"), ATTR_ARCHIVE, 10, 0));
    data.extend_from_slice(&end_entry());
    let mut occupy = BitVec::new();
    let children = scan_dir(&data, &mut occupy);
    assert_eq!(children.len(), 2);
    match child_name(&data, &children[0]) {
        ChildName::Long(u) => assert_eq!(u, name),
        ChildName::Short(_) => panic!("expected a long name"),
    }
    let second = &children[1];
    let expected = if second.len > 1 {
        ChildName::Long(long_name_of(&data, second.entry, second.len - 1))
    } else {
        ChildName::Short(short_name_of(&data, second.entry))
    };
    match (child_name(&data, second), expected) {
        (ChildName::Long(a), ChildName::Long(b)) => assert_eq!(a, b),
        (ChildName::Short(a), ChildName::Short(b)) => assert_eq!(a, b),
        _ => panic!("names differ in kind"),
    }
}
