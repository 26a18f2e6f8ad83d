use s3k_fs::bits::{get_field, set_field};
use s3k_fs::block::{read_from_sector, write_into_sector};
use s3k_fs::bytes::{copy_bytes, get_u16_be, get_u16_le, get_u32_be, get_u32_le, push_bytes, push_u16_be, push_u32_be};
use s3k_fs::console::{edit_line, LineEdit};
use s3k_fs::errno::Errno;

#[test]
fn bit_fields() {
    assert_eq!(get_field(0xABCD, 4, 8), 0xBC);
    assert_eq!(set_field(0xABCD, 4, 8, 0x12), 0xA12D);
    assert_eq!(set_field(0, 60, 4, 0xFF), 0xF000_0000_0000_0000);
    assert_eq!(get_field(set_field(0x1234_5678, 16, 16, 0xBEEF), 16, 16), 0xBEEF);
}

#[test]
fn byte_orders() {
    let mut v = Vec::new();
    push_u16_be(&mut v, 0x1234);
    push_u32_be(&mut v, 0xDEAD_BEEF);
    push_bytes(&mut v, &[1, 2]);
    assert_eq!(v, vec![0x12, 0x34, 0xDE, 0xAD, 0xBE, 0xEF, 1, 2]);
    assert_eq!(get_u16_be(&v, 0), 0x1234);
    assert_eq!(get_u32_be(&v, 2), 0xDEAD_BEEF);
    assert_eq!(get_u16_le(&v, 0), 0x3412);
    assert_eq!(get_u32_le(&v, 2), 0xEFBE_ADDE);
    let mut dst = [0u8; 6];
    copy_bytes(&mut dst, 1, &v, 2, 4);
    assert_eq!(dst, [0, 0xDE, 0xAD, 0xBE, 0xEF, 0]);
}

#[test]
fn typing_a_line() {
    let mut buf = [0u8; 4];
    let mut len = 0usize;
    assert_eq!(edit_line(&mut buf, &mut len, b'l'), LineEdit::Insert(b'l'));
    assert_eq!(edit_line(&mut buf, &mut len, b's'), LineEdit::Insert(b's'));
    assert_eq!(&buf[..len], b"ls");
    assert_eq!(edit_line(&mut buf, &mut len, 0x7F), LineEdit::Erase);
    assert_eq!(len, 1);
    assert_eq!(edit_line(&mut buf, &mut len, 0x08), LineEdit::Erase);
    assert_eq!(edit_line(&mut buf, &mut len, 0x08), LineEdit::Ignore);
    assert_eq!(len, 0);
    for c in b"open" {
        edit_line(&mut buf, &mut len, *c);
    }
    assert_eq!(edit_line(&mut buf, &mut len, b'x'), LineEdit::Ignore);
    assert_eq!(&buf[..len], b"open");
    assert_eq!(edit_line(&mut buf, &mut len, b'\r'), LineEdit::Done);
    assert_eq!(edit_line(&mut buf, &mut len, b'\n'), LineEdit::Done);
    assert_eq!(len, 4);
}

#[test]
fn partial_sector_reads() {
    let sector: Vec<u8> = (0..16).collect();
    let mut buf = [0xFFu8; 4];
    assert_eq!(read_from_sector(&sector, &mut buf, 6), Ok(()));
    assert_eq!(buf, [6, 7, 8, 9]);
    let mut long = [0xFFu8; 6];
    assert_eq!(read_from_sector(&sector, &mut long, 13), Ok(()));
    assert_eq!(long, [13, 14, 15, 0xFF, 0xFF, 0xFF]);
    assert_eq!(read_from_sector(&sector, &mut long, 16), Err(Errno::EINVAL));
}

#[test]
fn partial_sector_writes_read_back() {
    let mut sector = vec![0u8; 16];
    assert_eq!(write_into_sector(&mut sector, &[1, 2, 3], 5), Ok(()));
    assert_eq!(&sector[4..9], &[0, 1, 2, 3, 0]);
    let mut back = [0u8; 3];
    read_from_sector(&sector, &mut back, 5).unwrap();
    assert_eq!(back, [1, 2, 3]);
    assert_eq!(write_into_sector(&mut sector, &[9, 9, 9, 9], 14), Ok(()));
    assert_eq!(&sector[14..16], &[9, 9]);
    assert_eq!(write_into_sector(&mut sector, &[1], 20), Err(Errno::EINVAL));
}
