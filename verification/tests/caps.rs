use s3k_fs::ffi::{
    CapType, ChanCap, EmptyCap, MemCap, MonCap, PmpCap, S3kCap, S3kErr, S3kIpcMode, S3kIpcPerm,
    S3kMemPerm, S3kReg, SockCap, TimeCap,
};
use s3k_fs::utils::s3k_mk_socket;

#[test]
fn err_codes_read_back() {
    assert_eq!(S3kErr::from_primitive(0), S3kErr::Success);
    assert_eq!(S3kErr::from_primitive(1), S3kErr::Empty);
    assert_eq!(S3kErr::from_primitive(14), S3kErr::InvalidCapability);
    assert_eq!(S3kErr::from_primitive(16), S3kErr::Preempted);
    assert_eq!(S3kErr::from_primitive(18), S3kErr::Suspended);
    assert_eq!(S3kErr::from_primitive(19), S3kErr::Unknown);
    assert_eq!(S3kErr::from_primitive(200), S3kErr::Unknown);
    for c in 0u8..20 {
        assert_eq!(S3kErr::from_primitive(c).code(), c);
    }
}

#[test]
fn mem_perm_keeps_known_flags() {
    assert_eq!(S3kMemPerm::from_bits_truncate(S3kMemPerm::RW).bits(), 3);
    assert_eq!(S3kMemPerm::from_bits_truncate(0xff).bits(), 7);
    assert_eq!(S3kMemPerm::from_bits_truncate(0x08).bits(), 0);
    assert_eq!(S3kIpcPerm::from_bits_truncate(0xff).bits(), 0xf);
    assert_eq!(S3kIpcPerm::from_bits_truncate(S3kIpcPerm::CDATA).bits(), 4);
}

#[test]
fn ipc_mode_bits() {
    assert_eq!(S3kIpcMode::from_bits(0), S3kIpcMode::NOYIELD);
    assert_eq!(S3kIpcMode::from_bits(1), S3kIpcMode::YIELD);
    assert_eq!(S3kIpcMode::YIELD.into_bits(), 1);
    assert_eq!(S3kIpcMode::NOYIELD.into_bits(), 0);
}

#[test]
fn cap_type_bits() {
    assert_eq!(CapType::from_bits(0), CapType::Nil);
    assert_eq!(CapType::from_bits(1), CapType::Time);
    assert_eq!(CapType::from_bits(2), CapType::Memory);
    assert_eq!(CapType::from_bits(3), CapType::Pmp);
    assert_eq!(CapType::from_bits(4), CapType::Monitor);
    assert_eq!(CapType::from_bits(5), CapType::Channel);
    assert_eq!(CapType::from_bits(6), CapType::Socket);
    assert_eq!(CapType::from_bits(7), CapType::Nil);
    assert_eq!(CapType::from_bits(15), CapType::Nil);
    for t in [CapType::Nil, CapType::Time, CapType::Memory, CapType::Pmp, CapType::Monitor, CapType::Channel, CapType::Socket] {
        assert_eq!(CapType::from_bits(t.into_bits()), t);
    }
}

#[test]
fn fresh_caps_carry_their_type() {
    assert_eq!(EmptyCap::new().as_raw(), 0);
    assert_eq!(TimeCap::new().as_raw(), 1);
    assert_eq!(MemCap::new().as_raw(), 2);
    assert_eq!(PmpCap::new().as_raw(), 3);
    assert_eq!(MonCap::new().as_raw(), 4);
    assert_eq!(ChanCap::new().as_raw(), 5);
    assert_eq!(SockCap::new().as_raw(), 6);
}

#[test]
fn time_cap_fields() {
    let c = TimeCap::new().with_hart(3).with_bgn(0x10).with_mrk(0x20).with_end(0x40);
    assert_eq!(c.hart(), 3);
    assert_eq!(c.bgn(), 0x10);
    assert_eq!(c.mrk(), 0x20);
    assert_eq!(c.end(), 0x40);
    assert_eq!(c.as_raw(), 1 | (3 << 8) | (0x10 << 16) | (0x20 << 32) | (0x40 << 48));
}

#[test]
fn mem_cap_fields() {
    let c = MemCap::new().with_rwx(5).with_lck(true).with_tag(16).with_bgn(1).with_mrk(2).with_end(3);
    assert_eq!(c.rwx(), 5);
    assert!(c.lck());
    assert_eq!(c.tag(), 16);
    assert_eq!(c.bgn(), 1);
    assert_eq!(c.mrk(), 2);
    assert_eq!(c.end(), 3);
    assert_eq!(c.as_raw(), 2 | (5 << 4) | (1 << 7) | (16 << 8) | (1 << 16) | (2 << 32) | (3 << 48));
    let d = c.with_lck(false);
    assert!(!d.lck());
    assert_eq!(d.rwx(), 5);
}

#[test]
fn pmp_cap_fields() {
    let c = PmpCap::new().with_rwx(3).with_used(true).with_slot(2).with_addr(0x0400_03ff);
    assert_eq!(c.rwx(), 3);
    assert!(c.used());
    assert_eq!(c.slot(), 2);
    assert_eq!(c.addr(), 0x0400_03ff);
    assert_eq!(c.as_raw(), 3 | (3 << 4) | (1 << 7) | (2 << 8) | (0x0400_03ff << 16));
}

#[test]
fn mon_and_chan_cap_fields() {
    let m = MonCap::new().with_bgn(1).with_mrk(2).with_end(8);
    assert_eq!((m.bgn(), m.mrk(), m.end()), (1, 2, 8));
    assert_eq!(m.as_raw(), 4 | (1 << 16) | (2 << 32) | (8 << 48));
    let c = ChanCap::new().with_bgn(0).with_mrk(5).with_end(16);
    assert_eq!((c.bgn(), c.mrk(), c.end()), (0, 5, 16));
    assert_eq!(c.as_raw(), 5 | (5 << 32) | (16 << 48));
}

#[test]
fn sock_cap_fields_and_perms() {
    let mut s = SockCap::new().with_mode(S3kIpcMode::YIELD).with_perm(0x5).with_chan(7).with_tag(0xdead);
    assert_eq!(s.mode(), S3kIpcMode::YIELD);
    assert_eq!(s.perm(), 5);
    assert_eq!(s.chan(), 7);
    assert_eq!(s.tag(), 0xdead);
    assert_eq!(s.as_raw(), 6 | (1 << 4) | (5 << 8) | (7 << 16) | (0xdead << 32));
    assert_eq!(s.get_perms().bits(), 5);
    s.set_perms(S3kIpcPerm::from_bits_truncate(S3kIpcPerm::SDATA | S3kIpcPerm::CCAP));
    assert_eq!(s.perm(), 9);
    assert_eq!(s.chan(), 7);
    assert_eq!(s.tag(), 0xdead);
    assert_eq!(s.mode(), S3kIpcMode::YIELD);
}

#[test]
fn caps_from_raw_check_the_type() {
    let raw = MemCap::new().with_rwx(7).with_end(16).as_raw();
    let c = MemCap::from_raw(raw).ok().unwrap();
    assert_eq!(c.as_raw(), raw);
    assert_eq!(c.end(), 16);
    assert_eq!(PmpCap::from_raw(raw).err(), Some(S3kErr::InvalidCapability));
    assert_eq!(SockCap::from_raw(raw).err(), Some(S3kErr::InvalidCapability));
    assert!(EmptyCap::from_raw(0).is_ok());
    assert_eq!(EmptyCap::from_raw(2).err(), Some(S3kErr::InvalidCapability));
    assert!(TimeCap::from_raw(0x11).is_ok());
    assert!(MonCap::from_raw(4).is_ok());
    assert!(ChanCap::from_raw(5).is_ok());
    assert_eq!(ChanCap::from_raw(7).err(), Some(S3kErr::InvalidCapability));
}

#[test]
fn register_numbers() {
    assert_eq!(S3kReg::PC.code(), 0);
    assert_eq!(S3kReg::A0.code(), 10);
    assert_eq!(S3kReg::T6.code(), 31);
    assert_eq!(S3kReg::TPC.code(), 32);
    assert_eq!(S3kReg::SERVTIME.code(), 38);
    assert_eq!(S3kReg::CNT.code(), 39);
}

#[test]
fn socket_capability_encoding() {
    let perm = S3kIpcPerm::from_bits_truncate(S3kIpcPerm::SDATA | S3kIpcPerm::CDATA);
    let s = s3k_mk_socket(3, S3kIpcMode::YIELD, perm, 7);
    assert_eq!(s.as_raw(), 6 | (1 << 4) | (5 << 8) | (3 << 16) | (7 << 32));
    let n = s3k_mk_socket(0, S3kIpcMode::NOYIELD, S3kIpcPerm::from_bits_truncate(0xff), 1);
    assert_eq!(n.as_raw(), 6 | (0xf << 8) | (1 << 32));
}

#[test]
fn permissions_read_back_after_setting() {
    let mut s = s3k_mk_socket(2, S3kIpcMode::YIELD, S3kIpcPerm::from_bits_truncate(1), 9);
    let before = s.as_raw();
    s.set_perms(S3kIpcPerm::from_bits_truncate(0xa));
    assert_eq!(s.get_perms(), S3kIpcPerm::from_bits_truncate(0xa));
    assert_eq!(s.perm(), 0xa);
    assert_eq!(s.as_raw() & !0xFF00, before & !0xFF00);
}
