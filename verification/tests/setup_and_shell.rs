use s3k_fs::boot::{
    AppSetup, AppSetupStage, ScheduleSetup, ScheduleStage, SetupEvent, SetupStep, SocketSetup, SocketSetupStage,
    UartSetup, UartSetupStage,
};
use s3k_fs::client::{reply_result, FileSystem};
use s3k_fs::ffi::{S3kCap, S3kErr, S3kIpcMode, S3kReply, SockCap, TimeCap, PmpCap, MemCap};
use s3k_fs::flags::OpenFlags;
use s3k_fs::server::{decode_request, receive_action, ReceiveAction, Request};
use s3k_fs::shell::{
    parse_command, parse_flags, parse_i32, parse_i64, parse_isize, parse_usize, split_words, ShellCommand, ShellVerb,
};
use s3k_fs::syscall::Syscall;
use s3k_fs::tpm::{key_test_verdict, UnlockError};
use s3k_fs::tpm_tis::{
    CommandExchange, CommandPhase, LocalityRequest, TisAction, TisEvent, TisStep, POLL_LIMIT,
};

fn call_of<T>(s: &SetupStep<T>) -> (Syscall, Vec<u64>, bool) {
    match s {
        SetupStep::Call(r) => (r.call, r.args.clone(), r.retry_preempted),
        _ => panic!("expected a call"),
    }
}

#[test]
fn app_setup_runs_in_order() {
    let (mut s, first) = AppSetup::start();
    assert!(matches!(first, SetupStep::FindFreeCap));
    let derive_mem = s.step(SetupEvent::FreeCap(Ok(12)));
    let (call, args, retry) = call_of(&derive_mem);
    assert_eq!((call, retry), (Syscall::CapDerive, true));
    assert_eq!(&args[0..2], &[1, 12]);
    let mem = MemCap::from_raw(args[2]).ok().unwrap();
    assert_eq!((mem.tag(), mem.bgn(), mem.mrk(), mem.end(), mem.rwx(), mem.lck()), (16, 0x110, 0x110, 0x120, 7, false));
    assert!(matches!(s.step(SetupEvent::Called(Ok(()))), SetupStep::FindFreeCap));
    let derive_pmp = s.step(SetupEvent::FreeCap(Ok(13)));
    let (_, args, _) = call_of(&derive_pmp);
    assert_eq!(&args[0..2], &[12, 13]);
    let pmp = PmpCap::from_raw(args[2]).ok().unwrap();
    assert_eq!((pmp.addr(), pmp.rwx()), ((0x8011_0000 | 0x7fff) >> 2, 7));
    assert_eq!(call_of(&s.step(SetupEvent::Called(Ok(())))), (Syscall::MonCapMove, vec![8, 0, 13, 1, 0], true));
    assert_eq!(call_of(&s.step(SetupEvent::Called(Ok(())))), (Syscall::MonPmpLoad, vec![8, 1, 0, 0], true));
    assert!(matches!(s.step(SetupEvent::Called(Ok(()))), SetupStep::FindFreeCap));
    let (_, args, _) = call_of(&s.step(SetupEvent::FreeCap(Ok(13))));
    assert_eq!(&args[0..2], &[12, 13]);
    assert_eq!(call_of(&s.step(SetupEvent::Called(Ok(())))), (Syscall::PmpLoad, vec![13, 2], true));
    assert!(matches!(s.step(SetupEvent::Called(Ok(()))), SetupStep::FindFreeCap));
    let (_, args, _) = call_of(&s.step(SetupEvent::FreeCap(Ok(14))));
    assert_eq!(&args[0..2], &[2, 14]);
    let uart = PmpCap::from_raw(args[2]).ok().unwrap();
    assert_eq!((uart.addr(), uart.rwx()), (0x0400_0000, 3));
    assert_eq!(call_of(&s.step(SetupEvent::Called(Ok(())))), (Syscall::MonCapMove, vec![8, 0, 14, 1, 10], true));
    assert_eq!(call_of(&s.step(SetupEvent::Called(Ok(())))), (Syscall::MonPmpLoad, vec![8, 1, 10, 1], true));
    assert_eq!(call_of(&s.step(SetupEvent::Called(Ok(())))), (Syscall::MonRegWrite, vec![8, 1, 0, 0x8011_0000], true));
    assert_eq!(call_of(&s.step(SetupEvent::Called(Ok(())))), (Syscall::Sync, vec![1], false));
    assert!(matches!(s.step(SetupEvent::Called(Err(S3kErr::Preempted))), SetupStep::Done(Ok(()))));
    assert_eq!(s.stage, AppSetupStage::Finished);
}

#[test]
fn app_setup_stops_at_a_failure() {
    let (mut s, _) = AppSetup::start();
    assert!(matches!(s.step(SetupEvent::FreeCap(Err(S3kErr::InvalidCapability))), SetupStep::Done(Err(S3kErr::InvalidCapability))));
    let (mut t, _) = AppSetup::start();
    t.step(SetupEvent::FreeCap(Ok(12)));
    assert!(matches!(t.step(SetupEvent::Called(Err(S3kErr::InvalidDerivation))), SetupStep::Done(Err(S3kErr::InvalidDerivation))));
    assert_eq!(t.stage, AppSetupStage::Finished);
}

#[test]
fn socket_setup_gives_the_server_slot() {
    let (mut s, first) = SocketSetup::start();
    assert!(matches!(first, SetupStep::FindFreeCap));
    let (call, args, _) = call_of(&s.step(SetupEvent::FreeCap(Ok(15))));
    assert_eq!(call, Syscall::CapDerive);
    assert_eq!(&args[0..2], &[9, 15]);
    let server = SockCap::from_raw(args[2]).ok().unwrap();
    assert_eq!((server.chan(), server.mode(), server.perm(), server.tag()), (0, S3kIpcMode::NOYIELD, 5, 0));
    assert!(matches!(s.step(SetupEvent::Called(Ok(()))), SetupStep::FindFreeCap));
    let (_, args, _) = call_of(&s.step(SetupEvent::FreeCap(Ok(16))));
    assert_eq!(&args[0..2], &[15, 16]);
    assert_eq!(SockCap::from_raw(args[2]).ok().unwrap().tag(), 1);
    assert_eq!(call_of(&s.step(SetupEvent::Called(Ok(())))), (Syscall::MonCapMove, vec![8, 0, 16, 1, 3], true));
    assert!(matches!(s.step(SetupEvent::Called(Ok(()))), SetupStep::Done(Ok(15))));
    assert_eq!(s.stage, SocketSetupStage::Finished);
}

#[test]
fn schedule_setup_goes_on_past_register_write_and_derive_outcomes() {
    let slice = TimeCap::new().with_hart(0).with_bgn(0).with_mrk(0).with_end(32);
    let (mut s, first) = ScheduleSetup::start(slice);
    assert_eq!(call_of(&first), (Syscall::RegWrite, vec![38, 100], false));
    assert_eq!(call_of(&s.step(SetupEvent::Called(Err(S3kErr::InvalidRegister)))), (Syscall::CapDelete, vec![5], true));
    assert_eq!(call_of(&s.step(SetupEvent::Called(Ok(())))), (Syscall::CapDelete, vec![6], true));
    assert_eq!(call_of(&s.step(SetupEvent::Called(Ok(())))), (Syscall::CapDelete, vec![7], true));
    assert!(matches!(s.step(SetupEvent::Called(Ok(()))), SetupStep::FindFreeCap));
    assert_eq!(call_of(&s.step(SetupEvent::FreeCap(Ok(12)))), (Syscall::CapDerive, vec![4, 12, slice.as_raw()], true));
    assert_eq!(call_of(&s.step(SetupEvent::Called(Err(S3kErr::InvalidDerivation)))), (Syscall::MonCapMove, vec![8, 0, 12, 1, 1], true));
    assert_eq!(call_of(&s.step(SetupEvent::Called(Ok(())))), (Syscall::Sync, vec![0], false));
    assert_eq!(call_of(&s.step(SetupEvent::Called(Ok(())))), (Syscall::MonResume, vec![8, 1], true));
    assert!(matches!(s.step(SetupEvent::Called(Ok(()))), SetupStep::Done(Ok(()))));
    assert_eq!(s.stage, ScheduleStage::Finished);
}

#[test]
fn schedule_setup_stops_when_a_delete_fails() {
    let (mut s, _) = ScheduleSetup::start(TimeCap::new());
    s.step(SetupEvent::Called(Ok(())));
    assert!(matches!(s.step(SetupEvent::Called(Err(S3kErr::Empty))), SetupStep::Done(Err(S3kErr::Empty))));
}

#[test]
fn locality_is_polled_until_granted() {
    let (mut l, first) = LocalityRequest::start();
    assert_eq!(first, TisStep::Access(TisAction::WriteAccess(0x02)));
    assert_eq!(l.step(TisEvent::Written), TisStep::Access(TisAction::ReadAccess));
    assert_eq!(l.step(TisEvent::Read(0x80)), TisStep::Access(TisAction::ReadAccess));
    assert_eq!(l.step(TisEvent::Read(0xA1)), TisStep::Done(true));
}

#[test]
fn locality_polling_gives_up() {
    let (mut l, _) = LocalityRequest::start();
    l.step(TisEvent::Written);
    let mut last = TisStep::Access(TisAction::ReadAccess);
    let mut reads = 0u32;
    while last == TisStep::Access(TisAction::ReadAccess) {
        reads += 1;
        last = l.step(TisEvent::Read(0));
    }
    assert_eq!(last, TisStep::Done(false));
    assert_eq!(reads, POLL_LIMIT);
}

#[test]
fn a_command_exchange() {
    let (mut x, first) = CommandExchange::start(12, 4);
    assert_eq!(first, TisStep::Access(TisAction::WriteSts(0x40)));
    assert_eq!(x.step(TisEvent::Written), TisStep::Access(TisAction::ReadSts));
    assert_eq!(x.step(TisEvent::Read(0)), TisStep::Access(TisAction::ReadSts));
    assert_eq!(x.step(TisEvent::Read(0x40)), TisStep::Access(TisAction::ReadSts));
    assert_eq!(x.step(TisEvent::Read(0x40)), TisStep::Access(TisAction::ReadSts));
    assert_eq!(x.step(TisEvent::Read(0x0000)), TisStep::Access(TisAction::WaitThenReadSts));
    assert_eq!(x.step(TisEvent::Read(0x0500)), TisStep::Access(TisAction::WriteFifo { from: 0, to: 5 }));
    assert_eq!(x.step(TisEvent::Written), TisStep::Access(TisAction::ReadSts));
    assert_eq!(x.step(TisEvent::Read(0x4000)), TisStep::Access(TisAction::WriteFifo { from: 5, to: 12 }));
    assert_eq!(x.step(TisEvent::Written), TisStep::Access(TisAction::WriteSts(0x20)));
    assert_eq!(x.step(TisEvent::Written), TisStep::Access(TisAction::WriteSts(0x20)));
    assert_eq!(x.step(TisEvent::Written), TisStep::Access(TisAction::ReadSts));
    assert_eq!(x.step(TisEvent::Read(0)), TisStep::Access(TisAction::ReadSts));
    assert_eq!(x.step(TisEvent::Read(0x10)), TisStep::Access(TisAction::ReadFifoByte(0)));
    assert_eq!(x.step(TisEvent::Read(0x10)), TisStep::Access(TisAction::ReadFifoByte(1)));
    assert_eq!(x.step(TisEvent::Read(0x10)), TisStep::Access(TisAction::ReadFifoByte(2)));
    assert_eq!(x.step(TisEvent::Read(0x00)), TisStep::Done(Ok(3)));
    assert_eq!(x.phase, CommandPhase::Finished);
}

#[test]
fn a_response_larger_than_the_buffer() {
    let (mut x, _) = CommandExchange::start(0, 1);
    x.step(TisEvent::Written);
    x.step(TisEvent::Read(0x40));
    assert_eq!(x.step(TisEvent::Read(0x40)), TisStep::Access(TisAction::WriteSts(0x20)));
    x.step(TisEvent::Written);
    x.step(TisEvent::Written);
    assert_eq!(x.step(TisEvent::Read(0x10)), TisStep::Access(TisAction::ReadFifoByte(0)));
    assert_eq!(x.step(TisEvent::Read(0x10)), TisStep::Done(Err(s3k_fs::tpm::TpmError::BufferTooSmall)));
}

#[test]
fn a_tpm_that_is_not_ready() {
    let (mut x, _) = CommandExchange::start(4, 4);
    x.step(TisEvent::Written);
    x.step(TisEvent::Read(0x40));
    assert_eq!(x.step(TisEvent::Read(0)), TisStep::Done(Err(s3k_fs::tpm::TpmError::NotReady)));
}

#[test]
fn key_round_trip_verdicts() {
    let master: Vec<u8> = (0..64).collect();
    assert_eq!(key_test_verdict(32, &master[0..32], &master), Ok(()));
    let mut other = master[0..32].to_vec();
    other[5] ^= 1;
    assert_eq!(key_test_verdict(32, &other, &master), Err(UnlockError::WrongPin));
    assert_eq!(key_test_verdict(16, &master[0..32], &master), Err(UnlockError::WrongPin));
}

#[test]
fn client_requests_read_back_on_the_server() {
    let fs = FileSystem::new(3);
    assert_eq!(fs.socket, 3);
    let m = fs.open_request(OpenFlags::from_bits_retain(OpenFlags::O_RDWR | OpenFlags::O_CREAT), 6, 0x8012_0000);
    assert_eq!(m.data, [1, 0o102, 6, 0x8012_0000]);
    assert_eq!((m.cap_idx, m.send_cap), (0, false));
    assert_eq!(
        decode_request(&m.data),
        Request::Open { flags: OpenFlags::from_bits_retain(0o102), path_len: 6, path_addr: 0x8012_0000 }
    );
    assert_eq!(decode_request(&fs.read_request(4, 10, 0x100).data), Request::Read { fd: 4, count: 10, buffer_addr: 0x100 });
    assert_eq!(decode_request(&fs.write_request(4, 3, 0x200).data), Request::Write { fd: 4, count: 3, buffer_addr: 0x200 });
    assert_eq!(decode_request(&fs.seek_request(4, -7, 2).data), Request::Seek { fd: 4, offset: -7, whence: 2 });
    assert_eq!(decode_request(&fs.close_request(4).data), Request::Close { fd: 4 });
    let reply = S3kReply { err: S3kErr::Success, tag: 0, cap: 0, data: [(-9i64) as u64, 0, 0, 0] };
    assert_eq!(reply_result(&reply), -9);
}

#[test]
fn words_of_a_line() {
    assert_eq!(split_words(b"  open  a.txt\trw \n"), vec![b"open".to_vec(), b"a.txt".to_vec(), b"rw".to_vec()]);
    assert_eq!(split_words(b""), Vec::<Vec<u8>>::new());
    assert_eq!(split_words("a\u{a0}b\u{3000}c".as_bytes()), vec![b"a".to_vec(), b"b".to_vec(), b"c".to_vec()]);
    assert_eq!(split_words("é x".as_bytes()), vec!["é".as_bytes().to_vec(), b"x".to_vec()]);
}

#[test]
fn numbers_read_as_str_parse_reads_them() {
    for s in ["0", "42", "-42", "+7", "-", "+", "", "12a", "9223372036854775807", "9223372036854775808",
              "-9223372036854775808", "-9223372036854775809", "00012", "99999999999999999999999"] {
        assert_eq!(parse_i64(s.as_bytes()), s.parse::<i64>().ok(), "{}", s);
        assert_eq!(parse_i32(s.as_bytes()), s.parse::<i32>().ok(), "{}", s);
        assert_eq!(parse_isize(s.as_bytes()), s.parse::<isize>().ok(), "{}", s);
        assert_eq!(parse_usize(s.as_bytes()), s.parse::<usize>().ok(), "{}", s);
    }
    assert_eq!(parse_usize(b"-0"), None);
    assert_eq!(parse_usize(b"18446744073709551615"), Some(usize::MAX));
    assert_eq!(parse_i32(b"2147483648"), None);
}

#[test]
fn mode_words() {
    assert_eq!(parse_flags(b"r").bits(), 0);
    assert_eq!(parse_flags(b"w").bits(), OpenFlags::O_WRONLY | OpenFlags::O_CREAT | OpenFlags::O_TRUNC);
    assert_eq!(parse_flags(b"a").bits(), OpenFlags::O_WRONLY | OpenFlags::O_APPEND | OpenFlags::O_CREAT);
    assert_eq!(parse_flags(b"rw").bits(), OpenFlags::O_RDWR | OpenFlags::O_CREAT);
    assert_eq!(parse_flags(b"x").bits(), 0);
}

#[test]
fn shell_commands() {
    assert!(matches!(parse_command(b"   "), ShellCommand::Nothing));
    assert!(matches!(parse_command(&[0xFF, 0x20]), ShellCommand::Nothing));
    assert!(matches!(parse_command(b"help"), ShellCommand::Help));
    assert!(matches!(parse_command(b"open a"), ShellCommand::Usage(ShellVerb::Open)));
    match parse_command(b"open /notes.txt rw") {
        ShellCommand::Open { path, flags } => {
            assert_eq!(path, b"/notes.txt".to_vec());
            assert_eq!(flags.bits(), 0o102);
        }
        other => panic!("{:?}", other),
    }
    assert!(matches!(parse_command(b"read 3 16"), ShellCommand::Read { fd: 3, len: 16 }));
    assert!(matches!(parse_command(b"read x 16"), ShellCommand::Read { fd: -1, len: 16 }));
    assert!(matches!(parse_command(b"read 3 zero"), ShellCommand::Nothing));
    match parse_command(b"write 3 hello   big world") {
        ShellCommand::Write { fd, content } => {
            assert_eq!(fd, 3);
            assert_eq!(content, b"hello big world".to_vec());
        }
        other => panic!("{:?}", other),
    }
    assert!(matches!(parse_command(b"seek 3 -4 2"), ShellCommand::Seek { fd: 3, offset: -4, whence: 2 }));
    assert!(matches!(parse_command(b"seek 3 -4"), ShellCommand::Usage(ShellVerb::Seek)));
    assert!(matches!(parse_command(b"seek 3 x y"), ShellCommand::Seek { fd: 3, offset: 0, whence: 0 }));
    assert!(matches!(parse_command(b"close 5"), ShellCommand::Close { fd: 5 }));
    assert!(matches!(parse_command(b"close"), ShellCommand::Usage(ShellVerb::Close)));
    match parse_command(b"enc_on 1234") {
        ShellCommand::EncOn { pin } => assert_eq!(pin, b"1234".to_vec()),
        other => panic!("{:?}", other),
    }
    assert!(matches!(parse_command(b"enc_off"), ShellCommand::EncOff));
    match parse_command(b"unlock 4321") {
        ShellCommand::Unlock { pin } => assert_eq!(pin, b"4321".to_vec()),
        other => panic!("{:?}", other),
    }
    assert!(matches!(parse_command(b"unlock"), ShellCommand::Usage(ShellVerb::Unlock)));
    match parse_command(b"frobnicate now") {
        ShellCommand::Unknown { name } => assert_eq!(name, b"frobnicate".to_vec()),
        other => panic!("{:?}", other),
    }
}

#[test]
fn uart_setup_runs_in_order() {
    let (mut s, first) = UartSetup::start();
    let (call, args, retry) = call_of(&first);
    assert_eq!((call, &args[0..2], retry), (Syscall::CapDerive, &[2u64, 10][..], true));
    assert_eq!(PmpCap::from_raw(args[2]).ok().unwrap().addr(), 0x400_03ff);
    assert_eq!(call_of(&s.step(SetupEvent::Called(Ok(())))), (Syscall::PmpLoad, vec![10, 1], true));
    assert_eq!(call_of(&s.step(SetupEvent::Called(Ok(())))), (Syscall::Sync, vec![1], false));
    assert!(matches!(s.step(SetupEvent::Called(Err(S3kErr::Empty))), SetupStep::Done(Ok(()))));
    assert_eq!(s.stage, UartSetupStage::Finished);
}

#[test]
fn uart_setup_stops_at_the_first_failure() {
    let (mut s, _) = UartSetup::start();
    assert!(matches!(s.step(SetupEvent::Called(Err(S3kErr::InvalidDerivation))), SetupStep::Done(Err(S3kErr::InvalidDerivation))));
    assert_eq!(s.stage, UartSetupStage::Finished);
    let (mut s, _) = UartSetup::start();
    s.step(SetupEvent::Called(Ok(())));
    assert!(matches!(s.step(SetupEvent::Called(Err(S3kErr::InvalidPmp))), SetupStep::Done(Err(S3kErr::InvalidPmp))));
}

#[test]
fn what_the_server_does_after_a_receive() {
    assert_eq!(receive_action(S3kErr::Timeout), ReceiveAction::Retry);
    assert_eq!(receive_action(S3kErr::Success), ReceiveAction::Serve);
    assert_eq!(receive_action(S3kErr::NoReceiver), ReceiveAction::Skip);
    assert_eq!(receive_action(S3kErr::Preempted), ReceiveAction::Skip);
}
