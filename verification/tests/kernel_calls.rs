use s3k_fs::ffi::{MemCap, S3kCap, S3kErr, S3kIpcMode, S3kIpcPerm, S3kMemPerm, S3kMsg, S3kReg, S3kReply};
use s3k_fs::syscall::{
    s3k_cap_revoke, s3k_get_hartid, s3k_mon_cap_read, s3k_mon_pmp_unload, s3k_mon_reg_read,
    s3k_mon_state_get, s3k_mon_yield, s3k_pmp_unload, s3k_reg_read, s3k_try_cap_delete,
    s3k_try_mon_suspend, s3k_try_sock_recv, s3k_try_sock_sendrecv,
    cap_read_result, s3k_cap_delete, s3k_cap_derive, s3k_cap_move, s3k_cap_read, s3k_get_pid,
    s3k_get_time, s3k_mon_cap_move, s3k_mon_reg_write, s3k_pmp_load, s3k_reg_write, s3k_sleep,
    s3k_sock_recv, s3k_sock_sendrecv, s3k_sync, s3k_sync_mem, s3k_try_cap_move, s3k_try_sock_send,
    Ret, Syscall,
};
use s3k_fs::utils::{
    find_free_cap, s3k_mk_memory, s3k_mk_pmp, s3k_mk_socket, s3k_napot_encode, setup_uart_and_virtio,
    FreeCapStep, UART0_BASE_ADDR, UART_CAP, UART_MEM, UART_PMP,
};

#[test]
fn call_numbers() {
    assert_eq!(Syscall::GetInfo.code(), 0);
    assert_eq!(Syscall::CapDerive.code(), 9);
    assert_eq!(Syscall::PmpLoad.code(), 10);
    assert_eq!(Syscall::MonCapMove.code(), 19);
    assert_eq!(Syscall::SockSendRecv.code(), 24);
}

#[test]
fn info_requests() {
    let r = s3k_get_pid();
    assert_eq!(r.call, Syscall::GetInfo);
    assert_eq!(r.args, vec![0]);
    assert!(!r.retry_preempted);
    assert_eq!(s3k_get_time().args, vec![2]);
    assert_eq!(s3k_sync().args, vec![0]);
    assert_eq!(s3k_sync_mem().args, vec![1]);
    assert_eq!(s3k_sleep(1234).args, vec![1234]);
    assert_eq!(s3k_reg_write(S3kReg::A1, 5).args, vec![11, 5]);
}

#[test]
fn retrying_and_single_calls() {
    let once = s3k_try_cap_move(3, 4);
    assert_eq!(once.call, Syscall::CapMove);
    assert_eq!(once.args, vec![3, 4]);
    assert!(!once.again(S3kErr::Preempted));
    let retry = s3k_cap_move(3, 4);
    assert_eq!(retry.args, vec![3, 4]);
    assert!(retry.again(S3kErr::Preempted));
    assert!(!retry.again(S3kErr::Success));
    assert!(!retry.again(S3kErr::Empty));
    assert_eq!(s3k_cap_delete(9).args, vec![9]);
    assert_eq!(s3k_cap_read(12, 0x8000).args, vec![12, 0x8000]);
    assert_eq!(s3k_pmp_load(10, 1).call, Syscall::PmpLoad);
}

#[test]
fn monitor_requests() {
    let r = s3k_mon_cap_move(8, 0, 12, 1, 3);
    assert_eq!(r.call, Syscall::MonCapMove);
    assert_eq!(r.args, vec![8, 0, 12, 1, 3]);
    assert!(r.retry_preempted);
    let w = s3k_mon_reg_write(8, 1, S3kReg::PC, 0x8011_0000);
    assert_eq!(w.args, vec![8, 1, 0, 0x8011_0000]);
}

#[test]
fn derive_passes_the_raw_capability() {
    let cap = MemCap::new().with_rwx(7);
    let r = s3k_cap_derive(1, 12, cap);
    assert_eq!(r.call, Syscall::CapDerive);
    assert_eq!(r.args, vec![1, 12, cap.as_raw()]);
}

#[test]
fn socket_requests() {
    let msg = S3kMsg { cap_idx: 5, send_cap: true, data: [1, 2, 3, 4] };
    let s = s3k_try_sock_send(3, &msg);
    assert_eq!(s.call, Syscall::SockSend);
    assert_eq!(s.args, vec![3, 5, 1, 1, 2, 3, 4]);
    assert!(!s.retry_preempted);
    let sr = s3k_sock_sendrecv(3, &S3kMsg { cap_idx: 0, send_cap: false, data: [9, 0, 0, 0] });
    assert_eq!(sr.args, vec![3, 0, 0, 9, 0, 0, 0, 0]);
    assert!(sr.retry_preempted);
    let rv = s3k_sock_recv(3, 7);
    assert_eq!(rv.call, Syscall::SockRecv);
    assert_eq!(rv.args, vec![3, 7, 0, 0, 0, 0, 0, 0]);
}

#[test]
fn returned_registers() {
    let ok = Ret::from_regs(0, 42);
    assert_eq!(ok.0, S3kErr::Success);
    assert_eq!(ok.into_result(), Ok(42));
    let err = Ret::from_regs(16, 42);
    assert_eq!(err.0, S3kErr::Preempted);
    assert_eq!(err.into_result(), Err(S3kErr::Preempted));
    assert_eq!(Ret::from_regs(0x101, 0).into_unit(), Err(S3kErr::Empty));
    assert_eq!(Ret::from_regs(0, 0).into_unit(), Ok(()));
    let reply = S3kReply::from_regs(0, 0x1_0000_0007, 99, 1, 2, 3, 4);
    assert_eq!(reply.err, S3kErr::Success);
    assert_eq!(reply.tag, 7);
    assert_eq!(reply.cap, 99);
    assert_eq!(reply.data, [1, 2, 3, 4]);
}

#[test]
fn capability_read_results() {
    let raw = MemCap::new().with_end(16).as_raw();
    let c: MemCap = cap_read_result(Ret::from_regs(0, 0), raw).ok().unwrap();
    assert_eq!(c.end(), 16);
    let wrong: Result<s3k_fs::ffi::PmpCap, S3kErr> = cap_read_result(Ret::from_regs(0, 0), raw);
    assert_eq!(wrong.err(), Some(S3kErr::InvalidCapability));
    let failed: Result<MemCap, S3kErr> = cap_read_result(Ret::from_regs(1, 0), raw);
    assert_eq!(failed.err(), Some(S3kErr::Empty));
}

#[test]
fn napot_encoding() {
    assert_eq!(s3k_napot_encode(0x1000_0000, 0x2000), 0x0400_03ff);
    assert_eq!(s3k_napot_encode(0x8012_0000, 0x1_0000), (0x8012_0000 | 0x7fff) >> 2);
}

#[test]
fn memory_capability_of_a_range() {
    let c = s3k_mk_memory(0x8000_0000, 0x8001_0000, S3kMemPerm::from_bits_truncate(S3kMemPerm::RWX));
    assert_eq!(c.tag(), 16);
    assert_eq!(c.bgn(), 0);
    assert_eq!(c.end(), 16);
    assert_eq!(c.mrk(), 0);
    assert_eq!(c.rwx(), 7);
    assert!(!c.lck());
    assert_eq!(c.as_raw(), 0x0010_0000_0000_1072);
    let d = s3k_mk_memory(0x8011_0000, 0x8012_0000, S3kMemPerm::from_bits_truncate(S3kMemPerm::RX));
    assert_eq!(d.bgn(), 0x110);
    assert_eq!(d.end(), 0x120);
    assert_eq!(d.mrk(), 0x110);
    assert_eq!(d.rwx(), 5);
}

#[test]
fn pmp_and_socket_capabilities() {
    let p = s3k_mk_pmp(0x0400_03ff, S3kMemPerm::from_bits_truncate(S3kMemPerm::RW));
    assert_eq!(p.as_raw(), 0x0000_0400_03ff_0033);
    assert!(!p.used());
    assert_eq!(p.slot(), 0);
    let s = s3k_mk_socket(1, S3kIpcMode::YIELD, S3kIpcPerm::from_bits_truncate(0xf), 4);
    assert_eq!(s.chan(), 1);
    assert_eq!(s.mode(), S3kIpcMode::YIELD);
    assert_eq!(s.perm(), 0xf);
    assert_eq!(s.tag(), 4);
    assert_eq!(s.as_raw(), 6 | (1 << 4) | (0xf << 8) | (1 << 16) | (4 << 32));
}

#[test]
fn uart_setup_plan() {
    let plan = setup_uart_and_virtio();
    assert_eq!(plan.len(), 3);
    assert_eq!(plan[0].call, Syscall::CapDerive);
    assert_eq!(plan[0].args, vec![UART_MEM as u64, UART_CAP as u64, 0x0000_0400_03ff_0033]);
    assert_eq!(plan[1].call, Syscall::PmpLoad);
    assert_eq!(plan[1].args, vec![UART_CAP as u64, UART_PMP as u64]);
    assert_eq!(plan[2].call, Syscall::Sync);
    assert_eq!(plan[2].args, vec![1]);
    assert_eq!(UART0_BASE_ADDR, 0x1000_0000);
}

#[test]
fn free_capability_search() {
    assert!(matches!(find_free_cap(None), FreeCapStep::Probe(12)));
    assert!(matches!(find_free_cap(Some((12, Ok(())))), FreeCapStep::Probe(13)));
    assert!(matches!(find_free_cap(Some((12, Err(S3kErr::InvalidCapability)))), FreeCapStep::Probe(13)));
    assert!(matches!(find_free_cap(Some((13, Err(S3kErr::Empty)))), FreeCapStep::Done(Ok(13))));
    assert!(matches!(find_free_cap(Some((19, Ok(())))), FreeCapStep::Done(Err(S3kErr::InvalidCapability))));
    assert!(matches!(find_free_cap(Some((19, Err(S3kErr::Empty)))), FreeCapStep::Done(Ok(19))));
}

#[test]
fn free_capability_search_runs_to_the_first_empty_slot() {
    let occupied = [true, true, true, false, true, false, true, true];
    let mut step = find_free_cap(None);
    let found;
    loop {
        match step {
            FreeCapStep::Probe(i) => {
                let res = if occupied[(i - 12) as usize] { Ok(()) } else { Err(S3kErr::Empty) };
                step = find_free_cap(Some((i, res)));
            }
            FreeCapStep::Done(r) => {
                found = r;
                break;
            }
        }
    }
    assert_eq!(found, Ok(15));
}

#[test]
fn more_request_layouts() {
    assert_eq!((s3k_get_hartid().call, s3k_get_hartid().args), (Syscall::GetInfo, vec![1]));
    assert_eq!(s3k_reg_read(11).args, vec![11]);
    let d = s3k_try_cap_delete(7);
    assert_eq!((d.call, d.args.clone(), d.retry_preempted), (Syscall::CapDelete, vec![7], false));
    let r = s3k_cap_revoke(7);
    assert_eq!((r.call, r.args.clone(), r.retry_preempted), (Syscall::CapRevoke, vec![7], true));
    assert_eq!((s3k_pmp_unload(10).call, s3k_pmp_unload(10).args), (Syscall::PmpUnload, vec![10]));
    let s = s3k_try_mon_suspend(8, 1);
    assert_eq!((s.call, s.args.clone(), s.retry_preempted), (Syscall::MonSuspend, vec![8, 1], false));
    assert_eq!(s3k_mon_state_get(8, 1).call, Syscall::MonStateGet);
    assert_eq!(s3k_mon_yield(8, 1).args, vec![8, 1]);
    assert_eq!(s3k_mon_reg_read(8, 1, S3kReg::PC).args, vec![8, 1, 0]);
    assert_eq!(s3k_mon_cap_read(8, 1, 4).args, vec![8, 1, 4]);
    assert_eq!(s3k_mon_pmp_unload(8, 1, 2).args, vec![8, 1, 2]);
    let msg = S3kMsg { cap_idx: 5, send_cap: true, data: [1, 2, 3, 4] };
    let sr = s3k_try_sock_sendrecv(3, &msg);
    assert_eq!((sr.call, sr.args.clone(), sr.retry_preempted), (Syscall::SockSendRecv, vec![3, 5, 1, 1, 2, 3, 4, 0], false));
    let rv = s3k_try_sock_recv(3, 0);
    assert_eq!((rv.call, rv.args.clone(), rv.retry_preempted), (Syscall::SockRecv, vec![3, 0, 0, 0, 0, 0, 0, 0], false));
}
