//! Kernel calls as requests: which call to make with which argument registers, whether a
//! preempted call is made again, and what the registers that come back mean.
use vstd::prelude::*;
use crate::ffi::{S3kErr, err_of_code, S3kCidx, S3kPid, S3kPmpSlot, S3kReg, reg_code, S3kMsg, S3kReply, S3kCap, cap_type_of};

verus! {

/// The kernel calls.
#[derive(Debug, Clone, Copy, PartialEq, Eq, Structural)]
pub enum Syscall {
    /// Retrieve system information.
    GetInfo,
    /// Read from a register.
    RegRead,
    /// Write to a register.
    RegWrite,
    /// Synchronize memory and time.
    Sync,
    /// Sleep until a given time.
    Sleep,
    /// Read the properties of a capability.
    CapRead,
    /// Move a capability to a different slot.
    CapMove,
    /// Delete a capability from the system.
    CapDelete,
    /// Delete the capabilities derived from a capability.
    CapRevoke,
    /// Create a new capability.
    CapDerive,
    /// Load a PMP capability into a PMP slot.
    PmpLoad,
    /// Unload a PMP capability.
    PmpUnload,
    /// Suspend a monitored process.
    MonSuspend,
    /// Resume a monitored process.
    MonResume,
    /// Read the state of a monitored process.
    MonStateGet,
    /// Yield to a monitored process.
    MonYield,
    /// Read a register of a monitored process.
    MonRegRead,
    /// Write a register of a monitored process.
    MonRegWrite,
    /// Read a capability of a monitored process.
    MonCapRead,
    /// Move a capability between monitored processes.
    MonCapMove,
    /// Load a PMP capability of a monitored process.
    MonPmpLoad,
    /// Unload a PMP capability of a monitored process.
    MonPmpUnload,
    /// Send a message over a socket.
    SockSend,
    /// Receive a message over a socket.
    SockRecv,
    /// Send a message and wait for the reply.
    SockSendRecv,
}

/// The number the kernel knows each call by.
pub open spec fn syscall_code(c: Syscall) -> u64 {
    match c {
        Syscall::GetInfo => 0,
        Syscall::RegRead => 1,
        Syscall::RegWrite => 2,
        Syscall::Sync => 3,
        Syscall::Sleep => 4,
        Syscall::CapRead => 5,
        Syscall::CapMove => 6,
        Syscall::CapDelete => 7,
        Syscall::CapRevoke => 8,
        Syscall::CapDerive => 9,
        Syscall::PmpLoad => 10,
        Syscall::PmpUnload => 11,
        Syscall::MonSuspend => 12,
        Syscall::MonResume => 13,
        Syscall::MonStateGet => 14,
        Syscall::MonYield => 15,
        Syscall::MonRegRead => 16,
        Syscall::MonRegWrite => 17,
        Syscall::MonCapRead => 18,
        Syscall::MonCapMove => 19,
        Syscall::MonPmpLoad => 20,
        Syscall::MonPmpUnload => 21,
        Syscall::SockSend => 22,
        Syscall::SockRecv => 23,
        Syscall::SockSendRecv => 24,
    }
}

impl Syscall {
    /// The number of this call, as register t0 carries it.
    pub fn code(self) -> (r: u64)
        ensures
            r == syscall_code(self),
    {
        match self {
            Syscall::GetInfo => 0,
            Syscall::RegRead => 1,
            Syscall::RegWrite => 2,
            Syscall::Sync => 3,
            Syscall::Sleep => 4,
            Syscall::CapRead => 5,
            Syscall::CapMove => 6,
            Syscall::CapDelete => 7,
            Syscall::CapRevoke => 8,
            Syscall::CapDerive => 9,
            Syscall::PmpLoad => 10,
            Syscall::PmpUnload => 11,
            Syscall::MonSuspend => 12,
            Syscall::MonResume => 13,
            Syscall::MonStateGet => 14,
            Syscall::MonYield => 15,
            Syscall::MonRegRead => 16,
            Syscall::MonRegWrite => 17,
            Syscall::MonCapRead => 18,
            Syscall::MonCapMove => 19,
            Syscall::MonPmpLoad => 20,
            Syscall::MonPmpUnload => 21,
            Syscall::SockSend => 22,
            Syscall::SockRecv => 23,
            Syscall::SockSendRecv => 24,
        }
    }
}

/// A kernel call to make: the call, the values of the argument registers a0, a1, ... in order,
/// and whether the call is made again each time the kernel answers `Preempted`.
pub struct SyscallRequest {
    pub call: Syscall,
    pub args: Vec<u64>,
    pub retry_preempted: bool,
}

/// What the kernel hands back from a call: the error in t0 and the value in a0.
pub struct Ret(pub S3kErr, pub u64);

impl Ret {
    /// Reads the registers t0 and a0 after a call; t0 holds an error code in its low byte.
    pub fn from_regs(t0: u64, a0: u64) -> (r: Ret)
        ensures
            r.0 == err_of_code(t0 as u8),
            r.1 == a0,
    {
        Ret(S3kErr::from_primitive(t0 as u8), a0)
    }

    /// The value on success, the error otherwise.
    pub fn into_result(self) -> (r: Result<u64, S3kErr>)
        ensures
            self.0 == S3kErr::Success ==> r == Ok::<u64, S3kErr>(self.1),
            self.0 != S3kErr::Success ==> r == Err::<u64, S3kErr>(self.0),
    {
        if self.0 == S3kErr::Success {
            Ok(self.1)
        } else {
            Err(self.0)
        }
    }

    /// Success without its value, or the error.
    pub fn into_unit(self) -> (r: Result<(), S3kErr>)
        ensures
            self.0 == S3kErr::Success ==> r == Ok::<(), S3kErr>(()),
            self.0 != S3kErr::Success ==> r == Err::<(), S3kErr>(self.0),
    {
        if self.0 == S3kErr::Success {
            Ok(())
        } else {
            Err(self.0)
        }
    }
}

impl SyscallRequest {
    /// Whether the call must be made again after the kernel answered with `err`.
    pub fn again(&self, err: S3kErr) -> (r: bool)
        ensures
            r == (self.retry_preempted && err == S3kErr::Preempted),
            forall|code: u8| err == err_of_code(code) ==> r == made_again(*self, code),
    {
        self.retry_preempted && err == S3kErr::Preempted
    }
}

/// Whether a request is made again after the kernel answered it with status code `code`.
pub open spec fn made_again(req: SyscallRequest, code: u8) -> bool {
    req.retry_preempted && err_of_code(code) == S3kErr::Preempted
}

/// How many times a request is made when the kernel answers its calls with the status codes
/// `codes` in turn: up to and including the first answer after which it is not made again
/// (all of them when each answer asks for it again).
pub open spec fn calls_made(req: SyscallRequest, codes: Seq<u8>) -> nat
    decreases codes.len(),
{
    if codes.len() == 0 {
        0
    } else if made_again(req, codes[0]) {
        1 + calls_made(req, codes.drop_first())
    } else {
        1
    }
}

/// A call that is made again while it is preempted ends with the first answer that is not
/// `Preempted`: when the kernel answers the first `k - 1` calls with `Preempted` (code 16) and
/// the `k`-th with anything else, the call is made exactly `k` times and ends with the `k`-th
/// answer, which is not `Preempted`. A call that is made once is made once, whatever the answer.
pub proof fn lemma_retry_ends_at_first_answer(req: SyscallRequest, codes: Seq<u8>, k: int)
    requires
        0 < k <= codes.len(),
        forall|i: int| 0 <= i < k - 1 ==> codes[i] == 16,
        codes[k - 1] != 16,
    ensures
        req.retry_preempted ==> calls_made(req, codes) == k && !made_again(req, codes[k - 1])
            && err_of_code(codes[k - 1]) != S3kErr::Preempted,
        !req.retry_preempted ==> calls_made(req, codes) == 1,
    decreases k,
{
    if k > 1 && req.retry_preempted {
        assert(codes[0] == 16);
        let rest = codes.drop_first();
        assert forall|i: int| 0 <= i < k - 2 implies rest[i] == 16 by {
            assert(rest[i] == codes[i + 1]);
        }
        assert(rest[k - 2] == codes[k - 1]);
        lemma_retry_ends_at_first_answer(req, rest, k - 1);
    }
}

/// A capability read back from the word the kernel wrote, once the call has succeeded.
pub fn cap_read_result<C: S3kCap>(ret: Ret, raw: u64) -> (r: Result<C, S3kErr>)
    ensures
        ret.0 != S3kErr::Success ==> r == Err::<C, S3kErr>(ret.0),
        ret.0 == S3kErr::Success && cap_type_of(raw) == C::spec_cap_type() ==> (r matches Ok(c) && c.raw() == raw),
        ret.0 == S3kErr::Success && cap_type_of(raw) != C::spec_cap_type() ==> r == Err::<C, S3kErr>(S3kErr::InvalidCapability),
{
    match ret.into_result() {
        Ok(_) => C::from_raw(raw),
        Err(e) => Err(e),
    }
}

impl S3kReply {
    /// Reads a socket reply from the registers t0 and a0 to a5.
    pub fn from_regs(t0: u64, a0: u64, a1: u64, a2: u64, a3: u64, a4: u64, a5: u64) -> (r: S3kReply)
        ensures
            r.err == err_of_code(t0 as u8),
            r.tag == a0 as u32,
            r.cap == a1,
            r.data@ == seq![a2, a3, a4, a5],
    {
        S3kReply { err: S3kErr::from_primitive(t0 as u8), tag: a0 as u32, cap: a1, data: [a2, a3, a4, a5] }
    }
}

/// The id of the calling process.
///
/// The call is made once.
pub fn s3k_get_pid() -> (r: SyscallRequest)
    ensures
        r.call == Syscall::GetInfo,
        r.args@ == seq![0u64],
        r.retry_preempted == false,
{
    SyscallRequest { call: Syscall::GetInfo, args: vec![0u64], retry_preempted: false }
}

/// The id of the hart the caller runs on.
///
/// The call is made once.
pub fn s3k_get_hartid() -> (r: SyscallRequest)
    ensures
        r.call == Syscall::GetInfo,
        r.args@ == seq![1u64],
        r.retry_preempted == false,
{
    SyscallRequest { call: Syscall::GetInfo, args: vec![1u64], retry_preempted: false }
}

/// The current time.
///
/// The call is made once.
pub fn s3k_get_time() -> (r: SyscallRequest)
    ensures
        r.call == Syscall::GetInfo,
        r.args@ == seq![2u64],
        r.retry_preempted == false,
{
    SyscallRequest { call: Syscall::GetInfo, args: vec![2u64], retry_preempted: false }
}

/// Reads register `reg` of the caller.
///
/// The call is made once.
pub fn s3k_reg_read(reg: u64) -> (r: SyscallRequest)
    ensures
        r.call == Syscall::RegRead,
        r.args@ == seq![reg],
        r.retry_preempted == false,
{
    SyscallRequest { call: Syscall::RegRead, args: vec![reg], retry_preempted: false }
}

/// Writes `val` to register `reg` of the caller.
///
/// The call is made once.
pub fn s3k_reg_write(reg: S3kReg, val: u64) -> (r: SyscallRequest)
    ensures
        r.call == Syscall::RegWrite,
        r.args@ == seq![reg_code(reg), val],
        r.retry_preempted == false,
{
    SyscallRequest { call: Syscall::RegWrite, args: vec![reg.code(), val], retry_preempted: false }
}

/// Synchronizes the PMP unit with the PMP configuration.
///
/// The call is made once.
pub fn s3k_sync_mem() -> (r: SyscallRequest)
    ensures
        r.call == Syscall::Sync,
        r.args@ == seq![1u64],
        r.retry_preempted == false,
{
    SyscallRequest { call: Syscall::Sync, args: vec![1u64], retry_preempted: false }
}

/// Synchronizes memory and time.
///
/// The call is made once.
pub fn s3k_sync() -> (r: SyscallRequest)
    ensures
        r.call == Syscall::Sync,
        r.args@ == seq![0u64],
        r.retry_preempted == false,
{
    SyscallRequest { call: Syscall::Sync, args: vec![0u64], retry_preempted: false }
}

/// Sleeps until `time`.
///
/// The call is made once.
pub fn s3k_sleep(time: u64) -> (r: SyscallRequest)
    ensures
        r.call == Syscall::Sleep,
        r.args@ == seq![time],
        r.retry_preempted == false,
{
    SyscallRequest { call: Syscall::Sleep, args: vec![time], retry_preempted: false }
}

/// Reads capability `idx` into the word at `out_addr`.
///
/// The call is made once.
pub fn s3k_cap_read(idx: S3kCidx, out_addr: u64) -> (r: SyscallRequest)
    ensures
        r.call == Syscall::CapRead,
        r.args@ == seq![idx as u64, out_addr],
        r.retry_preempted == false,
{
    SyscallRequest { call: Syscall::CapRead, args: vec![idx as u64, out_addr], retry_preempted: false }
}

/// Moves capability `src` to slot `dest`.
///
/// The call is made once.
pub fn s3k_try_cap_move(src: S3kCidx, dest: S3kCidx) -> (r: SyscallRequest)
    ensures
        r.call == Syscall::CapMove,
        r.args@ == seq![src as u64, dest as u64],
        r.retry_preempted == false,
{
    SyscallRequest { call: Syscall::CapMove, args: vec![src as u64, dest as u64], retry_preempted: false }
}

/// Moves capability `src` to slot `dest`.
///
/// The call is made again while the kernel answers `Preempted`.
pub fn s3k_cap_move(src: S3kCidx, dest: S3kCidx) -> (r: SyscallRequest)
    ensures
        r.call == Syscall::CapMove,
        r.args@ == seq![src as u64, dest as u64],
        r.retry_preempted == true,
{
    SyscallRequest { call: Syscall::CapMove, args: vec![src as u64, dest as u64], retry_preempted: true }
}

/// Deletes capability `idx`.
///
/// The call is made once.
pub fn s3k_try_cap_delete(idx: S3kCidx) -> (r: SyscallRequest)
    ensures
        r.call == Syscall::CapDelete,
        r.args@ == seq![idx as u64],
        r.retry_preempted == false,
{
    SyscallRequest { call: Syscall::CapDelete, args: vec![idx as u64], retry_preempted: false }
}

/// Deletes capability `idx`.
///
/// The call is made again while the kernel answers `Preempted`.
pub fn s3k_cap_delete(idx: S3kCidx) -> (r: SyscallRequest)
    ensures
        r.call == Syscall::CapDelete,
        r.args@ == seq![idx as u64],
        r.retry_preempted == true,
{
    SyscallRequest { call: Syscall::CapDelete, args: vec![idx as u64], retry_preempted: true }
}

/// Deletes the capabilities derived from capability `idx`.
///
/// The call is made once.
pub fn s3k_try_cap_revoke(idx: S3kCidx) -> (r: SyscallRequest)
    ensures
        r.call == Syscall::CapRevoke,
        r.args@ == seq![idx as u64],
        r.retry_preempted == false,
{
    SyscallRequest { call: Syscall::CapRevoke, args: vec![idx as u64], retry_preempted: false }
}

/// Deletes the capabilities derived from capability `idx`.
///
/// The call is made again while the kernel answers `Preempted`.
pub fn s3k_cap_revoke(idx: S3kCidx) -> (r: SyscallRequest)
    ensures
        r.call == Syscall::CapRevoke,
        r.args@ == seq![idx as u64],
        r.retry_preempted == true,
{
    SyscallRequest { call: Syscall::CapRevoke, args: vec![idx as u64], retry_preempted: true }
}

/// Derives the capability `new_cap` from `src` into slot `dest`.
///
/// The call is made once.
pub fn s3k_try_cap_derive<C: S3kCap>(src: S3kCidx, dest: S3kCidx, new_cap: C) -> (r: SyscallRequest)
    ensures
        r.call == Syscall::CapDerive,
        r.args@ == seq![src as u64, dest as u64, new_cap.raw()],
        r.retry_preempted == false,
{
    SyscallRequest { call: Syscall::CapDerive, args: vec![src as u64, dest as u64, new_cap.as_raw()], retry_preempted: false }
}

/// Derives the capability `new_cap` from `src` into slot `dest`.
///
/// The call is made again while the kernel answers `Preempted`.
pub fn s3k_cap_derive<C: S3kCap>(src: S3kCidx, dest: S3kCidx, new_cap: C) -> (r: SyscallRequest)
    ensures
        r.call == Syscall::CapDerive,
        r.args@ == seq![src as u64, dest as u64, new_cap.raw()],
        r.retry_preempted == true,
{
    SyscallRequest { call: Syscall::CapDerive, args: vec![src as u64, dest as u64, new_cap.as_raw()], retry_preempted: true }
}

/// Loads PMP capability `idx` into PMP slot `slot`.
///
/// The call is made once.
pub fn s3k_try_pmp_load(idx: S3kCidx, slot: S3kPmpSlot) -> (r: SyscallRequest)
    ensures
        r.call == Syscall::PmpLoad,
        r.args@ == seq![idx as u64, slot as u64],
        r.retry_preempted == false,
{
    SyscallRequest { call: Syscall::PmpLoad, args: vec![idx as u64, slot as u64], retry_preempted: false }
}

/// Loads PMP capability `idx` into PMP slot `slot`.
///
/// The call is made again while the kernel answers `Preempted`.
pub fn s3k_pmp_load(idx: S3kCidx, slot: S3kPmpSlot) -> (r: SyscallRequest)
    ensures
        r.call == Syscall::PmpLoad,
        r.args@ == seq![idx as u64, slot as u64],
        r.retry_preempted == true,
{
    SyscallRequest { call: Syscall::PmpLoad, args: vec![idx as u64, slot as u64], retry_preempted: true }
}

/// Unloads PMP capability `idx`.
///
/// The call is made once.
pub fn s3k_try_pmp_unload(idx: S3kCidx) -> (r: SyscallRequest)
    ensures
        r.call == Syscall::PmpUnload,
        r.args@ == seq![idx as u64],
        r.retry_preempted == false,
{
    SyscallRequest { call: Syscall::PmpUnload, args: vec![idx as u64], retry_preempted: false }
}

/// Unloads PMP capability `idx`.
///
/// The call is made again while the kernel answers `Preempted`.
pub fn s3k_pmp_unload(idx: S3kCidx) -> (r: SyscallRequest)
    ensures
        r.call == Syscall::PmpUnload,
        r.args@ == seq![idx as u64],
        r.retry_preempted == true,
{
    SyscallRequest { call: Syscall::PmpUnload, args: vec![idx as u64], retry_preempted: true }
}

/// Suspends process `pid` through monitor `mon_idx`.
///
/// The call is made once.
pub fn s3k_try_mon_suspend(mon_idx: S3kCidx, pid: S3kPid) -> (r: SyscallRequest)
    ensures
        r.call == Syscall::MonSuspend,
        r.args@ == seq![mon_idx as u64, pid as u64],
        r.retry_preempted == false,
{
    SyscallRequest { call: Syscall::MonSuspend, args: vec![mon_idx as u64, pid as u64], retry_preempted: false }
}

/// Suspends process `pid` through monitor `mon_idx`.
///
/// The call is made again while the kernel answers `Preempted`.
pub fn s3k_mon_suspend(mon_idx: S3kCidx, pid: S3kPid) -> (r: SyscallRequest)
    ensures
        r.call == Syscall::MonSuspend,
        r.args@ == seq![mon_idx as u64, pid as u64],
        r.retry_preempted == true,
{
    SyscallRequest { call: Syscall::MonSuspend, args: vec![mon_idx as u64, pid as u64], retry_preempted: true }
}

/// Resumes process `pid` through monitor `mon_idx`.
///
/// The call is made once.
pub fn s3k_try_mon_resume(mon_idx: S3kCidx, pid: S3kPid) -> (r: SyscallRequest)
    ensures
        r.call == Syscall::MonResume,
        r.args@ == seq![mon_idx as u64, pid as u64],
        r.retry_preempted == false,
{
    SyscallRequest { call: Syscall::MonResume, args: vec![mon_idx as u64, pid as u64], retry_preempted: false }
}

/// Resumes process `pid` through monitor `mon_idx`.
///
/// The call is made again while the kernel answers `Preempted`.
pub fn s3k_mon_resume(mon_idx: S3kCidx, pid: S3kPid) -> (r: SyscallRequest)
    ensures
        r.call == Syscall::MonResume,
        r.args@ == seq![mon_idx as u64, pid as u64],
        r.retry_preempted == true,
{
    SyscallRequest { call: Syscall::MonResume, args: vec![mon_idx as u64, pid as u64], retry_preempted: true }
}

/// Reads the state of process `pid` through monitor `mon_idx`.
///
/// The call is made once.
pub fn s3k_try_mon_state_get(mon_idx: S3kCidx, pid: S3kPid) -> (r: SyscallRequest)
    ensures
        r.call == Syscall::MonStateGet,
        r.args@ == seq![mon_idx as u64, pid as u64],
        r.retry_preempted == false,
{
    SyscallRequest { call: Syscall::MonStateGet, args: vec![mon_idx as u64, pid as u64], retry_preempted: false }
}

/// Reads the state of process `pid` through monitor `mon_idx`.
///
/// The call is made again while the kernel answers `Preempted`.
pub fn s3k_mon_state_get(mon_idx: S3kCidx, pid: S3kPid) -> (r: SyscallRequest)
    ensures
        r.call == Syscall::MonStateGet,
        r.args@ == seq![mon_idx as u64, pid as u64],
        r.retry_preempted == true,
{
    SyscallRequest { call: Syscall::MonStateGet, args: vec![mon_idx as u64, pid as u64], retry_preempted: true }
}

/// Yields to process `pid` through monitor `mon_idx`.
///
/// The call is made once.
pub fn s3k_try_mon_yield(mon_idx: S3kCidx, pid: S3kPid) -> (r: SyscallRequest)
    ensures
        r.call == Syscall::MonYield,
        r.args@ == seq![mon_idx as u64, pid as u64],
        r.retry_preempted == false,
{
    SyscallRequest { call: Syscall::MonYield, args: vec![mon_idx as u64, pid as u64], retry_preempted: false }
}

/// Yields to process `pid` through monitor `mon_idx`.
///
/// The call is made again while the kernel answers `Preempted`.
pub fn s3k_mon_yield(mon_idx: S3kCidx, pid: S3kPid) -> (r: SyscallRequest)
    ensures
        r.call == Syscall::MonYield,
        r.args@ == seq![mon_idx as u64, pid as u64],
        r.retry_preempted == true,
{
    SyscallRequest { call: Syscall::MonYield, args: vec![mon_idx as u64, pid as u64], retry_preempted: true }
}

/// Reads register `reg` of process `pid`.
///
/// The call is made once.
pub fn s3k_try_mon_reg_read(mon_idx: S3kCidx, pid: S3kPid, reg: S3kReg) -> (r: SyscallRequest)
    ensures
        r.call == Syscall::MonRegRead,
        r.args@ == seq![mon_idx as u64, pid as u64, reg_code(reg)],
        r.retry_preempted == false,
{
    SyscallRequest { call: Syscall::MonRegRead, args: vec![mon_idx as u64, pid as u64, reg.code()], retry_preempted: false }
}

/// Reads register `reg` of process `pid`.
///
/// The call is made again while the kernel answers `Preempted`.
pub fn s3k_mon_reg_read(mon_idx: S3kCidx, pid: S3kPid, reg: S3kReg) -> (r: SyscallRequest)
    ensures
        r.call == Syscall::MonRegRead,
        r.args@ == seq![mon_idx as u64, pid as u64, reg_code(reg)],
        r.retry_preempted == true,
{
    SyscallRequest { call: Syscall::MonRegRead, args: vec![mon_idx as u64, pid as u64, reg.code()], retry_preempted: true }
}

/// Writes `val` to register `reg` of process `pid`.
///
/// The call is made once.
pub fn s3k_try_mon_reg_write(mon_idx: S3kCidx, pid: S3kPid, reg: S3kReg, val: u64) -> (r: SyscallRequest)
    ensures
        r.call == Syscall::MonRegWrite,
        r.args@ == seq![mon_idx as u64, pid as u64, reg_code(reg), val],
        r.retry_preempted == false,
{
    SyscallRequest { call: Syscall::MonRegWrite, args: vec![mon_idx as u64, pid as u64, reg.code(), val], retry_preempted: false }
}

/// Writes `val` to register `reg` of process `pid`.
///
/// The call is made again while the kernel answers `Preempted`.
pub fn s3k_mon_reg_write(mon_idx: S3kCidx, pid: S3kPid, reg: S3kReg, val: u64) -> (r: SyscallRequest)
    ensures
        r.call == Syscall::MonRegWrite,
        r.args@ == seq![mon_idx as u64, pid as u64, reg_code(reg), val],
        r.retry_preempted == true,
{
    SyscallRequest { call: Syscall::MonRegWrite, args: vec![mon_idx as u64, pid as u64, reg.code(), val], retry_preempted: true }
}

/// Reads capability `idx` of process `pid`.
///
/// The call is made once.
pub fn s3k_try_mon_cap_read(mon_idx: S3kCidx, pid: S3kPid, idx: S3kCidx) -> (r: SyscallRequest)
    ensures
        r.call == Syscall::MonCapRead,
        r.args@ == seq![mon_idx as u64, pid as u64, idx as u64],
        r.retry_preempted == false,
{
    SyscallRequest { call: Syscall::MonCapRead, args: vec![mon_idx as u64, pid as u64, idx as u64], retry_preempted: false }
}

/// Reads capability `idx` of process `pid`.
///
/// The call is made again while the kernel answers `Preempted`.
pub fn s3k_mon_cap_read(mon_idx: S3kCidx, pid: S3kPid, idx: S3kCidx) -> (r: SyscallRequest)
    ensures
        r.call == Syscall::MonCapRead,
        r.args@ == seq![mon_idx as u64, pid as u64, idx as u64],
        r.retry_preempted == true,
{
    SyscallRequest { call: Syscall::MonCapRead, args: vec![mon_idx as u64, pid as u64, idx as u64], retry_preempted: true }
}

/// Moves capability `src_idx` of process `src_pid` to slot `dst_idx` of process `dst_pid`.
///
/// The call is made once.
pub fn s3k_try_mon_cap_move(mon_idx: S3kCidx, src_pid: S3kPid, src_idx: S3kCidx, dst_pid: S3kPid, dst_idx: S3kCidx) -> (r: SyscallRequest)
    ensures
        r.call == Syscall::MonCapMove,
        r.args@ == seq![mon_idx as u64, src_pid as u64, src_idx as u64, dst_pid as u64, dst_idx as u64],
        r.retry_preempted == false,
{
    SyscallRequest { call: Syscall::MonCapMove, args: vec![mon_idx as u64, src_pid as u64, src_idx as u64, dst_pid as u64, dst_idx as u64], retry_preempted: false }
}

/// Moves capability `src_idx` of process `src_pid` to slot `dst_idx` of process `dst_pid`.
///
/// The call is made again while the kernel answers `Preempted`.
pub fn s3k_mon_cap_move(mon_idx: S3kCidx, src_pid: S3kPid, src_idx: S3kCidx, dst_pid: S3kPid, dst_idx: S3kCidx) -> (r: SyscallRequest)
    ensures
        r.call == Syscall::MonCapMove,
        r.args@ == seq![mon_idx as u64, src_pid as u64, src_idx as u64, dst_pid as u64, dst_idx as u64],
        r.retry_preempted == true,
{
    SyscallRequest { call: Syscall::MonCapMove, args: vec![mon_idx as u64, src_pid as u64, src_idx as u64, dst_pid as u64, dst_idx as u64], retry_preempted: true }
}

/// Loads PMP capability `pmp_idx` of process `pid` into its PMP slot `pmp_slot`.
///
/// The call is made once.
pub fn s3k_try_mon_pmp_load(mon_idx: S3kCidx, pid: S3kPid, pmp_idx: S3kCidx, pmp_slot: S3kPmpSlot) -> (r: SyscallRequest)
    ensures
        r.call == Syscall::MonPmpLoad,
        r.args@ == seq![mon_idx as u64, pid as u64, pmp_idx as u64, pmp_slot as u64],
        r.retry_preempted == false,
{
    SyscallRequest { call: Syscall::MonPmpLoad, args: vec![mon_idx as u64, pid as u64, pmp_idx as u64, pmp_slot as u64], retry_preempted: false }
}

/// Loads PMP capability `pmp_idx` of process `pid` into its PMP slot `pmp_slot`.
///
/// The call is made again while the kernel answers `Preempted`.
pub fn s3k_mon_pmp_load(mon_idx: S3kCidx, pid: S3kPid, pmp_idx: S3kCidx, pmp_slot: S3kPmpSlot) -> (r: SyscallRequest)
    ensures
        r.call == Syscall::MonPmpLoad,
        r.args@ == seq![mon_idx as u64, pid as u64, pmp_idx as u64, pmp_slot as u64],
        r.retry_preempted == true,
{
    SyscallRequest { call: Syscall::MonPmpLoad, args: vec![mon_idx as u64, pid as u64, pmp_idx as u64, pmp_slot as u64], retry_preempted: true }
}

/// Unloads PMP capability `pmp_idx` of process `pid`.
///
/// The call is made once.
pub fn s3k_try_mon_pmp_unload(mon_idx: S3kCidx, pid: S3kPid, pmp_idx: S3kCidx) -> (r: SyscallRequest)
    ensures
        r.call == Syscall::MonPmpUnload,
        r.args@ == seq![mon_idx as u64, pid as u64, pmp_idx as u64],
        r.retry_preempted == false,
{
    SyscallRequest { call: Syscall::MonPmpUnload, args: vec![mon_idx as u64, pid as u64, pmp_idx as u64], retry_preempted: false }
}

/// Unloads PMP capability `pmp_idx` of process `pid`.
///
/// The call is made again while the kernel answers `Preempted`.
pub fn s3k_mon_pmp_unload(mon_idx: S3kCidx, pid: S3kPid, pmp_idx: S3kCidx) -> (r: SyscallRequest)
    ensures
        r.call == Syscall::MonPmpUnload,
        r.args@ == seq![mon_idx as u64, pid as u64, pmp_idx as u64],
        r.retry_preempted == true,
{
    SyscallRequest { call: Syscall::MonPmpUnload, args: vec![mon_idx as u64, pid as u64, pmp_idx as u64], retry_preempted: true }
}

/// Sends `msg` over socket `sock_idx`.
///
/// The call is made once.
pub fn s3k_try_sock_send(sock_idx: S3kCidx, msg: &S3kMsg) -> (r: SyscallRequest)
    ensures
        r.call == Syscall::SockSend,
        r.args@ == seq![sock_idx as u64, msg.cap_idx as u64, (if msg.send_cap { 1u64 } else { 0u64 }), msg.data[0], msg.data[1], msg.data[2], msg.data[3]],
        r.retry_preempted == false,
{
    SyscallRequest { call: Syscall::SockSend, args: vec![sock_idx as u64, msg.cap_idx as u64, if msg.send_cap { 1u64 } else { 0u64 }, msg.data[0], msg.data[1], msg.data[2], msg.data[3]], retry_preempted: false }
}

/// Sends `msg` over socket `sock_idx`.
///
/// The call is made again while the kernel answers `Preempted`.
pub fn s3k_sock_send(sock_idx: S3kCidx, msg: &S3kMsg) -> (r: SyscallRequest)
    ensures
        r.call == Syscall::SockSend,
        r.args@ == seq![sock_idx as u64, msg.cap_idx as u64, (if msg.send_cap { 1u64 } else { 0u64 }), msg.data[0], msg.data[1], msg.data[2], msg.data[3]],
        r.retry_preempted == true,
{
    SyscallRequest { call: Syscall::SockSend, args: vec![sock_idx as u64, msg.cap_idx as u64, if msg.send_cap { 1u64 } else { 0u64 }, msg.data[0], msg.data[1], msg.data[2], msg.data[3]], retry_preempted: true }
}

/// Sends `msg` over socket `sock_idx` and waits for the reply.
///
/// The call is made once.
pub fn s3k_try_sock_sendrecv(sock_idx: S3kCidx, msg: &S3kMsg) -> (r: SyscallRequest)
    ensures
        r.call == Syscall::SockSendRecv,
        r.args@ == seq![sock_idx as u64, msg.cap_idx as u64, (if msg.send_cap { 1u64 } else { 0u64 }), msg.data[0], msg.data[1], msg.data[2], msg.data[3], 0u64],
        r.retry_preempted == false,
{
    SyscallRequest { call: Syscall::SockSendRecv, args: vec![sock_idx as u64, msg.cap_idx as u64, if msg.send_cap { 1u64 } else { 0u64 }, msg.data[0], msg.data[1], msg.data[2], msg.data[3], 0u64], retry_preempted: false }
}

/// Sends `msg` over socket `sock_idx` and waits for the reply.
///
/// The call is made again while the kernel answers `Preempted`.
pub fn s3k_sock_sendrecv(sock_idx: S3kCidx, msg: &S3kMsg) -> (r: SyscallRequest)
    ensures
        r.call == Syscall::SockSendRecv,
        r.args@ == seq![sock_idx as u64, msg.cap_idx as u64, (if msg.send_cap { 1u64 } else { 0u64 }), msg.data[0], msg.data[1], msg.data[2], msg.data[3], 0u64],
        r.retry_preempted == true,
{
    SyscallRequest { call: Syscall::SockSendRecv, args: vec![sock_idx as u64, msg.cap_idx as u64, if msg.send_cap { 1u64 } else { 0u64 }, msg.data[0], msg.data[1], msg.data[2], msg.data[3], 0u64], retry_preempted: true }
}

/// Receives a message over socket `sock_idx`; a capability sent along lands in slot `cap_idx`.
///
/// The call is made once.
pub fn s3k_try_sock_recv(sock_idx: S3kCidx, cap_idx: S3kCidx) -> (r: SyscallRequest)
    ensures
        r.call == Syscall::SockRecv,
        r.args@ == seq![sock_idx as u64, cap_idx as u64, 0u64, 0u64, 0u64, 0u64, 0u64, 0u64],
        r.retry_preempted == false,
{
    SyscallRequest { call: Syscall::SockRecv, args: vec![sock_idx as u64, cap_idx as u64, 0u64, 0u64, 0u64, 0u64, 0u64, 0u64], retry_preempted: false }
}

/// Receives a message over socket `sock_idx`; a capability sent along lands in slot `cap_idx`.
///
/// The call is made again while the kernel answers `Preempted`.
pub fn s3k_sock_recv(sock_idx: S3kCidx, cap_idx: S3kCidx) -> (r: SyscallRequest)
    ensures
        r.call == Syscall::SockRecv,
        r.args@ == seq![sock_idx as u64, cap_idx as u64, 0u64, 0u64, 0u64, 0u64, 0u64, 0u64],
        r.retry_preempted == true,
{
    SyscallRequest { call: Syscall::SockRecv, args: vec![sock_idx as u64, cap_idx as u64, 0u64, 0u64, 0u64, 0u64, 0u64, 0u64], retry_preempted: true }
}

} // verus!
