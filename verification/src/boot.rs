//! Bringing up the second process: the kernel calls that give it its memory and the UART, a
//! socket to the file system, and time to run.
//!
//! Each setup is a sequence of steps. A step asks for a kernel call, or for a search for a free
//! capability slot (see `find_free_cap`); its caller does it and hands back the outcome. The
//! slots are searched for between the calls, since each derivation fills one. The first failure
//! ends a setup, except where a call's outcome is not looked at.
use vstd::prelude::*;
use crate::bits::{get_bits, lemma_get_bound, lemma_shift_values};
use crate::ffi::{
    CapType, cap_type_of, reg_code, PmpCap, S3kCidx, S3kErr, S3kIpcMode, S3kIpcPerm, S3kMemPerm, S3kReg,
    TimeCap,
};
use crate::syscall::{
    Syscall, SyscallRequest, s3k_cap_delete, s3k_cap_derive, s3k_mon_cap_move, s3k_mon_pmp_load,
    s3k_mon_reg_write, s3k_mon_resume, s3k_pmp_load, s3k_reg_write, s3k_sync, s3k_sync_mem,
};
use crate::utils::{
    is_pmp_cap_raw, region_base, s3k_mk_memory, s3k_mk_pmp, s3k_mk_socket, s3k_napot_encode, APP0_PID,
    APP1_PID, APP_1_BASE_ADDR, APP_1_CAP_PMP_MEM, APP_1_CAP_PMP_UART, APP_1_CAP_SOCKET, APP_1_PMP_SLOT_MEM,
    APP_1_PMP_SLOT_UART, APP_1_SIZE, APP_1_TIME, BUFFER_PMP, CHANNEL, HART0_TIME, HART1_TIME, HART2_TIME,
    HART3_TIME, MONITOR, RAM_MEM, UART0_BASE_ADDR, UART_MEM, UART_CAP, UART_PMP, setup_uart_and_virtio,
};

verus! {

/// The next thing a setup asks for.
pub enum SetupStep<T> {
    /// Search for a free capability slot and hand back what the search gave.
    FindFreeCap,
    /// Make this kernel call and hand back its outcome.
    Call(SyscallRequest),
    /// The setup is over.
    Done(Result<T, S3kErr>),
}

/// The outcome of what a setup asked for.
pub enum SetupEvent {
    /// What the search for a free capability slot gave.
    FreeCap(Result<S3kCidx, S3kErr>),
    /// What the kernel call gave.
    Called(Result<(), S3kErr>),
}

/// The step is the call `call` with arguments `args`, made again while it is preempted.
pub open spec fn is_call<T>(s: SetupStep<T>, call: Syscall, args: Seq<u64>) -> bool {
    s matches SetupStep::Call(r) && r.call == call && r.args@ == args && r.retry_preempted
}

/// The step derives, from capability `src` into slot `dest`, the capability whose raw encoding
/// satisfies `cap`.
pub open spec fn is_derive<T>(s: SetupStep<T>, src: S3kCidx, dest: S3kCidx, cap: spec_fn(u64) -> bool) -> bool {
    s matches SetupStep::Call(r) && r.call == Syscall::CapDerive && r.args@.len() == 3
        && r.args@[0] == src as u64 && r.args@[1] == dest as u64 && cap(r.args@[2]) && r.retry_preempted
}

/// The NAPOT encoding of the `size` bytes at `base`.
pub open spec fn napot(base: usize, size: usize) -> u64 {
    ((base | ((size / 2 - 1) as usize)) >> 2usize) as u64
}

/// A raw memory slice capability for the bytes from `bgn` to `end` with permissions `rwx`, as
/// `s3k_mk_memory` makes it: unlocked, its mark at its beginning.
pub open spec fn is_mem_cap_raw(raw: u64, bgn: usize, end: usize, rwx: u8) -> bool {
    &&& cap_type_of(raw) == CapType::Memory
    &&& get_bits(raw, 8, 8) as u8 == (bgn >> 27usize) as u8
    &&& get_bits(raw, 16, 16) as u16 == (((bgn - region_base(bgn)) as usize) >> 12usize) as u16
    &&& get_bits(raw, 48, 16) as u16 == (((end - region_base(bgn)) as usize) >> 12usize) as u16
    &&& get_bits(raw, 32, 16) as u16 == get_bits(raw, 16, 16) as u16
    &&& get_bits(raw, 4, 3) as u8 == rwx
    &&& get_bits(raw, 7, 1) != 1
}

/// A raw socket capability on channel `chan` with `mode`, permissions `perm` and `tag`.
pub open spec fn is_sock_cap_raw(raw: u64, chan: u16, mode: S3kIpcMode, perm: u8, tag: u32) -> bool {
    &&& cap_type_of(raw) == CapType::Socket
    &&& S3kIpcMode::spec_from_bits(get_bits(raw, 4, 4) as u8) == mode
    &&& get_bits(raw, 8, 8) as u8 == perm
    &&& get_bits(raw, 16, 16) as u16 == chan
    &&& get_bits(raw, 32, 32) as u32 == tag
}

/// The PMP capability for the NAPOT region `addr` with permissions `rwx`, unused, in slot 0.
fn make_pmp(addr: u64, rwx: u8) -> (c: PmpCap)
    requires
        addr < 0x1_0000_0000_0000,
        rwx <= 7,
    ensures
        is_pmp_cap_raw(c@, addr, rwx),
{
    let c = s3k_mk_pmp(addr, S3kMemPerm::from_bits_truncate(rwx));
    proof {
        assert(rwx <= 7 ==> rwx & 0x7 == rwx) by (bit_vector);
        lemma_shift_values();
        lemma_get_bound(c@, 4, 3);
        lemma_get_bound(c@, 7, 1);
        lemma_get_bound(c@, 8, 8);
    }
    c
}

/// The NAPOT region of the second process's memory.
fn app1_region() -> (r: u64)
    ensures
        r == napot(APP_1_BASE_ADDR, APP_1_SIZE),
        r < 0x1_0000_0000_0000,
{
    let r = s3k_napot_encode(APP_1_BASE_ADDR, APP_1_SIZE);
    assert((((0x8011_0000usize | 0x7fffusize) >> 2usize) as u64) < 0x1_0000_0000_0000u64) by (bit_vector);
    r
}

/// The NAPOT region of the UART registers the second process gets.
fn uart_region() -> (r: u64)
    ensures
        r == napot(UART0_BASE_ADDR, 0x8),
        r < 0x1_0000_0000_0000,
{
    let r = s3k_napot_encode(UART0_BASE_ADDR, 0x8);
    assert((((0x1000_0000usize | 3usize) >> 2usize) as u64) < 0x1_0000_0000_0000u64) by (bit_vector);
    r
}

/// What giving this process the UART is waiting for.
#[derive(Debug, Clone, Copy, PartialEq, Eq, Structural)]
pub enum UartSetupStage {
    /// Deriving the UART's PMP capability.
    Derive,
    /// Loading it into the PMP unit.
    Load,
    /// Synchronizing the PMP unit.
    Sync,
    /// Over.
    Finished,
}

/// Giving this process the UART: the calls of `setup_uart_and_virtio`, in order. The first
/// failure of the derivation or the load ends it; the outcome of the synchronization is not
/// looked at.
pub struct UartSetup {
    pub stage: UartSetupStage,
    /// The calls still to make.
    pub rest: Vec<SyscallRequest>,
}

impl UartSetup {
    /// The calls still to make are those of the stages to come.
    pub open spec fn wf(&self) -> bool {
        match self.stage {
            UartSetupStage::Derive => {
                &&& self.rest@.len() == 2
                &&& self.rest@[0].call == Syscall::PmpLoad
                &&& self.rest@[0].args@ == seq![UART_CAP as u64, UART_PMP as u64]
                &&& self.rest@[0].retry_preempted
                &&& self.rest@[1].call == Syscall::Sync
                &&& self.rest@[1].args@ == seq![1u64]
            },
            UartSetupStage::Load => {
                &&& self.rest@.len() == 1
                &&& self.rest@[0].call == Syscall::Sync
                &&& self.rest@[0].args@ == seq![1u64]
            },
            _ => true,
        }
    }

    /// Starts: the first step derives a PMP capability for the UART's registers, readable and
    /// writable, into `UART_CAP`.
    pub fn start() -> (r: (UartSetup, SetupStep<()>))
        ensures
            r.0.wf(),
            r.0.stage == UartSetupStage::Derive,
            is_derive(r.1, UART_MEM, UART_CAP, |raw: u64| is_pmp_cap_raw(raw, 0x400_03ff, 3)),
    {
        let mut plan = setup_uart_and_virtio();
        let first = plan.remove(0);
        (UartSetup { stage: UartSetupStage::Derive, rest: plan }, SetupStep::Call(first))
    }

    /// Takes the outcome of the last call and gives the next step.
    pub fn step(&mut self, event: SetupEvent) -> (r: SetupStep<()>)
        requires
            old(self).wf(),
            old(self).stage != UartSetupStage::Finished,
            event is Called,
        ensures
            final(self).wf(),
            match (old(self).stage, event) {
                (UartSetupStage::Derive, SetupEvent::Called(Err(e))) | (UartSetupStage::Load, SetupEvent::Called(Err(e))) =>
                    final(self).stage == UartSetupStage::Finished && r == SetupStep::<()>::Done(Err(e)),
                (UartSetupStage::Derive, SetupEvent::Called(Ok(_))) => final(self).stage == UartSetupStage::Load
                    && is_call(r, Syscall::PmpLoad, seq![UART_CAP as u64, UART_PMP as u64]),
                (UartSetupStage::Load, SetupEvent::Called(Ok(_))) => final(self).stage == UartSetupStage::Sync
                    && (r matches SetupStep::Call(req) && req.call == Syscall::Sync && req.args@ == seq![1u64]),
                (UartSetupStage::Sync, _) => final(self).stage == UartSetupStage::Finished
                    && r == SetupStep::<()>::Done(Ok(())),
                _ => true,
            },
    {
        match (self.stage, event) {
            (UartSetupStage::Derive, SetupEvent::Called(Ok(_))) => {
                let next = self.rest.remove(0);
                self.stage = UartSetupStage::Load;
                SetupStep::Call(next)
            },
            (UartSetupStage::Load, SetupEvent::Called(Ok(_))) => {
                let next = self.rest.remove(0);
                self.stage = UartSetupStage::Sync;
                SetupStep::Call(next)
            },
            (UartSetupStage::Sync, _) => {
                self.stage = UartSetupStage::Finished;
                SetupStep::Done(Ok(()))
            },
            (_, SetupEvent::Called(Err(e))) => {
                self.stage = UartSetupStage::Finished;
                SetupStep::Done(Err(e))
            },
            _ => {
                self.stage = UartSetupStage::Finished;
                SetupStep::Done(Err(S3kErr::InvalidState))
            },
        }
    }
}

/// What giving the second process its memory and the UART is waiting for.
#[derive(Debug, Clone, Copy, PartialEq, Eq, Structural)]
pub enum AppSetupStage {
    /// A free slot for the memory slice of the second process.
    FindMem,
    /// Deriving that memory slice into this slot.
    DeriveMem(S3kCidx),
    /// A free slot for the PMP capability of that memory (in this slot).
    FindPmp(S3kCidx),
    /// Deriving the PMP capability from the memory in the first slot into the second.
    DerivePmp(S3kCidx, S3kCidx),
    /// Moving the PMP capability to the second process (the memory stays in this slot).
    MovePmp(S3kCidx),
    /// Loading it into the second process's PMP slot.
    LoadPmp(S3kCidx),
    /// A free slot for a PMP capability of our own on that memory.
    FindBuffer(S3kCidx),
    /// Deriving it from the memory in the first slot into the second.
    DeriveBuffer(S3kCidx, S3kCidx),
    /// Loading it into our buffer PMP slot.
    LoadBuffer,
    /// A free slot for the UART's PMP capability.
    FindUart,
    /// Deriving it into this slot.
    DeriveUart(S3kCidx),
    /// Moving it to the second process.
    MoveUart,
    /// Loading it into the second process's PMP slot.
    LoadUart,
    /// Setting the second process's program counter to its entry.
    WritePc,
    /// Synchronizing the PMP unit.
    SyncMem,
    /// Over.
    Finished,
}

/// Giving the second process its memory and the UART: a memory slice for it, a PMP capability
/// on it moved to and loaded for the second process, another kept and loaded for ourselves, a
/// PMP capability on the UART moved to and loaded for the second process, its program counter
/// set to its entry, and the PMP unit synchronized, whose outcome is not looked at.
pub struct AppSetup {
    pub stage: AppSetupStage,
}

/// The stage waits for the outcome of a search for a free slot.
pub open spec fn app_stage_finds(stage: AppSetupStage) -> bool {
    ||| stage == AppSetupStage::FindMem
    ||| stage is FindPmp
    ||| stage is FindBuffer
    ||| stage == AppSetupStage::FindUart
}

impl AppSetup {
    /// Starts: the first step searches for a free slot.
    pub fn start() -> (r: (AppSetup, SetupStep<()>))
        ensures
            r.0.stage == AppSetupStage::FindMem,
            r.1 is FindFreeCap,
    {
        (AppSetup { stage: AppSetupStage::FindMem }, SetupStep::FindFreeCap)
    }

    /// Takes the outcome of the last step and gives the next.
    pub fn step(&mut self, event: SetupEvent) -> (r: SetupStep<()>)
        requires
            old(self).stage != AppSetupStage::Finished,
            app_stage_finds(old(self).stage) <==> event is FreeCap,
        ensures
            match event {
                SetupEvent::FreeCap(Err(e)) | SetupEvent::Called(Err(e)) =>
                    old(self).stage != AppSetupStage::SyncMem ==> (final(self).stage == AppSetupStage::Finished
                        && r == SetupStep::<()>::Done(Err(e))),
                _ => true,
            },
            old(self).stage == AppSetupStage::SyncMem ==> final(self).stage == AppSetupStage::Finished
                && r == SetupStep::<()>::Done(Ok(())),
            match (old(self).stage, event) {
                (AppSetupStage::FindMem, SetupEvent::FreeCap(Ok(m))) => final(self).stage == AppSetupStage::DeriveMem(m)
                    && is_derive(r, RAM_MEM, m, |raw: u64| is_mem_cap_raw(raw, APP_1_BASE_ADDR, (APP_1_BASE_ADDR + APP_1_SIZE) as usize, 7)),
                (AppSetupStage::DeriveMem(m), SetupEvent::Called(Ok(_))) => final(self).stage == AppSetupStage::FindPmp(m)
                    && r is FindFreeCap,
                (AppSetupStage::FindPmp(m), SetupEvent::FreeCap(Ok(i))) => final(self).stage == AppSetupStage::DerivePmp(m, i)
                    && is_derive(r, m, i, |raw: u64| is_pmp_cap_raw(raw, napot(APP_1_BASE_ADDR, APP_1_SIZE), 7)),
                (AppSetupStage::DerivePmp(m, i), SetupEvent::Called(Ok(_))) => final(self).stage == AppSetupStage::MovePmp(m)
                    && is_call(r, Syscall::MonCapMove, seq![MONITOR as u64, APP0_PID as u64, i as u64, APP1_PID as u64, APP_1_CAP_PMP_MEM as u64]),
                (AppSetupStage::MovePmp(m), SetupEvent::Called(Ok(_))) => final(self).stage == AppSetupStage::LoadPmp(m)
                    && is_call(r, Syscall::MonPmpLoad, seq![MONITOR as u64, APP1_PID as u64, APP_1_CAP_PMP_MEM as u64, APP_1_PMP_SLOT_MEM as u64]),
                (AppSetupStage::LoadPmp(m), SetupEvent::Called(Ok(_))) => final(self).stage == AppSetupStage::FindBuffer(m)
                    && r is FindFreeCap,
                (AppSetupStage::FindBuffer(m), SetupEvent::FreeCap(Ok(i))) => final(self).stage == AppSetupStage::DeriveBuffer(m, i)
                    && is_derive(r, m, i, |raw: u64| is_pmp_cap_raw(raw, napot(APP_1_BASE_ADDR, APP_1_SIZE), 7)),
                (AppSetupStage::DeriveBuffer(m, i), SetupEvent::Called(Ok(_))) => final(self).stage == AppSetupStage::LoadBuffer
                    && is_call(r, Syscall::PmpLoad, seq![i as u64, BUFFER_PMP as u64]),
                (AppSetupStage::LoadBuffer, SetupEvent::Called(Ok(_))) => final(self).stage == AppSetupStage::FindUart
                    && r is FindFreeCap,
                (AppSetupStage::FindUart, SetupEvent::FreeCap(Ok(i))) => final(self).stage == AppSetupStage::DeriveUart(i)
                    && is_derive(r, UART_MEM, i, |raw: u64| is_pmp_cap_raw(raw, napot(UART0_BASE_ADDR, 0x8), 3)),
                (AppSetupStage::DeriveUart(i), SetupEvent::Called(Ok(_))) => final(self).stage == AppSetupStage::MoveUart
                    && is_call(r, Syscall::MonCapMove, seq![MONITOR as u64, APP0_PID as u64, i as u64, APP1_PID as u64, APP_1_CAP_PMP_UART as u64]),
                (AppSetupStage::MoveUart, SetupEvent::Called(Ok(_))) => final(self).stage == AppSetupStage::LoadUart
                    && is_call(r, Syscall::MonPmpLoad, seq![MONITOR as u64, APP1_PID as u64, APP_1_CAP_PMP_UART as u64, APP_1_PMP_SLOT_UART as u64]),
                (AppSetupStage::LoadUart, SetupEvent::Called(Ok(_))) => final(self).stage == AppSetupStage::WritePc
                    && is_call(r, Syscall::MonRegWrite, seq![MONITOR as u64, APP1_PID as u64, reg_code(S3kReg::PC), APP_1_BASE_ADDR as u64]),
                (AppSetupStage::WritePc, SetupEvent::Called(Ok(_))) => final(self).stage == AppSetupStage::SyncMem
                    && (r matches SetupStep::Call(req) && req.call == Syscall::Sync && req.args@ == seq![1u64]),
                _ => true,
            },
    {
        let stage = self.stage;
        match event {
            SetupEvent::FreeCap(Err(e)) => {
                self.stage = AppSetupStage::Finished;
                return SetupStep::Done(Err(e));
            },
            SetupEvent::Called(Err(e)) => {
                if stage != AppSetupStage::SyncMem {
                    self.stage = AppSetupStage::Finished;
                    return SetupStep::Done(Err(e));
                }
            },
            _ => {},
        }
        match (stage, event) {
            (AppSetupStage::FindMem, SetupEvent::FreeCap(Ok(m))) => {
                self.stage = AppSetupStage::DeriveMem(m);
                assert(((0x8011_0000usize >> 27usize) << 27usize) <= 0x8012_0000usize) by (bit_vector);
                let cap = s3k_mk_memory(APP_1_BASE_ADDR, APP_1_BASE_ADDR + APP_1_SIZE, S3kMemPerm::from_bits_truncate(S3kMemPerm::RWX));
                proof {
                    assert(7u8 & 0x7 == 7) by (bit_vector);
                }
                SetupStep::Call(s3k_cap_derive(RAM_MEM, m, cap))
            },
            (AppSetupStage::DeriveMem(m), _) => {
                self.stage = AppSetupStage::FindPmp(m);
                SetupStep::FindFreeCap
            },
            (AppSetupStage::FindPmp(m), SetupEvent::FreeCap(Ok(i))) => {
                self.stage = AppSetupStage::DerivePmp(m, i);
                SetupStep::Call(s3k_cap_derive(m, i, make_pmp(app1_region(), S3kMemPerm::RWX)))
            },
            (AppSetupStage::DerivePmp(m, i), _) => {
                self.stage = AppSetupStage::MovePmp(m);
                SetupStep::Call(s3k_mon_cap_move(MONITOR, APP0_PID, i, APP1_PID, APP_1_CAP_PMP_MEM))
            },
            (AppSetupStage::MovePmp(m), _) => {
                self.stage = AppSetupStage::LoadPmp(m);
                SetupStep::Call(s3k_mon_pmp_load(MONITOR, APP1_PID, APP_1_CAP_PMP_MEM, APP_1_PMP_SLOT_MEM))
            },
            (AppSetupStage::LoadPmp(m), _) => {
                self.stage = AppSetupStage::FindBuffer(m);
                SetupStep::FindFreeCap
            },
            (AppSetupStage::FindBuffer(m), SetupEvent::FreeCap(Ok(i))) => {
                self.stage = AppSetupStage::DeriveBuffer(m, i);
                SetupStep::Call(s3k_cap_derive(m, i, make_pmp(app1_region(), S3kMemPerm::RWX)))
            },
            (AppSetupStage::DeriveBuffer(_m, i), _) => {
                self.stage = AppSetupStage::LoadBuffer;
                SetupStep::Call(s3k_pmp_load(i, BUFFER_PMP))
            },
            (AppSetupStage::LoadBuffer, _) => {
                self.stage = AppSetupStage::FindUart;
                SetupStep::FindFreeCap
            },
            (AppSetupStage::FindUart, SetupEvent::FreeCap(Ok(i))) => {
                self.stage = AppSetupStage::DeriveUart(i);
                SetupStep::Call(s3k_cap_derive(UART_MEM, i, make_pmp(uart_region(), S3kMemPerm::RW)))
            },
            (AppSetupStage::DeriveUart(i), _) => {
                self.stage = AppSetupStage::MoveUart;
                SetupStep::Call(s3k_mon_cap_move(MONITOR, APP0_PID, i, APP1_PID, APP_1_CAP_PMP_UART))
            },
            (AppSetupStage::MoveUart, _) => {
                self.stage = AppSetupStage::LoadUart;
                SetupStep::Call(s3k_mon_pmp_load(MONITOR, APP1_PID, APP_1_CAP_PMP_UART, APP_1_PMP_SLOT_UART))
            },
            (AppSetupStage::LoadUart, _) => {
                self.stage = AppSetupStage::WritePc;
                SetupStep::Call(s3k_mon_reg_write(MONITOR, APP1_PID, S3kReg::PC, APP_1_BASE_ADDR as u64))
            },
            (AppSetupStage::WritePc, _) => {
                self.stage = AppSetupStage::SyncMem;
                SetupStep::Call(s3k_sync_mem())
            },
            _ => {
                self.stage = AppSetupStage::Finished;
                SetupStep::Done(Ok(()))
            },
        }
    }
}

/// What creating the socket between the file system and the second process is waiting for.
#[derive(Debug, Clone, Copy, PartialEq, Eq, Structural)]
pub enum SocketSetupStage {
    /// A free slot for the server's socket.
    FindServer,
    /// Deriving the server's socket into this slot.
    DeriveServer(S3kCidx),
    /// A free slot for the client's socket (the server's is in this slot).
    FindClient(S3kCidx),
    /// Deriving the client's socket from the server's in the first slot into the second.
    DeriveClient(S3kCidx, S3kCidx),
    /// Moving the client's socket to the second process.
    MoveClient(S3kCidx),
    /// Over.
    Finished,
}

/// Creating the socket between the file system and the second process: the server's socket on
/// channel 0 with tag 0, derived from the channel, and the client's with tag 1, derived from
/// the server's and moved to the second process; both without yielding, allowed to send and
/// receive data. Gives the server's slot.
pub struct SocketSetup {
    pub stage: SocketSetupStage,
}

/// The stage waits for the outcome of a search for a free slot.
pub open spec fn socket_stage_finds(stage: SocketSetupStage) -> bool {
    stage == SocketSetupStage::FindServer || stage is FindClient
}

impl SocketSetup {
    /// Starts: the first step searches for a free slot.
    pub fn start() -> (r: (SocketSetup, SetupStep<S3kCidx>))
        ensures
            r.0.stage == SocketSetupStage::FindServer,
            r.1 is FindFreeCap,
    {
        (SocketSetup { stage: SocketSetupStage::FindServer }, SetupStep::FindFreeCap)
    }

    /// Takes the outcome of the last step and gives the next.
    pub fn step(&mut self, event: SetupEvent) -> (r: SetupStep<S3kCidx>)
        requires
            old(self).stage != SocketSetupStage::Finished,
            socket_stage_finds(old(self).stage) <==> event is FreeCap,
        ensures
            match event {
                SetupEvent::FreeCap(Err(e)) | SetupEvent::Called(Err(e)) =>
                    final(self).stage == SocketSetupStage::Finished && r == SetupStep::<S3kCidx>::Done(Err(e)),
                _ => true,
            },
            match (old(self).stage, event) {
                (SocketSetupStage::FindServer, SetupEvent::FreeCap(Ok(sv))) => final(self).stage == SocketSetupStage::DeriveServer(sv)
                    && is_derive(r, CHANNEL, sv, |raw: u64| is_sock_cap_raw(raw, 0, S3kIpcMode::NOYIELD, 5, 0)),
                (SocketSetupStage::DeriveServer(sv), SetupEvent::Called(Ok(_))) => final(self).stage == SocketSetupStage::FindClient(sv)
                    && r is FindFreeCap,
                (SocketSetupStage::FindClient(sv), SetupEvent::FreeCap(Ok(c))) => final(self).stage == SocketSetupStage::DeriveClient(sv, c)
                    && is_derive(r, sv, c, |raw: u64| is_sock_cap_raw(raw, 0, S3kIpcMode::NOYIELD, 5, 1)),
                (SocketSetupStage::DeriveClient(sv, c), SetupEvent::Called(Ok(_))) => final(self).stage == SocketSetupStage::MoveClient(sv)
                    && is_call(r, Syscall::MonCapMove, seq![MONITOR as u64, APP0_PID as u64, c as u64, APP1_PID as u64, APP_1_CAP_SOCKET as u64]),
                (SocketSetupStage::MoveClient(sv), SetupEvent::Called(Ok(_))) => final(self).stage == SocketSetupStage::Finished
                    && r == SetupStep::<S3kCidx>::Done(Ok(sv)),
                _ => true,
            },
    {
        let stage = self.stage;
        match event {
            SetupEvent::FreeCap(Err(e)) | SetupEvent::Called(Err(e)) => {
                self.stage = SocketSetupStage::Finished;
                return SetupStep::Done(Err(e));
            },
            _ => {},
        }
        let perm = S3kIpcPerm::from_bits_truncate(S3kIpcPerm::SDATA | S3kIpcPerm::CDATA);
        proof {
            assert((1u8 | 4u8) & 0xf == 5) by (bit_vector);
        }
        match (stage, event) {
            (SocketSetupStage::FindServer, SetupEvent::FreeCap(Ok(sv))) => {
                self.stage = SocketSetupStage::DeriveServer(sv);
                SetupStep::Call(s3k_cap_derive(CHANNEL, sv, s3k_mk_socket(0, S3kIpcMode::NOYIELD, perm, 0)))
            },
            (SocketSetupStage::DeriveServer(sv), _) => {
                self.stage = SocketSetupStage::FindClient(sv);
                SetupStep::FindFreeCap
            },
            (SocketSetupStage::FindClient(sv), SetupEvent::FreeCap(Ok(c))) => {
                self.stage = SocketSetupStage::DeriveClient(sv, c);
                SetupStep::Call(s3k_cap_derive(sv, c, s3k_mk_socket(0, S3kIpcMode::NOYIELD, perm, 1)))
            },
            (SocketSetupStage::DeriveClient(sv, c), _) => {
                self.stage = SocketSetupStage::MoveClient(sv);
                SetupStep::Call(s3k_mon_cap_move(MONITOR, APP0_PID, c, APP1_PID, APP_1_CAP_SOCKET))
            },
            (SocketSetupStage::MoveClient(sv), _) => {
                self.stage = SocketSetupStage::Finished;
                SetupStep::Done(Ok(sv))
            },
            _ => {
                self.stage = SocketSetupStage::Finished;
                SetupStep::Done(Err(S3kErr::InvalidState))
            },
        }
    }
}

/// What handing the second process time to run is waiting for.
#[derive(Debug, Clone, Copy, PartialEq, Eq, Structural)]
pub enum ScheduleStage {
    /// Setting our service time.
    WriteServTime,
    /// Deleting the time of hart 1.
    DeleteHart1,
    /// Deleting the time of hart 2.
    DeleteHart2,
    /// Deleting the time of hart 3.
    DeleteHart3,
    /// A free slot for the second process's time slice.
    FindTime,
    /// Deriving the time slice into this slot.
    DeriveTime(S3kCidx),
    /// Moving the time slice to the second process.
    MoveTime,
    /// Synchronizing.
    Sync,
    /// Resuming the second process.
    Resume,
    /// Over.
    Finished,
}

/// Handing the second process time to run: our service time is set to 100, the time of harts
/// 1 to 3 is deleted, a time slice is derived from hart 0's time and moved to the second
/// process, time is synchronized, and the second process is resumed. The outcomes of setting
/// the service time, of deriving the slice and of synchronizing are not looked at.
pub struct ScheduleSetup {
    pub stage: ScheduleStage,
    /// The time slice the second process gets.
    pub slice: TimeCap,
}

impl ScheduleSetup {
    /// Starts with the time slice `slice` for the second process: the first step sets our
    /// service time.
    pub fn start(slice: TimeCap) -> (r: (ScheduleSetup, SetupStep<()>))
        ensures
            r.0.stage == ScheduleStage::WriteServTime,
            r.0.slice == slice,
            r.1 matches SetupStep::Call(req) && req.call == Syscall::RegWrite
                && req.args@ == seq![reg_code(S3kReg::SERVTIME), 100u64] && !req.retry_preempted,
    {
        (ScheduleSetup { stage: ScheduleStage::WriteServTime, slice }, SetupStep::Call(s3k_reg_write(S3kReg::SERVTIME, 100)))
    }

    /// Takes the outcome of the last step and gives the next.
    pub fn step(&mut self, event: SetupEvent) -> (r: SetupStep<()>)
        requires
            old(self).stage != ScheduleStage::Finished,
            old(self).stage == ScheduleStage::FindTime <==> event is FreeCap,
        ensures
            final(self).slice == old(self).slice,
            match event {
                SetupEvent::FreeCap(Err(e)) | SetupEvent::Called(Err(e)) => {
                    let ignored = old(self).stage == ScheduleStage::WriteServTime || old(self).stage is DeriveTime
                        || old(self).stage == ScheduleStage::Sync;
                    !ignored ==> final(self).stage == ScheduleStage::Finished && r == SetupStep::<()>::Done(Err(e))
                },
                _ => true,
            },
            match (old(self).stage, event) {
                (ScheduleStage::WriteServTime, SetupEvent::Called(_)) => final(self).stage == ScheduleStage::DeleteHart1
                    && is_call(r, Syscall::CapDelete, seq![HART1_TIME as u64]),
                (ScheduleStage::DeleteHart1, SetupEvent::Called(Ok(_))) => final(self).stage == ScheduleStage::DeleteHart2
                    && is_call(r, Syscall::CapDelete, seq![HART2_TIME as u64]),
                (ScheduleStage::DeleteHart2, SetupEvent::Called(Ok(_))) => final(self).stage == ScheduleStage::DeleteHart3
                    && is_call(r, Syscall::CapDelete, seq![HART3_TIME as u64]),
                (ScheduleStage::DeleteHart3, SetupEvent::Called(Ok(_))) => final(self).stage == ScheduleStage::FindTime
                    && r is FindFreeCap,
                (ScheduleStage::FindTime, SetupEvent::FreeCap(Ok(c))) => final(self).stage == ScheduleStage::DeriveTime(c)
                    && is_call(r, Syscall::CapDerive, seq![HART0_TIME as u64, c as u64, old(self).slice@]),
                (ScheduleStage::DeriveTime(c), SetupEvent::Called(_)) => final(self).stage == ScheduleStage::MoveTime
                    && is_call(r, Syscall::MonCapMove, seq![MONITOR as u64, APP0_PID as u64, c as u64, APP1_PID as u64, APP_1_TIME as u64]),
                (ScheduleStage::MoveTime, SetupEvent::Called(Ok(_))) => final(self).stage == ScheduleStage::Sync
                    && (r matches SetupStep::Call(req) && req.call == Syscall::Sync && req.args@ == seq![0u64]),
                (ScheduleStage::Sync, SetupEvent::Called(_)) => final(self).stage == ScheduleStage::Resume
                    && is_call(r, Syscall::MonResume, seq![MONITOR as u64, APP1_PID as u64]),
                (ScheduleStage::Resume, SetupEvent::Called(Ok(_))) => final(self).stage == ScheduleStage::Finished
                    && r == SetupStep::<()>::Done(Ok(())),
                _ => true,
            },
    {
        let stage = self.stage;
        let ignored = stage == ScheduleStage::WriteServTime || stage == ScheduleStage::Sync
            || match stage { ScheduleStage::DeriveTime(_) => true, _ => false };
        match event {
            SetupEvent::FreeCap(Err(e)) | SetupEvent::Called(Err(e)) => {
                if !ignored {
                    self.stage = ScheduleStage::Finished;
                    return SetupStep::Done(Err(e));
                }
            },
            _ => {},
        }
        match (stage, event) {
            (ScheduleStage::WriteServTime, _) => {
                self.stage = ScheduleStage::DeleteHart1;
                SetupStep::Call(s3k_cap_delete(HART1_TIME))
            },
            (ScheduleStage::DeleteHart1, _) => {
                self.stage = ScheduleStage::DeleteHart2;
                SetupStep::Call(s3k_cap_delete(HART2_TIME))
            },
            (ScheduleStage::DeleteHart2, _) => {
                self.stage = ScheduleStage::DeleteHart3;
                SetupStep::Call(s3k_cap_delete(HART3_TIME))
            },
            (ScheduleStage::DeleteHart3, _) => {
                self.stage = ScheduleStage::FindTime;
                SetupStep::FindFreeCap
            },
            (ScheduleStage::FindTime, SetupEvent::FreeCap(Ok(c))) => {
                self.stage = ScheduleStage::DeriveTime(c);
                SetupStep::Call(s3k_cap_derive(HART0_TIME, c, self.slice))
            },
            (ScheduleStage::DeriveTime(c), _) => {
                self.stage = ScheduleStage::MoveTime;
                SetupStep::Call(s3k_mon_cap_move(MONITOR, APP0_PID, c, APP1_PID, APP_1_TIME))
            },
            (ScheduleStage::MoveTime, _) => {
                self.stage = ScheduleStage::Sync;
                SetupStep::Call(s3k_sync())
            },
            (ScheduleStage::Sync, _) => {
                self.stage = ScheduleStage::Resume;
                SetupStep::Call(s3k_mon_resume(MONITOR, APP1_PID))
            },
            _ => {
                self.stage = ScheduleStage::Finished;
                SetupStep::Done(Ok(()))
            },
        }
    }
}

} // verus!
