//! Building capabilities for the kernel from addresses and permissions.
use vstd::prelude::*;
use crate::ffi::{
    S3kAddr, S3kNapot, S3kMemPerm, MemCap, PmpCap, SockCap, S3kChan, S3kIpcMode, S3kIpcPerm,
    S3kCidx, S3kPid, S3kPmpSlot, S3kErr, S3kCap, S3K_MAX_BLOCK_SIZE, S3K_MIN_BLOCK_SIZE,
};
use crate::syscall::{SyscallRequest, s3k_cap_derive, s3k_pmp_load, s3k_sync_mem};
use crate::bits::{get_bits, set_bits};

verus! {

/// Base address of the UART.
pub const UART0_BASE_ADDR: usize = 0x1000_0000;

pub const APP0_PID: S3kPid = 0;
pub const APP1_PID: S3kPid = 1;

// Capability slots of the initial process.
pub const BOOT_PMP: S3kCidx = 0;
pub const RAM_MEM: S3kCidx = 1;
pub const UART_MEM: S3kCidx = 2;
pub const TIME_MEM: S3kCidx = 3;
pub const HART0_TIME: S3kCidx = 4;
pub const HART1_TIME: S3kCidx = 5;
pub const HART2_TIME: S3kCidx = 6;
pub const HART3_TIME: S3kCidx = 7;
pub const MONITOR: S3kCidx = 8;
pub const CHANNEL: S3kCidx = 9;

// Capabilities derived at start-up.
pub const UART_CAP: S3kCidx = 10;
pub const UART_PMP: S3kPmpSlot = 1;
pub const BUFFER_PMP: S3kPmpSlot = 2;

// Capability slots of the second process.
pub const APP_1_CAP_PMP_MEM: S3kCidx = 0;
pub const APP_1_CAP_PMP_UART: S3kCidx = 10;
pub const APP_1_TIME: S3kCidx = 1;
pub const APP_1_CAP_SOCKET: S3kCidx = 3;

pub const APP_1_PMP_SLOT_MEM: S3kPmpSlot = 0;
pub const APP_1_PMP_SLOT_UART: S3kPmpSlot = 1;
pub const APP_1_PMP_SLOT_BUFFER: S3kPmpSlot = 2;

// Memory of the second process and the buffer it shares.
pub const APP_1_BASE_ADDR: usize = 0x8011_0000;
pub const APP_1_SIZE: usize = 0x1_0000;
pub const SHARED_BUFFER_BASE: usize = 0x8012_0000;
pub const SHARED_BUFFER_SIZE: usize = 0x1_0000;

/// The slots searched for a free capability slot are `FREE_CAP_BEGIN..FREE_CAP_END`.
pub const FREE_CAP_BEGIN: u16 = 12;
pub const FREE_CAP_END: u16 = 20;

/// The next move of the search for a free capability slot.
#[derive(Debug, Clone, Copy)]
pub enum FreeCapStep {
    /// Read the capability in this slot, and hand back the outcome.
    Probe(S3kCidx),
    /// The search is over.
    Done(Result<S3kCidx, S3kErr>),
}

/// The search for a free capability slot, one read at a time.
///
/// Called with `None`, it asks for the first slot. Called with the slot just read and the
/// outcome of reading it as an empty capability, it answers that slot when the read reported
/// `Empty`, asks for the next slot while any is left, and reports `InvalidCapability` after
/// the last one.
pub fn find_free_cap(probed: Option<(S3kCidx, Result<(), S3kErr>)>) -> (r: FreeCapStep)
    requires
        probed matches Some((i, _)) ==> FREE_CAP_BEGIN <= i < FREE_CAP_END,
    ensures
        probed is None ==> r == FreeCapStep::Probe(FREE_CAP_BEGIN),
        probed matches Some((i, res)) ==> r == (
            if res == Err::<(), S3kErr>(S3kErr::Empty) {
                FreeCapStep::Done(Ok(i))
            } else if i + 1 < FREE_CAP_END {
                FreeCapStep::Probe((i + 1) as u16)
            } else {
                FreeCapStep::Done(Err(S3kErr::InvalidCapability))
            }
        ),
{
    match probed {
        None => FreeCapStep::Probe(FREE_CAP_BEGIN),
        Some((i, res)) => {
            let empty = match res {
                Err(e) => e == S3kErr::Empty,
                Ok(_) => false,
            };
            if empty {
                FreeCapStep::Done(Ok(i))
            } else if i + 1 < FREE_CAP_END {
                FreeCapStep::Probe(i + 1)
            } else {
                FreeCapStep::Done(Err(S3kErr::InvalidCapability))
            }
        },
    }
}

/// The base of the 2^27-byte region that contains `addr`.
pub open spec fn region_base(addr: usize) -> usize {
    ((addr >> 27usize) << 27usize) as usize
}

proof fn lemma_region_base(addr: usize)
    ensures
        region_base(addr) <= addr,
        addr - region_base(addr) < 0x800_0000,
        addr >> 27usize < 0x20_0000_0000,
{
    assert(((addr >> 27usize) << 27usize) <= addr) by (bit_vector);
    assert(addr - ((addr >> 27usize) << 27usize) < 0x800_0000) by (bit_vector);
    assert(addr >> 27usize < 0x20_0000_0000) by (bit_vector);
}

/// The NAPOT encoding of the naturally aligned region of `size` bytes at `base`, as a PMP
/// address register holds it.
pub fn s3k_napot_encode(base: S3kAddr, size: usize) -> (r: S3kNapot)
    requires
        size >= 2,
    ensures
        r == ((base | ((size / 2 - 1) as usize)) >> 2usize) as u64,
{
    ((base | (size / 2 - 1)) >> 2) as u64
}

/// A memory slice capability for the bytes from `bgn` to `end`.
///
/// The tag names the 2^27-byte region of `bgn`; `bgn` and `end` are stored as 4 KiB block
/// numbers within that region, the mark starts at `bgn`, and the slice is not locked.
pub fn s3k_mk_memory(bgn: usize, end: usize, rwx: S3kMemPerm) -> (r: MemCap)
    requires
        end >= region_base(bgn),
    ensures
        r.wf(),
        r.tag() == (bgn >> 27usize) as u8,
        r.bgn() == (((bgn - region_base(bgn)) as usize) >> 12usize) as u16,
        r.end() == (((end - region_base(bgn)) as usize) >> 12usize) as u16,
        r.mrk() == r.bgn(),
        r.rwx() == rwx@,
        !r.lck(),
{
    proof {
        lemma_region_base(bgn);
    }
    let tag = bgn >> S3K_MAX_BLOCK_SIZE;
    let bgn_block = ((bgn - (tag << S3K_MAX_BLOCK_SIZE)) >> S3K_MIN_BLOCK_SIZE) as u16;
    let end_block = ((end - (tag << S3K_MAX_BLOCK_SIZE)) >> S3K_MIN_BLOCK_SIZE) as u16;
    MemCap::new()
        .with_tag(tag as u8)
        .with_bgn(bgn_block)
        .with_end(end_block)
        .with_mrk(bgn_block)
        .with_rwx(rwx.bits())
        .with_lck(false)
}

/// A PMP frame capability for the NAPOT region `addr`, unused and in slot 0.
pub fn s3k_mk_pmp(addr: S3kNapot, rwx: S3kMemPerm) -> (r: PmpCap)
    requires
        addr < 0x1_0000_0000_0000,
    ensures
        r.wf(),
        r.addr() == addr,
        r.rwx() == rwx@,
        !r.used(),
        r.slot() == 0,
{
    PmpCap::new()
        .with_addr(addr)
        .with_rwx(rwx.bits())
        .with_used(false)
        .with_slot(0)
}

/// The encoding of a socket capability: type 6 in bits 0..4, the mode in bits 4..8, the
/// permissions in bits 8..16, the channel in bits 16..32 and the tag in bits 32..64.
pub open spec fn socket_raw(chan: u16, mode: S3kIpcMode, perm: u8, tag: u32) -> u64 {
    6u64 | ((mode.spec_into_bits() as u64) << 4u64) | ((perm as u64) << 8u64) | ((chan as u64) << 16u64)
        | ((tag as u64) << 32u64)
}

proof fn lemma_socket_fields(m: u64, p: u64, c: u64, t: u64)
    requires
        m < 2,
        p < 0x100,
        c < 0x1_0000,
        t < 0x1_0000_0000,
    ensures
        set_bits(set_bits(set_bits(set_bits(6u64, 16, 16, c), 4, 4, m), 8, 8, p), 32, 32, t)
            == 6u64 | (m << 4u64) | (p << 8u64) | (c << 16u64) | (t << 32u64),
{
    assert(set_bits(set_bits(set_bits(set_bits(6u64, 16, 16, c), 4, 4, m), 8, 8, p), 32, 32, t)
        == 6u64 | (m << 4u64) | (p << 8u64) | (c << 16u64) | (t << 32u64)) by (bit_vector)
        requires
            m < 2,
            p < 0x100,
            c < 0x1_0000,
            t < 0x1_0000_0000;
}

/// An IPC socket capability on channel `chan`.
pub fn s3k_mk_socket(chan: S3kChan, mode: S3kIpcMode, perm: S3kIpcPerm, tag: u32) -> (r: SockCap)
    ensures
        r@ == socket_raw(chan, mode, perm@, tag),
        r.wf(),
        get_bits(r@, 4, 4) == mode.spec_into_bits(),
        r.chan() == chan,
        r.mode() == mode,
        r.perm() == perm@,
        r.tag() == tag,
{
    let r = SockCap::new()
        .with_chan(chan)
        .with_mode(mode)
        .with_perm(perm.bits())
        .with_tag(tag);
    proof {
        lemma_socket_fields(mode.spec_into_bits() as u64, perm@ as u64, chan as u64, tag as u64);
    }
    r
}

/// The kernel calls that give this process access to the UART, in order: derive a PMP
/// capability for the 0x2000 bytes at the UART with read and write access into `UART_CAP`,
/// load it into PMP slot `UART_PMP`, and synchronize the PMP unit.
///
/// The first two calls must succeed; the outcome of the last is not looked at.
pub fn setup_uart_and_virtio() -> (r: Vec<SyscallRequest>)
    ensures
        r.len() == 3,
        r[0].call == crate::syscall::Syscall::CapDerive,
        r[0].args@.len() == 3,
        r[0].args@[0] == UART_MEM as u64,
        r[0].args@[1] == UART_CAP as u64,
        is_pmp_cap_raw(r[0].args@[2], 0x400_03ff, 3),
        r[0].retry_preempted,
        r[1].call == crate::syscall::Syscall::PmpLoad,
        r[1].args@ == seq![UART_CAP as u64, UART_PMP as u64],
        r[1].retry_preempted,
        r[2].call == crate::syscall::Syscall::Sync,
        r[2].args@ == seq![1u64],
{
    let uart_addr = s3k_napot_encode(UART0_BASE_ADDR, 0x2000);
    proof {
        assert(((0x1000_0000usize | 0xfffusize) >> 2usize) == 0x400_03ffusize) by (bit_vector);
    }
    let cap = s3k_mk_pmp(uart_addr, S3kMemPerm::from_bits_truncate(S3kMemPerm::RW));
    proof {
        assert(3u8 & 0x7 == 3) by (bit_vector);
        crate::bits::lemma_shift_values();
        crate::bits::lemma_get_bound(cap@, 4, 3);
        crate::bits::lemma_get_bound(cap@, 7, 1);
        crate::bits::lemma_get_bound(cap@, 8, 8);
    }
    let mut plan = Vec::new();
    plan.push(s3k_cap_derive(UART_MEM, UART_CAP, cap));
    plan.push(s3k_pmp_load(UART_CAP, UART_PMP));
    plan.push(s3k_sync_mem());
    plan
}

/// A raw PMP capability for the NAPOT region `addr` with permissions `rwx`, unused, in slot 0.
pub open spec fn is_pmp_cap_raw(raw: u64, addr: u64, rwx: u8) -> bool {
    &&& crate::ffi::cap_type_of(raw) == crate::ffi::CapType::Pmp
    &&& crate::bits::get_bits(raw, 16, 48) == addr
    &&& crate::bits::get_bits(raw, 4, 3) == rwx as u64
    &&& crate::bits::get_bits(raw, 7, 1) == 0
    &&& crate::bits::get_bits(raw, 8, 8) == 0
}

} // verus!
