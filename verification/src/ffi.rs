//! The kernel interface: error codes, permission sets, capability encodings,
//! messages and registers.
use vstd::prelude::*;
use crate::bits::{
    get_bits, set_bits, get_field, set_field, lemma_get_set_same, lemma_get_set_other,
    lemma_mask_small, lemma_get_bound, lemma_shift_values, lemma_low_nibble_only,
};

verus! {

/// Minimum logarithmic size of a memory slice.
pub const S3K_MIN_BLOCK_SIZE: usize = 12;

/// Maximum logarithmic size of a memory slice.
pub const S3K_MAX_BLOCK_SIZE: usize = 27;

pub type S3kNapot = u64;
pub type S3kAddr = usize;
pub type S3kState = u64;
pub type S3kBlock = u16;
pub type S3kChan = u16;
pub type S3kTimeSlot = u16;
pub type S3kPid = u16;
pub type S3kCidx = u16;
pub type S3kHart = u8;
pub type S3kTag = u8;
pub type S3kRwx = u8;
pub type S3kPmpSlot = u8;

/// An error the kernel reports, by its one-byte code.
#[derive(Debug, Clone, Copy, PartialEq, Eq, Structural)]
pub enum S3kErr {
    Success,
    Empty,
    SrcEmpty,
    DstOccupied,
    InvalidIndex,
    InvalidDerivation,
    InvalidMonitor,
    InvalidPid,
    InvalidState,
    InvalidPmp,
    InvalidSlot,
    InvalidSocket,
    InvalidSyscall,
    InvalidRegister,
    InvalidCapability,
    NoReceiver,
    Preempted,
    Timeout,
    Suspended,
    Unknown,
}

/// The one-byte code of each error, in declaration order from 0.
pub open spec fn err_code(e: S3kErr) -> u8 {
    match e {
        S3kErr::Success => 0,
        S3kErr::Empty => 1,
        S3kErr::SrcEmpty => 2,
        S3kErr::DstOccupied => 3,
        S3kErr::InvalidIndex => 4,
        S3kErr::InvalidDerivation => 5,
        S3kErr::InvalidMonitor => 6,
        S3kErr::InvalidPid => 7,
        S3kErr::InvalidState => 8,
        S3kErr::InvalidPmp => 9,
        S3kErr::InvalidSlot => 10,
        S3kErr::InvalidSocket => 11,
        S3kErr::InvalidSyscall => 12,
        S3kErr::InvalidRegister => 13,
        S3kErr::InvalidCapability => 14,
        S3kErr::NoReceiver => 15,
        S3kErr::Preempted => 16,
        S3kErr::Timeout => 17,
        S3kErr::Suspended => 18,
        S3kErr::Unknown => 19,
    }
}

/// The error a code names; a code above 19 names `Unknown`.
pub open spec fn err_of_code(c: u8) -> S3kErr {
    if c == 0 { S3kErr::Success }
    else if c == 1 { S3kErr::Empty }
    else if c == 2 { S3kErr::SrcEmpty }
    else if c == 3 { S3kErr::DstOccupied }
    else if c == 4 { S3kErr::InvalidIndex }
    else if c == 5 { S3kErr::InvalidDerivation }
    else if c == 6 { S3kErr::InvalidMonitor }
    else if c == 7 { S3kErr::InvalidPid }
    else if c == 8 { S3kErr::InvalidState }
    else if c == 9 { S3kErr::InvalidPmp }
    else if c == 10 { S3kErr::InvalidSlot }
    else if c == 11 { S3kErr::InvalidSocket }
    else if c == 12 { S3kErr::InvalidSyscall }
    else if c == 13 { S3kErr::InvalidRegister }
    else if c == 14 { S3kErr::InvalidCapability }
    else if c == 15 { S3kErr::NoReceiver }
    else if c == 16 { S3kErr::Preempted }
    else if c == 17 { S3kErr::Timeout }
    else if c == 18 { S3kErr::Suspended }
    else { S3kErr::Unknown }
}

impl S3kErr {
    /// The error for a code; unknown codes give `Unknown`.
    pub fn from_primitive(c: u8) -> (r: S3kErr)
        ensures
            r == err_of_code(c),
    {
        match c {
            0 => S3kErr::Success,
            1 => S3kErr::Empty,
            2 => S3kErr::SrcEmpty,
            3 => S3kErr::DstOccupied,
            4 => S3kErr::InvalidIndex,
            5 => S3kErr::InvalidDerivation,
            6 => S3kErr::InvalidMonitor,
            7 => S3kErr::InvalidPid,
            8 => S3kErr::InvalidState,
            9 => S3kErr::InvalidPmp,
            10 => S3kErr::InvalidSlot,
            11 => S3kErr::InvalidSocket,
            12 => S3kErr::InvalidSyscall,
            13 => S3kErr::InvalidRegister,
            14 => S3kErr::InvalidCapability,
            15 => S3kErr::NoReceiver,
            16 => S3kErr::Preempted,
            17 => S3kErr::Timeout,
            18 => S3kErr::Suspended,
            _ => S3kErr::Unknown,
        }
    }

    /// The one-byte code of this error.
    pub fn code(&self) -> (r: u8)
        ensures
            r == err_code(*self),
    {
        match self {
            S3kErr::Success => 0,
            S3kErr::Empty => 1,
            S3kErr::SrcEmpty => 2,
            S3kErr::DstOccupied => 3,
            S3kErr::InvalidIndex => 4,
            S3kErr::InvalidDerivation => 5,
            S3kErr::InvalidMonitor => 6,
            S3kErr::InvalidPid => 7,
            S3kErr::InvalidState => 8,
            S3kErr::InvalidPmp => 9,
            S3kErr::InvalidSlot => 10,
            S3kErr::InvalidSocket => 11,
            S3kErr::InvalidSyscall => 12,
            S3kErr::InvalidRegister => 13,
            S3kErr::InvalidCapability => 14,
            S3kErr::NoReceiver => 15,
            S3kErr::Preempted => 16,
            S3kErr::Timeout => 17,
            S3kErr::Suspended => 18,
            S3kErr::Unknown => 19,
        }
    }
}

/// Decoding the code of an error gives the error back; codes 0 to 19 are exactly the codes of errors.
pub proof fn lemma_err_code_roundtrip(e: S3kErr, c: u8)
    ensures
        err_of_code(err_code(e)) == e,
        c <= 19 ==> err_code(err_of_code(c)) == c,
        err_code(e) <= 19,
{
}

/// Memory access permissions, a set of the bits R = 0x1, W = 0x2 and X = 0x4.
#[derive(Debug, Clone, Copy, PartialEq, Eq, Structural)]
pub struct S3kMemPerm(u8);

impl S3kMemPerm {
    /// Only the three known flags can be set.
    #[verifier::type_invariant]
    closed spec fn known_flags_only(self) -> bool {
        self.0 <= 7
    }
}

impl View for S3kMemPerm {
    type V = u8;

    closed spec fn view(&self) -> u8 {
        self.0
    }
}

impl S3kMemPerm {
    pub const NONE: u8 = 0x0;
    pub const R: u8 = 0x1;
    pub const W: u8 = 0x2;
    pub const X: u8 = 0x4;
    pub const RW: u8 = 0x3;
    pub const RX: u8 = 0x5;
    pub const RWX: u8 = 0x7;

    /// The set of the known flags among `bits`.
    pub fn from_bits_truncate(bits: u8) -> (r: Self)
        ensures
            r@ == bits & 0x7,
    {
        proof {
            assert(bits & 0x7 <= 7) by (bit_vector);
        }
        S3kMemPerm(bits & 0x7)
    }

    /// The bits of the set.
    pub fn bits(&self) -> (r: u8)
        ensures
            r == self@,
            r <= 7,
    {
        proof {
            use_type_invariant(self);
        }
        self.0
    }
}

/// The mode of an IPC socket: whether the sender yields its time to the receiver.
#[derive(Debug, Clone, Copy, PartialEq, Eq, Structural)]
pub enum S3kIpcMode {
    NOYIELD,
    YIELD,
}

impl S3kIpcMode {
    pub open spec fn spec_from_bits(bits: u8) -> S3kIpcMode {
        if bits == 0 { S3kIpcMode::NOYIELD } else { S3kIpcMode::YIELD }
    }

    pub open spec fn spec_into_bits(self) -> u8 {
        match self {
            S3kIpcMode::NOYIELD => 0,
            S3kIpcMode::YIELD => 1,
        }
    }

    /// The mode that `bits` (0 or 1) encodes.
    pub fn from_bits(bits: u8) -> (r: Self)
        requires
            bits < 2,
        ensures
            r == Self::spec_from_bits(bits),
            r.spec_into_bits() == bits,
    {
        if bits == 0 { S3kIpcMode::NOYIELD } else { S3kIpcMode::YIELD }
    }

    /// The encoding of this mode.
    pub fn into_bits(self) -> (r: u8)
        ensures
            r == self.spec_into_bits(),
            Self::spec_from_bits(r) == self,
    {
        match self {
            S3kIpcMode::NOYIELD => 0,
            S3kIpcMode::YIELD => 1,
        }
    }
}

/// IPC socket permissions, a set of the bits SDATA = 0x1, SCAP = 0x2, CDATA = 0x4 and CCAP = 0x8.
#[derive(Debug, Clone, Copy, PartialEq, Eq, Structural)]
pub struct S3kIpcPerm(u8);

impl S3kIpcPerm {
    /// Only the four known flags can be set.
    #[verifier::type_invariant]
    closed spec fn known_flags_only(self) -> bool {
        self.0 <= 0xf
    }
}

impl View for S3kIpcPerm {
    type V = u8;

    closed spec fn view(&self) -> u8 {
        self.0
    }
}

impl S3kIpcPerm {
    pub const SDATA: u8 = 0x1;
    pub const SCAP: u8 = 0x2;
    pub const CDATA: u8 = 0x4;
    pub const CCAP: u8 = 0x8;

    /// The set of the known flags among `bits`.
    pub fn from_bits_truncate(bits: u8) -> (r: Self)
        ensures
            r@ == bits & 0xf,
            r@ <= 0xf,
    {
        proof {
            assert(bits & 0xf <= 0xf) by (bit_vector);
        }
        S3kIpcPerm(bits & 0xf)
    }

    /// The bits of the set.
    pub fn bits(&self) -> (r: u8)
        ensures
            r == self@,
            r <= 0xf,
    {
        proof {
            use_type_invariant(self);
        }
        self.0
    }
}

/// The kind of object a capability grants access to.
#[derive(Debug, Clone, Copy, PartialEq, Eq, Structural)]
pub enum CapType {
    /// No capability.
    Nil,
    /// Time slice capability.
    Time,
    /// Memory slice capability.
    Memory,
    /// PMP frame capability.
    Pmp,
    /// Monitor capability.
    Monitor,
    /// IPC channel capability.
    Channel,
    /// IPC socket capability.
    Socket,
}

/// The capability type that a 4-bit type code names; codes above 6 name `Nil`.
pub open spec fn cap_type_of_bits(bits: u8) -> CapType {
    if bits == 1 { CapType::Time }
    else if bits == 2 { CapType::Memory }
    else if bits == 3 { CapType::Pmp }
    else if bits == 4 { CapType::Monitor }
    else if bits == 5 { CapType::Channel }
    else if bits == 6 { CapType::Socket }
    else { CapType::Nil }
}

/// The capability type of a raw capability, read from its bits 0..4.
pub open spec fn cap_type_of(raw: u64) -> CapType {
    cap_type_of_bits(get_bits(raw, 0, 4) as u8)
}

impl CapType {
    pub open spec fn spec_into_bits(self) -> u8 {
        match self {
            CapType::Nil => 0,
            CapType::Time => 1,
            CapType::Memory => 2,
            CapType::Pmp => 3,
            CapType::Monitor => 4,
            CapType::Channel => 5,
            CapType::Socket => 6,
        }
    }

    /// The capability type a type code names.
    pub fn from_bits(bits: u8) -> (r: Self)
        ensures
            r == cap_type_of_bits(bits),
    {
        match bits {
            1 => CapType::Time,
            2 => CapType::Memory,
            3 => CapType::Pmp,
            4 => CapType::Monitor,
            5 => CapType::Channel,
            6 => CapType::Socket,
            _ => CapType::Nil,
        }
    }

    /// The type code of this capability type.
    pub fn into_bits(self) -> (r: u8)
        ensures
            r == self.spec_into_bits(),
            cap_type_of_bits(r) == self,
    {
        match self {
            CapType::Nil => 0,
            CapType::Time => 1,
            CapType::Memory => 2,
            CapType::Pmp => 3,
            CapType::Monitor => 4,
            CapType::Channel => 5,
            CapType::Socket => 6,
        }
    }
}

/// A capability with a 64-bit encoding whose type bits name one capability type.
pub trait S3kCap: Sized + Copy + Clone {
    /// The capability type of this kind of capability.
    spec fn spec_cap_type() -> CapType;

    /// The raw encoding of a capability.
    spec fn raw(&self) -> u64;

    /// Reads a capability from its raw encoding; fails when the type bits name another type.
    fn from_raw(raw: u64) -> (r: Result<Self, S3kErr>)
        ensures
            cap_type_of(raw) == Self::spec_cap_type() ==> (r matches Ok(c) && c.raw() == raw),
            cap_type_of(raw) != Self::spec_cap_type() ==> r == Err::<Self, S3kErr>(S3kErr::InvalidCapability),
    ;

    /// The raw encoding of this capability.
    fn as_raw(&self) -> (r: u64)
        ensures
            r == self.raw(),
    ;
}

/// An empty capability slot.
///
/// The capability type sits in bits 0..4; the fields follow, least significant bit first.
#[derive(Clone, Copy, Debug)]
pub struct EmptyCap(u64);

impl View for EmptyCap {
    type V = u64;

    /// The raw 64-bit encoding.
    closed spec fn view(&self) -> u64 {
        self.0
    }
}

impl EmptyCap {
    /// The capability type of every well-formed value of this type.
    pub open spec fn spec_cap_type() -> CapType {
        CapType::Nil
    }

    /// The type bits name this capability type.
    pub open spec fn wf(&self) -> bool {
        cap_type_of(self@) == CapType::Nil
    }

    /// A capability with the type set and every other field zero.
    pub fn new() -> (r: Self)
        ensures
            r.wf(),
            r@ == 0,
    {
        proof {
            lemma_shift_values();
            lemma_low_nibble_only(0u64, 0, 4);
        }
        EmptyCap(0)
    }

    /// Two capabilities are equal exactly when their encodings are.
    pub proof fn lemma_view_eq(a: Self, b: Self)
        ensures
            a@ == b@ <==> a == b,
    {
    }
}

impl S3kCap for EmptyCap {
    open spec fn spec_cap_type() -> CapType {
        CapType::Nil
    }

    open spec fn raw(&self) -> u64 {
        self@
    }

    fn from_raw(raw: u64) -> (r: Result<Self, S3kErr>) {
        let c = EmptyCap(raw);
        if c.ty() == CapType::Nil {
            Ok(c)
        } else {
            Err(S3kErr::InvalidCapability)
        }
    }

    fn as_raw(&self) -> (r: u64) {
        self.0
    }
}

impl EmptyCap {
    /// The capability type named by the type bits.
    fn ty(&self) -> (r: CapType)
        ensures
            r == cap_type_of(self@),
    {
        CapType::from_bits(get_field(self.0, 0, 4) as u8)
    }
}

/// A time slice capability.
///
/// The capability type sits in bits 0..4; the fields follow, least significant bit first.
#[derive(Clone, Copy, Debug)]
pub struct TimeCap(u64);

impl View for TimeCap {
    type V = u64;

    /// The raw 64-bit encoding.
    closed spec fn view(&self) -> u64 {
        self.0
    }
}

impl TimeCap {
    /// The capability type of every well-formed value of this type.
    pub open spec fn spec_cap_type() -> CapType {
        CapType::Time
    }

    /// The type bits name this capability type.
    pub open spec fn wf(&self) -> bool {
        cap_type_of(self@) == CapType::Time
    }

    /// A capability with the type set and every other field zero.
    pub fn new() -> (r: Self)
        ensures
            r.wf(),
            r@ == 1,
            r.hart() == 0,
            r.bgn() == 0,
            r.mrk() == 0,
            r.end() == 0,
    {
        proof {
            lemma_shift_values();
            lemma_low_nibble_only(1u64, 0, 4);
            lemma_low_nibble_only(1u64, 8, 8);
            lemma_low_nibble_only(1u64, 16, 16);
            lemma_low_nibble_only(1u64, 32, 16);
            lemma_low_nibble_only(1u64, 48, 16);
        }
        TimeCap(1)
    }

    /// The `hart` field (bits 8..16).
    #[verifier::allow_in_spec]
    pub fn hart(&self) -> u8
        returns
            (get_bits(self@, 8, 8) as u8),
    {
        get_field(self.0, 8, 8) as u8
    }

    /// This capability with the `hart` field replaced by `v`; the other fields are kept.
    pub fn with_hart(self, v: u8) -> (r: Self)
        ensures
            r@ == set_bits(self@, 8, 8, v as u64),
            self.wf() ==> r.wf(),
            r.hart() == v,
            r.bgn() == self.bgn(),
            r.mrk() == self.mrk(),
            r.end() == self.end(),
    {
        let bits: u64 = v as u64;
        proof {
            lemma_shift_values();
            lemma_get_set_same(self.0, 8, 8, bits);
            lemma_get_bound(set_bits(self.0, 8, 8, bits), 8, 8);
            assert(bits < (1u64 << 8u64));
            lemma_mask_small(bits, 8);
            lemma_get_set_other(self.0, 8, 8, bits, 0, 4);
            lemma_get_set_other(self.0, 8, 8, bits, 16, 16);
            lemma_get_set_other(self.0, 8, 8, bits, 32, 16);
            lemma_get_set_other(self.0, 8, 8, bits, 48, 16);
        }
        TimeCap(set_field(self.0, 8, 8, bits))
    }

    /// The `bgn` field (bits 16..32).
    #[verifier::allow_in_spec]
    pub fn bgn(&self) -> u16
        returns
            (get_bits(self@, 16, 16) as u16),
    {
        get_field(self.0, 16, 16) as u16
    }

    /// This capability with the `bgn` field replaced by `v`; the other fields are kept.
    pub fn with_bgn(self, v: u16) -> (r: Self)
        ensures
            r@ == set_bits(self@, 16, 16, v as u64),
            self.wf() ==> r.wf(),
            r.bgn() == v,
            r.hart() == self.hart(),
            r.mrk() == self.mrk(),
            r.end() == self.end(),
    {
        let bits: u64 = v as u64;
        proof {
            lemma_shift_values();
            lemma_get_set_same(self.0, 16, 16, bits);
            lemma_get_bound(set_bits(self.0, 16, 16, bits), 16, 16);
            assert(bits < (1u64 << 16u64));
            lemma_mask_small(bits, 16);
            lemma_get_set_other(self.0, 16, 16, bits, 0, 4);
            lemma_get_set_other(self.0, 16, 16, bits, 8, 8);
            lemma_get_set_other(self.0, 16, 16, bits, 32, 16);
            lemma_get_set_other(self.0, 16, 16, bits, 48, 16);
        }
        TimeCap(set_field(self.0, 16, 16, bits))
    }

    /// The `mrk` field (bits 32..48).
    #[verifier::allow_in_spec]
    pub fn mrk(&self) -> u16
        returns
            (get_bits(self@, 32, 16) as u16),
    {
        get_field(self.0, 32, 16) as u16
    }

    /// This capability with the `mrk` field replaced by `v`; the other fields are kept.
    pub fn with_mrk(self, v: u16) -> (r: Self)
        ensures
            r@ == set_bits(self@, 32, 16, v as u64),
            self.wf() ==> r.wf(),
            r.mrk() == v,
            r.hart() == self.hart(),
            r.bgn() == self.bgn(),
            r.end() == self.end(),
    {
        let bits: u64 = v as u64;
        proof {
            lemma_shift_values();
            lemma_get_set_same(self.0, 32, 16, bits);
            lemma_get_bound(set_bits(self.0, 32, 16, bits), 32, 16);
            assert(bits < (1u64 << 16u64));
            lemma_mask_small(bits, 16);
            lemma_get_set_other(self.0, 32, 16, bits, 0, 4);
            lemma_get_set_other(self.0, 32, 16, bits, 8, 8);
            lemma_get_set_other(self.0, 32, 16, bits, 16, 16);
            lemma_get_set_other(self.0, 32, 16, bits, 48, 16);
        }
        TimeCap(set_field(self.0, 32, 16, bits))
    }

    /// The `end` field (bits 48..64).
    #[verifier::allow_in_spec]
    pub fn end(&self) -> u16
        returns
            (get_bits(self@, 48, 16) as u16),
    {
        get_field(self.0, 48, 16) as u16
    }

    /// This capability with the `end` field replaced by `v`; the other fields are kept.
    pub fn with_end(self, v: u16) -> (r: Self)
        ensures
            r@ == set_bits(self@, 48, 16, v as u64),
            self.wf() ==> r.wf(),
            r.end() == v,
            r.hart() == self.hart(),
            r.bgn() == self.bgn(),
            r.mrk() == self.mrk(),
    {
        let bits: u64 = v as u64;
        proof {
            lemma_shift_values();
            lemma_get_set_same(self.0, 48, 16, bits);
            lemma_get_bound(set_bits(self.0, 48, 16, bits), 48, 16);
            assert(bits < (1u64 << 16u64));
            lemma_mask_small(bits, 16);
            lemma_get_set_other(self.0, 48, 16, bits, 0, 4);
            lemma_get_set_other(self.0, 48, 16, bits, 8, 8);
            lemma_get_set_other(self.0, 48, 16, bits, 16, 16);
            lemma_get_set_other(self.0, 48, 16, bits, 32, 16);
        }
        TimeCap(set_field(self.0, 48, 16, bits))
    }

    /// Two capabilities are equal exactly when their encodings are.
    pub proof fn lemma_view_eq(a: Self, b: Self)
        ensures
            a@ == b@ <==> a == b,
    {
    }
}

impl S3kCap for TimeCap {
    open spec fn spec_cap_type() -> CapType {
        CapType::Time
    }

    open spec fn raw(&self) -> u64 {
        self@
    }

    fn from_raw(raw: u64) -> (r: Result<Self, S3kErr>) {
        let c = TimeCap(raw);
        if c.ty() == CapType::Time {
            Ok(c)
        } else {
            Err(S3kErr::InvalidCapability)
        }
    }

    fn as_raw(&self) -> (r: u64) {
        self.0
    }
}

impl TimeCap {
    /// The capability type named by the type bits.
    fn ty(&self) -> (r: CapType)
        ensures
            r == cap_type_of(self@),
    {
        CapType::from_bits(get_field(self.0, 0, 4) as u8)
    }
}

/// A memory slice capability.
///
/// The capability type sits in bits 0..4; the fields follow, least significant bit first.
#[derive(Clone, Copy, Debug)]
pub struct MemCap(u64);

impl View for MemCap {
    type V = u64;

    /// The raw 64-bit encoding.
    closed spec fn view(&self) -> u64 {
        self.0
    }
}

impl MemCap {
    /// The capability type of every well-formed value of this type.
    pub open spec fn spec_cap_type() -> CapType {
        CapType::Memory
    }

    /// The type bits name this capability type.
    pub open spec fn wf(&self) -> bool {
        cap_type_of(self@) == CapType::Memory
    }

    /// A capability with the type set and every other field zero.
    pub fn new() -> (r: Self)
        ensures
            r.wf(),
            r@ == 2,
            r.rwx() == 0,
            !r.lck(),
            r.tag() == 0,
            r.bgn() == 0,
            r.mrk() == 0,
            r.end() == 0,
    {
        proof {
            lemma_shift_values();
            lemma_low_nibble_only(2u64, 0, 4);
            lemma_low_nibble_only(2u64, 4, 3);
            lemma_low_nibble_only(2u64, 7, 1);
            lemma_low_nibble_only(2u64, 8, 8);
            lemma_low_nibble_only(2u64, 16, 16);
            lemma_low_nibble_only(2u64, 32, 16);
            lemma_low_nibble_only(2u64, 48, 16);
        }
        MemCap(2)
    }

    /// The `rwx` field (bits 4..7).
    #[verifier::allow_in_spec]
    pub fn rwx(&self) -> u8
        returns
            (get_bits(self@, 4, 3) as u8),
    {
        get_field(self.0, 4, 3) as u8
    }

    /// This capability with the `rwx` field replaced by `v`; the other fields are kept.
    pub fn with_rwx(self, v: u8) -> (r: Self)
        requires
            v < 0x8,
        ensures
            r@ == set_bits(self@, 4, 3, v as u64),
            self.wf() ==> r.wf(),
            r.rwx() == v,
            r.lck() == self.lck(),
            r.tag() == self.tag(),
            r.bgn() == self.bgn(),
            r.mrk() == self.mrk(),
            r.end() == self.end(),
    {
        let bits: u64 = v as u64;
        proof {
            lemma_shift_values();
            lemma_get_set_same(self.0, 4, 3, bits);
            lemma_get_bound(set_bits(self.0, 4, 3, bits), 4, 3);
            lemma_mask_small(bits, 3);
            lemma_get_set_other(self.0, 4, 3, bits, 0, 4);
            lemma_get_set_other(self.0, 4, 3, bits, 7, 1);
            lemma_get_set_other(self.0, 4, 3, bits, 8, 8);
            lemma_get_set_other(self.0, 4, 3, bits, 16, 16);
            lemma_get_set_other(self.0, 4, 3, bits, 32, 16);
            lemma_get_set_other(self.0, 4, 3, bits, 48, 16);
        }
        MemCap(set_field(self.0, 4, 3, bits))
    }

    /// The `lck` field (bits 7..8).
    #[verifier::allow_in_spec]
    pub fn lck(&self) -> bool
        returns
            (get_bits(self@, 7, 1) == 1),
    {
        get_field(self.0, 7, 1) == 1
    }

    /// This capability with the `lck` field replaced by `v`; the other fields are kept.
    pub fn with_lck(self, v: bool) -> (r: Self)
        ensures
            r@ == set_bits(self@, 7, 1, (if v { 1u64 } else { 0u64 })),
            self.wf() ==> r.wf(),
            r.lck() == v,
            r.rwx() == self.rwx(),
            r.tag() == self.tag(),
            r.bgn() == self.bgn(),
            r.mrk() == self.mrk(),
            r.end() == self.end(),
    {
        let bits: u64 = if v { 1u64 } else { 0u64 };
        proof {
            lemma_shift_values();
            lemma_get_set_same(self.0, 7, 1, bits);
            lemma_get_bound(set_bits(self.0, 7, 1, bits), 7, 1);
            assert(bits < 2);
            lemma_mask_small(bits, 1);
            lemma_get_set_other(self.0, 7, 1, bits, 0, 4);
            lemma_get_set_other(self.0, 7, 1, bits, 4, 3);
            lemma_get_set_other(self.0, 7, 1, bits, 8, 8);
            lemma_get_set_other(self.0, 7, 1, bits, 16, 16);
            lemma_get_set_other(self.0, 7, 1, bits, 32, 16);
            lemma_get_set_other(self.0, 7, 1, bits, 48, 16);
        }
        MemCap(set_field(self.0, 7, 1, bits))
    }

    /// The `tag` field (bits 8..16).
    #[verifier::allow_in_spec]
    pub fn tag(&self) -> u8
        returns
            (get_bits(self@, 8, 8) as u8),
    {
        get_field(self.0, 8, 8) as u8
    }

    /// This capability with the `tag` field replaced by `v`; the other fields are kept.
    pub fn with_tag(self, v: u8) -> (r: Self)
        ensures
            r@ == set_bits(self@, 8, 8, v as u64),
            self.wf() ==> r.wf(),
            r.tag() == v,
            r.rwx() == self.rwx(),
            r.lck() == self.lck(),
            r.bgn() == self.bgn(),
            r.mrk() == self.mrk(),
            r.end() == self.end(),
    {
        let bits: u64 = v as u64;
        proof {
            lemma_shift_values();
            lemma_get_set_same(self.0, 8, 8, bits);
            lemma_get_bound(set_bits(self.0, 8, 8, bits), 8, 8);
            assert(bits < (1u64 << 8u64));
            lemma_mask_small(bits, 8);
            lemma_get_set_other(self.0, 8, 8, bits, 0, 4);
            lemma_get_set_other(self.0, 8, 8, bits, 4, 3);
            lemma_get_set_other(self.0, 8, 8, bits, 7, 1);
            lemma_get_set_other(self.0, 8, 8, bits, 16, 16);
            lemma_get_set_other(self.0, 8, 8, bits, 32, 16);
            lemma_get_set_other(self.0, 8, 8, bits, 48, 16);
        }
        MemCap(set_field(self.0, 8, 8, bits))
    }

    /// The `bgn` field (bits 16..32).
    #[verifier::allow_in_spec]
    pub fn bgn(&self) -> u16
        returns
            (get_bits(self@, 16, 16) as u16),
    {
        get_field(self.0, 16, 16) as u16
    }

    /// This capability with the `bgn` field replaced by `v`; the other fields are kept.
    pub fn with_bgn(self, v: u16) -> (r: Self)
        ensures
            r@ == set_bits(self@, 16, 16, v as u64),
            self.wf() ==> r.wf(),
            r.bgn() == v,
            r.rwx() == self.rwx(),
            r.lck() == self.lck(),
            r.tag() == self.tag(),
            r.mrk() == self.mrk(),
            r.end() == self.end(),
    {
        let bits: u64 = v as u64;
        proof {
            lemma_shift_values();
            lemma_get_set_same(self.0, 16, 16, bits);
            lemma_get_bound(set_bits(self.0, 16, 16, bits), 16, 16);
            assert(bits < (1u64 << 16u64));
            lemma_mask_small(bits, 16);
            lemma_get_set_other(self.0, 16, 16, bits, 0, 4);
            lemma_get_set_other(self.0, 16, 16, bits, 4, 3);
            lemma_get_set_other(self.0, 16, 16, bits, 7, 1);
            lemma_get_set_other(self.0, 16, 16, bits, 8, 8);
            lemma_get_set_other(self.0, 16, 16, bits, 32, 16);
            lemma_get_set_other(self.0, 16, 16, bits, 48, 16);
        }
        MemCap(set_field(self.0, 16, 16, bits))
    }

    /// The `mrk` field (bits 32..48).
    #[verifier::allow_in_spec]
    pub fn mrk(&self) -> u16
        returns
            (get_bits(self@, 32, 16) as u16),
    {
        get_field(self.0, 32, 16) as u16
    }

    /// This capability with the `mrk` field replaced by `v`; the other fields are kept.
    pub fn with_mrk(self, v: u16) -> (r: Self)
        ensures
            r@ == set_bits(self@, 32, 16, v as u64),
            self.wf() ==> r.wf(),
            r.mrk() == v,
            r.rwx() == self.rwx(),
            r.lck() == self.lck(),
            r.tag() == self.tag(),
            r.bgn() == self.bgn(),
            r.end() == self.end(),
    {
        let bits: u64 = v as u64;
        proof {
            lemma_shift_values();
            lemma_get_set_same(self.0, 32, 16, bits);
            lemma_get_bound(set_bits(self.0, 32, 16, bits), 32, 16);
            assert(bits < (1u64 << 16u64));
            lemma_mask_small(bits, 16);
            lemma_get_set_other(self.0, 32, 16, bits, 0, 4);
            lemma_get_set_other(self.0, 32, 16, bits, 4, 3);
            lemma_get_set_other(self.0, 32, 16, bits, 7, 1);
            lemma_get_set_other(self.0, 32, 16, bits, 8, 8);
            lemma_get_set_other(self.0, 32, 16, bits, 16, 16);
            lemma_get_set_other(self.0, 32, 16, bits, 48, 16);
        }
        MemCap(set_field(self.0, 32, 16, bits))
    }

    /// The `end` field (bits 48..64).
    #[verifier::allow_in_spec]
    pub fn end(&self) -> u16
        returns
            (get_bits(self@, 48, 16) as u16),
    {
        get_field(self.0, 48, 16) as u16
    }

    /// This capability with the `end` field replaced by `v`; the other fields are kept.
    pub fn with_end(self, v: u16) -> (r: Self)
        ensures
            r@ == set_bits(self@, 48, 16, v as u64),
            self.wf() ==> r.wf(),
            r.end() == v,
            r.rwx() == self.rwx(),
            r.lck() == self.lck(),
            r.tag() == self.tag(),
            r.bgn() == self.bgn(),
            r.mrk() == self.mrk(),
    {
        let bits: u64 = v as u64;
        proof {
            lemma_shift_values();
            lemma_get_set_same(self.0, 48, 16, bits);
            lemma_get_bound(set_bits(self.0, 48, 16, bits), 48, 16);
            assert(bits < (1u64 << 16u64));
            lemma_mask_small(bits, 16);
            lemma_get_set_other(self.0, 48, 16, bits, 0, 4);
            lemma_get_set_other(self.0, 48, 16, bits, 4, 3);
            lemma_get_set_other(self.0, 48, 16, bits, 7, 1);
            lemma_get_set_other(self.0, 48, 16, bits, 8, 8);
            lemma_get_set_other(self.0, 48, 16, bits, 16, 16);
            lemma_get_set_other(self.0, 48, 16, bits, 32, 16);
        }
        MemCap(set_field(self.0, 48, 16, bits))
    }

    /// Two capabilities are equal exactly when their encodings are.
    pub proof fn lemma_view_eq(a: Self, b: Self)
        ensures
            a@ == b@ <==> a == b,
    {
    }
}

impl S3kCap for MemCap {
    open spec fn spec_cap_type() -> CapType {
        CapType::Memory
    }

    open spec fn raw(&self) -> u64 {
        self@
    }

    fn from_raw(raw: u64) -> (r: Result<Self, S3kErr>) {
        let c = MemCap(raw);
        if c.ty() == CapType::Memory {
            Ok(c)
        } else {
            Err(S3kErr::InvalidCapability)
        }
    }

    fn as_raw(&self) -> (r: u64) {
        self.0
    }
}

impl MemCap {
    /// The capability type named by the type bits.
    fn ty(&self) -> (r: CapType)
        ensures
            r == cap_type_of(self@),
    {
        CapType::from_bits(get_field(self.0, 0, 4) as u8)
    }
}

/// A PMP frame capability.
///
/// The capability type sits in bits 0..4; the fields follow, least significant bit first.
#[derive(Clone, Copy, Debug)]
pub struct PmpCap(u64);

impl View for PmpCap {
    type V = u64;

    /// The raw 64-bit encoding.
    closed spec fn view(&self) -> u64 {
        self.0
    }
}

impl PmpCap {
    /// The capability type of every well-formed value of this type.
    pub open spec fn spec_cap_type() -> CapType {
        CapType::Pmp
    }

    /// The type bits name this capability type.
    pub open spec fn wf(&self) -> bool {
        cap_type_of(self@) == CapType::Pmp
    }

    /// A capability with the type set and every other field zero.
    pub fn new() -> (r: Self)
        ensures
            r.wf(),
            r@ == 3,
            r.rwx() == 0,
            !r.used(),
            r.slot() == 0,
            r.addr() == 0,
    {
        proof {
            lemma_shift_values();
            lemma_low_nibble_only(3u64, 0, 4);
            lemma_low_nibble_only(3u64, 4, 3);
            lemma_low_nibble_only(3u64, 7, 1);
            lemma_low_nibble_only(3u64, 8, 8);
            lemma_low_nibble_only(3u64, 16, 48);
        }
        PmpCap(3)
    }

    /// The `rwx` field (bits 4..7).
    #[verifier::allow_in_spec]
    pub fn rwx(&self) -> u8
        returns
            (get_bits(self@, 4, 3) as u8),
    {
        get_field(self.0, 4, 3) as u8
    }

    /// This capability with the `rwx` field replaced by `v`; the other fields are kept.
    pub fn with_rwx(self, v: u8) -> (r: Self)
        requires
            v < 0x8,
        ensures
            r@ == set_bits(self@, 4, 3, v as u64),
            self.wf() ==> r.wf(),
            r.rwx() == v,
            r.used() == self.used(),
            r.slot() == self.slot(),
            r.addr() == self.addr(),
    {
        let bits: u64 = v as u64;
        proof {
            lemma_shift_values();
            lemma_get_set_same(self.0, 4, 3, bits);
            lemma_get_bound(set_bits(self.0, 4, 3, bits), 4, 3);
            lemma_mask_small(bits, 3);
            lemma_get_set_other(self.0, 4, 3, bits, 0, 4);
            lemma_get_set_other(self.0, 4, 3, bits, 7, 1);
            lemma_get_set_other(self.0, 4, 3, bits, 8, 8);
            lemma_get_set_other(self.0, 4, 3, bits, 16, 48);
        }
        PmpCap(set_field(self.0, 4, 3, bits))
    }

    /// The `used` field (bits 7..8).
    #[verifier::allow_in_spec]
    pub fn used(&self) -> bool
        returns
            (get_bits(self@, 7, 1) == 1),
    {
        get_field(self.0, 7, 1) == 1
    }

    /// This capability with the `used` field replaced by `v`; the other fields are kept.
    pub fn with_used(self, v: bool) -> (r: Self)
        ensures
            r@ == set_bits(self@, 7, 1, (if v { 1u64 } else { 0u64 })),
            self.wf() ==> r.wf(),
            r.used() == v,
            r.rwx() == self.rwx(),
            r.slot() == self.slot(),
            r.addr() == self.addr(),
    {
        let bits: u64 = if v { 1u64 } else { 0u64 };
        proof {
            lemma_shift_values();
            lemma_get_set_same(self.0, 7, 1, bits);
            lemma_get_bound(set_bits(self.0, 7, 1, bits), 7, 1);
            assert(bits < 2);
            lemma_mask_small(bits, 1);
            lemma_get_set_other(self.0, 7, 1, bits, 0, 4);
            lemma_get_set_other(self.0, 7, 1, bits, 4, 3);
            lemma_get_set_other(self.0, 7, 1, bits, 8, 8);
            lemma_get_set_other(self.0, 7, 1, bits, 16, 48);
        }
        PmpCap(set_field(self.0, 7, 1, bits))
    }

    /// The `slot` field (bits 8..16).
    #[verifier::allow_in_spec]
    pub fn slot(&self) -> u8
        returns
            (get_bits(self@, 8, 8) as u8),
    {
        get_field(self.0, 8, 8) as u8
    }

    /// This capability with the `slot` field replaced by `v`; the other fields are kept.
    pub fn with_slot(self, v: u8) -> (r: Self)
        ensures
            r@ == set_bits(self@, 8, 8, v as u64),
            self.wf() ==> r.wf(),
            r.slot() == v,
            r.rwx() == self.rwx(),
            r.used() == self.used(),
            r.addr() == self.addr(),
    {
        let bits: u64 = v as u64;
        proof {
            lemma_shift_values();
            lemma_get_set_same(self.0, 8, 8, bits);
            lemma_get_bound(set_bits(self.0, 8, 8, bits), 8, 8);
            assert(bits < (1u64 << 8u64));
            lemma_mask_small(bits, 8);
            lemma_get_set_other(self.0, 8, 8, bits, 0, 4);
            lemma_get_set_other(self.0, 8, 8, bits, 4, 3);
            lemma_get_set_other(self.0, 8, 8, bits, 7, 1);
            lemma_get_set_other(self.0, 8, 8, bits, 16, 48);
        }
        PmpCap(set_field(self.0, 8, 8, bits))
    }

    /// The `addr` field (bits 16..64).
    #[verifier::allow_in_spec]
    pub fn addr(&self) -> u64
        returns
            (get_bits(self@, 16, 48) as u64),
    {
        get_field(self.0, 16, 48) as u64
    }

    /// This capability with the `addr` field replaced by `v`; the other fields are kept.
    pub fn with_addr(self, v: u64) -> (r: Self)
        requires
            v < 0x1000000000000,
        ensures
            r@ == set_bits(self@, 16, 48, v as u64),
            self.wf() ==> r.wf(),
            r.addr() == v,
            r.rwx() == self.rwx(),
            r.used() == self.used(),
            r.slot() == self.slot(),
    {
        let bits: u64 = v as u64;
        proof {
            lemma_shift_values();
            lemma_get_set_same(self.0, 16, 48, bits);
            lemma_get_bound(set_bits(self.0, 16, 48, bits), 16, 48);
            lemma_mask_small(bits, 48);
            lemma_get_set_other(self.0, 16, 48, bits, 0, 4);
            lemma_get_set_other(self.0, 16, 48, bits, 4, 3);
            lemma_get_set_other(self.0, 16, 48, bits, 7, 1);
            lemma_get_set_other(self.0, 16, 48, bits, 8, 8);
        }
        PmpCap(set_field(self.0, 16, 48, bits))
    }

    /// Two capabilities are equal exactly when their encodings are.
    pub proof fn lemma_view_eq(a: Self, b: Self)
        ensures
            a@ == b@ <==> a == b,
    {
    }
}

impl S3kCap for PmpCap {
    open spec fn spec_cap_type() -> CapType {
        CapType::Pmp
    }

    open spec fn raw(&self) -> u64 {
        self@
    }

    fn from_raw(raw: u64) -> (r: Result<Self, S3kErr>) {
        let c = PmpCap(raw);
        if c.ty() == CapType::Pmp {
            Ok(c)
        } else {
            Err(S3kErr::InvalidCapability)
        }
    }

    fn as_raw(&self) -> (r: u64) {
        self.0
    }
}

impl PmpCap {
    /// The capability type named by the type bits.
    fn ty(&self) -> (r: CapType)
        ensures
            r == cap_type_of(self@),
    {
        CapType::from_bits(get_field(self.0, 0, 4) as u8)
    }
}

/// A monitor capability over a range of processes.
///
/// The capability type sits in bits 0..4; the fields follow, least significant bit first.
#[derive(Clone, Copy, Debug)]
pub struct MonCap(u64);

impl View for MonCap {
    type V = u64;

    /// The raw 64-bit encoding.
    closed spec fn view(&self) -> u64 {
        self.0
    }
}

impl MonCap {
    /// The capability type of every well-formed value of this type.
    pub open spec fn spec_cap_type() -> CapType {
        CapType::Monitor
    }

    /// The type bits name this capability type.
    pub open spec fn wf(&self) -> bool {
        cap_type_of(self@) == CapType::Monitor
    }

    /// A capability with the type set and every other field zero.
    pub fn new() -> (r: Self)
        ensures
            r.wf(),
            r@ == 4,
            r.bgn() == 0,
            r.mrk() == 0,
            r.end() == 0,
    {
        proof {
            lemma_shift_values();
            lemma_low_nibble_only(4u64, 0, 4);
            lemma_low_nibble_only(4u64, 16, 16);
            lemma_low_nibble_only(4u64, 32, 16);
            lemma_low_nibble_only(4u64, 48, 16);
        }
        MonCap(4)
    }

    /// The `bgn` field (bits 16..32).
    #[verifier::allow_in_spec]
    pub fn bgn(&self) -> u16
        returns
            (get_bits(self@, 16, 16) as u16),
    {
        get_field(self.0, 16, 16) as u16
    }

    /// This capability with the `bgn` field replaced by `v`; the other fields are kept.
    pub fn with_bgn(self, v: u16) -> (r: Self)
        ensures
            r@ == set_bits(self@, 16, 16, v as u64),
            self.wf() ==> r.wf(),
            r.bgn() == v,
            r.mrk() == self.mrk(),
            r.end() == self.end(),
    {
        let bits: u64 = v as u64;
        proof {
            lemma_shift_values();
            lemma_get_set_same(self.0, 16, 16, bits);
            lemma_get_bound(set_bits(self.0, 16, 16, bits), 16, 16);
            assert(bits < (1u64 << 16u64));
            lemma_mask_small(bits, 16);
            lemma_get_set_other(self.0, 16, 16, bits, 0, 4);
            lemma_get_set_other(self.0, 16, 16, bits, 32, 16);
            lemma_get_set_other(self.0, 16, 16, bits, 48, 16);
        }
        MonCap(set_field(self.0, 16, 16, bits))
    }

    /// The `mrk` field (bits 32..48).
    #[verifier::allow_in_spec]
    pub fn mrk(&self) -> u16
        returns
            (get_bits(self@, 32, 16) as u16),
    {
        get_field(self.0, 32, 16) as u16
    }

    /// This capability with the `mrk` field replaced by `v`; the other fields are kept.
    pub fn with_mrk(self, v: u16) -> (r: Self)
        ensures
            r@ == set_bits(self@, 32, 16, v as u64),
            self.wf() ==> r.wf(),
            r.mrk() == v,
            r.bgn() == self.bgn(),
            r.end() == self.end(),
    {
        let bits: u64 = v as u64;
        proof {
            lemma_shift_values();
            lemma_get_set_same(self.0, 32, 16, bits);
            lemma_get_bound(set_bits(self.0, 32, 16, bits), 32, 16);
            assert(bits < (1u64 << 16u64));
            lemma_mask_small(bits, 16);
            lemma_get_set_other(self.0, 32, 16, bits, 0, 4);
            lemma_get_set_other(self.0, 32, 16, bits, 16, 16);
            lemma_get_set_other(self.0, 32, 16, bits, 48, 16);
        }
        MonCap(set_field(self.0, 32, 16, bits))
    }

    /// The `end` field (bits 48..64).
    #[verifier::allow_in_spec]
    pub fn end(&self) -> u16
        returns
            (get_bits(self@, 48, 16) as u16),
    {
        get_field(self.0, 48, 16) as u16
    }

    /// This capability with the `end` field replaced by `v`; the other fields are kept.
    pub fn with_end(self, v: u16) -> (r: Self)
        ensures
            r@ == set_bits(self@, 48, 16, v as u64),
            self.wf() ==> r.wf(),
            r.end() == v,
            r.bgn() == self.bgn(),
            r.mrk() == self.mrk(),
    {
        let bits: u64 = v as u64;
        proof {
            lemma_shift_values();
            lemma_get_set_same(self.0, 48, 16, bits);
            lemma_get_bound(set_bits(self.0, 48, 16, bits), 48, 16);
            assert(bits < (1u64 << 16u64));
            lemma_mask_small(bits, 16);
            lemma_get_set_other(self.0, 48, 16, bits, 0, 4);
            lemma_get_set_other(self.0, 48, 16, bits, 16, 16);
            lemma_get_set_other(self.0, 48, 16, bits, 32, 16);
        }
        MonCap(set_field(self.0, 48, 16, bits))
    }

    /// Two capabilities are equal exactly when their encodings are.
    pub proof fn lemma_view_eq(a: Self, b: Self)
        ensures
            a@ == b@ <==> a == b,
    {
    }
}

impl S3kCap for MonCap {
    open spec fn spec_cap_type() -> CapType {
        CapType::Monitor
    }

    open spec fn raw(&self) -> u64 {
        self@
    }

    fn from_raw(raw: u64) -> (r: Result<Self, S3kErr>) {
        let c = MonCap(raw);
        if c.ty() == CapType::Monitor {
            Ok(c)
        } else {
            Err(S3kErr::InvalidCapability)
        }
    }

    fn as_raw(&self) -> (r: u64) {
        self.0
    }
}

impl MonCap {
    /// The capability type named by the type bits.
    fn ty(&self) -> (r: CapType)
        ensures
            r == cap_type_of(self@),
    {
        CapType::from_bits(get_field(self.0, 0, 4) as u8)
    }
}

/// An IPC channel capability over a range of channels.
///
/// The capability type sits in bits 0..4; the fields follow, least significant bit first.
#[derive(Clone, Copy, Debug)]
pub struct ChanCap(u64);

impl View for ChanCap {
    type V = u64;

    /// The raw 64-bit encoding.
    closed spec fn view(&self) -> u64 {
        self.0
    }
}

impl ChanCap {
    /// The capability type of every well-formed value of this type.
    pub open spec fn spec_cap_type() -> CapType {
        CapType::Channel
    }

    /// The type bits name this capability type.
    pub open spec fn wf(&self) -> bool {
        cap_type_of(self@) == CapType::Channel
    }

    /// A capability with the type set and every other field zero.
    pub fn new() -> (r: Self)
        ensures
            r.wf(),
            r@ == 5,
            r.bgn() == 0,
            r.mrk() == 0,
            r.end() == 0,
    {
        proof {
            lemma_shift_values();
            lemma_low_nibble_only(5u64, 0, 4);
            lemma_low_nibble_only(5u64, 16, 16);
            lemma_low_nibble_only(5u64, 32, 16);
            lemma_low_nibble_only(5u64, 48, 16);
        }
        ChanCap(5)
    }

    /// The `bgn` field (bits 16..32).
    #[verifier::allow_in_spec]
    pub fn bgn(&self) -> u16
        returns
            (get_bits(self@, 16, 16) as u16),
    {
        get_field(self.0, 16, 16) as u16
    }

    /// This capability with the `bgn` field replaced by `v`; the other fields are kept.
    pub fn with_bgn(self, v: u16) -> (r: Self)
        ensures
            r@ == set_bits(self@, 16, 16, v as u64),
            self.wf() ==> r.wf(),
            r.bgn() == v,
            r.mrk() == self.mrk(),
            r.end() == self.end(),
    {
        let bits: u64 = v as u64;
        proof {
            lemma_shift_values();
            lemma_get_set_same(self.0, 16, 16, bits);
            lemma_get_bound(set_bits(self.0, 16, 16, bits), 16, 16);
            assert(bits < (1u64 << 16u64));
            lemma_mask_small(bits, 16);
            lemma_get_set_other(self.0, 16, 16, bits, 0, 4);
            lemma_get_set_other(self.0, 16, 16, bits, 32, 16);
            lemma_get_set_other(self.0, 16, 16, bits, 48, 16);
        }
        ChanCap(set_field(self.0, 16, 16, bits))
    }

    /// The `mrk` field (bits 32..48).
    #[verifier::allow_in_spec]
    pub fn mrk(&self) -> u16
        returns
            (get_bits(self@, 32, 16) as u16),
    {
        get_field(self.0, 32, 16) as u16
    }

    /// This capability with the `mrk` field replaced by `v`; the other fields are kept.
    pub fn with_mrk(self, v: u16) -> (r: Self)
        ensures
            r@ == set_bits(self@, 32, 16, v as u64),
            self.wf() ==> r.wf(),
            r.mrk() == v,
            r.bgn() == self.bgn(),
            r.end() == self.end(),
    {
        let bits: u64 = v as u64;
        proof {
            lemma_shift_values();
            lemma_get_set_same(self.0, 32, 16, bits);
            lemma_get_bound(set_bits(self.0, 32, 16, bits), 32, 16);
            assert(bits < (1u64 << 16u64));
            lemma_mask_small(bits, 16);
            lemma_get_set_other(self.0, 32, 16, bits, 0, 4);
            lemma_get_set_other(self.0, 32, 16, bits, 16, 16);
            lemma_get_set_other(self.0, 32, 16, bits, 48, 16);
        }
        ChanCap(set_field(self.0, 32, 16, bits))
    }

    /// The `end` field (bits 48..64).
    #[verifier::allow_in_spec]
    pub fn end(&self) -> u16
        returns
            (get_bits(self@, 48, 16) as u16),
    {
        get_field(self.0, 48, 16) as u16
    }

    /// This capability with the `end` field replaced by `v`; the other fields are kept.
    pub fn with_end(self, v: u16) -> (r: Self)
        ensures
            r@ == set_bits(self@, 48, 16, v as u64),
            self.wf() ==> r.wf(),
            r.end() == v,
            r.bgn() == self.bgn(),
            r.mrk() == self.mrk(),
    {
        let bits: u64 = v as u64;
        proof {
            lemma_shift_values();
            lemma_get_set_same(self.0, 48, 16, bits);
            lemma_get_bound(set_bits(self.0, 48, 16, bits), 48, 16);
            assert(bits < (1u64 << 16u64));
            lemma_mask_small(bits, 16);
            lemma_get_set_other(self.0, 48, 16, bits, 0, 4);
            lemma_get_set_other(self.0, 48, 16, bits, 16, 16);
            lemma_get_set_other(self.0, 48, 16, bits, 32, 16);
        }
        ChanCap(set_field(self.0, 48, 16, bits))
    }

    /// Two capabilities are equal exactly when their encodings are.
    pub proof fn lemma_view_eq(a: Self, b: Self)
        ensures
            a@ == b@ <==> a == b,
    {
    }
}

impl S3kCap for ChanCap {
    open spec fn spec_cap_type() -> CapType {
        CapType::Channel
    }

    open spec fn raw(&self) -> u64 {
        self@
    }

    fn from_raw(raw: u64) -> (r: Result<Self, S3kErr>) {
        let c = ChanCap(raw);
        if c.ty() == CapType::Channel {
            Ok(c)
        } else {
            Err(S3kErr::InvalidCapability)
        }
    }

    fn as_raw(&self) -> (r: u64) {
        self.0
    }
}

impl ChanCap {
    /// The capability type named by the type bits.
    fn ty(&self) -> (r: CapType)
        ensures
            r == cap_type_of(self@),
    {
        CapType::from_bits(get_field(self.0, 0, 4) as u8)
    }
}

/// An IPC socket capability.
///
/// The capability type sits in bits 0..4; the fields follow, least significant bit first.
#[derive(Clone, Copy, Debug)]
pub struct SockCap(u64);

impl View for SockCap {
    type V = u64;

    /// The raw 64-bit encoding.
    closed spec fn view(&self) -> u64 {
        self.0
    }
}

impl SockCap {
    /// The capability type of every well-formed value of this type.
    pub open spec fn spec_cap_type() -> CapType {
        CapType::Socket
    }

    /// The type bits name this capability type.
    pub open spec fn wf(&self) -> bool {
        cap_type_of(self@) == CapType::Socket
    }

    /// A capability with the type set and every other field zero.
    pub fn new() -> (r: Self)
        ensures
            r.wf(),
            r@ == 6,
            r.mode() == S3kIpcMode::NOYIELD,
            r.perm() == 0,
            r.chan() == 0,
            r.tag() == 0,
    {
        proof {
            lemma_shift_values();
            lemma_low_nibble_only(6u64, 0, 4);
            lemma_low_nibble_only(6u64, 4, 4);
            lemma_low_nibble_only(6u64, 8, 8);
            lemma_low_nibble_only(6u64, 16, 16);
            lemma_low_nibble_only(6u64, 32, 32);
        }
        SockCap(6)
    }

    /// The `mode` field (bits 4..8).
    #[verifier::allow_in_spec]
    pub fn mode(&self) -> S3kIpcMode
        requires
            get_bits(self@, 4, 4) < 2,
        returns
            (S3kIpcMode::spec_from_bits(get_bits(self@, 4, 4) as u8)),
    {
        S3kIpcMode::from_bits(get_field(self.0, 4, 4) as u8)
    }

    /// This capability with the `mode` field replaced by `v`; the other fields are kept.
    pub fn with_mode(self, v: S3kIpcMode) -> (r: Self)
        ensures
            r@ == set_bits(self@, 4, 4, v.spec_into_bits() as u64),
            self.wf() ==> r.wf(),
            get_bits(r@, 4, 4) < 2,
            r.mode() == v,
            r.perm() == self.perm(),
            r.chan() == self.chan(),
            r.tag() == self.tag(),
    {
        let bits: u64 = v.into_bits() as u64;
        proof {
            lemma_shift_values();
            lemma_get_set_same(self.0, 4, 4, bits);
            lemma_get_bound(set_bits(self.0, 4, 4, bits), 4, 4);
            assert(bits < 2);
            lemma_mask_small(bits, 4);
            lemma_get_set_other(self.0, 4, 4, bits, 0, 4);
            lemma_get_set_other(self.0, 4, 4, bits, 8, 8);
            lemma_get_set_other(self.0, 4, 4, bits, 16, 16);
            lemma_get_set_other(self.0, 4, 4, bits, 32, 32);
        }
        SockCap(set_field(self.0, 4, 4, bits))
    }

    /// The `perm` field (bits 8..16).
    #[verifier::allow_in_spec]
    pub fn perm(&self) -> u8
        returns
            (get_bits(self@, 8, 8) as u8),
    {
        get_field(self.0, 8, 8) as u8
    }

    /// This capability with the `perm` field replaced by `v`; the other fields are kept.
    pub fn with_perm(self, v: u8) -> (r: Self)
        ensures
            r@ == set_bits(self@, 8, 8, v as u64),
            self.wf() ==> r.wf(),
            r.perm() == v,
            get_bits(r@, 4, 4) == get_bits(self@, 4, 4),
            r.chan() == self.chan(),
            r.tag() == self.tag(),
    {
        let bits: u64 = v as u64;
        proof {
            lemma_shift_values();
            lemma_get_set_same(self.0, 8, 8, bits);
            lemma_get_bound(set_bits(self.0, 8, 8, bits), 8, 8);
            assert(bits < (1u64 << 8u64));
            lemma_mask_small(bits, 8);
            lemma_get_set_other(self.0, 8, 8, bits, 0, 4);
            lemma_get_set_other(self.0, 8, 8, bits, 4, 4);
            lemma_get_set_other(self.0, 8, 8, bits, 16, 16);
            lemma_get_set_other(self.0, 8, 8, bits, 32, 32);
        }
        SockCap(set_field(self.0, 8, 8, bits))
    }

    /// The `chan` field (bits 16..32).
    #[verifier::allow_in_spec]
    pub fn chan(&self) -> u16
        returns
            (get_bits(self@, 16, 16) as u16),
    {
        get_field(self.0, 16, 16) as u16
    }

    /// This capability with the `chan` field replaced by `v`; the other fields are kept.
    pub fn with_chan(self, v: u16) -> (r: Self)
        ensures
            r@ == set_bits(self@, 16, 16, v as u64),
            self.wf() ==> r.wf(),
            r.chan() == v,
            get_bits(r@, 4, 4) == get_bits(self@, 4, 4),
            r.perm() == self.perm(),
            r.tag() == self.tag(),
    {
        let bits: u64 = v as u64;
        proof {
            lemma_shift_values();
            lemma_get_set_same(self.0, 16, 16, bits);
            lemma_get_bound(set_bits(self.0, 16, 16, bits), 16, 16);
            assert(bits < (1u64 << 16u64));
            lemma_mask_small(bits, 16);
            lemma_get_set_other(self.0, 16, 16, bits, 0, 4);
            lemma_get_set_other(self.0, 16, 16, bits, 4, 4);
            lemma_get_set_other(self.0, 16, 16, bits, 8, 8);
            lemma_get_set_other(self.0, 16, 16, bits, 32, 32);
        }
        SockCap(set_field(self.0, 16, 16, bits))
    }

    /// The `tag` field (bits 32..64).
    #[verifier::allow_in_spec]
    pub fn tag(&self) -> u32
        returns
            (get_bits(self@, 32, 32) as u32),
    {
        get_field(self.0, 32, 32) as u32
    }

    /// This capability with the `tag` field replaced by `v`; the other fields are kept.
    pub fn with_tag(self, v: u32) -> (r: Self)
        ensures
            r@ == set_bits(self@, 32, 32, v as u64),
            self.wf() ==> r.wf(),
            r.tag() == v,
            get_bits(r@, 4, 4) == get_bits(self@, 4, 4),
            r.perm() == self.perm(),
            r.chan() == self.chan(),
    {
        let bits: u64 = v as u64;
        proof {
            lemma_shift_values();
            lemma_get_set_same(self.0, 32, 32, bits);
            lemma_get_bound(set_bits(self.0, 32, 32, bits), 32, 32);
            assert(bits < (1u64 << 32u64));
            lemma_mask_small(bits, 32);
            lemma_get_set_other(self.0, 32, 32, bits, 0, 4);
            lemma_get_set_other(self.0, 32, 32, bits, 4, 4);
            lemma_get_set_other(self.0, 32, 32, bits, 8, 8);
            lemma_get_set_other(self.0, 32, 32, bits, 16, 16);
        }
        SockCap(set_field(self.0, 32, 32, bits))
    }

    /// Two capabilities are equal exactly when their encodings are.
    pub proof fn lemma_view_eq(a: Self, b: Self)
        ensures
            a@ == b@ <==> a == b,
    {
    }
}

impl S3kCap for SockCap {
    open spec fn spec_cap_type() -> CapType {
        CapType::Socket
    }

    open spec fn raw(&self) -> u64 {
        self@
    }

    fn from_raw(raw: u64) -> (r: Result<Self, S3kErr>) {
        let c = SockCap(raw);
        if c.ty() == CapType::Socket {
            Ok(c)
        } else {
            Err(S3kErr::InvalidCapability)
        }
    }

    fn as_raw(&self) -> (r: u64) {
        self.0
    }
}

impl SockCap {
    /// The capability type named by the type bits.
    fn ty(&self) -> (r: CapType)
        ensures
            r == cap_type_of(self@),
    {
        CapType::from_bits(get_field(self.0, 0, 4) as u8)
    }
}

impl SockCap {
    /// The permission set held in the `perm` field; unknown bits are dropped.
    pub fn get_perms(&self) -> (r: S3kIpcPerm)
        ensures
            r@ == self.perm() & 0xf,
    {
        S3kIpcPerm::from_bits_truncate(self.perm())
    }

    /// Stores a permission set in the `perm` field; the other fields are kept.
    pub fn set_perms(&mut self, perms: S3kIpcPerm)
        ensures
            final(self)@ == set_bits(old(self)@, 8, 8, perms@ as u64),
            perms@ <= 0xf,
            final(self).perm() == perms@,
            old(self).wf() ==> final(self).wf(),
            get_bits(final(self)@, 4, 4) == get_bits(old(self)@, 4, 4),
            final(self).chan() == old(self).chan(),
            final(self).tag() == old(self).tag(),
    {
        *self = self.with_perm(perms.bits());
    }

    /// Permissions read back as they were stored: after `set_perms` with a set (whose bits are
    /// at most 0xf, as every set's are), `get_perms` gives that set, and the type, mode,
    /// channel and tag bits are those from before.
    pub proof fn lemma_perms_read_back(raw: u64, perms: u8)
        requires
            perms <= 0xf,
        ensures
            ((get_bits(set_bits(raw, 8, 8, perms as u64), 8, 8) as u8) & 0xf) == perms,
            set_bits(raw, 8, 8, perms as u64) & !0xFF00u64 == raw & !0xFF00u64,
    {
        let p = perms as u64;
        lemma_shift_values();
        lemma_get_set_same(raw, 8, 8, p);
        lemma_mask_small(p, 8);
        assert(get_bits(set_bits(raw, 8, 8, p), 8, 8) == p);
        assert(perms <= 0xf ==> perms & 0xf == perms) by (bit_vector);
        assert(set_bits(raw, 8, 8, p) & !0xFF00u64 == raw & !0xFF00u64) by (bit_vector);
    }
}

/// A message sent over an IPC socket.
pub struct S3kMsg {
    pub cap_idx: S3kCidx,
    pub send_cap: bool,
    pub data: [u64; 4],
}

/// A reply received over an IPC socket.
pub struct S3kReply {
    pub err: S3kErr,
    pub tag: u32,
    pub cap: u64,
    pub data: [u64; 4],
}

/// A register of a process, numbered in declaration order from 0; `CNT` is the number of registers.
#[derive(Debug, Clone, Copy, PartialEq, Eq, Structural)]
pub enum S3kReg {
    PC,
    RA,
    SP,
    GP,
    TP,
    T0,
    T1,
    T2,
    S0,
    S1,
    A0,
    A1,
    A2,
    A3,
    A4,
    A5,
    A6,
    A7,
    S2,
    S3,
    S4,
    S5,
    S6,
    S7,
    S8,
    S9,
    S10,
    S11,
    T3,
    T4,
    T5,
    T6,
    TPC,
    TSP,
    EPC,
    ESP,
    ECAUSE,
    EVAL,
    SERVTIME,
    CNT,
}

/// The registers in the kernel's order: the program counter, then the RISC-V integer
/// registers x1 to x31 by their ABI names (ra, sp, gp, tp, t0-t2, s0-s1, a0-a7, s2-s11,
/// t3-t6), then the trap and service registers, then the count.
pub open spec fn registers_in_order() -> Seq<S3kReg> {
    seq![
        S3kReg::PC, S3kReg::RA, S3kReg::SP, S3kReg::GP, S3kReg::TP, S3kReg::T0, S3kReg::T1, S3kReg::T2,
        S3kReg::S0, S3kReg::S1, S3kReg::A0, S3kReg::A1, S3kReg::A2, S3kReg::A3, S3kReg::A4, S3kReg::A5,
        S3kReg::A6, S3kReg::A7, S3kReg::S2, S3kReg::S3, S3kReg::S4, S3kReg::S5, S3kReg::S6, S3kReg::S7,
        S3kReg::S8, S3kReg::S9, S3kReg::S10, S3kReg::S11, S3kReg::T3, S3kReg::T4, S3kReg::T5, S3kReg::T6,
        S3kReg::TPC, S3kReg::TSP, S3kReg::EPC, S3kReg::ESP, S3kReg::ECAUSE, S3kReg::EVAL, S3kReg::SERVTIME,
        S3kReg::CNT,
    ]
}

/// Each register's number is its place in the kernel's order: the program counter is 0, and
/// a RISC-V integer register xN is N (so ra is 1, sp 2, gp 3, a0 10, t6 31); the count comes
/// last, as the number of the registers before it.
pub proof fn lemma_register_numbers()
    ensures
        registers_in_order().len() == 40,
        forall|i: int| 0 <= i < 40 ==> #[trigger] reg_code(registers_in_order()[i]) == i,
{
    assert(reg_code(registers_in_order()[0]) == 0);
    assert(reg_code(registers_in_order()[1]) == 1);
    assert(reg_code(registers_in_order()[2]) == 2);
    assert(reg_code(registers_in_order()[3]) == 3);
    assert(reg_code(registers_in_order()[4]) == 4);
    assert(reg_code(registers_in_order()[5]) == 5);
    assert(reg_code(registers_in_order()[6]) == 6);
    assert(reg_code(registers_in_order()[7]) == 7);
    assert(reg_code(registers_in_order()[8]) == 8);
    assert(reg_code(registers_in_order()[9]) == 9);
    assert(reg_code(registers_in_order()[10]) == 10);
    assert(reg_code(registers_in_order()[11]) == 11);
    assert(reg_code(registers_in_order()[12]) == 12);
    assert(reg_code(registers_in_order()[13]) == 13);
    assert(reg_code(registers_in_order()[14]) == 14);
    assert(reg_code(registers_in_order()[15]) == 15);
    assert(reg_code(registers_in_order()[16]) == 16);
    assert(reg_code(registers_in_order()[17]) == 17);
    assert(reg_code(registers_in_order()[18]) == 18);
    assert(reg_code(registers_in_order()[19]) == 19);
    assert(reg_code(registers_in_order()[20]) == 20);
    assert(reg_code(registers_in_order()[21]) == 21);
    assert(reg_code(registers_in_order()[22]) == 22);
    assert(reg_code(registers_in_order()[23]) == 23);
    assert(reg_code(registers_in_order()[24]) == 24);
    assert(reg_code(registers_in_order()[25]) == 25);
    assert(reg_code(registers_in_order()[26]) == 26);
    assert(reg_code(registers_in_order()[27]) == 27);
    assert(reg_code(registers_in_order()[28]) == 28);
    assert(reg_code(registers_in_order()[29]) == 29);
    assert(reg_code(registers_in_order()[30]) == 30);
    assert(reg_code(registers_in_order()[31]) == 31);
    assert(reg_code(registers_in_order()[32]) == 32);
    assert(reg_code(registers_in_order()[33]) == 33);
    assert(reg_code(registers_in_order()[34]) == 34);
    assert(reg_code(registers_in_order()[35]) == 35);
    assert(reg_code(registers_in_order()[36]) == 36);
    assert(reg_code(registers_in_order()[37]) == 37);
    assert(reg_code(registers_in_order()[38]) == 38);
    assert(reg_code(registers_in_order()[39]) == 39);
    assert forall|i: int| 0 <= i < 40 implies #[trigger] reg_code(registers_in_order()[i]) == i by {
        assert(
            i == 0 || i == 1 || i == 2 || i == 3 || i == 4 || i == 5 || i == 6 || i == 7 || i == 8 || i == 9
            || i == 10 || i == 11 || i == 12 || i == 13 || i == 14 || i == 15 || i == 16 || i == 17 || i == 18 || i == 19
            || i == 20 || i == 21 || i == 22 || i == 23 || i == 24 || i == 25 || i == 26 || i == 27 || i == 28 || i == 29
            || i == 30 || i == 31 || i == 32 || i == 33 || i == 34 || i == 35 || i == 36 || i == 37 || i == 38 || i == 39
        );
    }
}

/// The number of each register.
pub open spec fn reg_code(r: S3kReg) -> u64 {
    match r {
        S3kReg::PC => 0,
        S3kReg::RA => 1,
        S3kReg::SP => 2,
        S3kReg::GP => 3,
        S3kReg::TP => 4,
        S3kReg::T0 => 5,
        S3kReg::T1 => 6,
        S3kReg::T2 => 7,
        S3kReg::S0 => 8,
        S3kReg::S1 => 9,
        S3kReg::A0 => 10,
        S3kReg::A1 => 11,
        S3kReg::A2 => 12,
        S3kReg::A3 => 13,
        S3kReg::A4 => 14,
        S3kReg::A5 => 15,
        S3kReg::A6 => 16,
        S3kReg::A7 => 17,
        S3kReg::S2 => 18,
        S3kReg::S3 => 19,
        S3kReg::S4 => 20,
        S3kReg::S5 => 21,
        S3kReg::S6 => 22,
        S3kReg::S7 => 23,
        S3kReg::S8 => 24,
        S3kReg::S9 => 25,
        S3kReg::S10 => 26,
        S3kReg::S11 => 27,
        S3kReg::T3 => 28,
        S3kReg::T4 => 29,
        S3kReg::T5 => 30,
        S3kReg::T6 => 31,
        S3kReg::TPC => 32,
        S3kReg::TSP => 33,
        S3kReg::EPC => 34,
        S3kReg::ESP => 35,
        S3kReg::ECAUSE => 36,
        S3kReg::EVAL => 37,
        S3kReg::SERVTIME => 38,
        S3kReg::CNT => 39,
    }
}

impl S3kReg {
    /// The number of this register, as the kernel reads it.
    pub fn code(self) -> (r: u64)
        ensures
            r == reg_code(self),
    {
        match self {
            S3kReg::PC => 0,
            S3kReg::RA => 1,
            S3kReg::SP => 2,
            S3kReg::GP => 3,
            S3kReg::TP => 4,
            S3kReg::T0 => 5,
            S3kReg::T1 => 6,
            S3kReg::T2 => 7,
            S3kReg::S0 => 8,
            S3kReg::S1 => 9,
            S3kReg::A0 => 10,
            S3kReg::A1 => 11,
            S3kReg::A2 => 12,
            S3kReg::A3 => 13,
            S3kReg::A4 => 14,
            S3kReg::A5 => 15,
            S3kReg::A6 => 16,
            S3kReg::A7 => 17,
            S3kReg::S2 => 18,
            S3kReg::S3 => 19,
            S3kReg::S4 => 20,
            S3kReg::S5 => 21,
            S3kReg::S6 => 22,
            S3kReg::S7 => 23,
            S3kReg::S8 => 24,
            S3kReg::S9 => 25,
            S3kReg::S10 => 26,
            S3kReg::S11 => 27,
            S3kReg::T3 => 28,
            S3kReg::T4 => 29,
            S3kReg::T5 => 30,
            S3kReg::T6 => 31,
            S3kReg::TPC => 32,
            S3kReg::TSP => 33,
            S3kReg::EPC => 34,
            S3kReg::ESP => 35,
            S3kReg::ECAUSE => 36,
            S3kReg::EVAL => 37,
            S3kReg::SERVTIME => 38,
            S3kReg::CNT => 39,
        }
    }
}

} // verus!
