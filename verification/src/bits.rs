//! Bit fields packed into a `u64`, least significant bit first.
use vstd::prelude::*;

verus! {

/// The value whose `w` lowest bits are set.
pub open spec fn low_mask(w: u64) -> u64 {
    ((1u64 << w) - 1) as u64
}

/// The `w`-bit field that starts at bit `off` of `raw`.
pub open spec fn get_bits(raw: u64, off: u64, w: u64) -> u64 {
    (raw >> off) & low_mask(w)
}

/// `raw` with the `w`-bit field at bit `off` replaced by the low `w` bits of `v`.
pub open spec fn set_bits(raw: u64, off: u64, w: u64, v: u64) -> u64 {
    (raw & !(low_mask(w) << off)) | ((v & low_mask(w)) << off)
}

/// A field position that fits in a `u64`.
pub open spec fn field_ok(off: u64, w: u64) -> bool {
    0 < w < 64 && off + w <= 64
}

/// Two fields that share no bit.
pub open spec fn disjoint(off1: u64, w1: u64, off2: u64, w2: u64) -> bool {
    off1 + w1 <= off2 || off2 + w2 <= off1
}

pub proof fn lemma_get_set_same(raw: u64, off: u64, w: u64, v: u64)
    requires
        field_ok(off, w),
    ensures
        get_bits(set_bits(raw, off, w, v), off, w) == v & low_mask(w),
{
    assert(0 < w < 64 && off + w <= 64 ==> ((((raw & !((((1u64 << w) - 1) as u64) << off)) | ((v & (((1u64 << w) - 1) as u64)) << off)) >> off) & (((1u64 << w) - 1) as u64)) == v & (((1u64 << w) - 1) as u64)) by (bit_vector);
}

pub proof fn lemma_get_set_other(raw: u64, off: u64, w: u64, v: u64, off2: u64, w2: u64)
    requires
        field_ok(off, w),
        field_ok(off2, w2),
        disjoint(off, w, off2, w2),
    ensures
        get_bits(set_bits(raw, off, w, v), off2, w2) == get_bits(raw, off2, w2),
{
    assert(0 < w < 64 && off + w <= 64 && 0 < w2 < 64 && off2 + w2 <= 64 && (off + w <= off2 || off2 + w2 <= off) ==> ((((raw & !((((1u64 << w) - 1) as u64) << off)) | ((v & (((1u64 << w) - 1) as u64)) << off)) >> off2) & (((1u64 << w2) - 1) as u64)) == ((raw >> off2) & (((1u64 << w2) - 1) as u64))) by (bit_vector);
}

pub proof fn lemma_mask_small(v: u64, w: u64)
    requires
        0 < w < 64,
        v < (1u64 << w),
    ensures
        v & low_mask(w) == v,
{
    assert(0 < w < 64 && v < (1u64 << w) ==> v & (((1u64 << w) - 1) as u64) == v) by (bit_vector);
}

pub proof fn lemma_get_bound(raw: u64, off: u64, w: u64)
    requires
        field_ok(off, w),
    ensures
        get_bits(raw, off, w) < (1u64 << w),
{
    assert(0 < w < 64 ==> ((raw >> off) & (((1u64 << w) - 1) as u64)) < (1u64 << w)) by (bit_vector);
}

/// A value below 16 has its low nibble as its type bits and zero in every field above.
pub proof fn lemma_low_nibble_only(c: u64, off: u64, w: u64)
    requires
        c < 16,
        field_ok(off, w),
        off == 0 || off >= 4,
    ensures
        off == 0 && w == 4 ==> get_bits(c, off, w) == c,
        off >= 4 ==> get_bits(c, off, w) == 0,
{
    assert(c < 16 && 0 < w < 64 && off + w <= 64 && off == 0 && w == 4 ==> ((c >> off) & (((1u64 << w) - 1) as u64)) == c) by (bit_vector);
    assert(c < 16 && 0 < w < 64 && off + w <= 64 && off >= 4 ==> ((c >> off) & (((1u64 << w) - 1) as u64)) == 0) by (bit_vector);
}

/// The powers of two that the field widths in this crate use.
pub proof fn lemma_shift_values()
    ensures
        (1u64 << 1u64) == 2,
        (1u64 << 3u64) == 8,
        (1u64 << 4u64) == 16,
        (1u64 << 8u64) == 0x100,
        (1u64 << 12u64) == 0x1000,
        (1u64 << 16u64) == 0x1_0000,
        (1u64 << 32u64) == 0x1_0000_0000,
        (1u64 << 48u64) == 0x1_0000_0000_0000,
        (1u64 << 60u64) == 0x1000_0000_0000_0000,
{
    assert((1u64 << 1u64) == 2 && (1u64 << 3u64) == 8 && (1u64 << 4u64) == 16 && (1u64 << 8u64) == 0x100 && (1u64 << 12u64) == 0x1000 && (1u64 << 16u64) == 0x1_0000 && (1u64 << 32u64) == 0x1_0000_0000 && (1u64 << 48u64) == 0x1_0000_0000_0000 && (1u64 << 60u64) == 0x1000_0000_0000_0000) by (bit_vector);
}

/// Reads the `w`-bit field at bit `off`.
pub fn get_field(raw: u64, off: u64, w: u64) -> (r: u64)
    requires
        field_ok(off, w),
    ensures
        r == get_bits(raw, off, w),
        r < (1u64 << w),
{
    proof {
        assert(0 < w < 64 ==> (1u64 << w) >= 1) by (bit_vector);
        lemma_get_bound(raw, off, w);
    }
    (raw >> off) & ((1u64 << w) - 1)
}

/// Replaces the `w`-bit field at bit `off` with the low bits of `v`.
pub fn set_field(raw: u64, off: u64, w: u64, v: u64) -> (r: u64)
    requires
        field_ok(off, w),
    ensures
        r == set_bits(raw, off, w, v),
{
    proof {
        assert(0 < w < 64 ==> (1u64 << w) >= 1) by (bit_vector);
    }
    let m = (1u64 << w) - 1;
    (raw & !(m << off)) | ((v & m) << off)
}

} // verus!
