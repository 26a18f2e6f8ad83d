//! Big-endian and little-endian integers in byte sequences, and byte copies.
use vstd::prelude::*;

verus! {

/// The two bytes of `v`, most significant first.
pub open spec fn be16(v: u16) -> Seq<u8> {
    seq![(v >> 8u16) as u8, (v & 0xffu16) as u8]
}

/// The four bytes of `v`, most significant first.
pub open spec fn be32(v: u32) -> Seq<u8> {
    seq![(v >> 24u32) as u8, (v >> 16u32) as u8, (v >> 8u32) as u8, (v & 0xffu32) as u8]
}

/// The big-endian 16-bit value at `off`.
pub open spec fn spec_be16_at(s: Seq<u8>, off: int) -> u16 {
    (((s[off] as u16) << 8u16) | (s[off + 1] as u16)) as u16
}

/// The big-endian 32-bit value at `off`.
pub open spec fn spec_be32_at(s: Seq<u8>, off: int) -> u32 {
    (((s[off] as u32) << 24u32) | ((s[off + 1] as u32) << 16u32) | ((s[off + 2] as u32) << 8u32)
        | (s[off + 3] as u32)) as u32
}

/// The two bytes of `v`, least significant first.
pub open spec fn le16(v: u16) -> Seq<u8> {
    seq![(v & 0xffu16) as u8, (v >> 8u16) as u8]
}

/// The four bytes of `v`, least significant first.
pub open spec fn le32(v: u32) -> Seq<u8> {
    seq![(v & 0xffu32) as u8, ((v >> 8u32) & 0xffu32) as u8, ((v >> 16u32) & 0xffu32) as u8, (v >> 24u32) as u8]
}

/// The little-endian 16-bit value at `off`.
pub open spec fn spec_le16_at(s: Seq<u8>, off: int) -> u16 {
    ((s[off] as u16) | ((s[off + 1] as u16) << 8u16)) as u16
}

/// The little-endian 32-bit value at `off`.
pub open spec fn spec_le32_at(s: Seq<u8>, off: int) -> u32 {
    ((s[off] as u32) | ((s[off + 1] as u32) << 8u32) | ((s[off + 2] as u32) << 16u32)
        | ((s[off + 3] as u32) << 24u32)) as u32
}

/// Reading back a big-endian or little-endian encoding gives the value that was encoded.
pub proof fn lemma_endian_roundtrip(a: u16, b: u32)
    ensures
        spec_be16_at(be16(a), 0) == a,
        spec_be32_at(be32(b), 0) == b,
        spec_le16_at(le16(a), 0) == a,
        spec_le32_at(le32(b), 0) == b,
{
    let x0 = (a >> 8u16) as u8;
    let x1 = (a & 0xffu16) as u8;
    assert((((x0 as u16) << 8u16) | (x1 as u16)) == a) by (bit_vector)
        requires x0 == (a >> 8u16) as u8, x1 == (a & 0xffu16) as u8;
    let y0 = (b >> 24u32) as u8;
    let y1 = (b >> 16u32) as u8;
    let y2 = (b >> 8u32) as u8;
    let y3 = (b & 0xffu32) as u8;
    assert((((y0 as u32) << 24u32) | ((y1 as u32) << 16u32) | ((y2 as u32) << 8u32) | (y3 as u32)) == b) by (bit_vector)
        requires y0 == (b >> 24u32) as u8, y1 == (b >> 16u32) as u8, y2 == (b >> 8u32) as u8, y3 == (b & 0xffu32) as u8;
    assert(((x1 as u16) | ((x0 as u16) << 8u16)) == a) by (bit_vector)
        requires x0 == (a >> 8u16) as u8, x1 == (a & 0xffu16) as u8;
    let z0 = (b & 0xffu32) as u8;
    let z1 = ((b >> 8u32) & 0xffu32) as u8;
    let z2 = ((b >> 16u32) & 0xffu32) as u8;
    let z3 = (b >> 24u32) as u8;
    assert(((z0 as u32) | ((z1 as u32) << 8u32) | ((z2 as u32) << 16u32) | ((z3 as u32) << 24u32)) == b) by (bit_vector)
        requires z0 == (b & 0xffu32) as u8, z1 == ((b >> 8u32) & 0xffu32) as u8, z2 == ((b >> 16u32) & 0xffu32) as u8, z3 == (b >> 24u32) as u8;
    assert(be16(a)[0] == x0 && be16(a)[1] == x1);
    assert(le16(a)[0] == x1 && le16(a)[1] == x0);
}

/// Appends the big-endian bytes of `v`.
pub fn push_u16_be(buf: &mut Vec<u8>, v: u16)
    ensures
        final(buf)@ == old(buf)@ + be16(v),
{
    buf.push((v >> 8) as u8);
    buf.push((v & 0xff) as u8);
    assert(final(buf)@ =~= old(buf)@ + be16(v));
}

/// Appends the big-endian bytes of `v`.
pub fn push_u32_be(buf: &mut Vec<u8>, v: u32)
    ensures
        final(buf)@ == old(buf)@ + be32(v),
{
    buf.push((v >> 24) as u8);
    buf.push((v >> 16) as u8);
    buf.push((v >> 8) as u8);
    buf.push((v & 0xff) as u8);
    assert(final(buf)@ =~= old(buf)@ + be32(v));
}

/// Appends the bytes of `s`.
pub fn push_bytes(buf: &mut Vec<u8>, s: &[u8])
    ensures
        final(buf)@ == old(buf)@ + s@,
{
    let ghost start = buf@;
    let mut i: usize = 0;
    while i < s.len()
        invariant
            i <= s.len(),
            buf@ == start + s@.subrange(0, i as int),
        decreases s.len() - i,
    {
        buf.push(s[i]);
        i += 1;
        assert(buf@ =~= start + s@.subrange(0, i as int));
    }
    assert(s@.subrange(0, s.len() as int) =~= s@);
}

/// The big-endian 16-bit value at `offset`.
pub fn get_u16_be(buf: &[u8], offset: usize) -> (r: u16)
    requires
        offset + 2 <= buf.len(),
    ensures
        r == spec_be16_at(buf@, offset as int),
{
    ((buf[offset] as u16) << 8) | (buf[offset + 1] as u16)
}

/// The big-endian 32-bit value at `offset`.
pub fn get_u32_be(buf: &[u8], offset: usize) -> (r: u32)
    requires
        offset + 4 <= buf.len(),
    ensures
        r == spec_be32_at(buf@, offset as int),
{
    ((buf[offset] as u32) << 24) | ((buf[offset + 1] as u32) << 16) | ((buf[offset + 2] as u32) << 8)
        | (buf[offset + 3] as u32)
}

/// The little-endian 16-bit value at `offset`.
pub fn get_u16_le(buf: &[u8], offset: usize) -> (r: u16)
    requires
        offset + 2 <= buf.len(),
    ensures
        r == spec_le16_at(buf@, offset as int),
{
    (buf[offset] as u16) | ((buf[offset + 1] as u16) << 8)
}

/// The little-endian 32-bit value at `offset`.
pub fn get_u32_le(buf: &[u8], offset: usize) -> (r: u32)
    requires
        offset + 4 <= buf.len(),
    ensures
        r == spec_le32_at(buf@, offset as int),
{
    (buf[offset] as u32) | ((buf[offset + 1] as u32) << 8) | ((buf[offset + 2] as u32) << 16)
        | ((buf[offset + 3] as u32) << 24)
}

/// Copies `n` bytes of `src` from `src_off` into `dst` at `dst_off`; the rest of `dst` is kept.
pub fn copy_bytes(dst: &mut [u8], dst_off: usize, src: &[u8], src_off: usize, n: usize)
    requires
        dst_off + n <= old(dst)@.len(),
        src_off + n <= src@.len(),
    ensures
        final(dst)@ == old(dst)@.subrange(0, dst_off as int)
            + src@.subrange(src_off as int, src_off + n)
            + old(dst)@.subrange(dst_off + n, old(dst)@.len() as int),
{
    let ghost orig = dst@;
    let dlen = dst.len();
    let slen = src.len();
    let mut i: usize = 0;
    while i < n
        invariant
            i <= n,
            dlen == orig.len(),
            slen == src@.len(),
            dst_off + n <= orig.len(),
            src_off + n <= src@.len(),
            dst@.len() == orig.len(),
            forall|k: int| 0 <= k < dst_off ==> dst@[k] == orig[k],
            forall|k: int| dst_off + n <= k < orig.len() ==> dst@[k] == orig[k],
            forall|k: int| dst_off <= k < dst_off + i ==> #[trigger] dst@[k] == src@[src_off + k - dst_off],
            forall|k: int| dst_off + i <= k < dst_off + n ==> #[trigger] dst@[k] == orig[k],
        decreases n - i,
    {
        dst[dst_off + i] = src[src_off + i];
        i += 1;
    }
    assert(dst@ =~= orig.subrange(0, dst_off as int) + src@.subrange(src_off as int, src_off + n)
        + orig.subrange(dst_off + n, orig.len() as int));
}

/// `String::from_utf8`.
///
/// Claimed, as the standard library documents it: the bytes are taken as a string exactly
/// when they are valid UTF-8, and the string then holds the characters they encode.
#[verifier::external_body]
pub(crate) fn string_from_utf8(bytes: Vec<u8>) -> (r: Option<String>)
    ensures
        r is Some <==> vstd::utf8::valid_utf8(bytes@),
        r matches Some(s) ==> s@ == vstd::utf8::decode_utf8(bytes@),
{
    String::from_utf8(bytes).ok()
}

} // verus!
