//! Directory entries, as the FAT32 specification lays them out: 32 bytes each. A first byte of
//! 0 ends the directory and 0xE5 marks a free entry. A long-name entry (attribute 0x0F) holds 13
//! UTF-16 code units of a name; a run of them, last part first, comes right before the short
//! (8.3) entry they name, which holds the attributes, the first cluster and the size.
use vstd::prelude::*;
use bitvec_rs::BitVec;
use crate::bytes::{le16, le32, spec_le16_at, spec_le32_at, get_u16_le, get_u32_le};
use crate::fat32::dir::{bitvec_bits, bitvec_push};
use crate::flags::InodeMode;
use crate::errno::Errno;

verus! {

pub const DIRENT_SIZE: usize = 32;
pub const ATTR_READ_ONLY: u8 = 0x01;
pub const ATTR_HIDDEN: u8 = 0x02;
pub const ATTR_SYSTEM: u8 = 0x04;
pub const ATTR_VOLUME_ID: u8 = 0x08;
pub const ATTR_DIRECTORY: u8 = 0x10;
pub const ATTR_ARCHIVE: u8 = 0x20;
pub const ATTR_LONG_NAME: u8 = 0x0F;

/// Entry `k` of the directory bytes `data`.
pub open spec fn entry_at(data: Seq<u8>, k: int) -> Seq<u8> {
    data.subrange(32 * k, 32 * k + 32)
}

/// The entry ends the directory.
pub open spec fn is_end_entry(e: Seq<u8>) -> bool {
    e[0] == 0
}

/// The entry is free.
pub open spec fn is_free_entry(e: Seq<u8>) -> bool {
    e[0] == 0xE5
}

/// The entry holds part of a long name.
pub open spec fn is_long_entry(e: Seq<u8>) -> bool {
    e[11] == 0x0F
}

/// The short name of the entry for the directory itself.
pub open spec fn dot_name() -> Seq<u8> {
    seq![0x2Eu8, 0x20, 0x20, 0x20, 0x20, 0x20, 0x20, 0x20, 0x20, 0x20, 0x20]
}

/// The short name of the entry for the parent directory.
pub open spec fn dotdot_name() -> Seq<u8> {
    seq![0x2Eu8, 0x2E, 0x20, 0x20, 0x20, 0x20, 0x20, 0x20, 0x20, 0x20, 0x20]
}

/// The entry names the directory itself or its parent.
pub open spec fn is_dot_entry(e: Seq<u8>) -> bool {
    e.subrange(0, 11) == dot_name() || e.subrange(0, 11) == dotdot_name()
}

/// A child found in a directory: the index of its short entry, the index of its first entry,
/// and its number of entries (its long-name entries and its short entry).
#[derive(Debug, Clone, Copy, PartialEq, Eq, Structural)]
pub struct ScannedChild {
    pub entry: usize,
    pub pos: usize,
    pub len: usize,
}

/// Scanning the entries of `data` from entry `k` on, where the entry run of the next child
/// starts at entry `pos` and already holds `len` long-name entries: the children found, as
/// (short entry, first entry, number of entries), and for each entry before the end whether
/// it is in use. A free entry after long-name entries drops them. The entries for the
/// directory itself and its parent are in use but are not children.
pub open spec fn scan_from(data: Seq<u8>, k: int, pos: int, len: int) -> (Seq<(int, int, int)>, Seq<bool>)
    decreases data.len() / 32 - k,
{
    if k < 0 || k >= data.len() / 32 || is_end_entry(entry_at(data, k)) {
        (Seq::empty(), Seq::empty())
    } else {
        let e = entry_at(data, k);
        if is_free_entry(e) {
            let rest = scan_from(data, k + 1, pos + 1 + len, 0);
            (rest.0, seq![false] + rest.1)
        } else if is_long_entry(e) {
            let rest = scan_from(data, k + 1, pos, len + 1);
            (rest.0, seq![true] + rest.1)
        } else {
            let rest = scan_from(data, k + 1, pos + len + 1, 0);
            (if is_dot_entry(e) { rest.0 } else { seq![(k, pos, len + 1)] + rest.0 }, seq![true] + rest.1)
        }
    }
}

/// Scanning the entries of a directory whose bytes are `data`.
pub open spec fn scan(data: Seq<u8>) -> (Seq<(int, int, int)>, Seq<bool>) {
    scan_from(data, 0, 0, 0)
}

/// The children as integers.
pub open spec fn children_view(c: Seq<ScannedChild>) -> Seq<(int, int, int)> {
    c.map_values(|x: ScannedChild| (x.entry as int, x.pos as int, x.len as int))
}

/// Whether the 11 name bytes at `e[0..11]` are those of `name`.
fn name_is(data: &[u8], at: usize, name: &[u8; 11]) -> (r: bool)
    requires
        at + 11 <= data@.len(),
    ensures
        r == (data@.subrange(at as int, at + 11) == name@),
{
    let dl = data.len();
    let mut i: usize = 0;
    while i < 11
        invariant
            i <= 11,
            dl == data@.len(),
            at + 11 <= dl,
            forall|j: int| 0 <= j < i ==> data@[at + j] == name@[j],
        decreases 11 - i,
    {
        if data[at + i] != name[i] {
            assert(data@.subrange(at as int, at + 11)[i as int] != name@[i as int]);
            return false;
        }
        i += 1;
    }
    assert(data@.subrange(at as int, at + 11) =~= name@);
    true
}

/// Scans the entries of a directory whose bytes are `data`, up to the entry that ends it:
/// appends to `occupy` whether each entry is in use, and gives the children found.
pub fn scan_dir(data: &[u8], occupy: &mut BitVec) -> (r: Vec<ScannedChild>)
    requires
        bitvec_bits(*old(occupy)).len() + data@.len() / 32 < usize::MAX,
    ensures
        children_view(r@) == scan(data@).0,
        bitvec_bits(*final(occupy)) == bitvec_bits(*old(occupy)) + scan(data@).1,
{
    let dl = data.len();
    let n = dl / 32;
    let ghost start = bitvec_bits(*occupy);
    let ghost all = scan(data@);
    let dot: [u8; 11] = [0x2E, 0x20, 0x20, 0x20, 0x20, 0x20, 0x20, 0x20, 0x20, 0x20, 0x20];
    let dotdot: [u8; 11] = [0x2E, 0x2E, 0x20, 0x20, 0x20, 0x20, 0x20, 0x20, 0x20, 0x20, 0x20];
    assert(dot@ =~= dot_name());
    assert(dotdot@ =~= dotdot_name());
    let mut out: Vec<ScannedChild> = Vec::new();
    let mut k: usize = 0;
    let mut pos: usize = 0;
    let mut len: usize = 0;
    assert(children_view(out@) =~= Seq::<(int, int, int)>::empty());
    assert(bitvec_bits(*occupy) =~= start + Seq::<bool>::empty());
    while k < n
        invariant
            dl == data@.len(),
            n == data@.len() / 32,
            k <= n,
            pos + len <= k,
            start.len() + n < usize::MAX,
            bitvec_bits(*occupy).len() == start.len() + k,
            all == scan(data@),
            dot@ == dot_name(),
            dotdot@ == dotdot_name(),
            children_view(out@) + scan_from(data@, k as int, pos as int, len as int).0 == all.0,
            bitvec_bits(*occupy) + scan_from(data@, k as int, pos as int, len as int).1 == start + all.1,
        ensures
            children_view(out@) + scan_from(data@, k as int, pos as int, len as int).0 == all.0,
            bitvec_bits(*occupy) + scan_from(data@, k as int, pos as int, len as int).1 == start + all.1,
            k == n || is_end_entry(entry_at(data@, k as int)),
            k <= n,
        decreases n - k,
    {
        assert(32 * k + 32 <= data@.len()) by (nonlinear_arith)
            requires k < n, n == data@.len() / 32;
        let at = 32 * k;
        let ghost e = entry_at(data@, k as int);
        assert(e[0] == data@[at as int] && e[11] == data@[at + 11]);
        assert(e.subrange(0, 11) =~= data@.subrange(at as int, at + 11));
        let ghost before_c = children_view(out@);
        let ghost before_o = bitvec_bits(*occupy);
        let ghost here = scan_from(data@, k as int, pos as int, len as int);
        if data[at] == 0 {
            break;
        }
        if data[at] == 0xE5 {
            let ghost rest = scan_from(data@, k + 1, pos + 1 + len, 0);
            bitvec_push(occupy, false);
            assert(bitvec_bits(*occupy) + rest.1 =~= before_o + (seq![false] + rest.1));
            pos = pos + 1 + len;
            len = 0;
        } else if data[at + 11] == 0x0F {
            let ghost rest = scan_from(data@, k + 1, pos as int, len + 1);
            bitvec_push(occupy, true);
            assert(bitvec_bits(*occupy) + rest.1 =~= before_o + (seq![true] + rest.1));
            len = len + 1;
        } else {
            let ghost rest = scan_from(data@, k + 1, pos + len + 1, 0);
            bitvec_push(occupy, true);
            assert(bitvec_bits(*occupy) + rest.1 =~= before_o + (seq![true] + rest.1));
            let is_dot = name_is(data, at, &dot) || name_is(data, at, &dotdot);
            if !is_dot {
                out.push(ScannedChild { entry: k, pos, len: len + 1 });
                assert(children_view(out@) =~= before_c.push((k as int, pos as int, len + 1)));
                assert(before_c.push((k as int, pos as int, len + 1)) + rest.0
                    =~= before_c + (seq![(k as int, pos as int, len + 1)] + rest.0));
            }
            pos = pos + len + 1;
            len = 0;
        }
        k += 1;
    }
    proof {
        let last = scan_from(data@, k as int, pos as int, len as int);
        assert(last.0 =~= Seq::<(int, int, int)>::empty());
        assert(last.1 =~= Seq::<bool>::empty());
        assert(children_view(out@) + last.0 =~= children_view(out@));
        assert(bitvec_bits(*occupy) + last.1 =~= bitvec_bits(*occupy));
    }
    out
}

/// The first cluster a short entry names: its high half at byte 20, its low half at byte 26.
pub open spec fn entry_cluster(e: Seq<u8>) -> u32 {
    ((spec_le16_at(e, 20) as u32) * 0x10000 + spec_le16_at(e, 26) as u32) as u32
}

/// The fields of the short entry `k` of `data`: its attributes, first cluster and size.
pub fn short_entry_fields(data: &[u8], k: usize) -> (r: (u8, u32, u32))
    requires
        32 * k + 32 <= data@.len(),
    ensures
        r.0 == entry_at(data@, k as int)[11],
        r.1 == entry_cluster(entry_at(data@, k as int)),
        r.2 == spec_le32_at(entry_at(data@, k as int), 28),
{
    let dl = data.len();
    assert(32 * k + 32 <= dl);
    let at = 32 * k;
    let ghost e = entry_at(data@, k as int);
    assert(e[11] == data@[at + 11]);
    assert(spec_le16_at(e, 20) == spec_le16_at(data@, at + 20));
    assert(spec_le16_at(e, 26) == spec_le16_at(data@, at + 26));
    assert(spec_le32_at(e, 28) == spec_le32_at(data@, at + 28));
    let hi = get_u16_le(data, at + 20) as u32;
    let lo = get_u16_le(data, at + 26) as u32;
    (data[at + 11], hi * 0x10000 + lo, get_u32_le(data, at + 28))
}

/// `s` without its trailing spaces.
pub open spec fn trim_spaces(s: Seq<u8>) -> Seq<u8>
    decreases s.len(),
{
    if s.len() > 0 && s.last() == 0x20 { trim_spaces(s.drop_last()) } else { s }
}

/// An ASCII capital letter made small; any other byte kept.
pub open spec fn ascii_lower(b: u8) -> u8 {
    if 0x41 <= b && b <= 0x5A { (b + 32) as u8 } else { b }
}

/// `s` with its capital letters made small when `lower`.
pub open spec fn lower_if(s: Seq<u8>, lower: bool) -> Seq<u8> {
    if lower { s.map_values(|b: u8| ascii_lower(b)) } else { s }
}

/// The name a short entry spells: the base name and the extension without their padding
/// spaces, joined by a dot when there is an extension. A first byte of 0x05 stands for 0xE5.
/// Bits 3 and 4 of byte 12 ask for the base name and the extension in small letters.
pub open spec fn short_name(e: Seq<u8>) -> Seq<u8> {
    let raw = if e[0] == 0x05 { e.subrange(0, 8).update(0, 0xE5) } else { e.subrange(0, 8) };
    let base = lower_if(trim_spaces(raw), e[12] & 0x08 != 0);
    let ext = lower_if(trim_spaces(e.subrange(8, 11)), e[12] & 0x10 != 0);
    if ext.len() == 0 { base } else { base + seq![0x2Eu8] + ext }
}

/// Byte `i` of `s`, where the byte at `from` reads as `first`.
fn byte_of(s: &[u8], i: usize, from: usize, first: u8) -> (r: u8)
    requires
        from <= i < s@.len(),
    ensures
        r == s@.subrange(from as int, s@.len() as int).update(0, first)[i - from],
        forall|to: int| i < to <= s@.len() ==> r == #[trigger] s@.subrange(from as int, to).update(0, first)[i - from],
{
    if i == from { first } else { s[i] }
}

/// The bytes `s[from..to]` without trailing spaces, small letters when `lower`.
fn trimmed_part(s: &[u8], from: usize, to: usize, first: u8, lower: bool) -> (r: Vec<u8>)
    requires
        from < to <= s@.len(),
    ensures
        r@ == lower_if(trim_spaces(s@.subrange(from as int, to as int).update(0, first)), lower),
{
    let ghost raw = s@.subrange(from as int, to as int).update(0, first);
    assert(raw.subrange(0, to - from) =~= raw);
    let mut end = to;
    while end > from && byte_of(s, end - 1, from, first) == 0x20
        invariant
            from <= end <= to,
            to <= s@.len(),
            raw == s@.subrange(from as int, to as int).update(0, first),
            trim_spaces(raw) == trim_spaces(raw.subrange(0, end - from)),
        decreases end - from,
    {
        assert(raw.subrange(0, end - from).last() == 0x20);
        assert(raw.subrange(0, end - from).drop_last() =~= raw.subrange(0, end - 1 - from));
        end -= 1;
    }
    proof {
        let kept = raw.subrange(0, end - from);
        if end > from {
            assert(kept.last() == raw[end - 1 - from]);
            assert(trim_spaces(kept) == kept);
        } else {
            assert(kept =~= Seq::<u8>::empty());
        }
    }
    let mut out: Vec<u8> = Vec::new();
    let mut i = from;
    while i < end
        invariant
            from <= i <= end,
            end <= to,
            to <= s@.len(),
            raw == s@.subrange(from as int, to as int).update(0, first),
            out@ == lower_if(raw.subrange(0, i - from), lower),
        decreases end - i,
    {
        let b = byte_of(s, i, from, first);
        let c = if lower && 0x41 <= b && b <= 0x5A { b + 32 } else { b };
        out.push(c);
        assert(raw.subrange(0, i + 1 - from) =~= raw.subrange(0, i - from).push(b));
        assert(out@ =~= lower_if(raw.subrange(0, i + 1 - from), lower));
        i += 1;
    }
    out
}

/// The name short entry `k` of `data` spells.
pub fn short_name_of(data: &[u8], k: usize) -> (r: Vec<u8>)
    requires
        32 * k + 32 <= data@.len(),
    ensures
        r@ == short_name(entry_at(data@, k as int)),
{
    let dl = data.len();
    assert(32 * k + 32 <= dl);
    let at = 32 * k;
    let ghost e = entry_at(data@, k as int);
    let first = if data[at] == 0x05 { 0xE5 } else { data[at] };
    let flags = data[at + 12];
    assert(e.subrange(0, 8) =~= data@.subrange(at as int, at + 8));
    assert(e.subrange(8, 11) =~= data@.subrange(at + 8, at + 11));
    assert(e[0] == data@[at as int] && e[12] == flags);
    assert(e.subrange(0, 8).update(0, first) =~= (if e[0] == 0x05 { e.subrange(0, 8).update(0, 0xE5) } else { e.subrange(0, 8) }));
    assert(data@.subrange(at + 8, at + 11).update(0, data@[at + 8]) =~= data@.subrange(at + 8, at + 11));
    let mut name = trimmed_part(data, at, at + 8, first, flags & 0x08 != 0);
    let ext = trimmed_part(data, at + 8, at + 11, data[at + 8], flags & 0x10 != 0);
    if ext.len() > 0 {
        let ghost base = name@;
        name.push(0x2E);
        crate::bytes::push_bytes(&mut name, ext.as_slice());
        assert(name@ =~= base + seq![0x2Eu8] + ext@);
    }
    name
}

/// Where the 13 name units of a long-name entry lie.
pub open spec fn lfn_offset(j: int) -> int {
    if j < 5 { 1 + 2 * j } else if j < 11 { 14 + 2 * (j - 5) } else { 28 + 2 * (j - 11) }
}

/// The 13 name units of a long-name entry.
pub open spec fn entry_units(e: Seq<u8>) -> Seq<u16> {
    Seq::new(13, |j: int| spec_le16_at(e, lfn_offset(j)))
}

/// The name units held by the `m` long-name entries right before entry `k`, first part first:
/// the entry just before `k` holds the first 13 units.
pub open spec fn lfn_units(data: Seq<u8>, k: int, m: int) -> Seq<u16>
    decreases m,
{
    if m <= 0 { Seq::empty() } else { lfn_units(data, k, m - 1) + entry_units(entry_at(data, k - m)) }
}

/// The units of `s` before its first zero unit.
pub open spec fn until_nul(s: Seq<u16>) -> Seq<u16>
    decreases s.len(),
{
    if s.len() == 0 { s } else if s[0] == 0 { Seq::empty() } else { seq![s[0]] + until_nul(s.drop_first()) }
}

/// The long name of the child whose short entry is `k`, with `m` long-name entries.
pub open spec fn long_name(data: Seq<u8>, k: int, m: int) -> Seq<u16> {
    until_nul(lfn_units(data, k, m))
}

proof fn lemma_until_nul_prefix(s: Seq<u16>, i: int)
    requires
        0 <= i <= s.len(),
        forall|j: int| 0 <= j < i ==> s[j] != 0,
    ensures
        until_nul(s) == s.subrange(0, i) + until_nul(s.subrange(i, s.len() as int)),
    decreases i,
{
    if i > 0 {
        lemma_until_nul_prefix(s.drop_first(), i - 1);
        assert(s.drop_first().subrange(0, i - 1) =~= s.subrange(1, i));
        assert(s.drop_first().subrange(i - 1, s.len() - 1) =~= s.subrange(i, s.len() as int));
        assert(seq![s[0]] + s.subrange(1, i) =~= s.subrange(0, i));
        assert(seq![s[0]] + (s.subrange(1, i) + until_nul(s.subrange(i, s.len() as int)))
            =~= s.subrange(0, i) + until_nul(s.subrange(i, s.len() as int)));
    } else {
        assert(s.subrange(0, 0) + until_nul(s) =~= until_nul(s));
        assert(s.subrange(0, s.len() as int) =~= s);
    }
}

/// The long name of the child whose short entry is entry `k` of `data`, held by the `m`
/// long-name entries before it.
pub fn long_name_of(data: &[u8], k: usize, m: usize) -> (r: Vec<u16>)
    requires
        m <= k,
        32 * k + 32 <= data@.len(),
    ensures
        r@ == long_name(data@, k as int, m as int),
{
    let dl = data.len();
    let mut units: Vec<u16> = Vec::new();
    let mut q: usize = 1;
    assert(units@ =~= lfn_units(data@, k as int, 0));
    while q <= m
        invariant
            1 <= q <= m + 1,
            m <= k,
            dl == data@.len(),
            32 * k + 32 <= data@.len(),
            units@ == lfn_units(data@, k as int, q - 1),
        decreases m + 1 - q,
    {
        assert(32 * (k - q) + 32 <= data@.len()) by (nonlinear_arith)
            requires 32 * k + 32 <= data@.len(), 1 <= q <= k;
        let at = 32 * (k - q);
        let ghost e = entry_at(data@, k - q);
        let ghost before = units@;
        let offsets: [usize; 13] = [1, 3, 5, 7, 9, 14, 16, 18, 20, 22, 24, 28, 30];
        let mut j: usize = 0;
        while j < 13
            invariant
                j <= 13,
                at == 32 * (k - q),
                at + 32 <= data@.len(),
                e == entry_at(data@, k - q),
                offsets@ == seq![1usize, 3, 5, 7, 9, 14, 16, 18, 20, 22, 24, 28, 30],
                units@ == before + entry_units(e).subrange(0, j as int),
            decreases 13 - j,
        {
            let off = offsets[j];
            assert(off == lfn_offset(j as int));
            assert(spec_le16_at(e, off as int) == spec_le16_at(data@, at + off));
            let u = get_u16_le(data, at + off);
            units.push(u);
            assert(entry_units(e).subrange(0, j + 1) =~= entry_units(e).subrange(0, j as int).push(u));
            assert(units@ =~= before + entry_units(e).subrange(0, j + 1));
            j += 1;
        }
        assert(entry_units(e).subrange(0, 13) =~= entry_units(e));
        q += 1;
    }
    let ghost all = units@;
    let mut n: usize = 0;
    while n < units.len() && units[n] != 0
        invariant
            n <= all.len(),
            units@ == all,
            forall|j: int| 0 <= j < n ==> all[j] != 0,
        decreases all.len() - n,
    {
        n += 1;
    }
    proof {
        lemma_until_nul_prefix(all, n as int);
        let rest = all.subrange(n as int, all.len() as int);
        if n < all.len() {
            assert(rest[0] == 0);
        } else {
            assert(rest =~= Seq::<u16>::empty());
        }
        assert(until_nul(rest) =~= Seq::<u16>::empty());
        assert(all.subrange(0, n as int) + Seq::<u16>::empty() =~= all.subrange(0, n as int));
    }
    units.truncate(n);
    units
}

/// A byte rotated right by one bit.
pub open spec fn rotate_right(s: u8) -> u8 {
    ((s & 1u8) << 7u8) | (s >> 1u8)
}

/// The checksum of a short name that its long-name entries carry: each byte added, modulo 256,
/// to the running sum rotated right by one bit.
pub open spec fn name_checksum(name: Seq<u8>, n: int) -> u8
    decreases n,
{
    if n <= 0 {
        0
    } else {
        ((rotate_right(name_checksum(name, n - 1)) as u16 + name[n - 1] as u16) % 256) as u8
    }
}

/// The checksum of the 11-byte short name `name`.
pub fn checksum(name: &[u8; 11]) -> (r: u8)
    ensures
        r == name_checksum(name@, 11),
{
    let mut sum: u8 = 0;
    let mut i: usize = 0;
    while i < 11
        invariant
            i <= 11,
            sum == name_checksum(name@, i as int),
        decreases 11 - i,
    {
        let rot: u8 = ((sum & 1) << 7) | (sum >> 1);
        sum = ((rot as u16 + name[i] as u16) % 256) as u8;
        i += 1;
    }
    sum
}

/// The name unit at `i` of the long-name units of `name`: the name, one zero unit after it,
/// then 0xFFFF.
pub open spec fn lfn_unit(name: Seq<u16>, i: int) -> u16 {
    if i < name.len() { name[i] } else if i == name.len() { 0 } else { 0xFFFF }
}

/// The 13 name units of long-name entry number `ord` (from 1) of `name`.
pub open spec fn lfn_part(name: Seq<u16>, ord: int) -> Seq<u16> {
    Seq::new(13, |j: int| lfn_unit(name, 13 * (ord - 1) + j))
}

/// A long-name entry with first byte `first` holding the 13 units `u`, for the short name with
/// checksum `csum`.
pub open spec fn lfn_entry(first: u8, u: Seq<u16>, csum: u8) -> Seq<u8> {
    seq![first] + le16(u[0]) + le16(u[1]) + le16(u[2]) + le16(u[3]) + le16(u[4])
        + seq![0x0Fu8, 0x00u8, csum]
        + le16(u[5]) + le16(u[6]) + le16(u[7]) + le16(u[8]) + le16(u[9]) + le16(u[10])
        + seq![0x00u8, 0x00u8]
        + le16(u[11]) + le16(u[12])
}

/// The first byte of long-name entry number `ord`: its number, with 0x40 on the last one.
pub open spec fn lfn_first(ord: int, last: bool) -> u8 {
    (if last { ord + 0x40 } else { ord }) as u8
}

/// The long-name entries for numbers `q` down to 1 of `name`, which has `m` in all.
pub open spec fn lfn_run(name: Seq<u16>, m: int, q: int, csum: u8) -> Seq<u8>
    decreases q,
{
    if q <= 0 {
        Seq::empty()
    } else {
        lfn_entry(lfn_first(q, q == m), lfn_part(name, q), csum) + lfn_run(name, m, q - 1, csum)
    }
}

/// The number of long-name entries a name of `n` units takes.
pub open spec fn lfn_count(n: int) -> int {
    (n + 12) / 13
}

/// A short entry with the 11-byte name `name11`, attributes `attr`, first cluster `cluster`
/// and size `size`; times and dates zero.
pub open spec fn short_entry(name11: Seq<u8>, attr: u8, cluster: u32, size: u32) -> Seq<u8> {
    name11 + seq![attr, 0u8, 0u8, 0u8, 0u8, 0u8, 0u8, 0u8, 0u8] + le16((cluster >> 16u32) as u16)
        + seq![0u8, 0u8, 0u8, 0u8] + le16((cluster & 0xffffu32) as u16) + le32(size)
}

/// The byte a name unit gives a short name: ASCII letters in capitals, digits as they are.
pub open spec fn short_char(u: u16) -> Option<u8> {
    if 0x61 <= u && u <= 0x7A {
        Some((u - 32) as u8)
    } else if (0x41 <= u && u <= 0x5A) || (0x30 <= u && u <= 0x39) {
        Some(u as u8)
    } else {
        None
    }
}

/// The short-name bytes of the units `s`: the letters and digits, in capitals.
pub open spec fn short_chars(s: Seq<u16>) -> Seq<u8>
    decreases s.len(),
{
    if s.len() == 0 {
        Seq::empty()
    } else {
        short_chars(s.drop_last()) + match short_char(s.last()) {
            Some(c) => seq![c],
            None => Seq::empty(),
        }
    }
}

/// The index of the last dot of `s`, or -1.
pub open spec fn last_dot(s: Seq<u16>) -> int
    decreases s.len(),
{
    if s.len() == 0 { -1 } else if s.last() == 0x2E { s.len() - 1 } else { last_dot(s.drop_last()) }
}

/// The first `n` bytes of `s`, or all of it.
pub open spec fn take(s: Seq<u8>, n: int) -> Seq<u8> {
    if s.len() <= n { s } else { s.subrange(0, n) }
}

/// `s` padded with spaces to `n` bytes.
pub open spec fn pad(s: Seq<u8>, n: int) -> Seq<u8> {
    s + Seq::new((n - s.len()) as nat, |_i: int| 0x20u8)
}

/// The short name given to a new entry named `name`: up to six letters and digits of the part
/// before the last dot (an underscore when there are none), then `~1`, padded to eight bytes,
/// and up to three letters and digits of the part after the last dot, padded to three.
pub open spec fn short_name_for(name: Seq<u16>) -> Seq<u8> {
    let dot = last_dot(name);
    let base_units = if dot < 0 { name } else { name.subrange(0, dot) };
    let ext_units = if dot < 0 { Seq::empty() } else { name.subrange(dot + 1, name.len() as int) };
    let chars = take(short_chars(base_units), 6);
    let basis = if chars.len() == 0 { seq![0x5Fu8] } else { chars };
    pad(basis + seq![0x7Eu8, 0x31u8], 8) + pad(take(short_chars(ext_units), 3), 3)
}

/// The name is that of the directory itself or of its parent.
pub open spec fn is_dot_units(name: Seq<u16>) -> bool {
    name == seq![0x2Eu16] || name == seq![0x2Eu16, 0x2E]
}

/// The entries written for a new entry named `name`: for "." and "..", the short entry alone;
/// for any other name, its long-name entries, last part first, then its short entry.
pub open spec fn dirent_run(name: Seq<u16>, attr: u8, cluster: u32, size: u32) -> Seq<u8> {
    if name == seq![0x2Eu16] {
        short_entry(dot_name(), attr, cluster, size)
    } else if name == seq![0x2Eu16, 0x2E] {
        short_entry(dotdot_name(), attr, cluster, size)
    } else {
        let short = short_name_for(name);
        let m = lfn_count(name.len() as int);
        lfn_run(name, m, m, name_checksum(short, 11)) + short_entry(short, attr, cluster, size)
    }
}

/// Appends the little-endian bytes of `v`.
fn push_le16(out: &mut Vec<u8>, v: u16)
    ensures
        final(out)@ == old(out)@ + le16(v),
{
    out.push((v & 0xff) as u8);
    out.push((v >> 8) as u8);
    assert(final(out)@ =~= old(out)@ + le16(v));
}

/// Appends the little-endian bytes of `v`.
fn push_le32(out: &mut Vec<u8>, v: u32)
    ensures
        final(out)@ == old(out)@ + le32(v),
{
    out.push((v & 0xff) as u8);
    out.push(((v >> 8) & 0xff) as u8);
    out.push(((v >> 16) & 0xff) as u8);
    out.push((v >> 24) as u8);
    assert(final(out)@ =~= old(out)@ + le32(v));
}

/// The unit at `i` of the long-name units of `name`.
fn lfn_unit_at(name: &[u16], i: usize) -> (r: u16)
    ensures
        r == lfn_unit(name@, i as int),
{
    if i < name.len() { name[i] } else if i == name.len() { 0 } else { 0xFFFF }
}

/// Appends long-name entry number `ord` of `name`.
fn push_lfn_entry(out: &mut Vec<u8>, name: &[u16], ord: usize, last: bool, csum: u8)
    requires
        1 <= ord <= 20,
    ensures
        final(out)@ == old(out)@ + lfn_entry(lfn_first(ord as int, last), lfn_part(name@, ord as int), csum),
{
    let base = 13 * (ord - 1);
    let ghost u = lfn_part(name@, ord as int);
    out.push(if last { (ord + 0x40) as u8 } else { ord as u8 });
    push_le16(out, lfn_unit_at(name, base));
    push_le16(out, lfn_unit_at(name, base + 1));
    push_le16(out, lfn_unit_at(name, base + 2));
    push_le16(out, lfn_unit_at(name, base + 3));
    push_le16(out, lfn_unit_at(name, base + 4));
    out.push(0x0F);
    out.push(0x00);
    out.push(csum);
    push_le16(out, lfn_unit_at(name, base + 5));
    push_le16(out, lfn_unit_at(name, base + 6));
    push_le16(out, lfn_unit_at(name, base + 7));
    push_le16(out, lfn_unit_at(name, base + 8));
    push_le16(out, lfn_unit_at(name, base + 9));
    push_le16(out, lfn_unit_at(name, base + 10));
    out.push(0x00);
    out.push(0x00);
    push_le16(out, lfn_unit_at(name, base + 11));
    push_le16(out, lfn_unit_at(name, base + 12));
    assert(final(out)@ =~= old(out)@ + lfn_entry(lfn_first(ord as int, last), u, csum));
}

/// Appends a short entry.
fn push_short_entry(out: &mut Vec<u8>, name11: &[u8; 11], attr: u8, cluster: u32, size: u32)
    ensures
        final(out)@ == old(out)@ + short_entry(name11@, attr, cluster, size),
{
    crate::bytes::push_bytes(out, name11);
    out.push(attr);
    let mut i: usize = 0;
    while i < 8
        invariant
            i <= 8,
            out@ == old(out)@ + name11@ + seq![attr] + Seq::new(i as nat, |_j: int| 0u8),
        decreases 8 - i,
    {
        out.push(0);
        assert(out@ =~= old(out)@ + name11@ + seq![attr] + Seq::new((i + 1) as nat, |_j: int| 0u8));
        i += 1;
    }
    push_le16(out, (cluster >> 16) as u16);
    out.push(0);
    out.push(0);
    out.push(0);
    out.push(0);
    push_le16(out, (cluster & 0xffff) as u16);
    push_le32(out, size);
    assert(Seq::new(8, |_j: int| 0u8) =~= seq![0u8, 0u8, 0u8, 0u8, 0u8, 0u8, 0u8, 0u8]);
    assert(final(out)@ =~= old(out)@ + short_entry(name11@, attr, cluster, size));
}

/// The short-name bytes of `name[from..to]`.
fn short_chars_of(name: &[u16], from: usize, to: usize) -> (r: Vec<u8>)
    requires
        from <= to <= name@.len(),
    ensures
        r@ == short_chars(name@.subrange(from as int, to as int)),
        r@.len() <= to - from,
{
    let mut out: Vec<u8> = Vec::new();
    let mut i = from;
    assert(name@.subrange(from as int, from as int) =~= Seq::<u16>::empty());
    while i < to
        invariant
            from <= i <= to,
            to <= name@.len(),
            out@ == short_chars(name@.subrange(from as int, i as int)),
            out@.len() <= i - from,
        decreases to - i,
    {
        let u = name[i];
        let ghost part = name@.subrange(from as int, i + 1);
        assert(part.drop_last() =~= name@.subrange(from as int, i as int));
        assert(part.last() == u);
        if 0x61 <= u && u <= 0x7A {
            out.push((u - 32) as u8);
        } else if (0x41 <= u && u <= 0x5A) || (0x30 <= u && u <= 0x39) {
            out.push(u as u8);
        }
        assert(out@ =~= short_chars(part));
        i += 1;
    }
    out
}

/// Appends the first `n` bytes of `s` (or all of it), then spaces up to `width` bytes in all.
fn push_padded(out: &mut Vec<u8>, s: &[u8], n: usize, width: usize)
    requires
        n <= width,
    ensures
        final(out)@ == old(out)@ + pad(take(s@, n as int), width as int),
{
    let k = if s.len() <= n { s.len() } else { n };
    let mut i: usize = 0;
    while i < k
        invariant
            i <= k,
            k <= s@.len(),
            k == take(s@, n as int).len(),
            out@ == old(out)@ + take(s@, n as int).subrange(0, i as int),
        decreases k - i,
    {
        out.push(s[i]);
        assert(take(s@, n as int)[i as int] == s@[i as int]);
        assert(out@ =~= old(out)@ + take(s@, n as int).subrange(0, i + 1));
        i += 1;
    }
    let mut j = k;
    while j < width
        invariant
            k <= j <= width,
            k == take(s@, n as int).len(),
            out@ == old(out)@ + take(s@, n as int) + Seq::new((j - k) as nat, |_i: int| 0x20u8),
        decreases width - j,
    {
        out.push(0x20);
        assert(out@ =~= old(out)@ + take(s@, n as int) + Seq::new((j + 1 - k) as nat, |_i: int| 0x20u8));
        j += 1;
    }
    assert(take(s@, n as int).subrange(0, k as int) =~= take(s@, n as int));
    assert(out@ =~= old(out)@ + pad(take(s@, n as int), width as int));
}

/// The short name given to a new entry named `name`.
pub fn short_name_for_units(name: &[u16]) -> (r: [u8; 11])
    ensures
        r@ == short_name_for(name@),
{
    let len = name.len();
    let mut d = len;
    assert(name@.subrange(0, len as int) =~= name@);
    while d > 0 && name[d - 1] != 0x2E
        invariant
            d <= len,
            len == name@.len(),
            last_dot(name@) == last_dot(name@.subrange(0, d as int)),
        decreases d,
    {
        assert(name@.subrange(0, d as int).drop_last() =~= name@.subrange(0, d - 1));
        d -= 1;
    }
    let ghost dot = last_dot(name@);
    proof {
        if d == 0 {
            assert(name@.subrange(0, 0) =~= Seq::<u16>::empty());
        } else {
            assert(name@.subrange(0, d as int).last() == name@[d - 1]);
        }
    }
    let (base_end, ext_start) = if d == 0 { (len, len) } else { (d - 1, d) };
    assert(dot < 0 ==> name@.subrange(0, base_end as int) =~= name@);
    assert(dot < 0 ==> name@.subrange(ext_start as int, len as int) =~= Seq::<u16>::empty());
    let chars = short_chars_of(name, 0, base_end);
    let ext = short_chars_of(name, ext_start, len);
    let mut basis: Vec<u8> = Vec::new();
    if chars.len() == 0 {
        basis.push(0x5F);
        assert(basis@ =~= seq![0x5Fu8]);
    } else {
        let w = if chars.len() <= 6 { chars.len() } else { 6 };
        push_padded(&mut basis, chars.as_slice(), w, w);
        assert(take(chars@, w as int) =~= take(chars@, 6));
        assert(pad(take(chars@, 6), w as int) =~= take(chars@, 6));
    }
    basis.push(0x7E);
    basis.push(0x31);
    let mut v: Vec<u8> = Vec::new();
    push_padded(&mut v, basis.as_slice(), 8, 8);
    assert(take(basis@, 8) =~= basis@);
    push_padded(&mut v, ext.as_slice(), 3, 3);
    assert(v@.len() == 11);
    let mut out = [0x20u8; 11];
    let mut i: usize = 0;
    while i < 11
        invariant
            i <= 11,
            v@.len() == 11,
            forall|j: int| 0 <= j < i ==> out@[j] == v@[j],
        decreases 11 - i,
    {
        out[i] = v[i];
        i += 1;
    }
    assert(out@ =~= v@);
    out
}

/// The entries for a new entry named `name`, when a directory entry can hold the name: a long
/// name has 1 to 255 UTF-16 units, so an empty or longer name is `EINVAL`.
pub fn named_entries(name: &[u16], attr: u8, cluster: u32, size: u32) -> (r: Result<Vec<u8>, Errno>)
    ensures
        (name@.len() == 0 || name@.len() > 255) ==> r == Err::<Vec<u8>, Errno>(Errno::EINVAL),
        1 <= name@.len() <= 255 ==> (r matches Ok(v) && v@ == dirent_run(name@, attr, cluster, size)),
{
    if name.len() == 0 || name.len() > 255 {
        return Err(Errno::EINVAL);
    }
    Ok(dirent_entries(name, attr, cluster, size))
}

/// The entries written for a new entry named `name` (see `dirent_run`).
pub fn dirent_entries(name: &[u16], attr: u8, cluster: u32, size: u32) -> (r: Vec<u8>)
    requires
        1 <= name@.len() <= 255,
    ensures
        r@ == dirent_run(name@, attr, cluster, size),
{
    let mut out: Vec<u8> = Vec::new();
    if name.len() == 1 && name[0] == 0x2E {
        assert(name@ =~= seq![0x2Eu16]);
        let dot: [u8; 11] = [0x2E, 0x20, 0x20, 0x20, 0x20, 0x20, 0x20, 0x20, 0x20, 0x20, 0x20];
        assert(dot@ =~= dot_name());
        push_short_entry(&mut out, &dot, attr, cluster, size);
        assert(out@ =~= short_entry(dot_name(), attr, cluster, size));
        return out;
    }
    if name.len() == 2 && name[0] == 0x2E && name[1] == 0x2E {
        assert(name@ =~= seq![0x2Eu16, 0x2E]);
        let dotdot: [u8; 11] = [0x2E, 0x2E, 0x20, 0x20, 0x20, 0x20, 0x20, 0x20, 0x20, 0x20, 0x20];
        assert(dotdot@ =~= dotdot_name());
        push_short_entry(&mut out, &dotdot, attr, cluster, size);
        assert(out@ =~= short_entry(dotdot_name(), attr, cluster, size));
        return out;
    }
    assert(name@ != seq![0x2Eu16] && name@ != seq![0x2Eu16, 0x2E]) by {
        if name@ == seq![0x2Eu16] {
            assert(name@.len() == 1 && name@[0] == 0x2E);
        }
        if name@ == seq![0x2Eu16, 0x2E] {
            assert(name@.len() == 2 && name@[0] == 0x2E && name@[1] == 0x2E);
        }
    }
    let short = short_name_for_units(name);
    let csum = checksum(&short);
    let m = (name.len() + 12) / 13;
    let ghost run = lfn_run(name@, m as int, m as int, csum);
    let mut q = m;
    assert(out@ + lfn_run(name@, m as int, q as int, csum) =~= run);
    while q > 0
        invariant
            q <= m,
            m == lfn_count(name@.len() as int),
            m <= 20,
            run == lfn_run(name@, m as int, m as int, csum),
            out@ + lfn_run(name@, m as int, q as int, csum) == run,
        decreases q,
    {
        let ghost before = out@;
        push_lfn_entry(&mut out, name, q, q == m, csum);
        let ghost e = lfn_entry(lfn_first(q as int, q == m), lfn_part(name@, q as int), csum);
        assert(lfn_run(name@, m as int, q as int, csum) == e + lfn_run(name@, m as int, q - 1, csum));
        assert(out@ + lfn_run(name@, m as int, q - 1, csum) =~= before + (e + lfn_run(name@, m as int, q - 1, csum)));
        q -= 1;
    }
    assert(lfn_run(name@, m as int, 0, csum) =~= Seq::<u8>::empty());
    assert(out@ =~= run);
    push_short_entry(&mut out, &short, attr, cluster, size);
    out
}

/// An entry that ends a directory.
pub fn end_entry() -> (r: [u8; 32])
    ensures
        r@ == Seq::new(32, |_i: int| 0u8),
{
    let r = [0u8; 32];
    assert(r@ =~= Seq::new(32, |_i: int| 0u8));
    r
}

/// A free entry.
pub fn free_entry() -> (r: [u8; 32])
    ensures
        r@ == seq![0xE5u8] + Seq::new(31, |_i: int| 0u8),
        is_free_entry(r@),
{
    let mut r = [0u8; 32];
    r[0] = 0xE5;
    assert(r@ =~= seq![0xE5u8] + Seq::new(31, |_i: int| 0u8));
    r
}

/// A short entry with its size replaced by `size`.
pub fn entry_with_size(entry: &[u8], size: u32) -> (r: Vec<u8>)
    requires
        entry@.len() == 32,
    ensures
        r@ == entry@.subrange(0, 28) + le32(size),
{
    let mut out: Vec<u8> = Vec::new();
    let mut i: usize = 0;
    while i < 28
        invariant
            i <= 28,
            entry@.len() == 32,
            out@ == entry@.subrange(0, i as int),
        decreases 28 - i,
    {
        out.push(entry[i]);
        assert(out@ =~= entry@.subrange(0, i + 1));
        i += 1;
    }
    push_le32(&mut out, size);
    out
}

/// A long-name entry is 32 bytes, and reading its name units gives back the units it was made
/// with.
proof fn lemma_lfn_entry_units(first: u8, u: Seq<u16>, csum: u8)
    requires
        u.len() == 13,
    ensures
        lfn_entry(first, u, csum).len() == 32,
        entry_units(lfn_entry(first, u, csum)) == u,
        lfn_entry(first, u, csum)[0] == first,
        lfn_entry(first, u, csum)[11] == 0x0F,
{
    let e = lfn_entry(first, u, csum);
    assert forall|j: int| 0 <= j < 13 implies #[trigger] spec_le16_at(e, lfn_offset(j)) == u[j] by {
        crate::bytes::lemma_endian_roundtrip(u[j], 0);
        let off = lfn_offset(j);
        assert(e[off] == le16(u[j])[0] && e[off + 1] == le16(u[j])[1]);
    }
    assert(entry_units(e) =~= u);
}

/// The long-name entries for numbers `q` down to 1 take 32 bytes each, entry number `o` at
/// position `q - o`.
proof fn lemma_lfn_run_layout(name: Seq<u16>, m: int, q: int, csum: u8)
    requires
        0 <= q,
    ensures
        lfn_run(name, m, q, csum).len() == 32 * q,
        forall|o: int| 1 <= o <= q ==> #[trigger] entry_at(lfn_run(name, m, q, csum), q - o)
            == lfn_entry(lfn_first(o, o == m), lfn_part(name, o), csum),
    decreases q,
{
    if q > 0 {
        lemma_lfn_run_layout(name, m, q - 1, csum);
        let e = lfn_entry(lfn_first(q, q == m), lfn_part(name, q), csum);
        let rest = lfn_run(name, m, q - 1, csum);
        lemma_lfn_entry_units(lfn_first(q, q == m), lfn_part(name, q), csum);
        assert forall|o: int| 1 <= o <= q implies #[trigger] entry_at(lfn_run(name, m, q, csum), q - o)
            == lfn_entry(lfn_first(o, o == m), lfn_part(name, o), csum) by {
            if o == q {
                assert(entry_at(e + rest, 0) =~= e);
            } else {
                assert(entry_at(e + rest, q - o) =~= entry_at(rest, q - 1 - o));
            }
        }
    }
}

/// The units of long-name parts 1 to `q` of `name`, in order, are its long-name units.
proof fn lemma_lfn_parts(name: Seq<u16>, data: Seq<u8>, m: int, q: int, csum: u8)
    requires
        0 <= q <= m,
        forall|o: int| 1 <= o <= m ==> #[trigger] entry_at(data, m - o) == lfn_entry(lfn_first(o, o == m), lfn_part(name, o), csum),
    ensures
        lfn_units(data, m, q) == Seq::new((13 * q) as nat, |i: int| lfn_unit(name, i)),
    decreases q,
{
    if q > 0 {
        lemma_lfn_parts(name, data, m, q - 1, csum);
        lemma_lfn_entry_units(lfn_first(q, q == m), lfn_part(name, q), csum);
        assert(entry_at(data, m - q) == lfn_entry(lfn_first(q, q == m), lfn_part(name, q), csum));
        assert(lfn_units(data, m, q) =~= Seq::new((13 * q) as nat, |i: int| lfn_unit(name, i)));
    } else {
        assert(lfn_units(data, m, 0) =~= Seq::new(0, |i: int| lfn_unit(name, i)));
    }
}

/// Scanning a run of `m` long-name entries, a short entry and the end, from entry `p` of the
/// run on, finds the one child they make.
proof fn lemma_scan_run(data: Seq<u8>, m: int, p: int)
    requires
        0 <= p <= m,
        data.len() >= 32 * (m + 2),
        forall|k: int| 0 <= k < m ==> !is_end_entry(#[trigger] entry_at(data, k)) && !is_free_entry(entry_at(data, k))
            && is_long_entry(entry_at(data, k)),
        !is_end_entry(entry_at(data, m)) && !is_free_entry(entry_at(data, m)) && !is_long_entry(entry_at(data, m))
            && !is_dot_entry(entry_at(data, m)),
        is_end_entry(entry_at(data, m + 1)),
    ensures
        scan_from(data, p, 0, p).0 == seq![(m, 0int, m + 1)],
    decreases m - p,
{
    assert(data.len() / 32 >= m + 2) by (nonlinear_arith)
        requires data.len() >= 32 * (m + 2);
    if p < m {
        lemma_scan_run(data, m, p + 1);
    } else {
        assert(scan_from(data, m + 1, m + 1, 0).0 =~= Seq::<(int, int, int)>::empty());
        assert(seq![(m, 0int, m + 1)] + Seq::<(int, int, int)>::empty() =~= seq![(m, 0int, m + 1)]);
    }
}

/// What is written for a new entry reads back: scanning the entries written for `name`
/// (followed by the end of the directory) finds one child that spans them all, whose long name
/// is `name` and whose short entry gives back the attributes, first cluster and size. This
/// holds of every name of 1 to 255 units without a zero unit, other than "." and "..", and of
/// every attribute byte but the long-name mark.
pub proof fn lemma_dirent_run_reads_back(name: Seq<u16>, attr: u8, cluster: u32, size: u32)
    requires
        1 <= name.len() <= 255,
        !is_dot_units(name),
        forall|i: int| 0 <= i < name.len() ==> name[i] != 0,
        attr != ATTR_LONG_NAME,
    ensures
        ({
            let data = dirent_run(name, attr, cluster, size) + Seq::new(32, |_i: int| 0u8);
            let m = lfn_count(name.len() as int);
            &&& scan(data).0 == seq![(m, 0int, m + 1)]
            &&& long_name(data, m, m) == name
            &&& entry_at(data, m)[11] == attr
            &&& entry_cluster(entry_at(data, m)) == cluster
            &&& spec_le32_at(entry_at(data, m), 28) == size
        }),
{
    let short = short_name_for(name);
    let csum = name_checksum(short, 11);
    let m = lfn_count(name.len() as int);
    let run = lfn_run(name, m, m, csum);
    let se = short_entry(short, attr, cluster, size);
    let zeros = Seq::new(32, |_i: int| 0u8);
    let data = dirent_run(name, attr, cluster, size) + zeros;
    assert(name != seq![0x2Eu16] && name != seq![0x2Eu16, 0x2E]);
    assert(data == run + se + zeros);
    assert(1 <= m <= 20 && 13 * m >= name.len()) by (nonlinear_arith)
        requires m == (name.len() + 12) / 13, 1 <= name.len() <= 255;
    lemma_lfn_run_layout(name, m, m, csum);
    // The short name starts with a capital, a digit or an underscore.
    let dot = last_dot(name);
    let base_units = if dot < 0 { name } else { name.subrange(0, dot) };
    let chars = take(short_chars(base_units), 6);
    let basis = if chars.len() == 0 { seq![0x5Fu8] } else { chars };
    assert(short.len() == 11);
    assert(short[0] == basis[0]);
    assert(short[0] != 0 && short[0] != 0xE5 && short[0] != 0x2E) by {
        if chars.len() > 0 {
            lemma_short_chars_range(base_units);
            assert(chars[0] == short_chars(base_units)[0]);
        }
    }
    assert(se.len() == 32);
    assert forall|k: int| 0 <= k < m implies !is_end_entry(#[trigger] entry_at(data, k)) && !is_free_entry(entry_at(data, k))
        && is_long_entry(entry_at(data, k)) by {
        assert(entry_at(data, k) =~= entry_at(run, k));
        lemma_lfn_entry_units(lfn_first(m - k, m - k == m), lfn_part(name, m - k), csum);
        assert(entry_at(run, m - (m - k)) == lfn_entry(lfn_first(m - k, m - k == m), lfn_part(name, m - k), csum));
    }
    assert(entry_at(data, m) =~= se);
    assert(se[0] == short[0] && se[11] == attr);
    assert(se.subrange(0, 11) =~= short);
    assert(!is_dot_entry(se)) by {
        assert(dot_name()[0] == 0x2E && dotdot_name()[0] == 0x2E);
    }
    assert(entry_at(data, m + 1) =~= zeros);
    lemma_scan_run(data, m, 0);
    // The long name.
    assert forall|o: int| 1 <= o <= m implies #[trigger] entry_at(data, m - o)
        == lfn_entry(lfn_first(o, o == m), lfn_part(name, o), csum) by {
        assert(entry_at(data, m - o) =~= entry_at(run, m - o));
    }
    lemma_lfn_parts(name, data, m, m, csum);
    let padded = Seq::new((13 * m) as nat, |i: int| lfn_unit(name, i));
    lemma_until_nul_prefix(padded, name.len() as int);
    assert(padded.subrange(0, name.len() as int) =~= name);
    let rest = padded.subrange(name.len() as int, 13 * m);
    if name.len() < 13 * m {
        assert(rest[0] == 0);
    } else {
        assert(rest =~= Seq::<u16>::empty());
    }
    assert(until_nul(rest) =~= Seq::<u16>::empty());
    assert(name + Seq::<u16>::empty() =~= name);
    // The short entry's fields.
    crate::bytes::lemma_endian_roundtrip((cluster >> 16u32) as u16, size);
    crate::bytes::lemma_endian_roundtrip((cluster & 0xffffu32) as u16, 0);
    assert(spec_le16_at(se, 20) == spec_le16_at(le16((cluster >> 16u32) as u16), 0));
    assert(spec_le16_at(se, 26) == spec_le16_at(le16((cluster & 0xffffu32) as u16), 0));
    assert(spec_le32_at(se, 28) == spec_le32_at(le32(size), 0));
    assert((((cluster >> 16u32) as u16) as u32) * 0x10000 + (((cluster & 0xffffu32) as u16) as u32) == cluster) by (bit_vector);
}

/// The short-name bytes are capitals, digits and nothing else.
proof fn lemma_short_chars_range(s: Seq<u16>)
    ensures
        forall|i: int| 0 <= i < short_chars(s).len() ==> {
            let c = #[trigger] short_chars(s)[i];
            (0x41 <= c <= 0x5A) || (0x30 <= c <= 0x39)
        },
    decreases s.len(),
{
    if s.len() > 0 {
        lemma_short_chars_range(s.drop_last());
        let prev = short_chars(s.drop_last());
        let tail = match short_char(s.last()) {
            Some(c) => seq![c],
            None => Seq::<u8>::empty(),
        };
        assert(short_chars(s) == prev + tail);
        assert forall|i: int| 0 <= i < short_chars(s).len() implies {
            let c = #[trigger] short_chars(s)[i];
            (0x41 <= c <= 0x5A) || (0x30 <= c <= 0x39)
        } by {
            if i < prev.len() {
                assert(short_chars(s)[i] == prev[i]);
            } else {
                assert(short_chars(s)[i] == tail[i - prev.len()]);
            }
        }
    }
}

/// The type of a child found in a directory: a directory when its attributes say so, a regular
/// file otherwise.
pub fn mode_of_attr(attr: u8) -> (r: InodeMode)
    ensures
        r@ == if attr & ATTR_DIRECTORY == ATTR_DIRECTORY { InodeMode::S_IFDIR } else { InodeMode::S_IFREG },
{
    if attr & ATTR_DIRECTORY == ATTR_DIRECTORY {
        InodeMode::from_bits_retain(InodeMode::S_IFDIR)
    } else {
        InodeMode::from_bits_retain(InodeMode::S_IFREG)
    }
}

/// The name of a child found in a directory, as it is stored.
pub enum ChildName {
    /// Its long name, in UTF-16 units.
    Long(Vec<u16>),
    /// Its short name, as bytes.
    Short(Vec<u8>),
}

/// The name of `child` in the directory entries `data`: its long name when it has long-name
/// entries, its short name otherwise.
pub fn child_name(data: &[u8], child: &ScannedChild) -> (r: ChildName)
    requires
        32 * child.entry + 32 <= data@.len(),
        child.len <= child.entry + 1,
    ensures
        child.len > 1 ==> (r matches ChildName::Long(u) && u@ == long_name(data@, child.entry as int, child.len - 1)),
        child.len <= 1 ==> (r matches ChildName::Short(b) && b@ == short_name(entry_at(data@, child.entry as int))),
{
    if child.len > 1 {
        ChildName::Long(long_name_of(data, child.entry, child.len - 1))
    } else {
        ChildName::Short(short_name_of(data, child.entry))
    }
}

/// The attributes a new entry of type `mode` gets: the directory mark for a directory, none
/// otherwise.
pub fn attr_of_mode(mode: InodeMode) -> (r: u8)
    ensures
        r == if mode@ & 0xF000 == 0x4000 { ATTR_DIRECTORY } else { 0 },
{
    if mode.is_dir() { ATTR_DIRECTORY } else { 0 }
}

} // verus!
