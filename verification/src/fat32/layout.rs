//! Where things lie on a FAT32 volume: FAT entries, clusters, directory entries, and how a
//! byte range is split over sectors or clusters.
use vstd::prelude::*;
use crate::errno::Errno;
use crate::bytes::{spec_le16_at, spec_le32_at};
use crate::fat32::bpb::BPBOffset;

verus! {

/// A FAT entry.
#[derive(Debug, Clone, Copy, PartialEq, Eq, Structural)]
pub enum FATEnt {
    /// The cluster is free.
    EMPTY,
    /// The cluster is the last of its chain.
    EOF,
    /// The cluster is marked bad.
    BAD,
    /// The chain goes on at this cluster.
    NEXT(u32),
}

/// The FAT entry a raw 32-bit entry holds; only its low 28 bits count.
pub open spec fn fat_ent_of(raw: u32) -> FATEnt {
    let v = raw & 0x0FFF_FFFF;
    if v == 0 { FATEnt::EMPTY }
    else if v >= 0x0FFF_FFF8 { FATEnt::EOF }
    else if v == 0x0FFF_FFF7 { FATEnt::BAD }
    else { FATEnt::NEXT(v) }
}

/// The raw 32-bit value a FAT entry is written as.
pub open spec fn raw_of_fat_ent(e: FATEnt) -> u32 {
    match e {
        FATEnt::EMPTY => 0,
        FATEnt::EOF => 0x0FFF_FFFF,
        FATEnt::BAD => 0x0FFF_FFF7,
        FATEnt::NEXT(c) => c,
    }
}

impl FATEnt {
    /// Reads a raw FAT entry.
    pub fn from_raw(raw: u32) -> (r: FATEnt)
        ensures
            r == fat_ent_of(raw),
    {
        let v = raw & 0x0FFF_FFFF;
        if v == 0 {
            FATEnt::EMPTY
        } else if v >= 0x0FFF_FFF8 {
            FATEnt::EOF
        } else if v == 0x0FFF_FFF7 {
            FATEnt::BAD
        } else {
            FATEnt::NEXT(v)
        }
    }

    /// The raw value of this entry.
    pub fn to_raw(self) -> (r: u32)
        ensures
            r == raw_of_fat_ent(self),
    {
        match self {
            FATEnt::EMPTY => 0,
            FATEnt::EOF => 0x0FFF_FFFF,
            FATEnt::BAD => 0x0FFF_FFF7,
            FATEnt::NEXT(c) => c,
        }
    }
}

/// A FAT entry that is written reads back the same: the free mark, the end mark, the bad mark,
/// and every link to a cluster number from 1 below the bad mark.
pub proof fn lemma_fat_ent_roundtrip(e: FATEnt)
    requires
        e matches FATEnt::NEXT(c) ==> 1 <= c < 0x0FFF_FFF7,
    ensures
        fat_ent_of(raw_of_fat_ent(e)) == e,
{
    match e {
        FATEnt::NEXT(c) => {
            assert(1 <= c < 0x0FFF_FFF7 ==> c & 0x0FFF_FFFF == c) by (bit_vector);
        },
        _ => {
            assert(0u32 & 0x0FFF_FFFF == 0) by (bit_vector);
            assert(0x0FFF_FFFFu32 & 0x0FFF_FFFF == 0x0FFF_FFFF) by (bit_vector);
            assert(0x0FFF_FFF7u32 & 0x0FFF_FFFF == 0x0FFF_FFF7) by (bit_vector);
        },
    }
}

/// The layout of a FAT32 volume with 512-byte sectors.
#[derive(Debug, Clone, Copy, PartialEq, Eq, Structural)]
pub struct FAT32Meta {
    pub sectors_per_cluster: u64,
    pub reserved_sectors: u64,
    pub num_fats: u64,
    /// Sectors per FAT.
    pub fat_size: u64,
    pub root_cluster: u64,
    pub total_sectors: u64,
}

impl FAT32Meta {
    /// The first sector of the data region.
    pub open spec fn first_data_sector(self) -> int {
        self.reserved_sectors + self.num_fats * self.fat_size
    }

    /// The bytes of a cluster.
    pub open spec fn bytes_per_cluster(self) -> int {
        self.sectors_per_cluster * 512
    }

    /// The layout fits the volume and the numbers stay small.
    pub open spec fn wf(self) -> bool {
        &&& 1 <= self.sectors_per_cluster <= 128
        &&& 1 <= self.num_fats <= 255
        &&& self.reserved_sectors <= 0xFFFF
        &&& self.fat_size <= 0xFFFF_FFFF
        &&& self.total_sectors <= 0xFFFF_FFFF
        &&& self.first_data_sector() <= self.total_sectors
    }

    /// The layout a boot sector's parameter block gives; `EINVAL` when it does not fit the
    /// volume (see `wf`).
    pub fn from_boot_sector(bs: &[u8]) -> (r: Result<FAT32Meta, Errno>)
        requires
            bs@.len() >= 48,
        ensures
            ({
                let m = FAT32Meta {
                    sectors_per_cluster: bs@[13] as u64,
                    reserved_sectors: spec_le16_at(bs@, 14) as u64,
                    num_fats: bs@[16] as u64,
                    fat_size: spec_le32_at(bs@, 36) as u64,
                    root_cluster: spec_le32_at(bs@, 44) as u64,
                    total_sectors: spec_le32_at(bs@, 32) as u64,
                };
                &&& m.wf() ==> r == Ok::<FAT32Meta, Errno>(m)
                &&& !m.wf() ==> r == Err::<FAT32Meta, Errno>(Errno::EINVAL)
            }),
    {
        let m = FAT32Meta {
            sectors_per_cluster: BPBOffset::sector_per_cluster(bs) as u64,
            reserved_sectors: BPBOffset::reserved_sectors(bs) as u64,
            num_fats: BPBOffset::fats_number(bs) as u64,
            fat_size: BPBOffset::fat_size(bs) as u64,
            root_cluster: BPBOffset::root_cluster(bs) as u64,
            total_sectors: BPBOffset::total_sectors(bs) as u64,
        };
        if m.sectors_per_cluster < 1 || m.sectors_per_cluster > 128 || m.num_fats < 1 {
            return Err(Errno::EINVAL);
        }
        assert(m.num_fats * m.fat_size <= 255 * 0xFFFF_FFFF) by (nonlinear_arith)
            requires m.num_fats <= 255, m.fat_size <= 0xFFFF_FFFF;
        if m.reserved_sectors + m.num_fats * m.fat_size > m.total_sectors {
            return Err(Errno::EINVAL);
        }
        Ok(m)
    }

    /// One past the last cluster of the data region: the clusters are numbered from 2.
    pub fn max_cluster(&self) -> (r: u64)
        requires
            self.wf(),
        ensures
            r == (self.total_sectors - self.first_data_sector()) / (self.sectors_per_cluster as int) + 2,
    {
        assert(self.num_fats * self.fat_size <= 255 * 0xFFFF_FFFF) by (nonlinear_arith)
            requires self.num_fats <= 255, self.fat_size <= 0xFFFF_FFFF;
        (self.total_sectors - (self.reserved_sectors + self.num_fats * self.fat_size)) / self.sectors_per_cluster + 2
    }

    /// The first sector of cluster `cluster` (clusters are numbered from 2).
    pub fn data_sector_for_cluster(&self, cluster: u64) -> (r: u64)
        requires
            self.wf(),
            2 <= cluster <= 0xFFFF_FFFF,
        ensures
            r == self.first_data_sector() + (cluster - 2) * self.sectors_per_cluster,
    {
        let fd = self.reserved_sectors + self.num_fats * self.fat_size;
        let spc = self.sectors_per_cluster;
        assert((cluster - 2) * spc <= 0xFFFF_FFFF * 128) by (nonlinear_arith)
            requires 2 <= cluster <= 0xFFFF_FFFF, spc <= 128;
        assert(self.num_fats * self.fat_size <= 255 * 0xFFFF_FFFF) by (nonlinear_arith)
            requires self.num_fats <= 255, self.fat_size <= 0xFFFF_FFFF;
        fd + (cluster - 2) * spc
    }

    /// The sector of the FAT entry of `cluster` and the entry's byte offset in that sector.
    pub fn ent_block_for_cluster(&self, cluster: u64) -> (r: (u64, u64))
        requires
            self.wf(),
            cluster <= 0xFFFF_FFFF,
        ensures
            r.0 == self.reserved_sectors + (cluster * 4) / 512,
            r.1 == (cluster * 4) % 512,
            r.1 + 4 <= 512,
    {
        let ent_offset = cluster * 4;
        assert(ent_offset % 512 + 4 <= 512) by (bit_vector)
            requires ent_offset == cluster * 4, cluster <= 0xFFFF_FFFF;
        (self.reserved_sectors + ent_offset / 512, ent_offset % 512)
    }
}

/// Where directory entry number `pos` of a directory lies: the index of its cluster in the
/// directory's cluster chain, the sector within that cluster, and the byte offset within that
/// sector. Entries are 32 bytes.
pub fn dirent_location(bytes_per_cluster: usize, pos: usize) -> (r: (usize, usize, usize))
    requires
        bytes_per_cluster >= 32,
    ensures
        r.0 == pos / (bytes_per_cluster / 32),
        r.1 == (pos % (bytes_per_cluster / 32)) / 16,
        r.2 == (pos % (bytes_per_cluster / 32)) % 16 * 32,
        r.2 + 32 <= 512,
        r.2 % 32 == 0,
{
    let dirents_per_cluster = bytes_per_cluster / 32;
    let within = pos % dirents_per_cluster;
    (pos / dirents_per_cluster, within / 16, within % 16 * 32)
}

/// How many bytes a read at `offset` of a buffer of `len` bytes takes from a file of `size`
/// bytes: none from the end on, otherwise as many as the buffer holds up to the end.
pub fn read_len(offset: usize, size: usize, len: usize) -> (r: usize)
    ensures
        offset >= size ==> r == 0,
        offset < size ==> r == if len < size - offset { len } else { (size - offset) as usize },
{
    if offset >= size {
        return 0;
    }
    if len < size - offset { len } else { size - offset }
}

/// The number of units of `unit` bytes that `n` bytes take, the last one partly filled.
pub open spec fn units_for(n: int, unit: int) -> int {
    n / unit + if n % unit == 0 { 0int } else { 1int }
}

/// The number of units of `unit` bytes that `n` bytes take.
fn units(n: usize, unit: usize) -> (r: usize)
    requires
        unit > 0,
    ensures
        r == units_for(n as int, unit as int),
{
    let q = n / unit;
    if n % unit == 0 {
        q
    } else {
        assert(q < usize::MAX) by (nonlinear_arith)
            requires q == n / unit, n % unit != 0, unit > 0, n <= usize::MAX;
        q + 1
    }
}

/// How many clusters of `per_cluster` directory entries hold `n` entries.
pub fn clusters_for(n: usize, per_cluster: usize) -> (r: usize)
    requires
        per_cluster > 0,
    ensures
        r == units_for(n as int, per_cluster as int),
{
    units(n, per_cluster)
}

/// What a change of a file's size does to its cluster chain.
#[derive(Debug, Clone, Copy, PartialEq, Eq, Structural)]
pub enum ResizePlan {
    /// The size stays; nothing changes.
    Unchanged,
    /// The chain ends after its first `keep` clusters; the rest are freed.
    Shrink { keep: usize },
    /// `add` clusters are allocated and linked after the first `after` clusters of the chain
    /// (none when `add` is zero).
    Grow { after: usize, add: usize },
}

/// The change to the cluster chain of a file of `old_size` bytes when its size becomes
/// `new_size`, with clusters of `bytes_per_cluster` bytes. A chain always keeps its first
/// cluster, even when the file is empty.
pub fn resize_plan(old_size: usize, new_size: usize, bytes_per_cluster: usize) -> (r: ResizePlan)
    requires
        bytes_per_cluster > 0,
    ensures
        new_size == old_size ==> r == ResizePlan::Unchanged,
        new_size < old_size ==> r == (ResizePlan::Shrink {
            keep: if units_for(new_size as int, bytes_per_cluster as int) == 0 { 1 }
                else { units_for(new_size as int, bytes_per_cluster as int) as usize },
        }),
        new_size > old_size ==> ({
            let start = if units_for(old_size as int, bytes_per_cluster as int) == 0 { 1 }
                else { units_for(old_size as int, bytes_per_cluster as int) };
            let end = units_for(new_size as int, bytes_per_cluster as int);
            r == (ResizePlan::Grow {
                after: start as usize,
                add: if start < end { (end - start) as usize } else { 0 },
            })
        }),
{
    if new_size == old_size {
        return ResizePlan::Unchanged;
    }
    if new_size < old_size {
        let mut keep = units(new_size, bytes_per_cluster);
        if keep == 0 {
            keep = 1;
        }
        ResizePlan::Shrink { keep }
    } else {
        let mut start = units(old_size, bytes_per_cluster);
        let end = units(new_size, bytes_per_cluster);
        if start == 0 {
            start = 1;
        }
        ResizePlan::Grow { after: start, add: if start < end { end - start } else { 0 } }
    }
}

/// The chunks of a transfer of `len` buffer bytes over consecutive units of `unit` bytes,
/// starting `off` bytes into unit `idx` at buffer byte `cur`, with `avail` units left: each
/// chunk is (unit, offset in it, buffer start, buffer end). The first chunk is made even for
/// an empty buffer; the transfer stops at the end of the buffer or of the units.
pub open spec fn span_chunks_spec(unit: int, len: int, cur: int, off: int, idx: int, avail: nat) -> Seq<(int, int, int, int)>
    decreases avail,
{
    if avail == 0 {
        Seq::empty()
    } else {
        let next = if cur + unit - off < len { cur + unit - off } else { len };
        seq![(idx, off, cur, next)] + if next == len { Seq::empty() } else {
            span_chunks_spec(unit, len, next, 0, idx + 1, (avail - 1) as nat)
        }
    }
}

/// Splits a transfer of `len` buffer bytes, starting at byte `offset` of a run of `avail`
/// units of `unit` bytes counted from unit 0, into per-unit chunks.
pub fn span_chunks(unit: usize, len: usize, offset: usize, avail: usize) -> (r: Vec<(usize, usize, usize, usize)>)
    requires
        unit > 0,
        offset / unit + avail <= usize::MAX,
        len <= usize::MAX - unit,
    ensures
        chunk_view(r@) == span_chunks_spec(unit as int, len as int, 0, (offset % unit) as int, (offset / unit) as int, avail as nat),
{
    let mut out: Vec<(usize, usize, usize, usize)> = Vec::new();
    let mut cur: usize = 0;
    let mut idx = offset / unit;
    let mut off = offset % unit;
    let mut k: usize = 0;
    let ghost total = span_chunks_spec(unit as int, len as int, 0, (offset % unit) as int, (offset / unit) as int, avail as nat);
    assert(chunk_view(out@) =~= Seq::<(int, int, int, int)>::empty());
    while k < avail
        invariant_except_break
            chunk_view(out@) + span_chunks_spec(unit as int, len as int, cur as int, off as int, idx as int, (avail - k) as nat) == total,
        invariant
            k <= avail,
            unit > 0,
            off < unit,
            cur <= len,
            len <= usize::MAX - unit,
            idx == offset / unit + k,
            offset / unit + avail <= usize::MAX,
        ensures
            chunk_view(out@) == total,
        decreases avail - k,
    {
        let ghost before = chunk_view(out@);
        let next = if cur + unit - off < len { cur + unit - off } else { len };
        let ghost chunk = (idx as int, off as int, cur as int, next as int);
        let ghost rest = if next == len { Seq::<(int, int, int, int)>::empty() } else {
            span_chunks_spec(unit as int, len as int, next as int, 0, idx + 1, (avail - k - 1) as nat)
        };
        assert(span_chunks_spec(unit as int, len as int, cur as int, off as int, idx as int, (avail - k) as nat)
            == seq![chunk] + rest);
        out.push((idx, off, cur, next));
        assert(chunk_view(out@) =~= before.push(chunk));
        assert(before.push(chunk) + rest =~= before + (seq![chunk] + rest));
        off = 0;
        cur = next;
        idx += 1;
        k += 1;
        if cur == len {
            assert(before.push(chunk) + rest =~= before.push(chunk));
            break;
        }
    }
    out
}

/// The shape of the chunks from buffer byte `cur` on, starting at byte `off` of unit `idx`,
/// with `avail` units left: the units are consecutive from `idx`; the first chunk starts at
/// `off` of its unit and at `cur` of the buffer, each later one at the start of its unit and
/// where the one before ended in the buffer; each chunk fits its unit and every one but the
/// last fills it to its end; and when units are left over, the buffer is done.
proof fn lemma_chunks_shape(unit: int, len: int, cur: int, off: int, idx: int, avail: nat)
    requires
        unit > 0,
        0 <= off < unit,
        0 <= cur <= len,
    ensures
        ({
            let s = span_chunks_spec(unit, len, cur, off, idx, avail);
            &&& s.len() <= avail
            &&& avail > 0 ==> s.len() > 0 && s[0].1 == off && s[0].2 == cur
            &&& forall|j: int| 0 <= j < s.len() ==> (#[trigger] s[j]).0 == idx + j
            &&& forall|j: int| 0 < j < s.len() ==> (#[trigger] s[j]).1 == 0 && s[j].2 == s[j - 1].3
            &&& forall|j: int| 0 <= j < s.len() ==> (#[trigger] s[j]).2 <= s[j].3 <= len
                && s[j].3 - s[j].2 <= unit - s[j].1
            &&& forall|j: int| 0 <= j < s.len() - 1 ==> (#[trigger] s[j]).3 - s[j].2 == unit - s[j].1
            &&& 0 < s.len() < avail ==> s[s.len() - 1].3 == len
        }),
    decreases avail,
{
    if avail > 0 {
        let next = if cur + unit - off < len { cur + unit - off } else { len };
        let s = span_chunks_spec(unit, len, cur, off, idx, avail);
        if next == len {
            assert(s =~= seq![(idx, off, cur, next)]);
        } else {
            let rest = span_chunks_spec(unit, len, next, 0, idx + 1, (avail - 1) as nat);
            lemma_chunks_shape(unit, len, next, 0, idx + 1, (avail - 1) as nat);
            assert(s =~= seq![(idx, off, cur, next)] + rest);
            assert forall|j: int| 0 < j < s.len() implies s[j] == rest[j - 1] by {}
            assert forall|j: int| 0 <= j < s.len() implies (#[trigger] s[j]).0 == idx + j by {
                if j > 0 {
                    assert(s[j] == rest[j - 1]);
                }
            }
            assert forall|j: int| 0 < j < s.len() implies (#[trigger] s[j]).1 == 0 && s[j].2 == s[j - 1].3 by {
                assert(s[j] == rest[j - 1]);
                if j > 1 {
                    assert(s[j - 1] == rest[j - 2]);
                }
            }
            assert forall|j: int| 0 <= j < s.len() implies (#[trigger] s[j]).2 <= s[j].3 <= len
                && s[j].3 - s[j].2 <= unit - s[j].1 by {
                if j > 0 {
                    assert(s[j] == rest[j - 1]);
                }
            }
            assert forall|j: int| 0 <= j < s.len() - 1 implies (#[trigger] s[j]).3 - s[j].2 == unit - s[j].1 by {
                if j > 0 {
                    assert(s[j] == rest[j - 1]);
                }
            }
            if 0 < s.len() < avail {
                assert(s[s.len() - 1] == rest[rest.len() - 1]);
            }
        }
    }
}

/// How a transfer of `len` buffer bytes at byte `offset` of a run of `avail` units of `unit`
/// bytes is split: chunk `j` goes to unit `offset / unit + j` (the units follow one another
/// from the one that holds `offset`); the first chunk starts at byte `offset % unit` of its
/// unit and at the start of the buffer, each later one at the start of its unit and where the
/// one before ended in the buffer; every chunk fits its unit and all but the last fill it to
/// its end; and unless all `avail` units are used, the chunks cover the whole buffer.
pub proof fn lemma_span_chunks_layout(unit: usize, len: usize, offset: usize, avail: usize)
    requires
        unit > 0,
    ensures
        ({
            let s = span_chunks_spec(unit as int, len as int, 0, (offset % unit) as int, (offset / unit) as int, avail as nat);
            &&& s.len() <= avail
            &&& avail > 0 ==> s.len() > 0 && s[0].1 == offset % unit && s[0].2 == 0
            &&& forall|j: int| 0 <= j < s.len() ==> (#[trigger] s[j]).0 == offset / unit + j
            &&& forall|j: int| 0 < j < s.len() ==> (#[trigger] s[j]).1 == 0 && s[j].2 == s[j - 1].3
            &&& forall|j: int| 0 <= j < s.len() ==> (#[trigger] s[j]).2 <= s[j].3 <= len
                && s[j].3 - s[j].2 <= unit - s[j].1
            &&& forall|j: int| 0 <= j < s.len() - 1 ==> (#[trigger] s[j]).3 - s[j].2 == unit - s[j].1
            &&& 0 < s.len() < avail ==> s[s.len() - 1].3 == len
        }),
{
    lemma_chunks_shape(unit as int, len as int, 0, (offset % unit) as int, (offset / unit) as int, avail as nat);
}

/// The chunks as integers.
pub open spec fn chunk_view(s: Seq<(usize, usize, usize, usize)>) -> Seq<(int, int, int, int)> {
    s.map_values(|c: (usize, usize, usize, usize)| (c.0 as int, c.1 as int, c.2 as int, c.3 as int))
}

} // verus!
