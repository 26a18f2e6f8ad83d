//! Formatting a whole device as a fresh FAT32 volume: the geometry, the sector images, and the
//! order in which they are written.
use vstd::prelude::*;
use crate::bytes::{le16, le32, spec_le16_at, spec_le32_at, lemma_endian_roundtrip, push_bytes};
use crate::errno::Errno;

verus! {

pub const BLOCK_SIZE: usize = 512;
pub const RESERVED_SECTORS: u16 = 32;
pub const NUM_FATS: u8 = 2;
pub const ROOT_CLUSTER: u32 = 2;
pub const FSINFO_SECTOR: u16 = 1;
pub const BACKUP_BOOT_SECTOR: u16 = 6;
/// FAT32 needs at least this many clusters.
pub const MIN_CLUSTERS: u32 = 65525;

/// The geometry of a volume to format.
#[derive(Debug, Clone, Copy, PartialEq, Eq, Structural)]
pub struct FatGeometry {
    pub total_sectors: u32,
    pub sectors_per_cluster: u8,
    /// Sectors per FAT.
    pub fat_size: u32,
}

/// The largest of 8, 4, 2 and 1 sectors per cluster that leaves at least 65525 clusters
/// beside the reserved region, or 0 when none does.
pub open spec fn spc_choice(total: u32) -> u8 {
    let data = if total >= 32 { total - 32 } else { 0 };
    if data / 8 >= 65525 { 8 }
    else if data / 4 >= 65525 { 4 }
    else if data / 2 >= 65525 { 2 }
    else if data >= 65525 { 1 }
    else { 0 }
}

/// One round of sizing the FAT: the sectors a FAT of `fat` sectors per copy needs to describe
/// the clusters that remain beside the reserved region and both FATs.
pub open spec fn fat_step(total: u32, spc: u8, fat: u32) -> Result<u32, Errno> {
    let reserved_area = 32 + 2 * fat;
    if total < reserved_area {
        Err(Errno::ENOSPC)
    } else {
        let clusters = (total - reserved_area) / (spc as int);
        let fat_bytes = (clusters + 2) * 4;
        if fat_bytes > u32::MAX {
            Err(Errno::EOVERFLOW)
        } else {
            Ok(((fat_bytes + 511) / 512) as u32)
        }
    }
}

/// Sizing the FAT in at most `rounds` rounds, starting from `fat`: stops when a round keeps
/// the size, and gives the size the last round started from.
pub open spec fn fat_iterate(total: u32, spc: u8, fat: u32, rounds: nat) -> Result<u32, Errno>
    decreases rounds,
{
    match fat_step(total, spc, fat) {
        Err(e) => Err(e),
        Ok(next) => if next == fat || rounds <= 1 { Ok(fat) } else { fat_iterate(total, spc, next, (rounds - 1) as nat) },
    }
}

/// The geometry of a device of `dev_size` bytes in sectors of `sector_size` bytes: the
/// sectors per cluster, then the FAT size after 16 rounds from `ceil(total * 4 / 512)`.
pub open spec fn spec_format_layout(dev_size: usize, sector_size: usize) -> Result<FatGeometry, Errno> {
    let total = (dev_size / sector_size) as u32;
    let spc = spc_choice(total);
    if spc == 0 {
        Err(Errno::ENOSPC)
    } else {
        match fat_iterate(total, spc, ((total * 4 + 511) / 512) as u32, 16) {
            Err(e) => Err(e),
            Ok(fat) => Ok(FatGeometry { total_sectors: total, sectors_per_cluster: spc, fat_size: fat }),
        }
    }
}

/// The data sectors beside the reserved region, as the search for the cluster size counts them.
pub open spec fn data_beside_reserved(total: u32) -> u32 {
    if total >= 32 { (total - 32) as u32 } else { 0 }
}

/// Every cluster size above `spc` among 8, 4, 2 and 1 leaves too few clusters.
pub open spec fn larger_spc_rejected(total: u32, spc: u8) -> bool {
    let data = data_beside_reserved(total);
    &&& spc < 8 ==> data / 8 < 65525
    &&& spc < 4 ==> data / 4 < 65525
    &&& spc < 2 ==> data / 2 < 65525
    &&& spc < 1 ==> data < 65525
}

/// Chooses the geometry of a device of `dev_size` bytes in sectors of `sector_size` bytes.
pub fn format_layout(dev_size: usize, sector_size: usize) -> (r: Result<FatGeometry, Errno>)
    requires
        sector_size > 0,
        ((dev_size / sector_size) as u32) * 4 + 511 <= u32::MAX,
    ensures
        r == spec_format_layout(dev_size, sector_size),
        r matches Ok(g) ==> g.fat_size >= 1 && g.sectors_per_cluster >= 1
            && 32 + 2 * g.fat_size <= g.total_sectors,
{
    let total_sectors = (dev_size / sector_size) as u32;
    let reserved_sectors = RESERVED_SECTORS;
    let num_fats = NUM_FATS;
    assert(reserved_sectors == 32 && num_fats == 2);
    assert(total_sectors == (dev_size / sector_size) as u32);

    let mut sectors_per_cluster = 8u8;
    while sectors_per_cluster > 0
        invariant
            sectors_per_cluster == 8 || sectors_per_cluster == 4 || sectors_per_cluster == 2
                || sectors_per_cluster == 1 || sectors_per_cluster == 0,
            larger_spc_rejected(total_sectors, sectors_per_cluster),
            reserved_sectors == 32,
        ensures
            sectors_per_cluster == spc_choice(total_sectors),
        decreases sectors_per_cluster,
    {
        let total_data_sectors = if total_sectors >= reserved_sectors as u32 { total_sectors - reserved_sectors as u32 } else { 0 };
        let approx_cluster_count = total_data_sectors / (sectors_per_cluster as u32);
        assert(total_data_sectors == data_beside_reserved(total_sectors));
        assert(sectors_per_cluster == 8 ==> approx_cluster_count == data_beside_reserved(total_sectors) / 8);
        assert(sectors_per_cluster == 4 ==> approx_cluster_count == data_beside_reserved(total_sectors) / 4);
        assert(sectors_per_cluster == 2 ==> approx_cluster_count == data_beside_reserved(total_sectors) / 2);
        assert(total_data_sectors / 1 == total_data_sectors) by (nonlinear_arith);
        assert(sectors_per_cluster == 1 ==> approx_cluster_count == data_beside_reserved(total_sectors));
        if approx_cluster_count >= MIN_CLUSTERS {
            break;
        }
        sectors_per_cluster /= 2;
    }
    if sectors_per_cluster == 0 {
        return Err(Errno::ENOSPC);
    }

    proof {
        let d = data_beside_reserved(total_sectors);
        assert(d / 8 >= 65525 ==> d >= 65525) by (nonlinear_arith);
        assert(d / 4 >= 65525 ==> d >= 65525) by (nonlinear_arith);
        assert(d / 2 >= 65525 ==> d >= 65525) by (nonlinear_arith);
        assert(total_sectors >= 65557);
    }
    let ghost start = ((total_sectors * 4 + 511) / 512) as u32;
    let mut fat_sz: u32 = 0;
    let mut current_fat_sz = (total_sectors * 4 + 511) / 512;
    let mut i: u32 = 0;
    let mut done = false;
    while i < 16 && !done
        invariant
            i <= 16,
            reserved_sectors == 32,
            sectors_per_cluster >= 1,
            sectors_per_cluster == spc_choice(total_sectors),
            total_sectors >= 65557,
            start == ((total_sectors * 4 + 511) / 512) as u32,
            total_sectors * 4 + 511 <= u32::MAX,
            current_fat_sz <= 0x80_0000,
            fat_sz <= 0x80_0000,
            i == 0 ==> current_fat_sz == start && !done,
            i > 0 ==> fat_step(total_sectors, sectors_per_cluster, fat_sz) == Ok::<u32, Errno>(current_fat_sz),
            i > 0 ==> fat_iterate(total_sectors, sectors_per_cluster, start, 16)
                == fat_iterate(total_sectors, sectors_per_cluster, fat_sz, (17 - i) as nat),
            i > 0 ==> 32 + 2 * fat_sz <= total_sectors && fat_sz >= 1,
            done ==> current_fat_sz == fat_sz && i > 0,
            !done && i > 0 ==> current_fat_sz != fat_sz,
        decreases 16 - i,
    {
        let ghost prev = fat_sz;
        fat_sz = current_fat_sz;
        proof {
            if i > 0 {
                assert(fat_iterate(total_sectors, sectors_per_cluster, prev, (17 - i) as nat)
                    == fat_iterate(total_sectors, sectors_per_cluster, fat_sz, (16 - i) as nat));
            }
            assert(fat_iterate(total_sectors, sectors_per_cluster, start, 16)
                == fat_iterate(total_sectors, sectors_per_cluster, fat_sz, (16 - i) as nat));
        }
        let reserved_area = reserved_sectors as u32 + 2 * fat_sz;
        let data_sectors = match total_sectors.checked_sub(reserved_area) {
            Some(n) => n,
            None => return Err(Errno::ENOSPC),
        };
        let spc = sectors_per_cluster as u32;
        let clusters = data_sectors / spc;
        assert(clusters <= data_sectors) by (nonlinear_arith)
            requires spc >= 1, clusters == data_sectors / spc;
        assert(clusters as int == (total_sectors - reserved_area) / (sectors_per_cluster as int));
        let fat_bytes = match (clusters + 2).checked_mul(4) {
            Some(b) => b,
            None => return Err(Errno::EOVERFLOW),
        };
        current_fat_sz = (fat_bytes + 511) / 512;
        i += 1;
        if current_fat_sz == fat_sz {
            done = true;
        }
    }
    Ok(FatGeometry { total_sectors, sectors_per_cluster, fat_size: fat_sz })
}

/// `n` zero bytes.
pub open spec fn zeros(n: nat) -> Seq<u8> {
    Seq::new(n, |_i: int| 0u8)
}

fn push_zeros(buf: &mut Vec<u8>, n: usize)
    ensures
        final(buf)@ == old(buf)@ + zeros(n as nat),
{
    let ghost start = buf@;
    let mut i: usize = 0;
    while i < n
        invariant
            i <= n,
            buf@ == start + zeros(i as nat),
        decreases n - i,
    {
        buf.push(0);
        i += 1;
        assert(buf@ =~= start + zeros(i as nat));
    }
}

fn push_le16(buf: &mut Vec<u8>, v: u16)
    ensures
        final(buf)@ == old(buf)@ + le16(v),
{
    buf.push((v & 0xff) as u8);
    buf.push((v >> 8) as u8);
    assert(final(buf)@ =~= old(buf)@ + le16(v));
}

fn push_le32(buf: &mut Vec<u8>, v: u32)
    ensures
        final(buf)@ == old(buf)@ + le32(v),
{
    buf.push((v & 0xff) as u8);
    buf.push(((v >> 8) & 0xff) as u8);
    buf.push(((v >> 16) & 0xff) as u8);
    buf.push((v >> 24) as u8);
    assert(final(buf)@ =~= old(buf)@ + le32(v));
}

/// The OEM name "MSWIN4.1".
pub open spec fn oem_name() -> Seq<u8> {
    seq![0x4Du8, 0x53, 0x57, 0x49, 0x4E, 0x34, 0x2E, 0x31]
}

/// The volume label "NO NAME    ".
pub open spec fn no_name_label() -> Seq<u8> {
    seq![0x4Eu8, 0x4F, 0x20, 0x4E, 0x41, 0x4D, 0x45, 0x20, 0x20, 0x20, 0x20]
}

/// The file system type "FAT32   ".
pub open spec fn fat32_type() -> Seq<u8> {
    seq![0x46u8, 0x41, 0x54, 0x33, 0x32, 0x20, 0x20, 0x20]
}

/// The boot sector of a fresh volume: 512-byte sectors, 32 reserved sectors, two mirrored
/// FATs, root directory at cluster 2, FSInfo at sector 1, backup boot sector at sector 6.
pub open spec fn boot_sector_image(g: FatGeometry) -> Seq<u8> {
    seq![0xEBu8, 0x58, 0x90] + oem_name() + le16(512) + seq![g.sectors_per_cluster] + le16(32)
        + seq![2u8] + le16(0) + le16(0) + seq![0xF8u8] + le16(0) + le16(63) + le16(255) + le32(0)
        + le32(g.total_sectors) + le32(g.fat_size) + le16(0) + le16(0) + le32(2) + le16(1) + le16(6)
        + zeros(12) + seq![0x80u8, 0x00, 0x29] + le32(0x1234_5678) + no_name_label() + fat32_type()
        + zeros(420) + seq![0x55u8, 0xAA]
}

/// Builds the boot sector of a fresh volume.
pub fn boot_sector_bytes(g: &FatGeometry) -> (r: Vec<u8>)
    ensures
        r@ == boot_sector_image(*g),
        r@.len() == 512,
{
    let mut bs = Vec::new();
    push_bytes(&mut bs, &[0xEB, 0x58, 0x90]);
    push_bytes(&mut bs, &[0x4D, 0x53, 0x57, 0x49, 0x4E, 0x34, 0x2E, 0x31]);
    push_le16(&mut bs, BLOCK_SIZE as u16);
    bs.push(g.sectors_per_cluster);
    push_le16(&mut bs, RESERVED_SECTORS);
    bs.push(NUM_FATS);
    push_le16(&mut bs, 0);
    push_le16(&mut bs, 0);
    bs.push(0xF8);
    push_le16(&mut bs, 0);
    push_le16(&mut bs, 63);
    push_le16(&mut bs, 255);
    push_le32(&mut bs, 0);
    push_le32(&mut bs, g.total_sectors);
    push_le32(&mut bs, g.fat_size);
    push_le16(&mut bs, 0);
    push_le16(&mut bs, 0);
    push_le32(&mut bs, ROOT_CLUSTER);
    push_le16(&mut bs, FSINFO_SECTOR);
    push_le16(&mut bs, BACKUP_BOOT_SECTOR);
    push_zeros(&mut bs, 12);
    push_bytes(&mut bs, &[0x80, 0x00, 0x29]);
    push_le32(&mut bs, 0x1234_5678);
    push_bytes(&mut bs, &[0x4E, 0x4F, 0x20, 0x4E, 0x41, 0x4D, 0x45, 0x20, 0x20, 0x20, 0x20]);
    push_bytes(&mut bs, &[0x46, 0x41, 0x54, 0x33, 0x32, 0x20, 0x20, 0x20]);
    push_zeros(&mut bs, 420);
    push_bytes(&mut bs, &[0x55, 0xAA]);
    assert(bs@ =~= boot_sector_image(*g));
    bs
}

/// The FSInfo sector of a fresh volume: free count unknown, search from cluster 2.
pub open spec fn fsinfo_image() -> Seq<u8> {
    le32(0x4161_5252) + zeros(480) + le32(0x6141_7272) + le32(0xFFFF_FFFF) + le32(2) + zeros(14)
        + seq![0x55u8, 0xAA]
}

/// Builds the FSInfo sector of a fresh volume.
pub fn fsinfo_bytes() -> (r: Vec<u8>)
    ensures
        r@ == fsinfo_image(),
        r@.len() == 512,
{
    let mut fs = Vec::new();
    push_le32(&mut fs, 0x4161_5252);
    push_zeros(&mut fs, 480);
    push_le32(&mut fs, 0x6141_7272);
    push_le32(&mut fs, 0xFFFF_FFFF);
    push_le32(&mut fs, 2);
    push_zeros(&mut fs, 14);
    push_bytes(&mut fs, &[0x55, 0xAA]);
    assert(fs@ =~= fsinfo_image());
    fs
}

/// The first sector of each FAT of a fresh volume: entry 0 holds the media type, entry 1 the
/// end-of-chain mark, entry 2, the root directory, the end-of-chain mark.
pub open spec fn first_fat_sector_image() -> Seq<u8> {
    le32(0x0FFF_FFF8) + le32(0x0FFF_FFFF) + le32(0x0FFF_FFFF) + zeros(500)
}

/// Builds the first sector of each FAT of a fresh volume.
pub fn first_fat_sector_bytes() -> (r: Vec<u8>)
    ensures
        r@ == first_fat_sector_image(),
        r@.len() == 512,
{
    let e0: u32 = 0x0FFF_FFF8 | 0xF8u32;
    assert(0x0FFF_FFF8u32 | 0xF8u32 == 0x0FFF_FFF8u32) by (bit_vector);
    let mut f = Vec::new();
    push_le32(&mut f, e0);
    push_le32(&mut f, 0x0FFF_FFFF);
    push_le32(&mut f, 0x0FFF_FFFF);
    push_zeros(&mut f, 500);
    assert(f@ =~= first_fat_sector_image());
    f
}

/// Which sector image a formatting write puts down.
#[derive(Debug, Clone, Copy, PartialEq, Eq, Structural)]
pub enum FormatImage {
    BootSector,
    FsInfo,
    FirstFatSector,
    Zero,
}

/// The writes that format a volume, in order: the boot sector and FSInfo sector, their backups,
/// each FAT (its first sector, then zeros), and the zeroed root directory cluster.
pub open spec fn spec_format_write(g: FatGeometry, k: int) -> Option<(int, FormatImage)> {
    let f = g.fat_size as int;
    let data_start = 32 + 2 * f;
    if k == 0 { Some((0, FormatImage::BootSector)) }
    else if k == 1 { Some((1, FormatImage::FsInfo)) }
    else if k == 2 { Some((6, FormatImage::BootSector)) }
    else if k == 3 { Some((7, FormatImage::FsInfo)) }
    else if 4 <= k < 4 + f { Some((32 + (k - 4), if k == 4 { FormatImage::FirstFatSector } else { FormatImage::Zero })) }
    else if 4 + f <= k < 4 + 2 * f { Some((32 + (k - 4), if k == 4 + f { FormatImage::FirstFatSector } else { FormatImage::Zero })) }
    else if 4 + 2 * f <= k < 4 + 2 * f + g.sectors_per_cluster { Some((data_start + (k - 4 - 2 * f), FormatImage::Zero)) }
    else { None }
}

/// The `k`th write of formatting a volume of geometry `g`, or `None` after the last.
pub fn format_write(g: &FatGeometry, k: u64) -> (r: Option<(usize, FormatImage)>)
    requires
        g.fat_size >= 1,
        32 + 2 * g.fat_size + g.sectors_per_cluster <= g.total_sectors,
    ensures
        match (r, spec_format_write(*g, k as int)) {
            (Some((s, img)), Some((s2, img2))) => s == s2 && img == img2,
            (None, None) => true,
            _ => false,
        },
{
    let f = g.fat_size as u64;
    let spc = g.sectors_per_cluster as u64;
    if k == 0 {
        Some((0, FormatImage::BootSector))
    } else if k == 1 {
        Some((FSINFO_SECTOR as usize, FormatImage::FsInfo))
    } else if k == 2 {
        Some((BACKUP_BOOT_SECTOR as usize, FormatImage::BootSector))
    } else if k == 3 {
        Some(((BACKUP_BOOT_SECTOR + FSINFO_SECTOR) as usize, FormatImage::FsInfo))
    } else if k < 4 + 2 * f {
        let first = k == 4 || k == 4 + f;
        Some(((32 + (k - 4)) as usize, if first { FormatImage::FirstFatSector } else { FormatImage::Zero }))
    } else if k < 4 + 2 * f + spc {
        Some(((32 + 2 * f + (k - 4 - 2 * f)) as usize, FormatImage::Zero))
    } else {
        None
    }
}

/// Whether a boot sector is unformatted: all zero, or without the 0x55 0xAA signature.
pub fn boot_sector_is_empty(bs: &[u8]) -> (r: bool)
    requires
        bs@.len() == BLOCK_SIZE,
    ensures
        r == ((forall|i: int| 0 <= i < 512 ==> bs@[i] == 0) || bs@[510] != 0x55 || bs@[511] != 0xAA),
{
    let mut all_zero = true;
    let mut i: usize = 0;
    while i < bs.len()
        invariant
            i <= bs@.len(),
            bs@.len() == 512,
            all_zero == (forall|j: int| 0 <= j < i ==> bs@[j] == 0),
        decreases bs@.len() - i,
    {
        if bs[i] != 0 {
            all_zero = false;
        }
        i += 1;
    }
    all_zero || bs[510] != 0x55 || bs[511] != 0xAA
}

/// A formatted volume reads back as formatted: the boot sector carries the signature, and its
/// parameter block gives the geometry it was formatted with; the FSInfo sector carries its
/// signatures.
pub proof fn lemma_format_reads_back(g: FatGeometry)
    ensures
        boot_sector_image(g).len() == 512,
        boot_sector_image(g)[510] == 0x55 && boot_sector_image(g)[511] == 0xAA,
        spec_le16_at(boot_sector_image(g), 11) == 512,
        boot_sector_image(g)[13] == g.sectors_per_cluster,
        spec_le16_at(boot_sector_image(g), 14) == 32,
        boot_sector_image(g)[16] == 2,
        spec_le32_at(boot_sector_image(g), 32) == g.total_sectors,
        spec_le32_at(boot_sector_image(g), 36) == g.fat_size,
        spec_le32_at(boot_sector_image(g), 44) == 2,
        spec_le16_at(boot_sector_image(g), 48) == 1,
        boot_sector_image(g)[66] == 0x29,
        spec_le32_at(fsinfo_image(), 0) == crate::fat32::fsinfo::SIG_START,
        spec_le32_at(fsinfo_image(), 508) == crate::fat32::fsinfo::SIG_END,
{
    let b = boot_sector_image(g);
    lemma_endian_roundtrip(512, g.total_sectors);
    lemma_endian_roundtrip(32, g.fat_size);
    lemma_endian_roundtrip(1, 2);
    lemma_endian_roundtrip(0, 0x4161_5252);
    assert(b.subrange(11, 13) =~= le16(512));
    assert(b.subrange(14, 16) =~= le16(32));
    assert(b.subrange(32, 36) =~= le32(g.total_sectors));
    assert(b.subrange(36, 40) =~= le32(g.fat_size));
    assert(b.subrange(44, 48) =~= le32(2));
    assert(b.subrange(48, 50) =~= le16(1));
    assert(spec_le16_at(b, 11) == spec_le16_at(le16(512), 0));
    assert(spec_le16_at(b, 14) == spec_le16_at(le16(32), 0));
    assert(spec_le32_at(b, 32) == spec_le32_at(le32(g.total_sectors), 0));
    assert(spec_le32_at(b, 36) == spec_le32_at(le32(g.fat_size), 0));
    assert(spec_le32_at(b, 44) == spec_le32_at(le32(2), 0));
    assert(spec_le16_at(b, 48) == spec_le16_at(le16(1), 0));
    let fi = fsinfo_image();
    assert(spec_le32_at(fi, 0) == spec_le32_at(le32(0x4161_5252), 0));
    assert(fi[508] == 0 && fi[509] == 0 && fi[510] == 0x55 && fi[511] == 0xAA);
    assert((0u8 as u32) | ((0u8 as u32) << 8u32) | ((0x55u8 as u32) << 16u32) | ((0xAAu8 as u32) << 24u32) == 0xAA55_0000u32) by (bit_vector);
}

} // verus!
