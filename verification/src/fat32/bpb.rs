//! The boot sector and its BIOS parameter block.
use vstd::prelude::*;
use crate::bytes::{spec_le16_at, spec_le32_at, get_u16_le, get_u32_le, string_from_utf8};

verus! {

/// Fields of the extended boot sector, by their byte offsets.
#[derive(Debug, Clone, Copy, PartialEq, Eq, Structural)]
pub enum BootSectorOffset {
    /// Jump instruction (offset 0).
    JmpBoot,
    /// OEM name (offset 3).
    OEMName,
    /// Drive number (offset 64).
    DrvNum,
    /// Reserved (offset 65).
    Reserved1,
    /// Extended boot signature, saying that the next three fields are present (offset 66).
    BootSig,
    /// Volume serial number (offset 67).
    VolID,
    /// Volume label, matching the one in the root directory (offset 71).
    VolLab,
    /// File system type: FAT12, FAT16 or FAT32 (offset 82).
    FilSysType,
}

impl BootSectorOffset {
    /// The byte offset of the field.
    #[verifier::allow_in_spec]
    pub fn offset(self) -> usize
        returns
            (match self {
                BootSectorOffset::JmpBoot => 0usize,
                BootSectorOffset::OEMName => 3,
                BootSectorOffset::DrvNum => 64,
                BootSectorOffset::Reserved1 => 65,
                BootSectorOffset::BootSig => 66,
                BootSectorOffset::VolID => 67,
                BootSectorOffset::VolLab => 71,
                BootSectorOffset::FilSysType => 82,
            }),
    {
        match self {
            BootSectorOffset::JmpBoot => 0,
            BootSectorOffset::OEMName => 3,
            BootSectorOffset::DrvNum => 64,
            BootSectorOffset::Reserved1 => 65,
            BootSectorOffset::BootSig => 66,
            BootSectorOffset::VolID => 67,
            BootSectorOffset::VolLab => 71,
            BootSectorOffset::FilSysType => 82,
        }
    }

    /// The extended boot signature.
    pub fn boot_sig(sector: &[u8]) -> (r: u8)
        requires
            sector@.len() >= 67,
        ensures
            r == sector@[66],
    {
        sector[BootSectorOffset::BootSig.offset()]
    }

    /// The volume label; a label that is not UTF-8 reads as empty.
    pub fn vol_lab(sector: &[u8]) -> (r: String)
        requires
            sector@.len() >= 82,
        ensures
            vstd::utf8::valid_utf8(sector@.subrange(71, 82)) ==> r@ == vstd::utf8::decode_utf8(sector@.subrange(71, 82)),
            !vstd::utf8::valid_utf8(sector@.subrange(71, 82)) ==> r@ == Seq::<char>::empty(),
    {
        let mut label = Vec::new();
        let mut i: usize = BootSectorOffset::VolLab.offset();
        let end: usize = BootSectorOffset::FilSysType.offset();
        while i < end
            invariant
                71 <= i <= 82,
                end == 82,
                sector@.len() >= 82,
                label@ == sector@.subrange(71, i as int),
            decreases 82 - i,
        {
            label.push(sector[i]);
            i += 1;
            assert(label@ =~= sector@.subrange(71, i as int));
        }
        match string_from_utf8(label) {
            Some(s) => s,
            None => String::new(),
        }
    }
}

/// Fields of the BIOS parameter block, by their byte offsets.
#[derive(Debug, Clone, Copy, PartialEq, Eq, Structural)]
pub enum BPBOffset {
    /// Bytes per sector: 512, 1024, 2048 or 4096 (offset 11).
    BytsPerSec,
    /// Sectors per cluster, a power of 2 (offset 13).
    SecPerClus,
    /// Sectors in the reserved region (offset 14).
    RsvdSecCnt,
    /// Number of FATs, usually 2 (offset 16).
    NumFATs,
    /// 0 on FAT32 (offset 17).
    RootEntCnt,
    /// 0 on FAT32 (offset 19).
    TotSec16,
    /// Media type (offset 21).
    Media,
    /// 0 on FAT32 (offset 22).
    FATSz16,
    /// Sectors per track (offset 24).
    SecPerTrk,
    /// Number of heads (offset 26).
    NumHeads,
    /// Hidden sectors before the volume (offset 28).
    HiddSec,
    /// Sectors in the volume (offset 32).
    TotSec32,
    /// Sectors per FAT (offset 36).
    FATSz32,
    /// Active FAT and mirroring flags (offset 40).
    ExtFlags,
    /// Version, major in the high byte (offset 42).
    FSVer,
    /// Cluster of the root directory (offset 44).
    RootClus,
    /// Sector of the FSInfo structure (offset 48).
    FSInfo,
    /// Sector of the backup boot sector (offset 50).
    BkBootSec,
    /// Reserved (offset 52).
    Reserved,
}

impl BPBOffset {
    /// The byte offset of the field.
    #[verifier::allow_in_spec]
    pub fn offset(self) -> usize
        returns
            (match self {
                BPBOffset::BytsPerSec => 11usize,
                BPBOffset::SecPerClus => 13,
                BPBOffset::RsvdSecCnt => 14,
                BPBOffset::NumFATs => 16,
                BPBOffset::RootEntCnt => 17,
                BPBOffset::TotSec16 => 19,
                BPBOffset::Media => 21,
                BPBOffset::FATSz16 => 22,
                BPBOffset::SecPerTrk => 24,
                BPBOffset::NumHeads => 26,
                BPBOffset::HiddSec => 28,
                BPBOffset::TotSec32 => 32,
                BPBOffset::FATSz32 => 36,
                BPBOffset::ExtFlags => 40,
                BPBOffset::FSVer => 42,
                BPBOffset::RootClus => 44,
                BPBOffset::FSInfo => 48,
                BPBOffset::BkBootSec => 50,
                BPBOffset::Reserved => 52,
            }),
    {
        match self {
            BPBOffset::BytsPerSec => 11,
            BPBOffset::SecPerClus => 13,
            BPBOffset::RsvdSecCnt => 14,
            BPBOffset::NumFATs => 16,
            BPBOffset::RootEntCnt => 17,
            BPBOffset::TotSec16 => 19,
            BPBOffset::Media => 21,
            BPBOffset::FATSz16 => 22,
            BPBOffset::SecPerTrk => 24,
            BPBOffset::NumHeads => 26,
            BPBOffset::HiddSec => 28,
            BPBOffset::TotSec32 => 32,
            BPBOffset::FATSz32 => 36,
            BPBOffset::ExtFlags => 40,
            BPBOffset::FSVer => 42,
            BPBOffset::RootClus => 44,
            BPBOffset::FSInfo => 48,
            BPBOffset::BkBootSec => 50,
            BPBOffset::Reserved => 52,
        }
    }

    /// Bytes per sector.
    pub fn bytes_per_sector(sector: &[u8]) -> (r: u16)
        requires
            sector@.len() >= 13,
        ensures
            r == spec_le16_at(sector@, 11),
    {
        get_u16_le(sector, BPBOffset::BytsPerSec.offset())
    }

    /// Sectors per cluster.
    pub fn sector_per_cluster(sector: &[u8]) -> (r: u8)
        requires
            sector@.len() >= 14,
        ensures
            r == sector@[13],
    {
        sector[BPBOffset::SecPerClus.offset()]
    }

    /// Sectors in the reserved region.
    pub fn reserved_sectors(sector: &[u8]) -> (r: u16)
        requires
            sector@.len() >= 16,
        ensures
            r == spec_le16_at(sector@, 14),
    {
        get_u16_le(sector, BPBOffset::RsvdSecCnt.offset())
    }

    /// Number of FATs.
    pub fn fats_number(sector: &[u8]) -> (r: u8)
        requires
            sector@.len() >= 17,
        ensures
            r == sector@[16],
    {
        sector[BPBOffset::NumFATs.offset()]
    }

    /// Sectors in the volume.
    pub fn total_sectors(sector: &[u8]) -> (r: u32)
        requires
            sector@.len() >= 36,
        ensures
            r == spec_le32_at(sector@, 32),
    {
        get_u32_le(sector, BPBOffset::TotSec32.offset())
    }

    /// Sectors per FAT.
    pub fn fat_size(sector: &[u8]) -> (r: u32)
        requires
            sector@.len() >= 40,
        ensures
            r == spec_le32_at(sector@, 36),
    {
        get_u32_le(sector, BPBOffset::FATSz32.offset())
    }

    /// The extended flags.
    pub fn extend_flags(sector: &[u8]) -> (r: u16)
        requires
            sector@.len() >= 42,
        ensures
            r == spec_le16_at(sector@, 40),
    {
        get_u16_le(sector, BPBOffset::ExtFlags.offset())
    }

    /// Cluster of the root directory.
    pub fn root_cluster(sector: &[u8]) -> (r: u32)
        requires
            sector@.len() >= 48,
        ensures
            r == spec_le32_at(sector@, 44),
    {
        get_u32_le(sector, BPBOffset::RootClus.offset())
    }

    /// Sector of the FSInfo structure.
    pub fn fs_info(sector: &[u8]) -> (r: u16)
        requires
            sector@.len() >= 50,
        ensures
            r == spec_le16_at(sector@, 48),
    {
        get_u16_le(sector, BPBOffset::FSInfo.offset())
    }
}

} // verus!
