use bitvec_rs::BitVec;
use s3k_fs::errno::Errno;
use s3k_fs::fat32::bpb::{BPBOffset, BootSectorOffset};
use s3k_fs::fat32::dir::{find_dirent_slots, release_dirent_slots, reserve_dirent_slots};
use s3k_fs::fat32::format::{
    boot_sector_bytes, boot_sector_is_empty, first_fat_sector_bytes, format_layout, format_write, fsinfo_bytes,
    FatGeometry, FormatImage,
};
use s3k_fs::fat32::fsinfo::{FSInfoOffset, SIG_END, SIG_START};
use s3k_fs::fat32::layout::{
    clusters_for, dirent_location, read_len, resize_plan, span_chunks, FAT32Meta, FATEnt, ResizePlan,
};

const MIB: usize = 1024 * 1024;

fn bits(v: &BitVec) -> Vec<bool> {
    (0..v.len()).map(|i| v[i]).collect()
}

#[test]
fn geometry_of_small_devices() {
    assert_eq!(format_layout(16 * MIB, 512), Err(Errno::ENOSPC));
    assert_eq!(format_layout(32 * MIB, 512), Err(Errno::ENOSPC));
    assert_eq!(
        format_layout(34 * MIB, 512),
        Ok(FatGeometry { total_sectors: 69632, sectors_per_cluster: 1, fat_size: 536 })
    );
    assert_eq!(
        format_layout(64 * MIB, 512),
        Ok(FatGeometry { total_sectors: 131072, sectors_per_cluster: 1, fat_size: 1008 })
    );
}

#[test]
fn geometry_of_larger_devices() {
    assert_eq!(
        format_layout(128 * MIB, 512),
        Ok(FatGeometry { total_sectors: 262144, sectors_per_cluster: 4, fat_size: 510 })
    );
    assert_eq!(
        format_layout(256 * MIB, 512),
        Ok(FatGeometry { total_sectors: 524288, sectors_per_cluster: 8, fat_size: 511 })
    );
    assert_eq!(
        format_layout(1024 * MIB, 512),
        Ok(FatGeometry { total_sectors: 2097152, sectors_per_cluster: 8, fat_size: 2044 })
    );
}

#[test]
fn boot_sector_reads_back() {
    let g = FatGeometry { total_sectors: 131072, sectors_per_cluster: 1, fat_size: 1008 };
    let bs = boot_sector_bytes(&g);
    assert_eq!(bs.len(), 512);
    assert_eq!(&bs[0..11], b"\xEB\x58\x90MSWIN4.1");
    assert_eq!(BPBOffset::bytes_per_sector(&bs), 512);
    assert_eq!(BPBOffset::sector_per_cluster(&bs), 1);
    assert_eq!(BPBOffset::reserved_sectors(&bs), 32);
    assert_eq!(BPBOffset::fats_number(&bs), 2);
    assert_eq!(BPBOffset::total_sectors(&bs), 131072);
    assert_eq!(BPBOffset::fat_size(&bs), 1008);
    assert_eq!(BPBOffset::extend_flags(&bs), 0);
    assert_eq!(BPBOffset::root_cluster(&bs), 2);
    assert_eq!(BPBOffset::fs_info(&bs), 1);
    assert_eq!(BootSectorOffset::boot_sig(&bs), 0x29);
    assert_eq!(BootSectorOffset::vol_lab(&bs), "NO NAME    ");
    assert_eq!(&bs[82..90], b"FAT32   ");
    assert_eq!(&bs[510..512], &[0x55, 0xAA]);
    assert!(!boot_sector_is_empty(&bs));
}

#[test]
fn volume_label_that_is_not_utf8_reads_empty() {
    let mut bs = vec![0u8; 512];
    bs[71] = 0xFF;
    assert_eq!(BootSectorOffset::vol_lab(&bs), "");
}

#[test]
fn fsinfo_sector_reads_back() {
    let fs = fsinfo_bytes();
    assert_eq!(fs.len(), 512);
    assert_eq!(FSInfoOffset::lead_sig(&fs), SIG_START);
    assert_eq!(FSInfoOffset::free_count(&fs), 0xFFFF_FFFF);
    assert_eq!(FSInfoOffset::next_free(&fs), 2);
    assert_eq!(FSInfoOffset::trail_sig(&fs), SIG_END);
    assert_eq!(&fs[484..488], &[0x72, 0x72, 0x41, 0x61]);
}

#[test]
fn first_fat_sector() {
    let f = first_fat_sector_bytes();
    assert_eq!(f.len(), 512);
    assert_eq!(&f[0..12], &[0xF8, 0xFF, 0xFF, 0x0F, 0xFF, 0xFF, 0xFF, 0x0F, 0xFF, 0xFF, 0xFF, 0x0F]);
    assert!(f[12..].iter().all(|&b| b == 0));
}

#[test]
fn empty_boot_sectors() {
    assert!(boot_sector_is_empty(&[0u8; 512]));
    let mut no_sig = vec![1u8; 512];
    assert!(boot_sector_is_empty(&no_sig));
    no_sig[510] = 0x55;
    no_sig[511] = 0xAA;
    assert!(!boot_sector_is_empty(&no_sig));
}

#[test]
fn formatting_writes_in_order() {
    let g = FatGeometry { total_sectors: 131072, sectors_per_cluster: 1, fat_size: 1008 };
    assert_eq!(format_write(&g, 0), Some((0, FormatImage::BootSector)));
    assert_eq!(format_write(&g, 1), Some((1, FormatImage::FsInfo)));
    assert_eq!(format_write(&g, 2), Some((6, FormatImage::BootSector)));
    assert_eq!(format_write(&g, 3), Some((7, FormatImage::FsInfo)));
    assert_eq!(format_write(&g, 4), Some((32, FormatImage::FirstFatSector)));
    assert_eq!(format_write(&g, 5), Some((33, FormatImage::Zero)));
    assert_eq!(format_write(&g, 1011), Some((1039, FormatImage::Zero)));
    assert_eq!(format_write(&g, 1012), Some((1040, FormatImage::FirstFatSector)));
    assert_eq!(format_write(&g, 2019), Some((2047, FormatImage::Zero)));
    assert_eq!(format_write(&g, 2020), Some((2048, FormatImage::Zero)));
    assert_eq!(format_write(&g, 2021), None);
    let mut k = 0;
    while format_write(&g, k).is_some() {
        k += 1;
    }
    assert_eq!(k, 2021);
}

#[test]
fn fat_entries() {
    assert_eq!(FATEnt::from_raw(0), FATEnt::EMPTY);
    assert_eq!(FATEnt::from_raw(0x0FFF_FFFF), FATEnt::EOF);
    assert_eq!(FATEnt::from_raw(0xFFFF_FFF8), FATEnt::EOF);
    assert_eq!(FATEnt::from_raw(0x0FFF_FFF7), FATEnt::BAD);
    assert_eq!(FATEnt::from_raw(5), FATEnt::NEXT(5));
    assert_eq!(FATEnt::from_raw(0xF000_0005), FATEnt::NEXT(5));
    assert_eq!(FATEnt::NEXT(9).to_raw(), 9);
    assert_eq!(FATEnt::EOF.to_raw(), 0x0FFF_FFFF);
    assert_eq!(FATEnt::EMPTY.to_raw(), 0);
    assert_eq!(FATEnt::BAD.to_raw(), 0x0FFF_FFF7);
    for e in [FATEnt::EMPTY, FATEnt::EOF, FATEnt::BAD, FATEnt::NEXT(2), FATEnt::NEXT(0x0FFF_FFF6)] {
        assert_eq!(FATEnt::from_raw(e.to_raw()), e);
    }
}

#[test]
fn cluster_and_fat_entry_places() {
    let m = FAT32Meta {
        sectors_per_cluster: 8,
        reserved_sectors: 32,
        num_fats: 2,
        fat_size: 511,
        root_cluster: 2,
        total_sectors: 524288,
    };
    assert_eq!(m.data_sector_for_cluster(2), 1054);
    assert_eq!(m.data_sector_for_cluster(3), 1062);
    assert_eq!(m.ent_block_for_cluster(2), (32, 8));
    assert_eq!(m.ent_block_for_cluster(200), (33, 288));
}

#[test]
fn directory_entry_places() {
    assert_eq!(dirent_location(4096, 0), (0, 0, 0));
    assert_eq!(dirent_location(4096, 130), (1, 0, 64));
    assert_eq!(dirent_location(4096, 20), (0, 1, 128));
    assert_eq!(dirent_location(512, 17), (1, 0, 32));
}

#[test]
fn read_lengths() {
    assert_eq!(read_len(10, 100, 50), 50);
    assert_eq!(read_len(80, 100, 50), 20);
    assert_eq!(read_len(100, 100, 5), 0);
    assert_eq!(read_len(200, 100, 5), 0);
}

#[test]
fn transfers_split_into_chunks() {
    assert_eq!(span_chunks(512, 1000, 300, 4), vec![(0, 300, 0, 212), (1, 0, 212, 724), (2, 0, 724, 1000)]);
    assert_eq!(span_chunks(512, 10, 1100, 8), vec![(2, 76, 0, 10)]);
    assert_eq!(span_chunks(512, 2000, 0, 2), vec![(0, 0, 0, 512), (1, 0, 512, 1024)]);
    assert_eq!(span_chunks(512, 0, 0, 2), vec![(0, 0, 0, 0)]);
    assert_eq!(span_chunks(512, 100, 0, 0), vec![]);
}

#[test]
fn resizing_a_cluster_chain() {
    assert_eq!(resize_plan(1000, 1000, 512), ResizePlan::Unchanged);
    assert_eq!(resize_plan(5000, 1000, 4096), ResizePlan::Shrink { keep: 1 });
    assert_eq!(resize_plan(5000, 0, 4096), ResizePlan::Shrink { keep: 1 });
    assert_eq!(resize_plan(10000, 5000, 4096), ResizePlan::Shrink { keep: 2 });
    assert_eq!(resize_plan(0, 9000, 4096), ResizePlan::Grow { after: 1, add: 2 });
    assert_eq!(resize_plan(4096, 4097, 4096), ResizePlan::Grow { after: 1, add: 1 });
    assert_eq!(resize_plan(100, 200, 4096), ResizePlan::Grow { after: 1, add: 0 });
}

#[test]
fn finding_free_directory_slots() {
    let v = BitVec::from_bools(&[true, false, false, true, false, false, false]);
    assert_eq!(find_dirent_slots(&v, 2), (1, 3));
    assert_eq!(find_dirent_slots(&v, 3), (4, 7));
    assert_eq!(find_dirent_slots(&v, 5), (4, 7));
    assert_eq!(find_dirent_slots(&BitVec::new(), 2), (0, 0));
}

#[test]
fn claiming_directory_slots() {
    let mut v = BitVec::from_bools(&[true, false, false, true, false, false, false]);
    assert_eq!(reserve_dirent_slots(&mut v, 2), (1, false));
    assert_eq!(bits(&v), vec![true, true, true, true, false, false, false]);
    assert_eq!(reserve_dirent_slots(&mut v, 4), (4, true));
    assert_eq!(bits(&v), vec![true; 8]);
    let mut e = BitVec::new();
    assert_eq!(reserve_dirent_slots(&mut e, 2), (0, true));
    assert_eq!(bits(&e), vec![true, true]);
}

#[test]
fn giving_back_directory_slots() {
    let mut v = BitVec::from_bools(&[true; 8]);
    assert!(release_dirent_slots(&mut v, 4, 4));
    assert_eq!(bits(&v), vec![true; 4]);
    assert!(!release_dirent_slots(&mut v, 1, 2));
    assert_eq!(bits(&v), vec![true, false, false, true]);
    assert_eq!(reserve_dirent_slots(&mut v, 2), (1, false));
    assert_eq!(bits(&v), vec![true; 4]);
}

#[test]
fn layout_of_a_formatted_volume() {
    let g = format_layout(256 * MIB, 512).unwrap();
    let bs = boot_sector_bytes(&g);
    let m = FAT32Meta::from_boot_sector(&bs).unwrap();
    assert_eq!(
        m,
        FAT32Meta {
            sectors_per_cluster: g.sectors_per_cluster as u64,
            reserved_sectors: 32,
            num_fats: 2,
            fat_size: g.fat_size as u64,
            root_cluster: 2,
            total_sectors: g.total_sectors as u64,
        }
    );
    let first_data = 32 + 2 * g.fat_size as u64;
    assert_eq!(m.max_cluster(), (g.total_sectors as u64 - first_data) / g.sectors_per_cluster as u64 + 2);
}

#[test]
fn layouts_that_do_not_fit_are_refused() {
    let mut bs = boot_sector_bytes(&format_layout(256 * MIB, 512).unwrap());
    bs[13] = 0;
    assert_eq!(FAT32Meta::from_boot_sector(&bs), Err(Errno::EINVAL));
    let mut bs = boot_sector_bytes(&format_layout(256 * MIB, 512).unwrap());
    bs[16] = 0;
    assert_eq!(FAT32Meta::from_boot_sector(&bs), Err(Errno::EINVAL));
    let mut bs = boot_sector_bytes(&format_layout(256 * MIB, 512).unwrap());
    bs[32..36].copy_from_slice(&10u32.to_le_bytes());
    assert_eq!(FAT32Meta::from_boot_sector(&bs), Err(Errno::EINVAL));
    assert_eq!(FAT32Meta::from_boot_sector(&[0u8; 512]), Err(Errno::EINVAL));
}

#[test]
fn highest_cluster_number() {
    let m = FAT32Meta {
        sectors_per_cluster: 8,
        reserved_sectors: 32,
        num_fats: 2,
        fat_size: 511,
        root_cluster: 2,
        total_sectors: 524288,
    };
    assert_eq!(m.max_cluster(), (524288 - 1054) / 8 + 2);
}

#[test]
fn clusters_needed_for_a_size() {
    assert_eq!(clusters_for(0, 4096), 0);
    assert_eq!(clusters_for(1, 4096), 1);
    assert_eq!(clusters_for(4096, 4096), 1);
    assert_eq!(clusters_for(4097, 4096), 2);
    assert_eq!(clusters_for(10000, 512), 20);
}

#[test]
fn field_offsets() {
    assert_eq!(BootSectorOffset::BootSig.offset(), 66);
    assert_eq!(BootSectorOffset::VolLab.offset(), 71);
    assert_eq!(BootSectorOffset::FilSysType.offset(), 82);
    assert_eq!(BPBOffset::BytsPerSec.offset(), 11);
    assert_eq!(BPBOffset::TotSec32.offset(), 32);
    assert_eq!(BPBOffset::RootClus.offset(), 44);
    assert_eq!(BPBOffset::Reserved.offset(), 52);
}
