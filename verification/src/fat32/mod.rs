//! The on-disk layout of a FAT32 volume.
pub mod bpb;
pub mod dir;
pub mod dirent;
pub mod format;
pub mod layout;
pub mod fsinfo;
