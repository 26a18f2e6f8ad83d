//! The FSInfo sector.
use vstd::prelude::*;
use crate::bytes::{spec_le32_at, get_u32_le};

verus! {

/// The lead signature of an FSInfo sector.
pub const SIG_START: u32 = 0x4161_5252;
/// The trail signature of an FSInfo sector.
pub const SIG_END: u32 = 0xAA55_0000;

/// Fields of the FSInfo sector, by their byte offsets.
#[derive(Debug, Clone, Copy, PartialEq, Eq, Structural)]
pub enum FSInfoOffset {
    /// Lead signature, [`SIG_START`] (offset 0).
    LeadSig,
    /// Reserved (offset 4).
    Reserved1,
    /// Last known free cluster count; 0xFFFFFFFF when unknown (offset 488).
    FreeCount,
    /// Where to start looking for a free cluster; 0xFFFFFFFF means cluster 2 (offset 492).
    NxtFree,
    /// Reserved (offset 496).
    Reserved2,
    /// Trail signature, [`SIG_END`] (offset 508).
    TrailSig,
    /// End of the sector (offset 512).
    End,
}

impl FSInfoOffset {
    /// The lead signature.
    pub fn lead_sig(sector: &[u8]) -> (r: u32)
        requires
            sector@.len() >= 4,
        ensures
            r == spec_le32_at(sector@, 0),
    {
        get_u32_le(sector, 0)
    }

    /// The free cluster count.
    pub fn free_count(sector: &[u8]) -> (r: u32)
        requires
            sector@.len() >= 492,
        ensures
            r == spec_le32_at(sector@, 488),
    {
        get_u32_le(sector, 488)
    }

    /// Where the search for a free cluster starts.
    pub fn next_free(sector: &[u8]) -> (r: u32)
        requires
            sector@.len() >= 496,
        ensures
            r == spec_le32_at(sector@, 492),
    {
        get_u32_le(sector, 492)
    }

    /// The trail signature.
    pub fn trail_sig(sector: &[u8]) -> (r: u32)
        requires
            sector@.len() >= 512,
        ensures
            r == spec_le32_at(sector@, 508),
    {
        get_u32_le(sector, 508)
    }
}

} // verus!
