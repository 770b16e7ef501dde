//! The physical memory map: region aliasing and the routed address ranges.

use vstd::prelude::*;

verus! {

// Bases and lengths of the routed ranges (physical, post-mask).
pub const RAM_BASE: u32 = 0x0000_0000;
pub const RAM_LEN: u32 = 2 * 1024 * 1024;

pub const BIOS_BASE: u32 = 0x1FC0_0000;
pub const BIOS_LEN: u32 = 512 * 1024;

pub const MEM_CONTROL_BASE: u32 = 0x1F80_1000;
pub const MEM_CONTROL_LEN: u32 = 36;

pub const RAM_SIZE_BASE: u32 = 0x1F80_1060;
pub const RAM_SIZE_LEN: u32 = 4;

pub const CACHE_CONTROL_BASE: u32 = 0xFFFE_0130;
pub const CACHE_CONTROL_LEN: u32 = 4;

pub const SPU_BASE: u32 = 0x1F80_1C00;
pub const SPU_LEN: u32 = 640;

pub const EXPANSION_2_BASE: u32 = 0x1F80_2000;
pub const EXPANSION_2_LEN: u32 = 66;

pub const EXPANSION_1_BASE: u32 = 0x1F00_0000;
pub const EXPANSION_1_LEN: u32 = 512 * 1024;

pub const IRQ_CONTROL_BASE: u32 = 0x1F80_1070;
pub const IRQ_CONTROL_LEN: u32 = 8;

pub const TIMERS_BASE: u32 = 0x1F80_1100;
pub const TIMERS_LEN: u32 = 48;

pub const DMA_BASE: u32 = 0x1F80_1080;
pub const DMA_LEN: u32 = 0x80;

pub const GPU_BASE: u32 = 0x1F80_1810;
pub const GPU_LEN: u32 = 8;

/// The per-segment mask that aliases the virtual regions onto one physical
/// map: the four user segments pass through, the two kernel segments mask to
/// their windows, the last two pass through.
pub open spec fn spec_mask_region(addr: u32) -> u32 {
    let index = addr >> 29;
    if index == 4 {
        addr & 0x7FFF_FFFF
    } else if index == 5 {
        addr & 0x1FFF_FFFF
    } else {
        addr
    }
}

/// Applies the region mask for the segment the address lies in.
pub fn mask_region(addr: u32) -> (r: u32)
    ensures
        r == spec_mask_region(addr),
{
    let index = addr >> 29;
    if index == 4 {
        addr & 0x7FFF_FFFF
    } else if index == 5 {
        addr & 0x1FFF_FFFF
    } else {
        addr
    }
}

/// A contiguous address range: base and length in bytes.
#[derive(Clone, Copy, Debug, PartialEq, Eq, Structural)]
pub struct Range(pub u32, pub u32);

/// The zero-based offset of `addr` within `r`, when `addr` falls inside it.
pub open spec fn spec_contains(r: Range, addr: u32) -> Option<u32> {
    if r.0 <= addr && addr < r.0 + r.1 {
        Some((addr - r.0) as u32)
    } else {
        None
    }
}

impl Range {
    /// Matches `addr` against the range, returning the device-local offset.
    pub fn contains(self, addr: u32) -> (r: Option<u32>)
        requires
            self.0 + self.1 <= u32::MAX,
        ensures
            r == spec_contains(self, addr),
            r matches Some(off) ==> off < self.1,
    {
        let Range(start, length) = self;
        if addr >= start && addr < start + length {
            Some(addr - start)
        } else {
            None
        }
    }
}

} // verus!
