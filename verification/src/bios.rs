//! The boot ROM: a fixed-size immutable blob of 512 KiB.

use vstd::prelude::*;

use crate::ram::word_at;

verus! {

/// Number of bytes a ROM image must hold, exactly.
pub const BIOS_SIZE: usize = 512 * 1024;

/// The read-only boot ROM.
pub struct Bios {
    data: Vec<u8>,
}

impl View for Bios {
    type V = Seq<u8>;

    closed spec fn view(&self) -> Seq<u8> {
        self.data@
    }
}

impl Bios {
    /// The blob always spans exactly the ROM window.
    pub open spec fn wf(&self) -> bool {
        self@.len() == BIOS_SIZE
    }

    /// Wraps a ROM image.  The image must be exactly `BIOS_SIZE` bytes;
    /// anything else is rejected, and the embedder fails its load.
    pub fn new(data: Vec<u8>) -> (r: Option<Bios>)
        ensures
            match r {
                Some(b) => b.wf() && b@ == data@ && data@.len() == BIOS_SIZE,
                None => data@.len() != BIOS_SIZE,
            },
    {
        if data.len() == BIOS_SIZE {
            Some(Bios { data })
        } else {
            None
        }
    }

    /// Aligned 32-bit load, little-endian.
    pub fn load32(&self, offset: u32) -> (r: u32)
        requires
            self.wf(),
            offset + 4 <= BIOS_SIZE,
        ensures
            r == word_at(self@, offset as int),
    {
        let offset = offset as usize;
        let b0 = self.data[offset] as u32;
        let b1 = self.data[offset + 1] as u32;
        let b2 = self.data[offset + 2] as u32;
        let b3 = self.data[offset + 3] as u32;
        b0 | (b1 << 8) | (b2 << 16) | (b3 << 24)
    }

    /// Byte load.
    pub fn load8(&self, offset: u32) -> (r: u8)
        requires
            self.wf(),
            offset < BIOS_SIZE,
        ensures
            r == self@[offset as int],
    {
        self.data[offset as usize]
    }
}

} // verus!
