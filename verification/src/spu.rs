//! The SPU's register-level port.
//!
//! Audio generation is an external collaborator and its correctness is not
//! modelled here.  The core routes the guest's halfword register traffic: a
//! read returns the fixed transfer-control status the boot code polls for,
//! and every write is queued, in order, for the embedder's audio processor.

use vstd::prelude::*;

verus! {

/// Register offset of the sound-RAM transfer control, the one register whose
/// read-back the boot code depends on.
pub const SPU_TRANSFER_CONTROL: u32 = 0x01AC;

/// The value reads of a register return: the transfer-control register reads
/// back its ready mode, every other register reads as zero.
pub open spec fn spec_spu_load(offset: u32) -> u16 {
    if offset == SPU_TRANSFER_CONTROL {
        0x0004
    } else {
        0
    }
}

/// The SPU register port: the write stream, oldest first, as (offset, value)
/// pairs.
pub struct Spu {
    writes: Vec<(u32, u16)>,
}

impl View for Spu {
    type V = Seq<(u32, u16)>;

    closed spec fn view(&self) -> Seq<(u32, u16)> {
        self.writes@
    }
}

impl Spu {
    /// Power-on state: no writes seen yet.
    pub fn new() -> (r: Spu)
        ensures
            r@ == Seq::<(u32, u16)>::empty(),
    {
        Spu { writes: Vec::new() }
    }

    /// Reads a register.
    pub fn load(&self, offset: u32) -> (r: u16)
        ensures
            r == spec_spu_load(offset),
    {
        if offset == SPU_TRANSFER_CONTROL {
            0x0004
        } else {
            0
        }
    }

    /// Writes a register: appended to the stream for the audio processor.
    pub fn store(&mut self, offset: u32, val: u16)
        ensures
            final(self)@ == old(self)@.push((offset, val)),
    {
        self.writes.push((offset, val));
    }

    /// Hands the queued register writes to the embedder and empties the
    /// queue.
    pub fn drain_writes(&mut self) -> (r: Vec<(u32, u16)>)
        ensures
            r@ == old(self)@,
            final(self)@ == Seq::<(u32, u16)>::empty(),
    {
        let mut drained: Vec<(u32, u16)> = Vec::new();
        core::mem::swap(&mut drained, &mut self.writes);
        drained
    }
}

} // verus!
