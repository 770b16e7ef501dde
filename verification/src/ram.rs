//! The flat 2 MiB main memory, with little-endian multi-byte assembly.

use vstd::prelude::*;

verus! {

/// Number of bytes of main RAM.
pub const RAM_SIZE: usize = 2 * 1024 * 1024;

/// The byte every RAM cell holds at power-on; a recognizable garbage value.
pub const RAM_FILL: u8 = 0xCA;

/// The 32-bit word assembled from four consecutive bytes, byte 0 least
/// significant.
pub open spec fn word_at(s: Seq<u8>, i: int) -> u32 {
    (s[i] as u32) | ((s[i + 1] as u32) << 8) | ((s[i + 2] as u32) << 16) | ((s[i + 3] as u32) << 24)
}

/// The 16-bit halfword assembled from two consecutive bytes.
pub open spec fn half_at(s: Seq<u8>, i: int) -> u16 {
    (s[i] as u16) | ((s[i + 1] as u16) << 8)
}

/// The byte sequence after a 32-bit store at `i`, little-endian.
pub open spec fn store_word(s: Seq<u8>, i: int, v: u32) -> Seq<u8> {
    s.update(i, v as u8).update(i + 1, (v >> 8) as u8).update(i + 2, (v >> 16) as u8).update(
        i + 3,
        (v >> 24) as u8,
    )
}

/// The byte sequence after a 16-bit store at `i`, little-endian.
pub open spec fn store_half(s: Seq<u8>, i: int, v: u16) -> Seq<u8> {
    s.update(i, v as u8).update(i + 1, (v >> 8) as u8)
}

/// A word read back from where it was stored returns the stored value.
pub proof fn lemma_word_roundtrip(s: Seq<u8>, i: int, v: u32)
    requires
        0 <= i,
        i + 4 <= s.len(),
    ensures
        word_at(store_word(s, i, v), i) == v,
{
    assert(((v as u8) as u32) | ((((v >> 8) as u8) as u32) << 8) | ((((v >> 16) as u8) as u32)
        << 16) | ((((v >> 24) as u8) as u32) << 24) == v) by (bit_vector);
}

/// A halfword read back from where it was stored returns the stored value.
pub proof fn lemma_half_roundtrip(s: Seq<u8>, i: int, v: u16)
    requires
        0 <= i,
        i + 2 <= s.len(),
    ensures
        half_at(store_half(s, i, v), i) == v,
{
    assert(((v as u8) as u16) | ((((v >> 8) as u8) as u16) << 8) == v) by (bit_vector);
}

/// The flat RAM store.
pub struct Ram {
    data: Vec<u8>,
}

impl View for Ram {
    type V = Seq<u8>;

    closed spec fn view(&self) -> Seq<u8> {
        self.data@
    }
}

impl Ram {
    /// The backing buffer always spans exactly the RAM window.
    pub open spec fn wf(&self) -> bool {
        self@.len() == RAM_SIZE
    }

    /// Fresh RAM, every byte holding the power-on fill value.
    pub fn new() -> (r: Ram)
        ensures
            r.wf(),
            forall|i: int| 0 <= i < RAM_SIZE ==> r@[i] == RAM_FILL,
    {
        let data: Vec<u8> = vec![RAM_FILL; RAM_SIZE];
        Ram { data }
    }

    /// Aligned 32-bit load.
    pub fn load32(&self, offset: u32) -> (r: u32)
        requires
            self.wf(),
            offset + 4 <= RAM_SIZE,
        ensures
            r == word_at(self@, offset as int),
    {
        let offset = offset as usize;
        let b0 = self.data[offset] as u32;
        let b1 = self.data[offset + 1] as u32;
        let b2 = self.data[offset + 2] as u32;
        let b3 = self.data[offset + 3] as u32;
        b0 | (b1 << 8) | (b2 << 16) | (b3 << 24)
    }

    /// Aligned 32-bit store.
    pub fn store32(&mut self, offset: u32, val: u32)
        requires
            old(self).wf(),
            offset + 4 <= RAM_SIZE,
        ensures
            final(self).wf(),
            final(self)@ == store_word(old(self)@, offset as int, val),
    {
        let offset = offset as usize;
        self.data[offset] = val as u8;
        self.data[offset + 1] = (val >> 8) as u8;
        self.data[offset + 2] = (val >> 16) as u8;
        self.data[offset + 3] = (val >> 24) as u8;
    }

    /// Aligned 16-bit load.
    pub fn load16(&self, offset: u32) -> (r: u16)
        requires
            self.wf(),
            offset + 2 <= RAM_SIZE,
        ensures
            r == half_at(self@, offset as int),
    {
        let offset = offset as usize;
        let b0 = self.data[offset] as u16;
        let b1 = self.data[offset + 1] as u16;
        b0 | (b1 << 8)
    }

    /// Aligned 16-bit store.
    pub fn store16(&mut self, offset: u32, val: u16)
        requires
            old(self).wf(),
            offset + 2 <= RAM_SIZE,
        ensures
            final(self).wf(),
            final(self)@ == store_half(old(self)@, offset as int, val),
    {
        let offset = offset as usize;
        self.data[offset] = val as u8;
        self.data[offset + 1] = (val >> 8) as u8;
    }

    /// Byte load.
    pub fn load8(&self, offset: u32) -> (r: u8)
        requires
            self.wf(),
            offset < RAM_SIZE,
        ensures
            r == self@[offset as int],
    {
        self.data[offset as usize]
    }

    /// Byte store.
    pub fn store8(&mut self, offset: u32, val: u8)
        requires
            old(self).wf(),
            offset < RAM_SIZE,
        ensures
            final(self).wf(),
            final(self)@ == old(self)@.update(offset as int, val),
    {
        self.data[offset as usize] = val;
    }
}

} // verus!
