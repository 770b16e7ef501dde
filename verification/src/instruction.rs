//! Decoding of a 32-bit instruction word into its fixed bit fields.

use vstd::prelude::*;

verus! {

/// Primary opcode: bits 31:26.
pub open spec fn spec_function(w: u32) -> u32 {
    w >> 26
}

/// Source register index: bits 25:21.
pub open spec fn spec_s(w: u32) -> u32 {
    (w >> 21) & 0x1F
}

/// Target register index: bits 20:16.
pub open spec fn spec_t(w: u32) -> u32 {
    (w >> 16) & 0x1F
}

/// Destination register index: bits 15:11.
pub open spec fn spec_d(w: u32) -> u32 {
    (w >> 11) & 0x1F
}

/// Zero-extended 16-bit immediate: bits 15:0.
pub open spec fn spec_imm(w: u32) -> u32 {
    w & 0xFFFF
}

/// Sign-extended 16-bit immediate.
pub open spec fn spec_imm_se(w: u32) -> u32 {
    if w & 0x8000 == 0 {
        w & 0xFFFF
    } else {
        (w & 0xFFFF) | 0xFFFF_0000
    }
}

/// Secondary function code: bits 5:0.
pub open spec fn spec_subfunction(w: u32) -> u32 {
    w & 0x3F
}

/// Shift amount: bits 10:6.
pub open spec fn spec_shift(w: u32) -> u32 {
    (w >> 6) & 0x1F
}

/// 26-bit jump target: bits 25:0.
pub open spec fn spec_imm_jump(w: u32) -> u32 {
    w & 0x03FF_FFFF
}

/// Coprocessor opcode: bits 25:21.
pub open spec fn spec_cop_opcode(w: u32) -> u32 {
    (w >> 21) & 0x1F
}

/// The bit fields sit in fixed positions, so each is bounded by its width.
pub proof fn lemma_field_bounds(w: u32)
    by (bit_vector)
    ensures
        spec_function(w) < 64,
        spec_s(w) < 32,
        spec_t(w) < 32,
        spec_d(w) < 32,
        spec_shift(w) < 32,
        spec_subfunction(w) < 64,
        spec_imm(w) < 0x10000,
        spec_imm_jump(w) < 0x0400_0000,
        spec_cop_opcode(w) < 32,
{
}

/// One fetched instruction word.
#[derive(Clone, Copy, Debug, PartialEq, Eq, Structural)]
pub struct Instruction(pub u32);

impl Instruction {
    /// Primary opcode.
    pub fn function(&self) -> (r: u32)
        ensures
            r == spec_function(self.0),
            r < 64,
    {
        proof {
            lemma_field_bounds(self.0);
        }
        self.0 >> 26
    }

    /// Source register index.
    pub fn s(&self) -> (r: u32)
        ensures
            r == spec_s(self.0),
            r < 32,
    {
        proof {
            lemma_field_bounds(self.0);
        }
        (self.0 >> 21) & 0x1F
    }

    /// Target register index.
    pub fn t(&self) -> (r: u32)
        ensures
            r == spec_t(self.0),
            r < 32,
    {
        proof {
            lemma_field_bounds(self.0);
        }
        (self.0 >> 16) & 0x1F
    }

    /// Destination register index.
    pub fn d(&self) -> (r: u32)
        ensures
            r == spec_d(self.0),
            r < 32,
    {
        proof {
            lemma_field_bounds(self.0);
        }
        (self.0 >> 11) & 0x1F
    }

    /// Zero-extended 16-bit immediate.
    pub fn imm(&self) -> (r: u32)
        ensures
            r == spec_imm(self.0),
            r < 0x10000,
    {
        proof {
            lemma_field_bounds(self.0);
        }
        self.0 & 0xFFFF
    }

    /// Sign-extended 16-bit immediate.
    pub fn imm_se(&self) -> (r: u32)
        ensures
            r == spec_imm_se(self.0),
    {
        let w = self.0;
        let v = (w & 0xFFFF) as i16;
        proof {
            assert((((w & 0xFFFF) as i16) as u32) == (if w & 0x8000 == 0 {
                w & 0xFFFF
            } else {
                (w & 0xFFFF) | 0xFFFF_0000
            })) by (bit_vector);
        }
        v as u32
    }

    /// Secondary function code.
    pub fn subfunction(&self) -> (r: u32)
        ensures
            r == spec_subfunction(self.0),
            r < 64,
    {
        proof {
            lemma_field_bounds(self.0);
        }
        self.0 & 0x3F
    }

    /// Shift amount.
    pub fn shift(&self) -> (r: u32)
        ensures
            r == spec_shift(self.0),
            r < 32,
    {
        proof {
            lemma_field_bounds(self.0);
        }
        (self.0 >> 6) & 0x1F
    }

    /// 26-bit jump target.
    pub fn imm_jump(&self) -> (r: u32)
        ensures
            r == spec_imm_jump(self.0),
            r < 0x0400_0000,
    {
        proof {
            lemma_field_bounds(self.0);
        }
        self.0 & 0x03FF_FFFF
    }

    /// Coprocessor opcode.
    pub fn cop_opcode(&self) -> (r: u32)
        ensures
            r == spec_cop_opcode(self.0),
            r < 32,
    {
        proof {
            lemma_field_bounds(self.0);
        }
        (self.0 >> 21) & 0x1F
    }
}

} // verus!
