//! Bit-field extraction from a 32-bit instruction word.

use vstd::prelude::*;

verus! {

/// A raw 32-bit instruction word.
#[derive(Clone, Copy, Debug)]
pub struct Opcode(pub u32);

/// The low 16 bits of `bits`, sign-extended to 32 bits.
pub open spec fn sign_extend_16(bits: u32) -> u32 {
    if bits & 0x8000 != 0 {
        (bits & 0xFFFF) | 0xFFFF_0000
    } else {
        bits & 0xFFFF
    }
}

/// Every extracted field fits in the number of bits it occupies.
pub proof fn lemma_fields_bounded(bits: u32)
    by (bit_vector)
    ensures
        bits >> 26 < 64,
        (bits >> 21) & 0x1F < 32,
        (bits >> 16) & 0x1F < 32,
        (bits >> 11) & 0x1F < 32,
        (bits >> 6) & 0x1F < 32,
        bits & 0x3F < 64,
        bits & 0xFFFF < 0x1_0000,
        bits & 0x3FF_FFFF < 0x400_0000,
        bits >> 16 < 0x1_0000,
        bits >> 24 < 0x100,
{
}

impl Opcode {
    /// Primary opcode, bits 31..26.
    pub open spec fn spec_instr(&self) -> u32 {
        self.0 >> 26
    }

    /// Source register index, bits 25..21.
    pub open spec fn spec_rs(&self) -> u32 {
        (self.0 >> 21) & 0x1F
    }

    /// Target register index, bits 20..16.
    pub open spec fn spec_rt(&self) -> u32 {
        (self.0 >> 16) & 0x1F
    }

    /// Destination register index, bits 15..11.
    pub open spec fn spec_rd(&self) -> u32 {
        (self.0 >> 11) & 0x1F
    }

    /// Immediate, bits 15..0, zero-extended.
    pub open spec fn spec_imm(&self) -> u32 {
        self.0 & 0xFFFF
    }

    /// Immediate, bits 15..0, sign-extended.
    pub open spec fn spec_imm_se(&self) -> u32 {
        sign_extend_16(self.0)
    }

    /// Jump target field, bits 25..0.
    pub open spec fn spec_imm26(&self) -> u32 {
        self.0 & 0x3FF_FFFF
    }

    /// Shift amount, bits 10..6.
    pub open spec fn spec_imm5(&self) -> u32 {
        (self.0 >> 6) & 0x1F
    }

    /// Secondary function code, bits 5..0.
    pub open spec fn spec_sub(&self) -> u32 {
        self.0 & 0x3F
    }

    #[verifier::when_used_as_spec(spec_instr)]
    pub fn instr(&self) -> (r: u32)
        ensures
            r == self.spec_instr(),
            r < 64,
    {
        proof {
            lemma_fields_bounded(self.0);
        }
        self.0 >> 26
    }

    #[verifier::when_used_as_spec(spec_rs)]
    pub fn rs(&self) -> (r: u32)
        ensures
            r == self.spec_rs(),
            r < 32,
    {
        proof {
            lemma_fields_bounded(self.0);
        }
        (self.0 >> 21) & 0x1F
    }

    #[verifier::when_used_as_spec(spec_rt)]
    pub fn rt(&self) -> (r: u32)
        ensures
            r == self.spec_rt(),
            r < 32,
    {
        proof {
            lemma_fields_bounded(self.0);
        }
        (self.0 >> 16) & 0x1F
    }

    #[verifier::when_used_as_spec(spec_rd)]
    pub fn rd(&self) -> (r: u32)
        ensures
            r == self.spec_rd(),
            r < 32,
    {
        proof {
            lemma_fields_bounded(self.0);
        }
        (self.0 >> 11) & 0x1F
    }

    #[verifier::when_used_as_spec(spec_imm)]
    pub fn imm(&self) -> (r: u32)
        ensures
            r == self.spec_imm(),
            r < 0x1_0000,
    {
        proof {
            lemma_fields_bounded(self.0);
        }
        self.0 & 0xFFFF
    }

    #[verifier::when_used_as_spec(spec_imm_se)]
    pub fn imm_se(&self) -> (r: u32)
        ensures
            r == self.spec_imm_se(),
    {
        let bits = self.0;
        assert(((bits & 0xFFFF) as i16) as u32 == sign_extend_16(bits)) by (bit_vector);
        ((bits & 0xFFFF) as i16) as u32
    }

    #[verifier::when_used_as_spec(spec_imm26)]
    pub fn imm26(&self) -> (r: u32)
        ensures
            r == self.spec_imm26(),
            r < 0x400_0000,
    {
        proof {
            lemma_fields_bounded(self.0);
        }
        self.0 & 0x3FF_FFFF
    }

    #[verifier::when_used_as_spec(spec_imm5)]
    pub fn imm5(&self) -> (r: u32)
        ensures
            r == self.spec_imm5(),
            r < 32,
    {
        proof {
            lemma_fields_bounded(self.0);
        }
        (self.0 >> 6) & 0x1F
    }

    #[verifier::when_used_as_spec(spec_sub)]
    pub fn sub(&self) -> (r: u32)
        ensures
            r == self.spec_sub(),
            r < 64,
    {
        proof {
            lemma_fields_bounded(self.0);
        }
        self.0 & 0x3F
    }
}

} // verus!
