use crate::dsp::instr::lemma_and_le_u32;
use vstd::prelude::*;

verus! {

/// A PowerPC instruction word. Fields follow the architecture's msb0 bit
/// numbering.
#[derive(Clone, Copy, Debug)]
pub struct Instruction(pub u32);

impl Instruction {
    pub open spec fn spec_opcd(&self) -> u8 {
        ((self.0 >> 26u32) & 0x3Fu32) as u8
    }

    /// Primary opcode, bits 0..=5.
    #[verifier::when_used_as_spec(spec_opcd)]
    pub fn opcd(&self) -> (r: u8)
        ensures
            r == self.spec_opcd(),
            r <= 0x3F,
    {
        let x = self.0;
        proof { lemma_and_le_u32((x >> 26u32), 0x3Fu32); }
        ((x >> 26u32) & 0x3Fu32) as u8
    }

    pub open spec fn spec_rd(&self) -> u8 {
        ((self.0 >> 21u32) & 0x1Fu32) as u8
    }

    /// Destination GPR, bits 6..=10.
    #[verifier::when_used_as_spec(spec_rd)]
    pub fn rd(&self) -> (r: u8)
        ensures
            r == self.spec_rd(),
            r <= 0x1F,
    {
        let x = self.0;
        proof { lemma_and_le_u32((x >> 21u32), 0x1Fu32); }
        ((x >> 21u32) & 0x1Fu32) as u8
    }

    pub open spec fn spec_rs(&self) -> u8 {
        ((self.0 >> 21u32) & 0x1Fu32) as u8
    }

    /// Source GPR, bits 6..=10.
    #[verifier::when_used_as_spec(spec_rs)]
    pub fn rs(&self) -> (r: u8)
        ensures
            r == self.spec_rs(),
            r <= 0x1F,
    {
        let x = self.0;
        proof { lemma_and_le_u32((x >> 21u32), 0x1Fu32); }
        ((x >> 21u32) & 0x1Fu32) as u8
    }

    pub open spec fn spec_bo(&self) -> u8 {
        ((self.0 >> 21u32) & 0x1Fu32) as u8
    }

    /// Branch options, bits 6..=10.
    #[verifier::when_used_as_spec(spec_bo)]
    pub fn bo(&self) -> (r: u8)
        ensures
            r == self.spec_bo(),
            r <= 0x1F,
    {
        let x = self.0;
        proof { lemma_and_le_u32((x >> 21u32), 0x1Fu32); }
        ((x >> 21u32) & 0x1Fu32) as u8
    }

    pub open spec fn spec_crbd(&self) -> u8 {
        ((self.0 >> 21u32) & 0x1Fu32) as u8
    }

    /// Destination CR bit, bits 6..=10.
    #[verifier::when_used_as_spec(spec_crbd)]
    pub fn crbd(&self) -> (r: u8)
        ensures
            r == self.spec_crbd(),
            r <= 0x1F,
    {
        let x = self.0;
        proof { lemma_and_le_u32((x >> 21u32), 0x1Fu32); }
        ((x >> 21u32) & 0x1Fu32) as u8
    }

    pub open spec fn spec_crfd(&self) -> u8 {
        ((self.0 >> 23u32) & 0x7u32) as u8
    }

    /// Destination CR field, bits 6..=8.
    #[verifier::when_used_as_spec(spec_crfd)]
    pub fn crfd(&self) -> (r: u8)
        ensures
            r == self.spec_crfd(),
            r <= 0x7,
    {
        let x = self.0;
        proof { lemma_and_le_u32((x >> 23u32), 0x7u32); }
        ((x >> 23u32) & 0x7u32) as u8
    }

    pub open spec fn spec_ra(&self) -> u8 {
        ((self.0 >> 16u32) & 0x1Fu32) as u8
    }

    /// GPR A, bits 11..=15.
    #[verifier::when_used_as_spec(spec_ra)]
    pub fn ra(&self) -> (r: u8)
        ensures
            r == self.spec_ra(),
            r <= 0x1F,
    {
        let x = self.0;
        proof { lemma_and_le_u32((x >> 16u32), 0x1Fu32); }
        ((x >> 16u32) & 0x1Fu32) as u8
    }

    pub open spec fn spec_bi(&self) -> u8 {
        ((self.0 >> 16u32) & 0x1Fu32) as u8
    }

    /// Condition bit tested by a branch, bits 11..=15.
    #[verifier::when_used_as_spec(spec_bi)]
    pub fn bi(&self) -> (r: u8)
        ensures
            r == self.spec_bi(),
            r <= 0x1F,
    {
        let x = self.0;
        proof { lemma_and_le_u32((x >> 16u32), 0x1Fu32); }
        ((x >> 16u32) & 0x1Fu32) as u8
    }

    pub open spec fn spec_crba(&self) -> u8 {
        ((self.0 >> 16u32) & 0x1Fu32) as u8
    }

    /// CR bit A, bits 11..=15.
    #[verifier::when_used_as_spec(spec_crba)]
    pub fn crba(&self) -> (r: u8)
        ensures
            r == self.spec_crba(),
            r <= 0x1F,
    {
        let x = self.0;
        proof { lemma_and_le_u32((x >> 16u32), 0x1Fu32); }
        ((x >> 16u32) & 0x1Fu32) as u8
    }

    pub open spec fn spec_crfs(&self) -> u8 {
        ((self.0 >> 18u32) & 0x7u32) as u8
    }

    /// Source CR field, bits 11..=13.
    #[verifier::when_used_as_spec(spec_crfs)]
    pub fn crfs(&self) -> (r: u8)
        ensures
            r == self.spec_crfs(),
            r <= 0x7,
    {
        let x = self.0;
        proof { lemma_and_le_u32((x >> 18u32), 0x7u32); }
        ((x >> 18u32) & 0x7u32) as u8
    }

    pub open spec fn spec_crm(&self) -> u8 {
        ((self.0 >> 12u32) & 0xFFu32) as u8
    }

    /// CR field mask, bits 12..=19.
    #[verifier::when_used_as_spec(spec_crm)]
    pub fn crm(&self) -> (r: u8)
        ensures
            r == self.spec_crm(),
            r <= 0xFF,
    {
        let x = self.0;
        proof { lemma_and_le_u32((x >> 12u32), 0xFFu32); }
        ((x >> 12u32) & 0xFFu32) as u8
    }

    pub open spec fn spec_rb(&self) -> u8 {
        ((self.0 >> 11u32) & 0x1Fu32) as u8
    }

    /// GPR B, bits 16..=20.
    #[verifier::when_used_as_spec(spec_rb)]
    pub fn rb(&self) -> (r: u8)
        ensures
            r == self.spec_rb(),
            r <= 0x1F,
    {
        let x = self.0;
        proof { lemma_and_le_u32((x >> 11u32), 0x1Fu32); }
        ((x >> 11u32) & 0x1Fu32) as u8
    }

    pub open spec fn spec_crbb(&self) -> u8 {
        ((self.0 >> 11u32) & 0x1Fu32) as u8
    }

    /// CR bit B, bits 16..=20.
    #[verifier::when_used_as_spec(spec_crbb)]
    pub fn crbb(&self) -> (r: u8)
        ensures
            r == self.spec_crbb(),
            r <= 0x1F,
    {
        let x = self.0;
        proof { lemma_and_le_u32((x >> 11u32), 0x1Fu32); }
        ((x >> 11u32) & 0x1Fu32) as u8
    }

    pub open spec fn spec_sh(&self) -> u8 {
        ((self.0 >> 11u32) & 0x1Fu32) as u8
    }

    /// Shift amount, bits 16..=20.
    #[verifier::when_used_as_spec(spec_sh)]
    pub fn sh(&self) -> (r: u8)
        ensures
            r == self.spec_sh(),
            r <= 0x1F,
    {
        let x = self.0;
        proof { lemma_and_le_u32((x >> 11u32), 0x1Fu32); }
        ((x >> 11u32) & 0x1Fu32) as u8
    }

    pub open spec fn spec_spr(&self) -> u16 {
        ((self.0 >> 11u32) & 0x3FFu32) as u16
    }

    /// Raw SPR field (halves swapped), bits 11..=20.
    #[verifier::when_used_as_spec(spec_spr)]
    pub fn spr(&self) -> (r: u16)
        ensures
            r == self.spec_spr(),
            r <= 0x3FF,
    {
        let x = self.0;
        proof { lemma_and_le_u32((x >> 11u32), 0x3FFu32); }
        ((x >> 11u32) & 0x3FFu32) as u16
    }

    pub open spec fn spec_mb(&self) -> u8 {
        ((self.0 >> 6u32) & 0x1Fu32) as u8
    }

    /// Mask begin, bits 21..=25.
    #[verifier::when_used_as_spec(spec_mb)]
    pub fn mb(&self) -> (r: u8)
        ensures
            r == self.spec_mb(),
            r <= 0x1F,
    {
        let x = self.0;
        proof { lemma_and_le_u32((x >> 6u32), 0x1Fu32); }
        ((x >> 6u32) & 0x1Fu32) as u8
    }

    pub open spec fn spec_me(&self) -> u8 {
        ((self.0 >> 1u32) & 0x1Fu32) as u8
    }

    /// Mask end, bits 26..=30.
    #[verifier::when_used_as_spec(spec_me)]
    pub fn me(&self) -> (r: u8)
        ensures
            r == self.spec_me(),
            r <= 0x1F,
    {
        let x = self.0;
        proof { lemma_and_le_u32((x >> 1u32), 0x1Fu32); }
        ((x >> 1u32) & 0x1Fu32) as u8
    }

    pub open spec fn spec_uimm(&self) -> u16 {
        (self.0 & 0xFFFFu32) as u16
    }

    /// Unsigned immediate, bits 16..=31.
    #[verifier::when_used_as_spec(spec_uimm)]
    pub fn uimm(&self) -> (r: u16)
        ensures
            r == self.spec_uimm(),
            r <= 0xFFFF,
    {
        let x = self.0;
        proof { lemma_and_le_u32(x, 0xFFFFu32); }
        (x & 0xFFFFu32) as u16
    }

    pub open spec fn spec_rc(&self) -> bool {
        self.0 & 1u32 == 1u32
    }

    /// Record bit, bit 31.
    #[verifier::when_used_as_spec(spec_rc)]
    pub fn rc(&self) -> (r: bool)
        ensures
            r == self.spec_rc(),
    {
        self.0 & 1u32 == 1u32
    }

    pub open spec fn spec_lk(&self) -> bool {
        self.0 & 1u32 == 1u32
    }

    /// Link bit, bit 31.
    #[verifier::when_used_as_spec(spec_lk)]
    pub fn lk(&self) -> (r: bool)
        ensures
            r == self.spec_lk(),
    {
        self.0 & 1u32 == 1u32
    }

    pub open spec fn spec_aa(&self) -> bool {
        (self.0 >> 1u32) & 1u32 == 1u32
    }

    /// Absolute-address bit, bit 30.
    #[verifier::when_used_as_spec(spec_aa)]
    pub fn aa(&self) -> (r: bool)
        ensures
            r == self.spec_aa(),
    {
        (self.0 >> 1u32) & 1u32 == 1u32
    }

    pub open spec fn spec_oe(&self) -> bool {
        (self.0 >> 10u32) & 1u32 == 1u32
    }

    /// Overflow-enable bit, bit 21.
    #[verifier::when_used_as_spec(spec_oe)]
    pub fn oe(&self) -> (r: bool)
        ensures
            r == self.spec_oe(),
    {
        (self.0 >> 10u32) & 1u32 == 1u32
    }

    pub open spec fn spec_xo(&self) -> u32 {
        (self.0 >> 1u32) & 0x3FFu32
    }

    /// Extended opcode, bits 21..=30.
    #[verifier::when_used_as_spec(spec_xo)]
    pub fn xo(&self) -> (r: u32)
        ensures
            r == self.spec_xo(),
            r <= 0x3FF,
    {
        let x = self.0;
        proof { lemma_and_le_u32(x >> 1u32, 0x3FFu32); }
        (x >> 1u32) & 0x3FFu32
    }

    pub open spec fn spec_simm(&self) -> i32 {
        let v = self.0 & 0xFFFFu32;
        if v >= 0x8000 {
            (v - 0x1_0000) as i32
        } else {
            v as i32
        }
    }

    /// Signed immediate, bits 16..=31.
    #[verifier::when_used_as_spec(spec_simm)]
    pub fn simm(&self) -> (r: i32)
        ensures
            r == self.spec_simm(),
            -0x8000 <= r < 0x8000,
    {
        let v = self.0 & 0xFFFFu32;
        proof { lemma_and_le_u32(self.0, 0xFFFFu32); }
        if v >= 0x8000 {
            v as i32 - 0x1_0000
        } else {
            v as i32
        }
    }

    pub open spec fn spec_d_16_31(&self) -> i32 {
        self.spec_simm()
    }

    /// Signed 16-bit displacement, bits 16..=31.
    #[verifier::when_used_as_spec(spec_d_16_31)]
    pub fn d_16_31(&self) -> (r: i32)
        ensures
            r == self.spec_d_16_31(),
    {
        self.simm()
    }

    pub open spec fn spec_d_20_31(&self) -> i32 {
        let v = self.0 & 0xFFFu32;
        if v >= 0x800 {
            (v - 0x1000) as i32
        } else {
            v as i32
        }
    }

    /// Signed 12-bit displacement of paired-single loads and stores,
    /// bits 20..=31.
    #[verifier::when_used_as_spec(spec_d_20_31)]
    pub fn d_20_31(&self) -> (r: i32)
        ensures
            r == self.spec_d_20_31(),
    {
        let v = self.0 & 0xFFFu32;
        proof { lemma_and_le_u32(self.0, 0xFFFu32); }
        if v >= 0x800 {
            v as i32 - 0x1000
        } else {
            v as i32
        }
    }

    pub open spec fn spec_li(&self) -> i32 {
        let v = self.0 & 0x03FF_FFFCu32;
        if v >= 0x0200_0000 {
            (v - 0x0400_0000) as i32
        } else {
            v as i32
        }
    }

    /// Signed word-aligned branch displacement, bits 6..=29.
    #[verifier::when_used_as_spec(spec_li)]
    pub fn li(&self) -> (r: i32)
        ensures
            r == self.spec_li(),
    {
        let v = self.0 & 0x03FF_FFFCu32;
        proof { lemma_and_le_u32(self.0, 0x03FF_FFFCu32); }
        if v >= 0x0200_0000 {
            v as i32 - 0x0400_0000
        } else {
            v as i32
        }
    }

    pub open spec fn spec_bd(&self) -> i32 {
        let v = self.0 & 0xFFFCu32;
        if v >= 0x8000 {
            (v - 0x1_0000) as i32
        } else {
            v as i32
        }
    }

    /// Signed word-aligned conditional-branch displacement, bits 16..=29.
    #[verifier::when_used_as_spec(spec_bd)]
    pub fn bd(&self) -> (r: i32)
        ensures
            r == self.spec_bd(),
    {
        let v = self.0 & 0xFFFCu32;
        proof { lemma_and_le_u32(self.0, 0xFFFCu32); }
        if v >= 0x8000 {
            v as i32 - 0x1_0000
        } else {
            v as i32
        }
    }

    /// Displacement of D-form loads and stores.
    pub fn disp(&self) -> (r: i32)
        ensures
            r == self.spec_d_16_31(),
    {
        self.d_16_31()
    }

    /// Displacement of paired-single loads and stores.
    pub fn disp_psq(&self) -> (r: i32)
        ensures
            r == self.spec_d_20_31(),
    {
        self.d_20_31()
    }

    /// SPR number: the field's two 5-bit halves swapped back.
    pub fn spr_swapped(&self) -> (r: u32)
        ensures
            r == (self.spec_spr() as u32 / 32) + (self.spec_spr() as u32 % 32) * 32,
            r < 0x400,
    {
        let raw = self.spr() as u32;
        let r = (raw >> 5u32) | ((raw & 0x1fu32) << 5u32);
        assert(r == raw / 32 + (raw % 32) * 32) by (bit_vector)
            requires
                raw <= 0x3FF,
                r == (raw >> 5u32) | ((raw & 0x1fu32) << 5u32),
        ;
        r
    }
}

} // verus!
