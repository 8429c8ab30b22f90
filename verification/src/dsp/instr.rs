use vstd::prelude::*;

verus! {

/// A DSP instruction: the opcode word in the upper half, the optional
/// second word in the lower half. Fields are named by their msb0 bit range.
#[derive(Clone, Copy, Debug)]
pub struct DspInstruction(pub u32);

/// Masking never exceeds the mask.
pub proof fn lemma_and_le_u32(x: u32, m: u32)
    ensures
        x & m <= m,
{
    assert(x & m <= m) by (bit_vector);
}

/// Masking never exceeds the mask.
pub proof fn lemma_and_le_u8(x: u8, m: u8)
    ensures
        x & m <= m,
{
    assert(x & m <= m) by (bit_vector);
}

/// The 8-bit extension part of a DSP instruction; fields are named by their
/// msb0 bit range within the byte.
#[derive(Clone, Copy, Debug)]
pub struct GcDspExt(pub u8);

impl DspInstruction {
    pub open spec fn spec_d_7_7(&self) -> u8 {
        ((self.0 >> 24u32) & 0x1u32) as u8
    }

    /// Bits 7..=7.
    #[verifier::when_used_as_spec(spec_d_7_7)]
    pub fn d_7_7(&self) -> (r: u8)
        ensures
            r == self.spec_d_7_7(),
            r < 2,
    {
        let x = self.0;
        proof { lemma_and_le_u32(x >> 24u32, 0x1u32); }
        ((x >> 24u32) & 0x1u32) as u8
    }

    pub open spec fn spec_ss(&self) -> u8 {
        ((self.0 >> 25u32) & 0x3u32) as u8
    }

    /// Bits 5..=6.
    #[verifier::when_used_as_spec(spec_ss)]
    pub fn ss(&self) -> (r: u8)
        ensures
            r == self.spec_ss(),
            r < 4,
    {
        let x = self.0;
        proof { lemma_and_le_u32(x >> 25u32, 0x3u32); }
        ((x >> 25u32) & 0x3u32) as u8
    }

    pub open spec fn spec_s_6_6(&self) -> u8 {
        ((self.0 >> 25u32) & 0x1u32) as u8
    }

    /// Bits 6..=6.
    #[verifier::when_used_as_spec(spec_s_6_6)]
    pub fn s_6_6(&self) -> (r: u8)
        ensures
            r == self.spec_s_6_6(),
            r < 2,
    {
        let x = self.0;
        proof { lemma_and_le_u32(x >> 25u32, 0x1u32); }
        ((x >> 25u32) & 0x1u32) as u8
    }

    pub open spec fn spec_s_4_4(&self) -> u8 {
        ((self.0 >> 27u32) & 0x1u32) as u8
    }

    /// Bits 4..=4.
    #[verifier::when_used_as_spec(spec_s_4_4)]
    pub fn s_4_4(&self) -> (r: u8)
        ensures
            r == self.spec_s_4_4(),
            r < 2,
    {
        let x = self.0;
        proof { lemma_and_le_u32(x >> 27u32, 0x1u32); }
        ((x >> 27u32) & 0x1u32) as u8
    }

    pub open spec fn spec_s_3_3(&self) -> u8 {
        ((self.0 >> 28u32) & 0x1u32) as u8
    }

    /// Bits 3..=3.
    #[verifier::when_used_as_spec(spec_s_3_3)]
    pub fn s_3_3(&self) -> (r: u8)
        ensures
            r == self.spec_s_3_3(),
            r < 2,
    {
        let x = self.0;
        proof { lemma_and_le_u32(x >> 28u32, 0x1u32); }
        ((x >> 28u32) & 0x1u32) as u8
    }

    pub open spec fn spec_r_4_4(&self) -> u8 {
        ((self.0 >> 27u32) & 0x1u32) as u8
    }

    /// Bits 4..=4.
    #[verifier::when_used_as_spec(spec_r_4_4)]
    pub fn r_4_4(&self) -> (r: u8)
        ensures
            r == self.spec_r_4_4(),
            r < 2,
    {
        let x = self.0;
        proof { lemma_and_le_u32(x >> 27u32, 0x1u32); }
        ((x >> 27u32) & 0x1u32) as u8
    }

    pub open spec fn spec_r_7_7(&self) -> u8 {
        ((self.0 >> 24u32) & 0x1u32) as u8
    }

    /// Bits 7..=7.
    #[verifier::when_used_as_spec(spec_r_7_7)]
    pub fn r_7_7(&self) -> (r: u8)
        ensures
            r == self.spec_r_7_7(),
            r < 2,
    {
        let x = self.0;
        proof { lemma_and_le_u32(x >> 24u32, 0x1u32); }
        ((x >> 24u32) & 0x1u32) as u8
    }

    pub open spec fn spec_t_4_4(&self) -> u8 {
        ((self.0 >> 27u32) & 0x1u32) as u8
    }

    /// Bits 4..=4.
    #[verifier::when_used_as_spec(spec_t_4_4)]
    pub fn t_4_4(&self) -> (r: u8)
        ensures
            r == self.spec_t_4_4(),
            r < 2,
    {
        let x = self.0;
        proof { lemma_and_le_u32(x >> 27u32, 0x1u32); }
        ((x >> 27u32) & 0x1u32) as u8
    }

    pub open spec fn spec_t_7_7(&self) -> u8 {
        ((self.0 >> 24u32) & 0x1u32) as u8
    }

    /// Bits 7..=7.
    #[verifier::when_used_as_spec(spec_t_7_7)]
    pub fn t_7_7(&self) -> (r: u8)
        ensures
            r == self.spec_t_7_7(),
            r < 2,
    {
        let x = self.0;
        proof { lemma_and_le_u32(x >> 24u32, 0x1u32); }
        ((x >> 24u32) & 0x1u32) as u8
    }

    pub open spec fn spec_s_7_7(&self) -> u8 {
        ((self.0 >> 24u32) & 0x1u32) as u8
    }

    /// Bits 7..=7.
    #[verifier::when_used_as_spec(spec_s_7_7)]
    pub fn s_7_7(&self) -> (r: u8)
        ensures
            r == self.spec_s_7_7(),
            r < 2,
    {
        let x = self.0;
        proof { lemma_and_le_u32(x >> 24u32, 0x1u32); }
        ((x >> 24u32) & 0x1u32) as u8
    }

    pub open spec fn spec_d_4_4(&self) -> u8 {
        ((self.0 >> 27u32) & 0x1u32) as u8
    }

    /// Bits 4..=4.
    #[verifier::when_used_as_spec(spec_d_4_4)]
    pub fn d_4_4(&self) -> (r: u8)
        ensures
            r == self.spec_d_4_4(),
            r < 2,
    {
        let x = self.0;
        proof { lemma_and_le_u32(x >> 27u32, 0x1u32); }
        ((x >> 27u32) & 0x1u32) as u8
    }

    pub open spec fn spec_cond(&self) -> u8 {
        ((self.0 >> 16u32) & 0xfu32) as u8
    }

    /// Bits 12..=15.
    #[verifier::when_used_as_spec(spec_cond)]
    pub fn cond(&self) -> (r: u8)
        ensures
            r == self.spec_cond(),
            r < 16,
    {
        let x = self.0;
        proof { lemma_and_le_u32(x >> 16u32, 0xfu32); }
        ((x >> 16u32) & 0xfu32) as u8
    }

    pub open spec fn spec_addr(&self) -> u16 {
        ((self.0 >> 0u32) & 0xffffu32) as u16
    }

    /// Bits 16..=31.
    #[verifier::when_used_as_spec(spec_addr)]
    pub fn addr(&self) -> (r: u16)
        ensures
            r == self.spec_addr(),
            r < 65536,
    {
        let x = self.0;
        proof { lemma_and_le_u32(x >> 0u32, 0xffffu32); }
        ((x >> 0u32) & 0xffffu32) as u16
    }

    pub open spec fn spec_imm_16_31(&self) -> u16 {
        ((self.0 >> 0u32) & 0xffffu32) as u16
    }

    /// Bits 16..=31.
    #[verifier::when_used_as_spec(spec_imm_16_31)]
    pub fn imm_16_31(&self) -> (r: u16)
        ensures
            r == self.spec_imm_16_31(),
            r < 65536,
    {
        let x = self.0;
        proof { lemma_and_le_u32(x >> 0u32, 0xffffu32); }
        ((x >> 0u32) & 0xffffu32) as u16
    }

    pub open spec fn spec_reg_8_10(&self) -> u8 {
        ((self.0 >> 21u32) & 0x7u32) as u8
    }

    /// Bits 8..=10.
    #[verifier::when_used_as_spec(spec_reg_8_10)]
    pub fn reg_8_10(&self) -> (r: u8)
        ensures
            r == self.spec_reg_8_10(),
            r < 8,
    {
        let x = self.0;
        proof { lemma_and_le_u32(x >> 21u32, 0x7u32); }
        ((x >> 21u32) & 0x7u32) as u8
    }

    pub open spec fn spec_d_14_15(&self) -> u8 {
        ((self.0 >> 16u32) & 0x3u32) as u8
    }

    /// Bits 14..=15.
    #[verifier::when_used_as_spec(spec_d_14_15)]
    pub fn d_14_15(&self) -> (r: u8)
        ensures
            r == self.spec_d_14_15(),
            r < 4,
    {
        let x = self.0;
        proof { lemma_and_le_u32(x >> 16u32, 0x3u32); }
        ((x >> 16u32) & 0x3u32) as u8
    }

    pub open spec fn spec_s_12_13(&self) -> u8 {
        ((self.0 >> 18u32) & 0x3u32) as u8
    }

    /// Bits 12..=13.
    #[verifier::when_used_as_spec(spec_s_12_13)]
    pub fn s_12_13(&self) -> (r: u8)
        ensures
            r == self.spec_s_12_13(),
            r < 4,
    {
        let x = self.0;
        proof { lemma_and_le_u32(x >> 18u32, 0x3u32); }
        ((x >> 18u32) & 0x3u32) as u8
    }

    pub open spec fn spec_d_11_15(&self) -> u8 {
        ((self.0 >> 16u32) & 0x1fu32) as u8
    }

    /// Bits 11..=15.
    #[verifier::when_used_as_spec(spec_d_11_15)]
    pub fn d_11_15(&self) -> (r: u8)
        ensures
            r == self.spec_d_11_15(),
            r < 32,
    {
        let x = self.0;
        proof { lemma_and_le_u32(x >> 16u32, 0x1fu32); }
        ((x >> 16u32) & 0x1fu32) as u8
    }

    pub open spec fn spec_src(&self) -> u8 {
        ((self.0 >> 16u32) & 0x1fu32) as u8
    }

    /// Bits 11..=15.
    #[verifier::when_used_as_spec(spec_src)]
    pub fn src(&self) -> (r: u8)
        ensures
            r == self.spec_src(),
            r < 32,
    {
        let x = self.0;
        proof { lemma_and_le_u32(x >> 16u32, 0x1fu32); }
        ((x >> 16u32) & 0x1fu32) as u8
    }

    pub open spec fn spec_dst(&self) -> u8 {
        ((self.0 >> 21u32) & 0x1fu32) as u8
    }

    /// Bits 6..=10.
    #[verifier::when_used_as_spec(spec_dst)]
    pub fn dst(&self) -> (r: u8)
        ensures
            r == self.spec_dst(),
            r < 32,
    {
        let x = self.0;
        proof { lemma_and_le_u32(x >> 21u32, 0x1fu32); }
        ((x >> 21u32) & 0x1fu32) as u8
    }

    pub open spec fn spec_mem_8_15_u16(&self) -> u16 {
        ((self.0 >> 16u32) & 0xffu32) as u16
    }

    /// Bits 8..=15.
    #[verifier::when_used_as_spec(spec_mem_8_15_u16)]
    pub fn mem_8_15_u16(&self) -> (r: u16)
        ensures
            r == self.spec_mem_8_15_u16(),
            r < 256,
    {
        let x = self.0;
        proof { lemma_and_le_u32(x >> 16u32, 0xffu32); }
        ((x >> 16u32) & 0xffu32) as u16
    }

    pub open spec fn spec_s_9_10(&self) -> u8 {
        ((self.0 >> 21u32) & 0x3u32) as u8
    }

    /// Bits 9..=10.
    #[verifier::when_used_as_spec(spec_s_9_10)]
    pub fn s_9_10(&self) -> (r: u8)
        ensures
            r == self.spec_s_9_10(),
            r < 4,
    {
        let x = self.0;
        proof { lemma_and_le_u32(x >> 21u32, 0x3u32); }
        ((x >> 21u32) & 0x3u32) as u8
    }

    pub open spec fn spec_reg_5_7(&self) -> u8 {
        ((self.0 >> 24u32) & 0x7u32) as u8
    }

    /// Bits 5..=7.
    #[verifier::when_used_as_spec(spec_reg_5_7)]
    pub fn reg_5_7(&self) -> (r: u8)
        ensures
            r == self.spec_reg_5_7(),
            r < 8,
    {
        let x = self.0;
        proof { lemma_and_le_u32(x >> 24u32, 0x7u32); }
        ((x >> 24u32) & 0x7u32) as u8
    }

    pub open spec fn spec_reg_6_7(&self) -> u8 {
        ((self.0 >> 24u32) & 0x3u32) as u8
    }

    /// Bits 6..=7.
    #[verifier::when_used_as_spec(spec_reg_6_7)]
    pub fn reg_6_7(&self) -> (r: u8)
        ensures
            r == self.spec_reg_6_7(),
            r < 4,
    {
        let x = self.0;
        proof { lemma_and_le_u32(x >> 24u32, 0x3u32); }
        ((x >> 24u32) & 0x3u32) as u8
    }

    pub open spec fn spec_s_14_15(&self) -> u8 {
        ((self.0 >> 16u32) & 0x3u32) as u8
    }

    /// Bits 14..=15.
    #[verifier::when_used_as_spec(spec_s_14_15)]
    pub fn s_14_15(&self) -> (r: u8)
        ensures
            r == self.spec_s_14_15(),
            r < 4,
    {
        let x = self.0;
        proof { lemma_and_le_u32(x >> 16u32, 0x3u32); }
        ((x >> 16u32) & 0x3u32) as u8
    }

    pub open spec fn spec_reg_11_15(&self) -> u8 {
        ((self.0 >> 16u32) & 0x1fu32) as u8
    }

    /// Bits 11..=15.
    #[verifier::when_used_as_spec(spec_reg_11_15)]
    pub fn reg_11_15(&self) -> (r: u8)
        ensures
            r == self.spec_reg_11_15(),
            r < 32,
    {
        let x = self.0;
        proof { lemma_and_le_u32(x >> 16u32, 0x1fu32); }
        ((x >> 16u32) & 0x1fu32) as u8
    }

    pub open spec fn spec_imm_8_15_u8(&self) -> u8 {
        ((self.0 >> 16u32) & 0xffu32) as u8
    }

    /// Bits 8..=15.
    #[verifier::when_used_as_spec(spec_imm_8_15_u8)]
    pub fn imm_8_15_u8(&self) -> (r: u8)
        ensures
            r == self.spec_imm_8_15_u8(),
            r < 256,
    {
        let x = self.0;
        proof { lemma_and_le_u32(x >> 16u32, 0xffu32); }
        ((x >> 16u32) & 0xffu32) as u8
    }

    pub open spec fn spec_n(&self) -> u8 {
        ((self.0 >> 16u32) & 0x3fu32) as u8
    }

    /// Bits 10..=15.
    #[verifier::when_used_as_spec(spec_n)]
    pub fn n(&self) -> (r: u8)
        ensures
            r == self.spec_n(),
            r < 64,
    {
        let x = self.0;
        proof { lemma_and_le_u32(x >> 16u32, 0x3fu32); }
        ((x >> 16u32) & 0x3fu32) as u8
    }

    pub open spec fn spec_bit(&self) -> u8 {
        ((self.0 >> 16u32) & 0x7u32) as u8
    }

    /// Bits 13..=15.
    #[verifier::when_used_as_spec(spec_bit)]
    pub fn bit(&self) -> (r: u8)
        ensures
            r == self.spec_bit(),
            r < 8,
    {
        let x = self.0;
        proof { lemma_and_le_u32(x >> 16u32, 0x7u32); }
        ((x >> 16u32) & 0x7u32) as u8
    }

    pub open spec fn spec_imm_8_15_i16(&self) -> i16 {
        ((self.0 >> 16u32) & 0xffu32) as u8 as i8 as i16
    }

    /// Bits 8..=15 as a signed byte.
    #[verifier::when_used_as_spec(spec_imm_8_15_i16)]
    pub fn imm_8_15_i16(&self) -> (r: i16)
        ensures
            r == self.spec_imm_8_15_i16(),
            -128 <= r < 128,
    {
        let b = ((self.0 >> 16u32) & 0xffu32) as u8;
        assert(-128 <= (b as i8 as i16) < 128) by (bit_vector);
        b as i8 as i16
    }
}

impl GcDspExt {
    pub open spec fn spec_r_6_7(&self) -> u8 {
        (self.0 >> 0u8) & 0x3u8
    }

    /// Bits 6..=7.
    #[verifier::when_used_as_spec(spec_r_6_7)]
    pub fn r_6_7(&self) -> (r: u8)
        ensures
            r == self.spec_r_6_7(),
            r < 4,
    {
        let x = self.0;
        proof { lemma_and_le_u8(x >> 0u8, 0x3u8); }
        (x >> 0u8) & 0x3u8
    }

    pub open spec fn spec_d_4_5(&self) -> u8 {
        (self.0 >> 2u8) & 0x3u8
    }

    /// Bits 4..=5.
    #[verifier::when_used_as_spec(spec_d_4_5)]
    pub fn d_4_5(&self) -> (r: u8)
        ensures
            r == self.spec_d_4_5(),
            r < 4,
    {
        let x = self.0;
        proof { lemma_and_le_u8(x >> 2u8, 0x3u8); }
        (x >> 2u8) & 0x3u8
    }

    pub open spec fn spec_s_6_7(&self) -> u8 {
        (self.0 >> 0u8) & 0x3u8
    }

    /// Bits 6..=7.
    #[verifier::when_used_as_spec(spec_s_6_7)]
    pub fn s_6_7(&self) -> (r: u8)
        ensures
            r == self.spec_s_6_7(),
            r < 4,
    {
        let x = self.0;
        proof { lemma_and_le_u8(x >> 0u8, 0x3u8); }
        (x >> 0u8) & 0x3u8
    }

    pub open spec fn spec_s_3_4(&self) -> u8 {
        (self.0 >> 3u8) & 0x3u8
    }

    /// Bits 3..=4.
    #[verifier::when_used_as_spec(spec_s_3_4)]
    pub fn s_3_4(&self) -> (r: u8)
        ensures
            r == self.spec_s_3_4(),
            r < 4,
    {
        let x = self.0;
        proof { lemma_and_le_u8(x >> 3u8, 0x3u8); }
        (x >> 3u8) & 0x3u8
    }

    pub open spec fn spec_d_6_7(&self) -> u8 {
        (self.0 >> 0u8) & 0x3u8
    }

    /// Bits 6..=7.
    #[verifier::when_used_as_spec(spec_d_6_7)]
    pub fn d_6_7(&self) -> (r: u8)
        ensures
            r == self.spec_d_6_7(),
            r < 4,
    {
        let x = self.0;
        proof { lemma_and_le_u8(x >> 0u8, 0x3u8); }
        (x >> 0u8) & 0x3u8
    }

    pub open spec fn spec_d_2_4(&self) -> u8 {
        (self.0 >> 3u8) & 0x7u8
    }

    /// Bits 2..=4.
    #[verifier::when_used_as_spec(spec_d_2_4)]
    pub fn d_2_4(&self) -> (r: u8)
        ensures
            r == self.spec_d_2_4(),
            r < 8,
    {
        let x = self.0;
        proof { lemma_and_le_u8(x >> 3u8, 0x7u8); }
        (x >> 3u8) & 0x7u8
    }

    pub open spec fn spec_s_7_7(&self) -> u8 {
        (self.0 >> 0u8) & 0x1u8
    }

    /// Bits 7..=7.
    #[verifier::when_used_as_spec(spec_s_7_7)]
    pub fn s_7_7(&self) -> (r: u8)
        ensures
            r == self.spec_s_7_7(),
            r < 2,
    {
        let x = self.0;
        proof { lemma_and_le_u8(x >> 0u8, 0x1u8); }
        (x >> 0u8) & 0x1u8
    }

    pub open spec fn spec_d_2_3(&self) -> u8 {
        (self.0 >> 4u8) & 0x3u8
    }

    /// Bits 2..=3.
    #[verifier::when_used_as_spec(spec_d_2_3)]
    pub fn d_2_3(&self) -> (r: u8)
        ensures
            r == self.spec_d_2_3(),
            r < 4,
    {
        let x = self.0;
        proof { lemma_and_le_u8(x >> 4u8, 0x3u8); }
        (x >> 4u8) & 0x3u8
    }

    pub open spec fn spec_d_2_2(&self) -> u8 {
        (self.0 >> 5u8) & 0x1u8
    }

    /// Bits 2..=2.
    #[verifier::when_used_as_spec(spec_d_2_2)]
    pub fn d_2_2(&self) -> (r: u8)
        ensures
            r == self.spec_d_2_2(),
            r < 2,
    {
        let x = self.0;
        proof { lemma_and_le_u8(x >> 5u8, 0x1u8); }
        (x >> 5u8) & 0x1u8
    }

    pub open spec fn spec_r_3_3(&self) -> u8 {
        (self.0 >> 4u8) & 0x1u8
    }

    /// Bits 3..=3.
    #[verifier::when_used_as_spec(spec_r_3_3)]
    pub fn r_3_3(&self) -> (r: u8)
        ensures
            r == self.spec_r_3_3(),
            r < 2,
    {
        let x = self.0;
        proof { lemma_and_le_u8(x >> 4u8, 0x1u8); }
        (x >> 4u8) & 0x1u8
    }

    pub open spec fn spec_s_2_2(&self) -> u8 {
        (self.0 >> 5u8) & 0x1u8
    }

    /// Bits 2..=2.
    #[verifier::when_used_as_spec(spec_s_2_2)]
    pub fn s_2_2(&self) -> (r: u8)
        ensures
            r == self.spec_s_2_2(),
            r < 2,
    {
        let x = self.0;
        proof { lemma_and_le_u8(x >> 5u8, 0x1u8); }
        (x >> 5u8) & 0x1u8
    }

}

} // verus!
