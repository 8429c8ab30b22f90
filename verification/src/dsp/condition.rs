use crate::dsp::machine::Dsp;
use crate::dsp::status::{
    StatusRegister, SR_ABOVE_S32, SR_ARITHMETIC_ZERO, SR_CARRY, SR_LOGICAL_ZERO, SR_OVERFLOW,
    SR_SIGN, SR_TOP_TWO_BITS_EQUAL,
};
use vstd::prelude::*;

verus! {

/// Condition codes of the DSP's conditional instructions (`Jcc`, `IFcc`, ...).
#[derive(PartialEq, Eq, Structural, Clone, Copy, Debug)]
pub enum BranchControl {
    GreaterThanOrEqual,
    LessThan,
    GreaterThan,
    LessThanOrEqual,
    NotZero,
    Zero,
    NotCarry,
    Carry,
    BelowS32,
    AboveS32,
    AccumulatorNotZeroExtended,
    AccumulatorNotZero,
    NotLogicalZero,
    LogicalZero,
    Overflow,
    Always,
}

/// The condition encoded by the 4-bit value `raw`.
pub open spec fn branch_control_of(raw: u8) -> BranchControl {
    if raw == 0 {
        BranchControl::GreaterThanOrEqual
    } else if raw == 1 {
        BranchControl::LessThan
    } else if raw == 2 {
        BranchControl::GreaterThan
    } else if raw == 3 {
        BranchControl::LessThanOrEqual
    } else if raw == 4 {
        BranchControl::NotZero
    } else if raw == 5 {
        BranchControl::Zero
    } else if raw == 6 {
        BranchControl::NotCarry
    } else if raw == 7 {
        BranchControl::Carry
    } else if raw == 8 {
        BranchControl::BelowS32
    } else if raw == 9 {
        BranchControl::AboveS32
    } else if raw == 10 {
        BranchControl::AccumulatorNotZeroExtended
    } else if raw == 11 {
        BranchControl::AccumulatorNotZero
    } else if raw == 12 {
        BranchControl::NotLogicalZero
    } else if raw == 13 {
        BranchControl::LogicalZero
    } else if raw == 14 {
        BranchControl::Overflow
    } else {
        BranchControl::Always
    }
}

impl BranchControl {
    /// Whether the condition holds for status register `sr`.
    pub open spec fn holds(self, sr: StatusRegister) -> bool {
        let o = sr.flag(SR_OVERFLOW);
        let s = sr.flag(SR_SIGN);
        let z = sr.flag(SR_ARITHMETIC_ZERO);
        let c = sr.flag(SR_CARRY);
        let as32 = sr.flag(SR_ABOVE_S32);
        let tb = sr.flag(SR_TOP_TWO_BITS_EQUAL);
        let lz = sr.flag(SR_LOGICAL_ZERO);
        match self {
            BranchControl::GreaterThanOrEqual => o == s,
            BranchControl::LessThan => o != s,
            BranchControl::GreaterThan => o == s && !z,
            BranchControl::LessThanOrEqual => o != s || z,
            BranchControl::NotZero => !z,
            BranchControl::Zero => z,
            BranchControl::NotCarry => !c,
            BranchControl::Carry => c,
            BranchControl::BelowS32 => !as32,
            BranchControl::AboveS32 => as32,
            BranchControl::AccumulatorNotZeroExtended => (as32 || tb) && !z,
            BranchControl::AccumulatorNotZero => (!as32 && !tb) || z,
            BranchControl::NotLogicalZero => !lz,
            BranchControl::LogicalZero => lz,
            BranchControl::Overflow => o,
            BranchControl::Always => true,
        }
    }

    /// Decodes a 4-bit condition field.
    pub fn from(raw: u8) -> (r: Self)
        requires
            raw <= 0b1111,
        ensures
            r == branch_control_of(raw),
    {
        match raw {
            0 => BranchControl::GreaterThanOrEqual,
            1 => BranchControl::LessThan,
            2 => BranchControl::GreaterThan,
            3 => BranchControl::LessThanOrEqual,
            4 => BranchControl::NotZero,
            5 => BranchControl::Zero,
            6 => BranchControl::NotCarry,
            7 => BranchControl::Carry,
            8 => BranchControl::BelowS32,
            9 => BranchControl::AboveS32,
            10 => BranchControl::AccumulatorNotZeroExtended,
            11 => BranchControl::AccumulatorNotZero,
            12 => BranchControl::NotLogicalZero,
            13 => BranchControl::LogicalZero,
            14 => BranchControl::Overflow,
            _ => BranchControl::Always,
        }
    }

    /// Evaluates the condition against the DSP's status register.
    pub fn evaluate(&self, dsp: &Dsp) -> (r: bool)
        ensures
            r == self.holds(dsp.registers.status),
    {
        let sr = &dsp.registers.status;
        match self {
            Self::GreaterThanOrEqual => sr.overflow() == sr.sign(),
            Self::LessThan => sr.overflow() != sr.sign(),
            Self::GreaterThan => (sr.overflow() == sr.sign()) && !sr.arithmetic_zero(),
            Self::LessThanOrEqual => (sr.overflow() != sr.sign()) || sr.arithmetic_zero(),
            Self::NotZero => !sr.arithmetic_zero(),
            Self::Zero => sr.arithmetic_zero(),
            Self::NotCarry => !sr.carry(),
            Self::Carry => sr.carry(),
            Self::BelowS32 => !sr.above_s32(),
            Self::AboveS32 => sr.above_s32(),
            Self::AccumulatorNotZeroExtended => (sr.above_s32() || sr.top_two_bits_equal())
                && !sr.arithmetic_zero(),
            Self::AccumulatorNotZero => (!sr.above_s32() && !sr.top_two_bits_equal())
                || sr.arithmetic_zero(),
            Self::NotLogicalZero => !sr.logical_zero(),
            Self::LogicalZero => sr.logical_zero(),
            Self::Overflow => sr.overflow(),
            Self::Always => true,
        }
    }
}

/// Each condition and the one encoded right after it (`raw ^ 1`) are
/// complements, except for the last pair (overflow / always).
pub proof fn lemma_condition_pairs_complement(raw: u8, sr: StatusRegister)
    requires
        raw < 14,
    ensures
        branch_control_of(raw).holds(sr) == !branch_control_of(raw ^ 1).holds(sr),
{
    assert(raw ^ 1 == if raw % 2 == 0 { raw + 1 } else { raw - 1 }) by (bit_vector)
        requires
            raw < 14,
    ;
}

} // verus!
