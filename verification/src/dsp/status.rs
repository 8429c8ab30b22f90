use crate::bits::{bit16, with_bit16, get_bit16, set_bit16};
use vstd::prelude::*;

verus! {

/// Accumulator sign-extension mode (status bit 14).
#[derive(PartialEq, Eq, Structural, Clone, Copy, Debug)]
pub enum SignExtensionMode {
    Bits16,
    Bits40,
}

/// DSP status register `$sr`.
#[derive(Clone, Copy, Debug)]
pub struct StatusRegister {
    pub raw: u16,
}

pub const SR_CARRY: u16 = 0;
pub const SR_OVERFLOW: u16 = 1;
pub const SR_ARITHMETIC_ZERO: u16 = 2;
pub const SR_SIGN: u16 = 3;
pub const SR_ABOVE_S32: u16 = 4;
pub const SR_TOP_TWO_BITS_EQUAL: u16 = 5;
pub const SR_LOGICAL_ZERO: u16 = 6;
pub const SR_OVERFLOW_STICKY: u16 = 7;
pub const SR_INTERRUPT_ENABLE: u16 = 9;
pub const SR_EXTERNAL_INTERRUPT_ENABLE: u16 = 11;
pub const SR_PRODUCT_MULTIPLY_RESULT_BY_2: u16 = 13;
pub const SR_SIGN_EXTENSION_MODE: u16 = 14;
pub const SR_MULTIPLICATION_OPERANDS_ARE_SIGNED: u16 = 15;

/// Number of distinct values of a 40-bit accumulator.
pub open spec fn two40() -> int {
    0x100_0000_0000
}

/// `v` reduced to a signed 40-bit value.
pub open spec fn wrap40(v: int) -> int {
    let m = v % two40();
    if m >= 0x80_0000_0000 {
        m - two40()
    } else {
        m
    }
}

/// Bit 39 of the 40-bit pattern of `v`.
pub open spec fn sign40(v: int) -> bool {
    v % two40() >= 0x80_0000_0000
}

/// `v` does not fit in a signed 32-bit integer.
pub open spec fn is_over_s32(v: int) -> bool {
    v < -0x8000_0000 || v >= 0x8000_0000
}

/// Bits 31 and 30 of `v` are equal.
pub open spec fn top_two_bits_equal(v: int) -> bool {
    let t = (v % 0x1_0000_0000) / 0x4000_0000;
    t == 0 || t == 3
}

/// Carry out of a 40-bit addition `a + b = r`.
pub open spec fn carry_add40(a: int, r: int) -> bool {
    a % two40() > r % two40()
}

/// No borrow out of a 40-bit subtraction `a - b = r`.
pub open spec fn carry_sub40(a: int, r: int) -> bool {
    a % two40() >= r % two40()
}

/// Signed 40-bit overflow of `a + b = r`.
pub open spec fn overflow40(a: int, b: int, r: int) -> bool {
    sign40(a) == sign40(b) && sign40(a) != sign40(r)
}

impl StatusRegister {
    pub open spec fn flag(self, i: u16) -> bool {
        bit16(self.raw, i)
    }

    pub open spec fn with_flag(self, i: u16, b: bool) -> StatusRegister {
        StatusRegister { raw: with_bit16(self.raw, i, b) }
    }

    /// Zero, sign, above-s32 and top-two-bits flags describing `v`.
    pub open spec fn with_value_flags(self, v: int) -> StatusRegister {
        self.with_flag(SR_ARITHMETIC_ZERO, v == 0).with_flag(SR_SIGN, v < 0).with_flag(
            SR_ABOVE_S32,
            is_over_s32(v),
        ).with_flag(SR_TOP_TWO_BITS_EQUAL, top_two_bits_equal(v))
    }

    /// Flags after an arithmetic operation producing `v` with carry `c` and
    /// overflow `o`; overflow is also latched into the sticky flag.
    pub open spec fn with_arith_flags(self, v: int, c: bool, o: bool) -> StatusRegister {
        self.with_flag(SR_CARRY, c).with_flag(SR_OVERFLOW, o).with_flag(
            SR_OVERFLOW_STICKY,
            self.flag(SR_OVERFLOW_STICKY) || o,
        ).with_value_flags(v)
    }

    pub fn from_raw(raw: u16) -> (r: Self)
        ensures
            r.raw == raw,
    {
        StatusRegister { raw }
    }

    pub fn to_raw(&self) -> (r: u16)
        ensures
            r == self.raw,
    {
        self.raw
    }

    pub fn get(&self, i: u16) -> (r: bool)
        requires
            i < 16,
        ensures
            r == self.flag(i),
    {
        get_bit16(self.raw, i)
    }

    pub fn set(&mut self, i: u16, b: bool)
        requires
            i < 16,
        ensures
            *final(self) == old(self).with_flag(i, b),
    {
        self.raw = set_bit16(self.raw, i, b);
    }

    pub fn carry(&self) -> (r: bool)
        ensures
            r == self.flag(SR_CARRY),
    {
        self.get(SR_CARRY)
    }

    pub fn overflow(&self) -> (r: bool)
        ensures
            r == self.flag(SR_OVERFLOW),
    {
        self.get(SR_OVERFLOW)
    }

    pub fn arithmetic_zero(&self) -> (r: bool)
        ensures
            r == self.flag(SR_ARITHMETIC_ZERO),
    {
        self.get(SR_ARITHMETIC_ZERO)
    }

    pub fn sign(&self) -> (r: bool)
        ensures
            r == self.flag(SR_SIGN),
    {
        self.get(SR_SIGN)
    }

    pub fn above_s32(&self) -> (r: bool)
        ensures
            r == self.flag(SR_ABOVE_S32),
    {
        self.get(SR_ABOVE_S32)
    }

    pub fn top_two_bits_equal(&self) -> (r: bool)
        ensures
            r == self.flag(SR_TOP_TWO_BITS_EQUAL),
    {
        self.get(SR_TOP_TWO_BITS_EQUAL)
    }

    pub fn logical_zero(&self) -> (r: bool)
        ensures
            r == self.flag(SR_LOGICAL_ZERO),
    {
        self.get(SR_LOGICAL_ZERO)
    }

    pub fn overflow_sticky(&self) -> (r: bool)
        ensures
            r == self.flag(SR_OVERFLOW_STICKY),
    {
        self.get(SR_OVERFLOW_STICKY)
    }

    pub fn product_multiply_result_by_2(&self) -> (r: bool)
        ensures
            r == self.flag(SR_PRODUCT_MULTIPLY_RESULT_BY_2),
    {
        self.get(SR_PRODUCT_MULTIPLY_RESULT_BY_2)
    }

    pub fn multiplication_operands_are_signed(&self) -> (r: bool)
        ensures
            r == self.flag(SR_MULTIPLICATION_OPERANDS_ARE_SIGNED),
    {
        self.get(SR_MULTIPLICATION_OPERANDS_ARE_SIGNED)
    }

    pub fn sign_extension_mode(&self) -> (r: SignExtensionMode)
        ensures
            r == (if self.flag(SR_SIGN_EXTENSION_MODE) {
                SignExtensionMode::Bits40
            } else {
                SignExtensionMode::Bits16
            }),
    {
        if self.get(SR_SIGN_EXTENSION_MODE) {
            SignExtensionMode::Bits40
        } else {
            SignExtensionMode::Bits16
        }
    }

    pub fn set_sign_extension_mode(&mut self, mode: SignExtensionMode)
        ensures
            *final(self) == old(self).with_flag(
                SR_SIGN_EXTENSION_MODE,
                mode == SignExtensionMode::Bits40,
            ),
    {
        let b = match mode {
            SignExtensionMode::Bits16 => false,
            SignExtensionMode::Bits40 => true,
        };
        self.set(SR_SIGN_EXTENSION_MODE, b);
    }
}

impl Default for StatusRegister {
    fn default() -> (r: Self)
        ensures
            r.raw == 0,
    {
        StatusRegister { raw: 0 }
    }
}

} // verus!
