use vstd::prelude::*;

verus! {

/// Bit `i` (lsb0) of a 16-bit word.
pub open spec fn bit16(x: u16, i: u16) -> bool {
    (x >> i) & 1u16 == 1u16
}

/// `x` with bit `i` (lsb0) forced to `b`.
pub open spec fn with_bit16(x: u16, i: u16, b: bool) -> u16 {
    if b {
        x | (1u16 << i)
    } else {
        x & !(1u16 << i)
    }
}

/// Bit `i` (lsb0) of a 32-bit word.
pub open spec fn bit32(x: u32, i: u32) -> bool {
    (x >> i) & 1u32 == 1u32
}

/// `x` with bit `i` (lsb0) forced to `b`.
pub open spec fn with_bit32(x: u32, i: u32, b: bool) -> u32 {
    if b {
        x | (1u32 << i)
    } else {
        x & !(1u32 << i)
    }
}

pub proof fn lemma_with_bit16(x: u16, i: u16, b: bool, j: u16)
    requires
        i < 16,
        j < 16,
    ensures
        bit16(with_bit16(x, i, b), j) == if i == j { b } else { bit16(x, j) },
{
    if b {
        assert(((x | (1u16 << i)) >> j) & 1u16 == 1u16 <==> if i == j { true } else { (x >> j) & 1u16 == 1u16 })
            by (bit_vector)
            requires i < 16, j < 16;
    } else {
        assert(((x & !(1u16 << i)) >> j) & 1u16 == 1u16 <==> if i == j { false } else { (x >> j) & 1u16 == 1u16 })
            by (bit_vector)
            requires i < 16, j < 16;
    }
}

pub proof fn lemma_with_bit32(x: u32, i: u32, b: bool, j: u32)
    requires
        i < 32,
        j < 32,
    ensures
        bit32(with_bit32(x, i, b), j) == if i == j { b } else { bit32(x, j) },
{
    if b {
        assert(((x | (1u32 << i)) >> j) & 1u32 == 1u32 <==> if i == j { true } else { (x >> j) & 1u32 == 1u32 })
            by (bit_vector)
            requires i < 32, j < 32;
    } else {
        assert(((x & !(1u32 << i)) >> j) & 1u32 == 1u32 <==> if i == j { false } else { (x >> j) & 1u32 == 1u32 })
            by (bit_vector)
            requires i < 32, j < 32;
    }
}

/// Reads bit `i` (lsb0) of a 16-bit word.
pub fn get_bit16(x: u16, i: u16) -> (r: bool)
    requires
        i < 16,
    ensures
        r == bit16(x, i),
{
    (x >> i) & 1 == 1
}

/// Returns `x` with bit `i` (lsb0) set to `b`.
pub fn set_bit16(x: u16, i: u16, b: bool) -> (r: u16)
    requires
        i < 16,
    ensures
        r == with_bit16(x, i, b),
{
    if b {
        x | (1u16 << i)
    } else {
        x & !(1u16 << i)
    }
}

/// Reads bit `i` (lsb0) of a 32-bit word.
pub fn get_bit32(x: u32, i: u32) -> (r: bool)
    requires
        i < 32,
    ensures
        r == bit32(x, i),
{
    (x >> i) & 1 == 1
}

/// Returns `x` with bit `i` (lsb0) set to `b`.
pub fn set_bit32(x: u32, i: u32, b: bool) -> (r: u32)
    requires
        i < 32,
    ensures
        r == with_bit32(x, i, b),
{
    if b {
        x | (1u32 << i)
    } else {
        x & !(1u32 << i)
    }
}

/// Byte decomposition of a 16-bit word.
pub proof fn lemma_u16_bytes(x: u16)
    ensures
        (x >> 8u16) as u8 == (x / 256) as u8,
        x as u8 == (x % 256) as u8,
        x >> 4u16 == x / 16,
{
    assert((x >> 8u16) as u8 == (x / 256) as u8 && x as u8 == (x % 256) as u8 && x >> 4u16 == x
        / 16) by (bit_vector);
}

/// Truncations of a 32-bit word.
pub proof fn lemma_u32_low(x: u32)
    ensures
        x as u16 == (x % 0x10000) as u16,
        (x as u16) as int == x % 0x10000,
        (x & 0xFF) as int == x % 0x100,
        ((x & 0x00FF_FFFF) & 0xFF) as int == x % 0x100,
{
    assert(x as u16 == (x % 0x10000) as u16 && (x as u16) as int == x % 0x10000 && (x & 0xFF) as int
        == x % 0x100 && ((x & 0x00FF_FFFF) & 0xFF) as int == x % 0x100) by (bit_vector);
}

/// The low nibble of a byte.
pub proof fn lemma_and_low_nibble(x: u8)
    ensures
        x & 0x0F == x % 16,
{
    crate::dsp::instr::lemma_and_le_u8(x, 0x0F);
    assert(x & 0x0F == x % 16) by (bit_vector);
}

/// Right shifts of a word are divisions by powers of two.
pub proof fn lemma_u32_shifts(x: u32)
    ensures
        x >> 16u32 == x / 0x1_0000,
        x >> 8u32 == x / 0x100,
{
    assert(x >> 16u32 == x / 0x1_0000 && x >> 8u32 == x / 0x100) by (bit_vector);
}

} // verus!
