use crate::bits::{bit32, get_bit32, set_bit32, with_bit32};
use crate::dsp::instr::lemma_and_le_u32;
use vstd::prelude::*;

verus! {

broadcast use vstd::array::group_array_axioms;

/// XER bits (lsb0): summary overflow, overflow, carry; the string-byte
/// count sits in the low seven bits.
pub const XER_SO_BIT: u32 = 31;
pub const XER_OV_BIT: u32 = 30;
pub const XER_CA_BIT: u32 = 29;

/// Bits of a 4-bit condition field: less than, greater than, equal,
/// summary overflow.
pub const CR_LT: u32 = 8;
pub const CR_GT: u32 = 4;
pub const CR_EQ: u32 = 2;
pub const CR_SO: u32 = 1;

/// CR bit `i` in msb0 numbering (bit 0 is the most significant).
pub open spec fn cr_bit(cr: u32, i: int) -> bool {
    bit32(cr, (31 - i) as u32)
}

/// Nibble `k` of `x`, counted from the least significant end.
pub open spec fn nibble(x: u32, k: int) -> u32 {
    (x >> (4 * k) as u32) & 0xF
}

/// CR field `f` in msb0 numbering (field 0 holds bits 0..=3).
pub open spec fn cr_field(cr: u32, f: int) -> u32 {
    nibble(cr, 7 - f)
}

/// A condition field built from its four flags.
pub open spec fn field_of(lt: bool, gt: bool, eq: bool, so: bool) -> u32 {
    ((if lt { CR_LT } else { 0u32 }) + (if gt { CR_GT } else { 0u32 }) + (if eq { CR_EQ } else { 0u32 })
        + (if so { CR_SO } else { 0u32 })) as u32
}

/// XER with the carry bit set to `ca`.
pub open spec fn xer_with_carry(xer: u32, ca: bool) -> u32 {
    with_bit32(xer, XER_CA_BIT, ca)
}

/// XER after an overflow-enabled operation: OV is `ov`, and SO becomes
/// sticky-set when `ov` holds.
pub open spec fn xer_with_overflow(xer: u32, ov: bool) -> u32 {
    with_bit32(with_bit32(xer, XER_OV_BIT, ov), XER_SO_BIT, bit32(xer, XER_SO_BIT) || ov)
}

/// Two's-complement value of a word.
pub open spec fn s32(x: u32) -> int {
    if x < 0x8000_0000 {
        x as int
    } else {
        x - 0x1_0000_0000
    }
}

/// A mathematical integer reduced to a word (two's complement).
pub open spec fn trunc32(v: int) -> u32 {
    (v % 0x1_0000_0000) as u32
}

/// Whether `v` lies outside the 32-bit signed range.
pub open spec fn signed_overflow(v: int) -> bool {
    v < -0x8000_0000 || v > 0x7FFF_FFFF
}

/// Number of bytes moved by the indexed string instructions.
pub open spec fn xer_byte_count(xer: u32) -> u32 {
    xer & 0x7F
}

/// Replacing nibble `j` of `x` by that of `y` changes nibble `j` only.
pub proof fn lemma_merge_nibble(x: u32, y: u32, j: u32, k: u32)
    requires
        j < 8,
        k < 8,
    ensures
        nibble((x & !(0xFu32 << (4 * j))) | (y & (0xFu32 << (4 * j))), k as int) == if j == k {
            nibble(y, k as int)
        } else {
            nibble(x, k as int)
        },
{
    assert((((x & !(0xFu32 << (4 * j))) | (y & (0xFu32 << (4 * j)))) >> (4 * k)) & 0xF == if j == k {
        (y >> (4 * k)) & 0xF
    } else {
        (x >> (4 * k)) & 0xF
    }) by (bit_vector)
        requires
            j < 8,
            k < 8,
    ;
}

/// Placing `v` (a nibble) at nibble `j` of `x`.
pub open spec fn with_nibble(x: u32, j: int, v: u32) -> u32 {
    (x & !(0xFu32 << (4 * j) as u32)) | ((v & 0xF) << (4 * j) as u32)
}

/// A value below 16 is its own low nibble.
pub proof fn lemma_low_nibble_small(v: u32)
    requires
        v < 16,
    ensures
        v & 0xF == v,
{
    assert(v < 16 ==> v & 0xF == v) by (bit_vector);
}

pub proof fn lemma_with_nibble(x: u32, j: u32, v: u32, k: u32)
    requires
        j < 8,
        k < 8,
    ensures
        nibble(with_nibble(x, j as int, v), k as int) == if j == k {
            v & 0xF
        } else {
            nibble(x, k as int)
        },
{
    assert((((x & !(0xFu32 << (4 * j))) | ((v & 0xF) << (4 * j))) >> (4 * k)) & 0xF == if j == k {
        v & 0xF
    } else {
        (x >> (4 * k)) & 0xF
    }) by (bit_vector)
        requires
            j < 8,
            k < 8,
    ;
}

/// Gekko integer-unit state: GPRs, condition register, XER, link and
/// count registers, and the program counters.
pub struct Cpu {
    pub gpr: [u32; 32],
    pub cr: u32,
    pub xer: u32,
    pub lr: u32,
    pub ctr: u32,
    pub pc: u32,
    pub cia: u32,
    pub nia: u32,
}

impl Cpu {
    pub fn new() -> (r: Cpu)
        ensures
            forall|i: int| 0 <= i < 32 ==> r.gpr[i] == 0,
            r.cr == 0 && r.xer == 0 && r.lr == 0 && r.ctr == 0,
            r.pc == 0 && r.cia == 0 && r.nia == 0,
    {
        Cpu { gpr: [0; 32], cr: 0, xer: 0, lr: 0, ctr: 0, pc: 0, cia: 0, nia: 0 }
    }

    pub fn read_gpr(&self, r: u8) -> (v: u32)
        requires
            r < 32,
        ensures
            v == self.gpr[r as int],
    {
        self.gpr[r as usize]
    }

    /// `rA|0` addressing: register 0 reads as zero.
    pub open spec fn gpr_or_zero(&self, r: u8) -> u32 {
        if r == 0 {
            0
        } else {
            self.gpr[r as int]
        }
    }

    pub fn read_gpr_or_zero(&self, r: u8) -> (v: u32)
        requires
            r < 32,
        ensures
            v == self.gpr_or_zero(r),
    {
        if r == 0 {
            0
        } else {
            self.gpr[r as usize]
        }
    }

    /// This state with GPR `r` set to `v`.
    pub open spec fn with_gpr(self, r: int, v: u32) -> Cpu {
        Cpu { gpr: vstd::array::spec_array_update(self.gpr, r, v), ..self }
    }

    /// This state with `res` recorded in CR0.
    pub open spec fn with_cr0(self, res: u32) -> Cpu {
        Cpu { cr: with_nibble(self.cr, 7, self.cr0_for(res)), ..self }
    }

    pub fn write_gpr(&mut self, r: u8, v: u32)
        requires
            r < 32,
        ensures
            final(self).gpr@ == old(self).gpr@.update(r as int, v),
            *final(self) == old(self).with_gpr(r as int, v),
    {
        self.gpr[r as usize] = v;
        assert(self.gpr =~= vstd::array::spec_array_update(old(self).gpr, r as int, v));
    }

    /// CR bit `i` (msb0).
    pub fn get_cr_bit(&self, i: u8) -> (b: bool)
        requires
            i < 32,
        ensures
            b == cr_bit(self.cr, i as int),
    {
        get_bit32(self.cr, 31 - i as u32)
    }

    /// Sets CR bit `i` (msb0) to `b`.
    pub fn set_cr_bit(&mut self, i: u8, b: bool)
        requires
            i < 32,
        ensures
            *final(self) == (Cpu { cr: with_bit32(old(self).cr, (31 - i) as u32, b), ..*old(self) }),
    {
        self.cr = set_bit32(self.cr, 31 - i as u32, b);
    }

    /// CR field `f` (msb0).
    pub fn get_cr_field(&self, f: u8) -> (v: u32)
        requires
            f < 8,
        ensures
            v == cr_field(self.cr, f as int),
            v < 16,
    {
        let s = (7 - f as u32) * 4;
        proof { lemma_and_le_u32(self.cr >> s, 0xF); }
        (self.cr >> s) & 0xF
    }

    /// Replaces CR field `f` (msb0) by the low nibble of `v`.
    pub fn set_cr_field(&mut self, f: u8, v: u32)
        requires
            f < 8,
        ensures
            *final(self) == (Cpu { cr: with_nibble(old(self).cr, 7 - f, v), ..*old(self) }),
    {
        let s = (7 - f as u32) * 4;
        self.cr = (self.cr & !(0xFu32 << s)) | ((v & 0xF) << s);
    }

    /// Sets XER's carry bit.
    pub fn set_carry(&mut self, ca: bool)
        ensures
            *final(self) == (Cpu { xer: xer_with_carry(old(self).xer, ca), ..*old(self) }),
    {
        self.xer = set_bit32(self.xer, XER_CA_BIT, ca);
    }

    /// Records an overflow result in XER's OV and SO bits.
    pub fn set_overflow(&mut self, ov: bool)
        ensures
            *final(self) == (Cpu { xer: xer_with_overflow(old(self).xer, ov), ..*old(self) }),
    {
        let so = get_bit32(self.xer, XER_SO_BIT) || ov;
        self.xer = set_bit32(set_bit32(self.xer, XER_OV_BIT, ov), XER_SO_BIT, so);
    }

    /// CR0 after a recorded result: sign of `res` and XER's summary overflow.
    pub open spec fn cr0_for(&self, res: u32) -> u32 {
        field_of((res as i32) < 0, (res as i32) > 0, res == 0, bit32(self.xer, XER_SO_BIT))
    }

    /// Records `res` in CR0.
    pub fn update_cr0(&mut self, res: u32)
        ensures
            *final(self) == (Cpu { cr: with_nibble(old(self).cr, 7, old(self).cr0_for(res)), ..*old(self) }),
    {
        let signed = res as i32;
        let so = get_bit32(self.xer, XER_SO_BIT);
        let field = (if signed < 0 { CR_LT } else { 0 }) + (if signed > 0 { CR_GT } else { 0 }) + (if res
            == 0 {
            CR_EQ
        } else {
            0
        }) + (if so { CR_SO } else { 0 });
        self.set_cr_field(0, field);
    }
}

} // verus!
