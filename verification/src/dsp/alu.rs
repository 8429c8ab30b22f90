use crate::dsp::instr::DspInstruction;
use crate::dsp::machine::Dsp;
use crate::dsp::regs::{lemma_acc_roundtrip, Registers, AC0M, AX0L};
use crate::dsp::status::{
    carry_add40, two40, wrap40, SR_ABOVE_S32, SR_ARITHMETIC_ZERO, SR_CARRY, SR_LOGICAL_ZERO, SR_OVERFLOW,
    SR_SIGN, SR_SIGN_EXTENSION_MODE, SR_TOP_TWO_BITS_EQUAL, SR_PRODUCT_MULTIPLY_RESULT_BY_2,
    SR_MULTIPLICATION_OPERANDS_ARE_SIGNED,
};
use vstd::prelude::*;

verus! {

/// `x` read as a signed 16-bit value.
pub open spec fn sext16(x: u16) -> int {
    (x as i16) as int
}

/// `x` rounded down to a multiple of 0x10000.
pub open spec fn floor16(x: int) -> int {
    x - x % 0x10000
}

/// `x` as a signed value in the middle word of an accumulator.
pub fn wide16(x: u16) -> (r: i64)
    ensures
        r == sext16(x) * 0x10000,
        -0x8000_0000 <= r < 0x8000_0000,
{
    (x as i16 as i64) * 0x10000
}

/// `x` with its low 16 bits cleared.
pub fn clear_low16(x: i64) -> (r: i64)
    ensures
        r == floor16(x as int),
{
    assert((x & !0xFFFFi64) as int == x - x % 0x10000) by (bit_vector);
    x & !0xFFFFi64
}

pub proof fn lemma_ac_bounds(r: Registers, d: u8)
    ensures
        -0x80_0000_0000 <= r.ac_spec(d) < 0x80_0000_0000,
        -0x80_0000_0000 <= r.product_spec() < 0x81_0000_0000,
{
}

#[derive(PartialEq, Eq, Structural, Clone, Copy, Debug)]
pub enum AddSubOp {
    Addr,
    Addax,
    Add,
    Addp,
    Subr,
    Subax,
    Sub,
    Subp,
    Addaxl,
    Addpaxz,
}

/// Register-file effect of the add/subtract group.
pub open spec fn add_sub_spec(r: Registers, op: AddSubOp, instr: DspInstruction) -> Registers {
    let d = instr.d_7_7();
    let s = instr.s_6_6() as int;
    let a = r.ac_spec(d);
    let bx = sext16(r.read_spec(true, (AX0L + instr.ss()) as u8)) * 0x10000;
    let bax = sext16(r.axh[s]) * 0x10000 + r.ax[s];
    let bac = r.ac_spec((1 - d) as u8);
    let bp = r.product_spec();
    match op {
        AddSubOp::Addr => r.with_ac(d, a + bx).flags_add(a, bx, a + bx),
        AddSubOp::Addax => r.with_ac(d, a + bax).flags_add(a, bax, a + bax),
        AddSubOp::Add => r.with_ac(d, a + bac).flags_add(a, bac, a + bac),
        AddSubOp::Addp => r.with_ac(d, a + bp).flags_add(a, bp, a + bp),
        AddSubOp::Subr => r.with_ac(d, a - bx).flags_sub(a, bx, a - bx),
        AddSubOp::Subax => r.with_ac(d, a - bax).flags_sub(a, bax, a - bax),
        AddSubOp::Sub => r.with_ac(d, a - bac).flags_sub(a, bac, a - bac),
        AddSubOp::Subp => r.with_ac(d, a - bp).flags_sub(a, bp, a - bp),
        AddSubOp::Addaxl => r.with_ac(d, a + r.ax[s]).flags_add(a, r.ax[s] as int, a + r.ax[s]),
        AddSubOp::Addpaxz => {
            let p = bp;
            let b = sext16(r.axh[s]) * 0x10000;
            let v = floor16(p + b);
            r.with_ac(d, v).flags_ac(v).with_sr(SR_OVERFLOW, false).with_sr(
                SR_CARRY,
                carry_add40(p, p + b),
            )
        },
    }
}

fn add_into(regs: &mut Registers, d: u8, a: i64, b: i64)
    requires
        d < 2,
        -0x100_0000_0000 <= a < 0x100_0000_0000,
        -0x100_0000_0000 <= b < 0x100_0000_0000,
    ensures
        *final(regs) == old(regs).with_ac(d, a + b).flags_add(a as int, b as int, a + b),
{
    let result = a + b;
    regs.set_ac(d, result);
    regs.update_flags_add(a, b, result);
}

fn sub_into(regs: &mut Registers, d: u8, a: i64, b: i64)
    requires
        d < 2,
        -0x100_0000_0000 <= a < 0x100_0000_0000,
        -0x100_0000_0000 <= b < 0x100_0000_0000,
    ensures
        *final(regs) == old(regs).with_ac(d, a - b).flags_sub(a as int, b as int, a - b),
{
    let result = a - b;
    regs.set_ac(d, result);
    regs.update_flags_sub(a, b, result);
}

#[inline(always)]
pub fn add_sub(dsp: &mut Dsp, op: AddSubOp, instr: DspInstruction)
    requires
        old(dsp).wf(),
    ensures
        final(dsp).wf(),
        *final(dsp) == old(dsp).with_registers(add_sub_spec(old(dsp).registers, op, instr)),
{
    let d = instr.d_7_7();
    let s = instr.s_6_6() as usize;
    let regs = &mut dsp.registers;
    proof {
        lemma_ac_bounds(*regs, d);
        lemma_ac_bounds(*regs, (1 - d) as u8);
    }
    let a = regs.ac(d);
    match op {
        AddSubOp::Addr => {
            let b = wide16(regs.read::<true>(AX0L + instr.ss()));
            add_into(regs, d, a, b);
        },
        AddSubOp::Addax => {
            let b = wide16(regs.axh[s]) + (regs.ax[s] as i64);
            add_into(regs, d, a, b);
        },
        AddSubOp::Add => {
            let b = regs.ac(1 - d);
            add_into(regs, d, a, b);
        },
        AddSubOp::Addp => {
            let b = regs.product();
            add_into(regs, d, a, b);
        },
        AddSubOp::Subr => {
            let b = wide16(regs.read::<true>(AX0L + instr.ss()));
            sub_into(regs, d, a, b);
        },
        AddSubOp::Subax => {
            let b = wide16(regs.axh[s]) + (regs.ax[s] as i64);
            sub_into(regs, d, a, b);
        },
        AddSubOp::Sub => {
            let b = regs.ac(1 - d);
            sub_into(regs, d, a, b);
        },
        AddSubOp::Subp => {
            let b = regs.product();
            sub_into(regs, d, a, b);
        },
        AddSubOp::Addaxl => {
            let b = regs.ax[s] as i64;
            add_into(regs, d, a, b);
        },
        AddSubOp::Addpaxz => {
            let p = regs.product();
            let b = wide16(regs.axh[s]);
            let result = clear_low16(p + b);
            regs.set_ac(d, result);
            regs.update_flags_ac(result);
            regs.set_sr(SR_OVERFLOW, false);
            let up = (p as u64) & 0xFF_FFFF_FFFFu64;
            let ub = (b as u64) & 0xFF_FFFF_FFFFu64;
            assert(up < 0x100_0000_0000u64 && ub < 0x100_0000_0000u64) by (bit_vector)
                requires
                    up == (p as u64) & 0xFF_FFFF_FFFFu64,
                    ub == (b as u64) & 0xFF_FFFF_FFFFu64,
            ;
            let c = ((up + ub) & 0xFF_FFFF_FFFFu64) < up;
            proof {
                let sum = p + b;
                crate::dsp::regs::lemma_low40(p);
                crate::dsp::regs::lemma_low40(b);
                assert((((up + ub) as u64) & 0xFF_FFFF_FFFFu64) as int == (up as int + ub as int) % 0x100_0000_0000)
                    by (bit_vector)
                    requires
                        up < 0x100_0000_0000u64,
                        ub < 0x100_0000_0000u64,
                ;
                vstd::arithmetic::div_mod::lemma_add_mod_noop(p as int, b as int, two40());
            }
            regs.set_sr(SR_CARRY, c);
        },
    }
}


// ---------------------------------------------------------------------------
// Product / accumulator transfers shared with the multiply group.

/// `$acD` receives the product; flags describe it; overflow is cleared.
pub open spec fn move_prod_spec(r: Registers, d: u8) -> Registers {
    let p = r.product_spec();
    r.with_ac(d, p).flags_ac(p).with_sr(SR_OVERFLOW, false)
}

/// As `move_prod_spec` with the low word of the product cleared.
pub open spec fn move_prod_zero_spec(r: Registers, d: u8) -> Registers {
    let p = floor16(r.product_spec());
    r.with_ac(d, p).flags_ac(p).with_sr(SR_OVERFLOW, false)
}

/// `$acD` += product, with add flags.
pub open spec fn add_prod_spec(r: Registers, d: u8) -> Registers {
    let a = r.ac_spec(d);
    let b = r.product_spec();
    r.with_ac(d, a + b).flags_add(a, b, a + b)
}

pub fn move_prod_to_ac(regs: &mut Registers, d: u8)
    requires
        d < 2,
    ensures
        *final(regs) == move_prod_spec(*old(regs), d),
{
    let prod = regs.product();
    regs.set_ac(d, prod);
    regs.update_flags_ac(prod);
    regs.set_sr(SR_OVERFLOW, false);
}

pub fn move_prod_to_ac_zero(regs: &mut Registers, d: u8)
    requires
        d < 2,
    ensures
        *final(regs) == move_prod_zero_spec(*old(regs), d),
{
    let prod = clear_low16(regs.product());
    regs.set_ac(d, prod);
    regs.update_flags_ac(prod);
    regs.set_sr(SR_OVERFLOW, false);
}

pub fn add_prod_to_ac(regs: &mut Registers, d: u8)
    requires
        d < 2,
    ensures
        *final(regs) == add_prod_spec(*old(regs), d),
{
    proof {
        lemma_ac_bounds(*regs, d);
    }
    let a = regs.ac(d);
    let b = regs.product();
    add_into(regs, d, a, b);
}

/// `$axI.h` as a signed value in the middle word of an accumulator.
pub open spec fn wide_axh_spec(r: Registers, i: u8) -> int {
    sext16(r.axh[i as int]) * 0x10000
}

pub fn wide_axh(regs: &Registers, i: u8) -> (v: i64)
    requires
        i < 2,
    ensures
        v == wide_axh_spec(*regs, i),
        -0x8000_0000 <= v < 0x8000_0000,
{
    wide16(regs.axh[i as usize])
}

/// Flags describing `$acD`, with overflow and carry cleared.
pub open spec fn test_ac_spec(r: Registers, d: u8) -> Registers {
    r.flags_ac(r.ac_spec(d)).with_sr(SR_OVERFLOW, false).with_sr(SR_CARRY, false)
}

fn test_ac(regs: &mut Registers, d: u8)
    requires
        d < 2,
    ensures
        *final(regs) == test_ac_spec(*old(regs), d),
{
    let ac = regs.ac(d);
    regs.update_flags_ac(ac);
    regs.set_sr(SR_OVERFLOW, false);
    regs.set_sr(SR_CARRY, false);
}

// ---------------------------------------------------------------------------
// Address registers.

#[derive(PartialEq, Eq, Structural, Clone, Copy, Debug)]
pub enum AddrRegOp {
    Dar,
    Iar,
    Subarn,
    Addarn,
}

pub open spec fn addr_reg_spec(r: Registers, op: AddrRegOp, instr: DspInstruction) -> Registers {
    let d = instr.d_14_15() as int;
    let s = instr.s_12_13() as int;
    match op {
        AddrRegOp::Dar => r.with_ar(d, r.ar[d].wrapping_sub(1)),
        AddrRegOp::Iar => r.with_ar(d, r.ar[d].wrapping_add(1)),
        AddrRegOp::Subarn => r.with_ar(d, r.ar[d].wrapping_sub(r.ix[d])),
        AddrRegOp::Addarn => r.with_ar(d, r.ar[d].wrapping_add(r.ix[s])),
    }
}

#[inline(always)]
pub fn addr_reg(dsp: &mut Dsp, op: AddrRegOp, instr: DspInstruction)
    requires
        old(dsp).wf(),
    ensures
        final(dsp).wf(),
        *final(dsp) == old(dsp).with_registers(addr_reg_spec(old(dsp).registers, op, instr)),
{
    let d = instr.d_14_15() as usize;
    let regs = &mut dsp.registers;
    match op {
        AddrRegOp::Dar => {
            let v = regs.ar[d].wrapping_sub(1);
            regs.set_ar(d, v);
        },
        AddrRegOp::Iar => {
            let v = regs.ar[d].wrapping_add(1);
            regs.set_ar(d, v);
        },
        AddrRegOp::Subarn => {
            let v = regs.ar[d].wrapping_sub(regs.ix[d]);
            regs.set_ar(d, v);
        },
        AddrRegOp::Addarn => {
            let s = instr.s_12_13() as usize;
            let v = regs.ar[d].wrapping_add(regs.ix[s]);
            regs.set_ar(d, v);
        },
    }
}

// ---------------------------------------------------------------------------
// Compare / test / clear.

#[derive(PartialEq, Eq, Structural, Clone, Copy, Debug)]
pub enum CmpTestOp {
    Cmp,
    Cmpaxh,
    Tst,
    Tstprod,
    Tstaxh,
    Nx,
    Clr,
    Clrp,
    Clrl,
}

/// `a` rounded to the nearest multiple of 0x10000, ties to even.
pub open spec fn round16(a: int) -> int {
    if (a as i64) & 0x10000 != 0 {
        floor16(a + 0x8000)
    } else {
        floor16(a + 0x7FFF)
    }
}

pub open spec fn cmp_test_spec(r: Registers, op: CmpTestOp, instr: DspInstruction) -> Registers {
    match op {
        CmpTestOp::Cmp => {
            let a = r.ac_spec(0);
            let b = r.ac_spec(1);
            r.flags_sub(a, b, a - b)
        },
        CmpTestOp::Cmpaxh => {
            let a = r.ac_spec(instr.s_3_3());
            let b = wide_axh_spec(r, instr.s_4_4());
            r.flags_sub(a, b, a - b)
        },
        CmpTestOp::Tst => test_ac_spec(r, instr.r_4_4()),
        CmpTestOp::Tstprod => r.flags_ac(r.product_spec()).with_sr(SR_OVERFLOW, false).with_sr(
            SR_CARRY,
            false,
        ),
        CmpTestOp::Tstaxh => {
            let v = wide_axh_spec(r, instr.r_7_7());
            r.flags_ac(v).with_sr(SR_ABOVE_S32, false).with_sr(SR_OVERFLOW, false).with_sr(
                SR_CARRY,
                false,
            )
        },
        CmpTestOp::Nx => r,
        CmpTestOp::Clr => r.with_ac(instr.r_4_4(), 0).with_sr(SR_TOP_TWO_BITS_EQUAL, true).with_sr(
            SR_ABOVE_S32,
            false,
        ).with_sr(SR_SIGN, false).with_sr(SR_ARITHMETIC_ZERO, true).with_sr(
            SR_OVERFLOW,
            false,
        ).with_sr(SR_CARRY, false),
        CmpTestOp::Clrp => Registers {
            product_low: 0x0000,
            product_mid1: 0xFFF0,
            product_high: 0x00FF,
            product_mid2: 0x0010,
            ..r
        },
        CmpTestOp::Clrl => {
            let d = instr.r_7_7();
            let v = round16(r.ac_spec(d));
            r.with_ac(d, v).flags_ac(v).with_sr(SR_OVERFLOW, false).with_sr(SR_CARRY, false)
        },
    }
}

#[inline(always)]
pub fn cmp_test(dsp: &mut Dsp, op: CmpTestOp, instr: DspInstruction)
    requires
        old(dsp).wf(),
    ensures
        final(dsp).wf(),
        *final(dsp) == old(dsp).with_registers(cmp_test_spec(old(dsp).registers, op, instr)),
{
    let regs = &mut dsp.registers;
    proof {
        lemma_ac_bounds(*regs, 0);
        lemma_ac_bounds(*regs, 1);
    }
    match op {
        CmpTestOp::Cmp => {
            let a = regs.ac(0);
            let b = regs.ac(1);
            let result = a - b;
            regs.update_flags_sub(a, b, result);
        },
        CmpTestOp::Cmpaxh => {
            let s = instr.s_4_4();
            let r = instr.s_3_3();
            let a = regs.ac(r);
            let b = wide_axh(regs, s);
            let result = a - b;
            regs.update_flags_sub(a, b, result);
        },
        CmpTestOp::Tst => {
            test_ac(regs, instr.r_4_4());
        },
        CmpTestOp::Tstprod => {
            let prod = regs.product();
            regs.update_flags_ac(prod);
            regs.set_sr(SR_OVERFLOW, false);
            regs.set_sr(SR_CARRY, false);
        },
        CmpTestOp::Tstaxh => {
            let val = wide_axh(regs, instr.r_7_7());
            regs.update_flags_ac(val);
            regs.set_sr(SR_ABOVE_S32, false);
            regs.set_sr(SR_OVERFLOW, false);
            regs.set_sr(SR_CARRY, false);
        },
        CmpTestOp::Nx => {},
        CmpTestOp::Clr => {
            let r = instr.r_4_4();
            regs.set_ac(r, 0);
            regs.set_sr(SR_TOP_TWO_BITS_EQUAL, true);
            regs.set_sr(SR_ABOVE_S32, false);
            regs.set_sr(SR_SIGN, false);
            regs.set_sr(SR_ARITHMETIC_ZERO, true);
            regs.set_sr(SR_OVERFLOW, false);
            regs.set_sr(SR_CARRY, false);
        },
        CmpTestOp::Clrp => {
            regs.product_low = 0x0000;
            regs.product_mid1 = 0xFFF0;
            regs.product_high = 0x00FF;
            regs.product_mid2 = 0x0010;
        },
        CmpTestOp::Clrl => {
            let r = instr.r_7_7();
            let ac = regs.ac(r);
            let rounded = if (ac & 0x10000) != 0 {
                clear_low16(ac + 0x8000)
            } else {
                clear_low16(ac + 0x7FFF)
            };
            regs.set_ac(r, rounded);
            regs.update_flags_ac(rounded);
            regs.set_sr(SR_OVERFLOW, false);
            regs.set_sr(SR_CARRY, false);
        },
    }
}

// ---------------------------------------------------------------------------
// Immediate arithmetic and logic.

#[derive(PartialEq, Eq, Structural, Clone, Copy, Debug)]
pub enum ImmAluOp {
    Addi,
    Xori,
    Andi,
    Ori,
    Cmpi,
    Andf,
    Andcf,
    Addis,
    Cmpis,
    Lris,
}

/// `$acD.m` replaced by `m` (no sign extension), flags from the whole
/// accumulator, overflow cleared and, when `clear_carry`, carry cleared.
pub open spec fn logic_mid_spec(r: Registers, d: u8, m: u16, clear_carry: bool) -> Registers {
    let r1 = r.write_spec(false, (AC0M + d) as u8, m);
    let r2 = r1.flags_ac(r1.ac_spec(d)).with_sr(SR_OVERFLOW, false);
    if clear_carry {
        r2.with_sr(SR_CARRY, false)
    } else {
        r2
    }
}

fn logic_mid(regs: &mut Registers, d: u8, m: u16, clear_carry: bool)
    requires
        d < 2,
        old(regs).stacks_wf(),
    ensures
        *final(regs) == logic_mid_spec(*old(regs), d, m, clear_carry),
        final(regs).stacks_wf(),
{
    regs.write::<false>(AC0M + d, m);
    let ac = regs.ac(d);
    regs.update_flags_ac(ac);
    regs.set_sr(SR_OVERFLOW, false);
    if clear_carry {
        regs.set_sr(SR_CARRY, false);
    }
}

pub open spec fn imm_alu_spec(r: Registers, op: ImmAluOp, instr: DspInstruction) -> Registers {
    let d = instr.d_7_7();
    let imm = instr.imm_16_31();
    let a = r.ac_spec(d);
    let b = sext16(imm) * 0x10000;
    let bs = instr.imm_8_15_i16() * 0x10000;
    let m = r.ac_mid_spec(d);
    match op {
        ImmAluOp::Addi => r.with_ac(d, a + b).flags_add(a, b, a + b),
        ImmAluOp::Xori => logic_mid_spec(r, d, m ^ imm, true),
        ImmAluOp::Andi => logic_mid_spec(r, d, m & imm, true),
        ImmAluOp::Ori => logic_mid_spec(r, d, m | imm, false),
        ImmAluOp::Cmpi => r.flags_sub(a, b, a - b),
        ImmAluOp::Andf => r.with_sr(SR_LOGICAL_ZERO, m & imm == 0),
        ImmAluOp::Andcf => r.with_sr(SR_LOGICAL_ZERO, m & imm == imm),
        ImmAluOp::Addis => r.with_ac(d, a + bs).flags_add(a, bs, a + bs),
        ImmAluOp::Cmpis => r.flags_sub(a, bs, a - bs),
        ImmAluOp::Lris => r.write_spec(
            true,
            (AX0L + instr.reg_5_7()) as u8,
            instr.imm_8_15_i16() as u16,
        ),
    }
}

#[inline(always)]
pub fn imm_alu(dsp: &mut Dsp, op: ImmAluOp, instr: DspInstruction)
    requires
        old(dsp).wf(),
    ensures
        final(dsp).wf(),
        *final(dsp) == old(dsp).with_registers(imm_alu_spec(old(dsp).registers, op, instr)),
{
    let d = instr.d_7_7();
    let regs = &mut dsp.registers;
    proof {
        lemma_ac_bounds(*regs, d);
    }
    match op {
        ImmAluOp::Addi => {
            let a = regs.ac(d);
            let b = wide16(instr.imm_16_31());
            add_into(regs, d, a, b);
        },
        ImmAluOp::Xori => {
            let result = regs.ac_mid(d) ^ instr.imm_16_31();
            logic_mid(regs, d, result, true);
        },
        ImmAluOp::Andi => {
            let result = regs.ac_mid(d) & instr.imm_16_31();
            logic_mid(regs, d, result, true);
        },
        ImmAluOp::Ori => {
            let result = regs.ac_mid(d) | instr.imm_16_31();
            logic_mid(regs, d, result, false);
        },
        ImmAluOp::Cmpi => {
            let a = regs.ac(d);
            let b = wide16(instr.imm_16_31());
            let result = a - b;
            regs.update_flags_sub(a, b, result);
        },
        ImmAluOp::Andf | ImmAluOp::Andcf => {
            let imm = instr.imm_16_31();
            let result = regs.ac_mid(d) & imm;
            let lz = match op {
                ImmAluOp::Andf => result == 0,
                _ => result == imm,
            };
            regs.set_sr(SR_LOGICAL_ZERO, lz);
        },
        ImmAluOp::Addis => {
            let a = regs.ac(d);
            let b = (instr.imm_8_15_i16() as i64) * 0x10000;
            add_into(regs, d, a, b);
        },
        ImmAluOp::Cmpis => {
            let a = regs.ac(d);
            let b = (instr.imm_8_15_i16() as i64) * 0x10000;
            let result = a - b;
            regs.update_flags_sub(a, b, result);
        },
        ImmAluOp::Lris => {
            let dst = AX0L + instr.reg_5_7();
            let imm = instr.imm_8_15_i16() as u16;
            regs.write::<true>(dst, imm);
        },
    }
}

// ---------------------------------------------------------------------------
// Increment / decrement / negate / absolute value.

#[derive(PartialEq, Eq, Structural, Clone, Copy, Debug)]
pub enum IncDecOp {
    Incm,
    Inc,
    Decm,
    Dec,
    Neg,
    AbsAc,
}

pub open spec fn inc_dec_spec(r: Registers, op: IncDecOp, instr: DspInstruction) -> Registers {
    let d = instr.d_7_7();
    let a = r.ac_spec(d);
    match op {
        IncDecOp::Incm => r.with_ac(d, a + 0x10000).flags_add(a, 0x10000, a + 0x10000),
        IncDecOp::Inc => r.with_ac(d, a + 1).flags_add(a, 1, a + 1),
        IncDecOp::Decm => r.with_ac(d, a - 0x10000).flags_sub(a, 0x10000, a - 0x10000),
        IncDecOp::Dec => r.with_ac(d, a - 1).flags_sub(a, 1, a - 1),
        IncDecOp::Neg => r.with_ac(d, -a).flags_sub(0, a, -a),
        IncDecOp::AbsAc => {
            let e = instr.d_4_4();
            let x = r.ac_spec(e);
            let r1 = if x < 0 {
                r.with_ac(e, -x)
            } else {
                r
            };
            test_ac_spec(r1, e)
        },
    }
}

#[inline(always)]
pub fn inc_dec(dsp: &mut Dsp, op: IncDecOp, instr: DspInstruction)
    requires
        old(dsp).wf(),
    ensures
        final(dsp).wf(),
        *final(dsp) == old(dsp).with_registers(inc_dec_spec(old(dsp).registers, op, instr)),
{
    let d = instr.d_7_7();
    let regs = &mut dsp.registers;
    proof {
        lemma_ac_bounds(*regs, d);
        lemma_ac_bounds(*regs, instr.d_4_4());
    }
    match op {
        IncDecOp::Incm => {
            let a = regs.ac(d);
            add_into(regs, d, a, 0x10000);
        },
        IncDecOp::Inc => {
            let a = regs.ac(d);
            add_into(regs, d, a, 1);
        },
        IncDecOp::Decm => {
            let a = regs.ac(d);
            sub_into(regs, d, a, 0x10000);
        },
        IncDecOp::Dec => {
            let a = regs.ac(d);
            sub_into(regs, d, a, 1);
        },
        IncDecOp::Neg => {
            let a = regs.ac(d);
            sub_into(regs, d, 0, a);
        },
        IncDecOp::AbsAc => {
            let e = instr.d_4_4();
            let a = regs.ac(e);
            if a < 0 {
                regs.set_ac(e, -a);
            }
            test_ac(regs, e);
        },
    }
}

// ---------------------------------------------------------------------------
// Logic on accumulator middle words.

#[derive(PartialEq, Eq, Structural, Clone, Copy, Debug)]
pub enum LogicOp {
    Xorr,
    Andr,
    Orr,
    Andc,
    Orc,
    Xorc,
    NotAc,
}

pub open spec fn logic_spec(r: Registers, op: LogicOp, instr: DspInstruction) -> Registers {
    let d = instr.d_7_7();
    let s = instr.s_6_6() as int;
    let m = r.ac_mid_spec(d);
    let other = r.ac_mid_spec((1 - d) as u8);
    match op {
        LogicOp::Xorr => logic_mid_spec(r, d, m ^ r.axh[s], true),
        LogicOp::Andr => logic_mid_spec(r, d, m & r.axh[s], true),
        LogicOp::Orr => logic_mid_spec(r, d, m | r.axh[s], false),
        LogicOp::Andc => logic_mid_spec(r, d, m & other, true),
        LogicOp::Orc => r.write_spec(false, (AC0M + d) as u8, m | other),
        LogicOp::Xorc => logic_mid_spec(r, d, m ^ other, true),
        LogicOp::NotAc => logic_mid_spec(r, d, !m, true),
    }
}

#[inline(always)]
pub fn logic(dsp: &mut Dsp, op: LogicOp, instr: DspInstruction)
    requires
        old(dsp).wf(),
    ensures
        final(dsp).wf(),
        *final(dsp) == old(dsp).with_registers(logic_spec(old(dsp).registers, op, instr)),
{
    let d = instr.d_7_7();
    let s = instr.s_6_6() as usize;
    let regs = &mut dsp.registers;
    let m = regs.ac_mid(d);
    let other = regs.ac_mid(1 - d);
    match op {
        LogicOp::Xorr => {
            let result = m ^ regs.axh[s];
            logic_mid(regs, d, result, true);
        },
        LogicOp::Andr => {
            let result = m & regs.axh[s];
            logic_mid(regs, d, result, true);
        },
        LogicOp::Orr => {
            let result = m | regs.axh[s];
            logic_mid(regs, d, result, false);
        },
        LogicOp::Andc => {
            logic_mid(regs, d, m & other, true);
        },
        LogicOp::Orc => {
            regs.write::<false>(AC0M + d, m | other);
        },
        LogicOp::Xorc => {
            logic_mid(regs, d, m ^ other, true);
        },
        LogicOp::NotAc => {
            logic_mid(regs, d, !m, true);
        },
    }
}

// ---------------------------------------------------------------------------
// Moves into accumulators.

#[derive(PartialEq, Eq, Structural, Clone, Copy, Debug)]
pub enum MoveOp {
    Movr,
    Movax,
    Mov,
    Movp,
    Movpz,
    Movnp,
}

pub open spec fn move_ops_spec(r: Registers, op: MoveOp, instr: DspInstruction) -> Registers {
    let d = instr.d_7_7();
    let s = instr.s_6_6() as int;
    match op {
        MoveOp::Movr => {
            let v = sext16(r.read_spec(true, (AX0L + instr.ss()) as u8)) * 0x10000;
            r.with_ac(d, v).flags_ac(v).with_sr(SR_OVERFLOW, false).with_sr(SR_CARRY, false)
        },
        MoveOp::Movax => {
            let v = sext16(r.axh[s]) * 0x10000 + r.ax[s];
            r.with_ac(d, v).flags_ac(v).with_sr(SR_OVERFLOW, false).with_sr(SR_CARRY, false)
        },
        MoveOp::Mov => {
            let v = r.ac_spec((1 - d) as u8);
            r.with_ac(d, v).flags_ac(v).with_sr(SR_ABOVE_S32, false).with_sr(
                SR_OVERFLOW,
                false,
            ).with_sr(SR_CARRY, false)
        },
        MoveOp::Movp => move_prod_spec(r, d),
        MoveOp::Movpz => move_prod_zero_spec(r, d),
        MoveOp::Movnp => {
            let v = -r.product_spec();
            r.with_ac(d, v).flags_ac(v).with_sr(SR_OVERFLOW, false)
        },
    }
}

#[inline(always)]
pub fn move_ops(dsp: &mut Dsp, op: MoveOp, instr: DspInstruction)
    requires
        old(dsp).wf(),
    ensures
        final(dsp).wf(),
        *final(dsp) == old(dsp).with_registers(move_ops_spec(old(dsp).registers, op, instr)),
{
    let d = instr.d_7_7();
    let s = instr.s_6_6() as usize;
    let regs = &mut dsp.registers;
    match op {
        MoveOp::Movr => {
            let val = wide16(regs.read::<true>(AX0L + instr.ss()));
            regs.set_ac(d, val);
            regs.update_flags_ac(val);
            regs.set_sr(SR_OVERFLOW, false);
            regs.set_sr(SR_CARRY, false);
        },
        MoveOp::Movax => {
            let val = wide16(regs.axh[s]) + (regs.ax[s] as i64);
            regs.set_ac(d, val);
            regs.update_flags_ac(val);
            regs.set_sr(SR_OVERFLOW, false);
            regs.set_sr(SR_CARRY, false);
        },
        MoveOp::Mov => {
            let val = regs.ac(1 - d);
            regs.set_ac(d, val);
            regs.update_flags_ac(val);
            regs.set_sr(SR_ABOVE_S32, false);
            regs.set_sr(SR_OVERFLOW, false);
            regs.set_sr(SR_CARRY, false);
        },
        MoveOp::Movp => move_prod_to_ac(regs, d),
        MoveOp::Movpz => move_prod_to_ac_zero(regs, d),
        MoveOp::Movnp => {
            let val = -regs.product();
            regs.set_ac(d, val);
            regs.update_flags_ac(val);
            regs.set_sr(SR_OVERFLOW, false);
        },
    }
}

// ---------------------------------------------------------------------------
// Status register control.

#[derive(PartialEq, Eq, Structural, Clone, Copy, Debug)]
pub enum StatusOp {
    Sbclr,
    Sbset,
    M2,
    M0,
    Clr15,
    Set15,
    Set16,
    Set40,
}

pub open spec fn status_spec(r: Registers, op: StatusOp, instr: DspInstruction) -> Registers {
    let b = (6 + instr.bit()) as u16;
    match op {
        StatusOp::Sbclr => r.with_sr(b, false),
        StatusOp::Sbset => r.with_sr(b, true),
        StatusOp::M2 => r.with_sr(SR_PRODUCT_MULTIPLY_RESULT_BY_2, false),
        StatusOp::M0 => r.with_sr(SR_PRODUCT_MULTIPLY_RESULT_BY_2, true),
        StatusOp::Clr15 => r.with_sr(SR_MULTIPLICATION_OPERANDS_ARE_SIGNED, false),
        StatusOp::Set15 => r.with_sr(SR_MULTIPLICATION_OPERANDS_ARE_SIGNED, true),
        StatusOp::Set16 => r.with_sr(SR_SIGN_EXTENSION_MODE, false),
        StatusOp::Set40 => r.with_sr(SR_SIGN_EXTENSION_MODE, true),
    }
}

#[inline(always)]
pub fn status(dsp: &mut Dsp, op: StatusOp, instr: DspInstruction)
    requires
        old(dsp).wf(),
    ensures
        final(dsp).wf(),
        *final(dsp) == old(dsp).with_registers(status_spec(old(dsp).registers, op, instr)),
{
    let regs = &mut dsp.registers;
    match op {
        StatusOp::Sbclr => regs.set_sr((6 + instr.bit()) as u16, false),
        StatusOp::Sbset => regs.set_sr((6 + instr.bit()) as u16, true),
        StatusOp::M2 => regs.set_sr(SR_PRODUCT_MULTIPLY_RESULT_BY_2, false),
        StatusOp::M0 => regs.set_sr(SR_PRODUCT_MULTIPLY_RESULT_BY_2, true),
        StatusOp::Clr15 => regs.set_sr(SR_MULTIPLICATION_OPERANDS_ARE_SIGNED, false),
        StatusOp::Set15 => regs.set_sr(SR_MULTIPLICATION_OPERANDS_ARE_SIGNED, true),
        StatusOp::Set16 => regs.set_sr(SR_SIGN_EXTENSION_MODE, false),
        StatusOp::Set40 => regs.set_sr(SR_SIGN_EXTENSION_MODE, true),
    }
}

proof fn lemma_wrap40_add_sub(a: int, b: int)
    requires
        -0x80_0000_0000 <= a < 0x80_0000_0000,
    ensures
        wrap40(wrap40(a + b) - b) == a,
{
    let m = two40();
    let w = wrap40(a + b);
    vstd::arithmetic::div_mod::lemma_fundamental_div_mod(a + b, m);
    let k = (a + b) / m;
    let q: int = if (a + b) % m >= 0x80_0000_0000 { k + 1 } else { k };
    assert(w - b == a - q * m);
    vstd::arithmetic::div_mod::lemma_mod_multiples_vanish(-q, a, m);
    assert(m * (-q) + a == a - q * m) by (nonlinear_arith);
    vstd::arithmetic::div_mod::lemma_fundamental_div_mod(a, m);
    assert(a % m == if a >= 0 { a } else { a + m }) by {
        vstd::arithmetic::div_mod::lemma_mod_multiples_vanish(1, a, m);
        vstd::arithmetic::div_mod::lemma_small_mod((if a >= 0 { a } else { a + m }) as nat, m as nat);
        assert(m * 1 + a == a + m);
    }
}

/// Adding `$axS` to an accumulator and subtracting it again restores the
/// accumulator (40-bit arithmetic wraps both ways).
pub proof fn lemma_addax_subax_undo(r: Registers, instr: DspInstruction)
    ensures
        add_sub_spec(add_sub_spec(r, AddSubOp::Addax, instr), AddSubOp::Subax, instr).ac_spec(
            instr.d_7_7(),
        ) == r.ac_spec(instr.d_7_7()),
{
    let d = instr.d_7_7();
    let s = instr.s_6_6() as int;
    let a = r.ac_spec(d);
    let b = sext16(r.axh[s]) * 0x10000 + r.ax[s];
    lemma_ac_bounds(r, d);
    let r1 = add_sub_spec(r, AddSubOp::Addax, instr);
    assert(r1 == r.with_ac(d, a + b).flags_add(a, b, a + b));
    lemma_acc_roundtrip(a + b);
    assert(r1.ac_spec(d) == wrap40(a + b));
    assert(r1.ax == r.ax && r1.axh == r.axh);
    let r2 = add_sub_spec(r1, AddSubOp::Subax, instr);
    assert(r2 == r1.with_ac(d, r1.ac_spec(d) - b).flags_sub(r1.ac_spec(d), b, r1.ac_spec(d) - b));
    lemma_acc_roundtrip(wrap40(a + b) - b);
    lemma_wrap40_add_sub(a, b);
}


/// `ADD` and `SUB` between the two accumulators: `$acD` becomes the
/// 40-bit wrap of itself plus, or minus, the other accumulator (the
/// subtrahend is the other accumulator, never `$acD`); the other
/// accumulator, the `$ax` registers, the address registers and the
/// product are kept.
pub proof fn lemma_acc_add_sub_other(r: Registers, instr: DspInstruction)
    ensures
        ({
            let d = instr.spec_d_7_7();
            let o = (1 - d) as u8;
            let sub = add_sub_spec(r, AddSubOp::Sub, instr);
            let add = add_sub_spec(r, AddSubOp::Add, instr);
            &&& sub.ac_spec(d) == wrap40(r.ac_spec(d) - r.ac_spec(o))
            &&& add.ac_spec(d) == wrap40(r.ac_spec(d) + r.ac_spec(o))
            &&& sub.ac_spec(o) == r.ac_spec(o)
            &&& add.ac_spec(o) == r.ac_spec(o)
            &&& sub.ax == r.ax && sub.axh == r.axh && sub.ar == r.ar
            &&& add.ax == r.ax && add.axh == r.axh && add.ar == r.ar
            &&& sub.product_spec() == r.product_spec() && add.product_spec() == r.product_spec()
        }),
{
    let d = instr.spec_d_7_7();
    crate::dsp::instr::lemma_and_le_u32(instr.0 >> 24u32, 0x1u32);
    let o = (1 - d) as u8;
    let a = r.ac_spec(d);
    let b = r.ac_spec(o);
    lemma_acc_roundtrip(a - b);
    lemma_acc_roundtrip(a + b);
    assert(add_sub_spec(r, AddSubOp::Sub, instr) == r.with_ac(d, a - b).flags_sub(a, b, a - b));
    assert(add_sub_spec(r, AddSubOp::Add, instr) == r.with_ac(d, a + b).flags_add(a, b, a + b));
}

} // verus!
