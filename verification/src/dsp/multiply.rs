use crate::dsp::alu::{
    add_prod_spec, add_prod_to_ac, move_prod_spec, move_prod_to_ac, move_prod_to_ac_zero,
    move_prod_zero_spec,
};
use crate::dsp::instr::DspInstruction;
use crate::dsp::machine::Dsp;
use crate::dsp::regs::Registers;
use crate::dsp::status::SR_PRODUCT_MULTIPLY_RESULT_BY_2;
use vstd::prelude::*;

verus! {

/// Product scaling: results are doubled unless the AM bit is set.
pub open spec fn mul_factor(r: Registers) -> int {
    if r.status.flag(SR_PRODUCT_MULTIPLY_RESULT_BY_2) {
        1
    } else {
        2
    }
}

/// Product register receives `a * b` (scaled).
pub open spec fn multiply_spec(r: Registers, a: i16, b: i16) -> Registers {
    r.with_product(a * b * mul_factor(r))
}

/// Product register receives product `±` `a * b` (scaled).
pub open spec fn multiply_accumulate_spec(r: Registers, a: i16, b: i16, add: bool) -> Registers {
    let m = a * b * mul_factor(r);
    let p = r.product_spec();
    r.with_product(
        if add {
            p + m
        } else {
            p - m
        },
    )
}

/// Operands of the MULX forms: `$ax0.l/h` and `$ax1.l/h` selected by `s`/`t`.
pub open spec fn mulx_operands_spec(r: Registers, s: u8, t: u8) -> (i16, i16) {
    (
        (if s != 0 {
            r.axh[0]
        } else {
            r.ax[0]
        }) as i16,
        (if t != 0 {
            r.axh[1]
        } else {
            r.ax[1]
        }) as i16,
    )
}

/// Operands of the MULC forms: `$acS.m` and `$axT.h`.
pub open spec fn mulc_operands_spec(r: Registers, s: u8, t: u8) -> (i16, i16) {
    (r.ac_mid_spec(s) as i16, r.axh[t as int] as i16)
}

pub fn multiply(regs: &mut Registers, a: i16, b: i16)
    ensures
        *final(regs) == multiply_spec(*old(regs), a, b),
{
    assert(-0x4000_0000 <= (a as int) * (b as int) <= 0x4000_0000) by (nonlinear_arith)
        requires
            -0x8000 <= a < 0x8000,
            -0x8000 <= b < 0x8000,
    ;
    let mut result = (a as i64) * (b as i64);
    if !regs.status.product_multiply_result_by_2() {
        result = result * 2;
    }
    regs.write_product(result);
}

pub fn multiply_accumulate<const ADD: bool>(regs: &mut Registers, a: i16, b: i16)
    ensures
        *final(regs) == multiply_accumulate_spec(*old(regs), a, b, ADD),
{
    assert(-0x4000_0000 <= (a as int) * (b as int) <= 0x4000_0000) by (nonlinear_arith)
        requires
            -0x8000 <= a < 0x8000,
            -0x8000 <= b < 0x8000,
    ;
    proof {
        crate::dsp::alu::lemma_ac_bounds(*regs, 0);
    }
    let mut mul_result = (a as i64) * (b as i64);
    if !regs.status.product_multiply_result_by_2() {
        mul_result = mul_result * 2;
    }
    let prod = regs.product();
    let result = if ADD {
        prod + mul_result
    } else {
        prod - mul_result
    };
    regs.write_product(result);
}

pub fn mulx_operands(regs: &Registers, s: u8, t: u8) -> (r: (i16, i16))
    ensures
        r == mulx_operands_spec(*regs, s, t),
{
    let a = (if s != 0 {
        regs.axh[0]
    } else {
        regs.ax[0]
    }) as i16;
    let b = (if t != 0 {
        regs.axh[1]
    } else {
        regs.ax[1]
    }) as i16;
    (a, b)
}

pub fn mulc_operands(regs: &Registers, s: u8, t: u8) -> (r: (i16, i16))
    requires
        s < 2,
        t < 2,
    ensures
        r == mulc_operands_spec(*regs, s, t),
{
    let a = regs.ac_mid(s) as i16;
    let b = regs.axh[t as usize] as i16;
    (a, b)
}

#[derive(PartialEq, Eq, Structural, Clone, Copy, Debug)]
pub enum MulOp {
    Mul,
    Mulx,
    Mulc,
    Mulaxh,
    Mulmv,
    Mulmvz,
    Mulac,
    Mulxmv,
    Mulxmvz,
    Mulxac,
    Mulcmv,
    Mulcmvz,
    Mulcac,
    Madd,
    Msub,
    Maddx,
    Msubx,
    Maddc,
    Msubc,
}

pub open spec fn mul_spec(r: Registers, op: MulOp, instr: DspInstruction) -> Registers {
    let s = instr.r_4_4() as int;
    let d = instr.r_7_7();
    let (sa, sb) = (r.ax[s] as i16, r.axh[s] as i16);
    let (xa, xb) = mulx_operands_spec(r, instr.s_3_3(), instr.t_4_4());
    let (ca, cb) = mulc_operands_spec(r, instr.s_3_3(), instr.t_4_4());
    let m = instr.s_7_7() as int;
    let (ma, mb) = (r.ax[m] as i16, r.axh[m] as i16);
    let (xa6, xb6) = mulx_operands_spec(r, instr.s_6_6(), instr.t_7_7());
    let (ca6, cb6) = mulc_operands_spec(r, instr.s_6_6(), instr.t_7_7());
    match op {
        MulOp::Mul => multiply_spec(r, sa, sb),
        MulOp::Mulx => multiply_spec(r, xa, xb),
        MulOp::Mulc => multiply_spec(r, ca, cb),
        MulOp::Mulaxh => multiply_spec(r, r.axh[0] as i16, r.ac0_mid as i16),
        MulOp::Mulmv => multiply_spec(move_prod_spec(r, d), sa, sb),
        MulOp::Mulmvz => multiply_spec(move_prod_zero_spec(r, d), sa, sb),
        MulOp::Mulac => multiply_spec(add_prod_spec(r, d), sa, sb),
        MulOp::Mulxmv => multiply_spec(move_prod_spec(r, d), xa, xb),
        MulOp::Mulxmvz => multiply_spec(move_prod_zero_spec(r, d), xa, xb),
        MulOp::Mulxac => multiply_spec(add_prod_spec(r, d), xa, xb),
        MulOp::Mulcmv => multiply_spec(move_prod_spec(r, d), ca, cb),
        MulOp::Mulcmvz => multiply_spec(move_prod_zero_spec(r, d), ca, cb),
        MulOp::Mulcac => multiply_spec(add_prod_spec(r, d), ca, cb),
        MulOp::Madd => multiply_accumulate_spec(r, ma, mb, true),
        MulOp::Msub => multiply_accumulate_spec(r, ma, mb, false),
        MulOp::Maddx => multiply_accumulate_spec(r, xa6, xb6, true),
        MulOp::Msubx => multiply_accumulate_spec(r, xa6, xb6, false),
        MulOp::Maddc => multiply_accumulate_spec(r, ca6, cb6, true),
        MulOp::Msubc => multiply_accumulate_spec(r, ca6, cb6, false),
    }
}

#[inline(always)]
pub fn mul(dsp: &mut Dsp, op: MulOp, instr: DspInstruction)
    requires
        old(dsp).wf(),
    ensures
        final(dsp).wf(),
        *final(dsp) == old(dsp).with_registers(mul_spec(old(dsp).registers, op, instr)),
{
    let regs = &mut dsp.registers;
    let s = instr.r_4_4() as usize;
    let d = instr.r_7_7();
    let m = instr.s_7_7() as usize;
    match op {
        MulOp::Mul => {
            let (a, b) = (regs.ax[s] as i16, regs.axh[s] as i16);
            multiply(regs, a, b);
        },
        MulOp::Mulx => {
            let (a, b) = mulx_operands(regs, instr.s_3_3(), instr.t_4_4());
            multiply(regs, a, b);
        },
        MulOp::Mulc => {
            let (a, b) = mulc_operands(regs, instr.s_3_3(), instr.t_4_4());
            multiply(regs, a, b);
        },
        MulOp::Mulaxh => {
            let (a, b) = (regs.axh[0] as i16, regs.ac0_mid as i16);
            multiply(regs, a, b);
        },
        MulOp::Mulmv => {
            let (a, b) = (regs.ax[s] as i16, regs.axh[s] as i16);
            move_prod_to_ac(regs, d);
            multiply(regs, a, b);
        },
        MulOp::Mulmvz => {
            let (a, b) = (regs.ax[s] as i16, regs.axh[s] as i16);
            move_prod_to_ac_zero(regs, d);
            multiply(regs, a, b);
        },
        MulOp::Mulac => {
            let (a, b) = (regs.ax[s] as i16, regs.axh[s] as i16);
            add_prod_to_ac(regs, d);
            multiply(regs, a, b);
        },
        MulOp::Mulxmv => {
            let (a, b) = mulx_operands(regs, instr.s_3_3(), instr.t_4_4());
            move_prod_to_ac(regs, d);
            multiply(regs, a, b);
        },
        MulOp::Mulxmvz => {
            let (a, b) = mulx_operands(regs, instr.s_3_3(), instr.t_4_4());
            move_prod_to_ac_zero(regs, d);
            multiply(regs, a, b);
        },
        MulOp::Mulxac => {
            let (a, b) = mulx_operands(regs, instr.s_3_3(), instr.t_4_4());
            add_prod_to_ac(regs, d);
            multiply(regs, a, b);
        },
        MulOp::Mulcmv => {
            let (a, b) = mulc_operands(regs, instr.s_3_3(), instr.t_4_4());
            move_prod_to_ac(regs, d);
            multiply(regs, a, b);
        },
        MulOp::Mulcmvz => {
            let (a, b) = mulc_operands(regs, instr.s_3_3(), instr.t_4_4());
            move_prod_to_ac_zero(regs, d);
            multiply(regs, a, b);
        },
        MulOp::Mulcac => {
            let (a, b) = mulc_operands(regs, instr.s_3_3(), instr.t_4_4());
            add_prod_to_ac(regs, d);
            multiply(regs, a, b);
        },
        MulOp::Madd => {
            let (a, b) = (regs.ax[m] as i16, regs.axh[m] as i16);
            multiply_accumulate::<true>(regs, a, b);
        },
        MulOp::Msub => {
            let (a, b) = (regs.ax[m] as i16, regs.axh[m] as i16);
            multiply_accumulate::<false>(regs, a, b);
        },
        MulOp::Maddx | MulOp::Msubx => {
            let (a, b) = mulx_operands(regs, instr.s_6_6(), instr.t_7_7());
            if op == MulOp::Maddx {
                multiply_accumulate::<true>(regs, a, b);
            } else {
                multiply_accumulate::<false>(regs, a, b);
            }
        },
        MulOp::Maddc | MulOp::Msubc => {
            let (a, b) = mulc_operands(regs, instr.s_6_6(), instr.t_7_7());
            if op == MulOp::Maddc {
                multiply_accumulate::<true>(regs, a, b);
            } else {
                multiply_accumulate::<false>(regs, a, b);
            }
        },
    }
}

} // verus!
