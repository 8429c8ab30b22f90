use crate::dsp::alu::{test_ac_spec};
use crate::dsp::instr::DspInstruction;
use crate::dsp::machine::Dsp;
use crate::dsp::regs::Registers;
use crate::dsp::status::{SR_CARRY, SR_OVERFLOW};
use vstd::prelude::*;

verus! {

/// The 40-bit pattern of accumulator value `v`, zero-extended.
pub open spec fn u40_of(v: int) -> u64 {
    (v as u64) & 0xFF_FFFF_FFFFu64
}

/// `$acD` receives `v`; flags then describe the stored accumulator, with
/// overflow and carry cleared.
pub open spec fn shift_store_spec(r: Registers, d: u8, v: int) -> Registers {
    test_ac_spec(r.with_ac(d, v), d)
}

/// Shift by a 7-bit control value: bit 6 selects a right shift by
/// `64 - (sv & 63)` (logical or arithmetic), otherwise a left shift by
/// `sv & 63`.
pub open spec fn dynamic_shift_spec(r: Registers, d: u8, sv: i16, logical: bool) -> Registers {
    let a = r.ac_spec(d);
    let amount = (sv & 63) as u64;
    let r1 = if sv & 64 != 0 {
        if amount != 0 {
            r.with_ac(
                d,
                if logical {
                    (u40_of(a) >> ((64 - amount) as u64)) as i64 as int
                } else {
                    ((a as i64) >> ((64 - amount) as u64)) as int
                },
            )
        } else {
            r
        }
    } else {
        r.with_ac(d, (u40_of(a) << amount) as i64 as int)
    };
    test_ac_spec(r1, d)
}

fn store_and_test(regs: &mut Registers, d: u8, v: i64)
    requires
        d < 2,
    ensures
        *final(regs) == shift_store_spec(*old(regs), d, v as int),
{
    regs.set_ac(d, v);
    let ac = regs.ac(d);
    regs.update_flags_ac(ac);
    regs.set_sr(SR_OVERFLOW, false);
    regs.set_sr(SR_CARRY, false);
}

pub fn dynamic_shift<const LOGICAL: bool>(regs: &mut Registers, d: u8, shift_val: i16)
    requires
        d < 2,
    ensures
        *final(regs) == dynamic_shift_spec(*old(regs), d, shift_val, LOGICAL),
{
    assert(((shift_val & 63) as u64) < 64) by (bit_vector);
    if shift_val & 64 != 0 {
        let amount = (shift_val & 63) as u64;
        if amount != 0 {
            let ac = if LOGICAL {
                (((regs.ac(d) as u64) & 0xFF_FFFF_FFFFu64) >> (64 - amount)) as i64
            } else {
                regs.ac(d) >> (64 - amount)
            };
            regs.set_ac(d, ac);
        }
    } else {
        let amount = (shift_val & 63) as u64;
        let ac = (((regs.ac(d) as u64) & 0xFF_FFFF_FFFFu64) << amount) as i64;
        regs.set_ac(d, ac);
    }
    let ac = regs.ac(d);
    regs.update_flags_ac(ac);
    regs.set_sr(SR_OVERFLOW, false);
    regs.set_sr(SR_CARRY, false);
}

#[derive(PartialEq, Eq, Structural, Clone, Copy, Debug)]
pub enum ShiftOp {
    Lsl,
    Asl,
    Lsr,
    Asr,
    Lsl16,
    Lsr16,
    Asr16,
    Lsrn,
    Asrn,
    Lsrnrx,
    Asrnrx,
    Lsrnr,
    Asrnr,
}

pub open spec fn shifts_spec(r: Registers, op: ShiftOp, instr: DspInstruction) -> Registers {
    let d = instr.r_7_7();
    let a = r.ac_spec(d);
    let i = instr.n() as u64;
    let e = instr.d_7_7();
    let sx = r.axh[instr.s_6_6() as int] as i16;
    let sr = r.ac_mid_spec((1 - e) as u8) as i16;
    match op {
        ShiftOp::Lsl | ShiftOp::Asl => shift_store_spec(r, d, (u40_of(a) << i) as i64 as int),
        ShiftOp::Lsr => if i != 0 {
            shift_store_spec(r, d, (u40_of(a) >> ((64 - i) as u64)) as i64 as int)
        } else {
            test_ac_spec(r, d)
        },
        ShiftOp::Asr => if i != 0 {
            shift_store_spec(r, d, ((a as i64) >> ((64 - i) as u64)) as int)
        } else {
            test_ac_spec(r, d)
        },
        ShiftOp::Lsl16 => shift_store_spec(r, d, (u40_of(a) << 16u64) as i64 as int),
        ShiftOp::Lsr16 => shift_store_spec(r, d, (u40_of(a) >> 16u64) as i64 as int),
        ShiftOp::Asr16 => {
            let f = instr.r_4_4();
            shift_store_spec(r, f, ((r.ac_spec(f) as i64) >> 16u64) as int)
        },
        ShiftOp::Lsrn => dynamic_shift_spec(r, 0, r.ac1_mid as i16, true),
        ShiftOp::Asrn => dynamic_shift_spec(r, 0, r.ac1_mid as i16, false),
        ShiftOp::Lsrnrx => dynamic_shift_spec(r, e, sx, true),
        ShiftOp::Asrnrx => dynamic_shift_spec(r, e, sx, false),
        ShiftOp::Lsrnr => dynamic_shift_spec(r, e, sr, true),
        ShiftOp::Asrnr => dynamic_shift_spec(r, e, sr, false),
    }
}

#[inline(always)]
pub fn shifts(dsp: &mut Dsp, op: ShiftOp, instr: DspInstruction)
    requires
        old(dsp).wf(),
    ensures
        final(dsp).wf(),
        *final(dsp) == old(dsp).with_registers(shifts_spec(old(dsp).registers, op, instr)),
{
    let regs = &mut dsp.registers;
    let r = instr.r_7_7();
    let i = instr.n() as u64;
    let e = instr.d_7_7();
    match op {
        ShiftOp::Lsl | ShiftOp::Asl => {
            let ac = (((regs.ac(r) as u64) & 0xFF_FFFF_FFFFu64) << i) as i64;
            store_and_test(regs, r, ac);
        },
        ShiftOp::Lsr => {
            if i != 0 {
                let ac = ((regs.ac(r) as u64) & 0xFF_FFFF_FFFFu64) >> (64 - i);
                regs.set_ac(r, ac as i64);
            }
            let ac = regs.ac(r);
            regs.update_flags_ac(ac);
            regs.set_sr(SR_OVERFLOW, false);
            regs.set_sr(SR_CARRY, false);
        },
        ShiftOp::Asr => {
            if i != 0 {
                let ac = regs.ac(r) >> (64 - i);
                regs.set_ac(r, ac);
            }
            let ac = regs.ac(r);
            regs.update_flags_ac(ac);
            regs.set_sr(SR_OVERFLOW, false);
            regs.set_sr(SR_CARRY, false);
        },
        ShiftOp::Lsl16 => {
            let ac = (((regs.ac(r) as u64) & 0xFF_FFFF_FFFFu64) << 16u64) as i64;
            store_and_test(regs, r, ac);
        },
        ShiftOp::Lsr16 => {
            let ac = ((regs.ac(r) as u64) & 0xFF_FFFF_FFFFu64) >> 16u64;
            store_and_test(regs, r, ac as i64);
        },
        ShiftOp::Asr16 => {
            let f = instr.r_4_4();
            let ac = regs.ac(f) >> 16u64;
            store_and_test(regs, f, ac);
        },
        ShiftOp::Lsrn => {
            let sv = regs.ac1_mid as i16;
            dynamic_shift::<true>(regs, 0, sv);
        },
        ShiftOp::Asrn => {
            let sv = regs.ac1_mid as i16;
            dynamic_shift::<false>(regs, 0, sv);
        },
        ShiftOp::Lsrnrx => {
            let sv = regs.axh[instr.s_6_6() as usize] as i16;
            dynamic_shift::<true>(regs, e, sv);
        },
        ShiftOp::Asrnrx => {
            let sv = regs.axh[instr.s_6_6() as usize] as i16;
            dynamic_shift::<false>(regs, e, sv);
        },
        ShiftOp::Lsrnr => {
            let sv = regs.ac_mid(1 - e) as i16;
            dynamic_shift::<true>(regs, e, sv);
        },
        ShiftOp::Asrnr => {
            let sv = regs.ac_mid(1 - e) as i16;
            dynamic_shift::<false>(regs, e, sv);
        },
    }
}

} // verus!
