use crate::dsp::instr::{DspInstruction, GcDspExt};
use crate::dsp::machine::Dsp;
use crate::dsp::regs::{Registers, AC0H, AC0L, AC0M, AC1H, AC1M, AX0H, AX0L, AX1H, AX1L};
use vstd::prelude::*;

verus! {

/// Register file and data memory after an instruction.
pub type DspMemState = (Registers, Seq<u16>);

/// How an address register moves after an access: unchanged, decremented,
/// incremented, or advanced by its index register.
#[derive(PartialEq, Eq, Structural, Clone, Copy, Debug)]
pub enum ArStep {
    Keep,
    Dec,
    Inc,
    AddIx,
}

pub open spec fn ar_step_spec(r: Registers, s: int, step: ArStep) -> Registers {
    match step {
        ArStep::Keep => r,
        ArStep::Dec => r.with_ar(s, r.ar[s].wrapping_sub(1)),
        ArStep::Inc => r.with_ar(s, r.ar[s].wrapping_add(1)),
        ArStep::AddIx => r.with_ar(s, r.ar[s].wrapping_add(r.ix[s])),
    }
}

pub fn step_ar(regs: &mut Registers, s: usize, step: ArStep)
    requires
        s < 4,
    ensures
        *final(regs) == ar_step_spec(*old(regs), s as int, step),
{
    match step {
        ArStep::Keep => {},
        ArStep::Dec => {
            let v = regs.ar[s].wrapping_sub(1);
            regs.set_ar(s, v);
        },
        ArStep::Inc => {
            let v = regs.ar[s].wrapping_add(1);
            regs.set_ar(s, v);
        },
        ArStep::AddIx => {
            let v = regs.ar[s].wrapping_add(regs.ix[s]);
            regs.set_ar(s, v);
        },
    }
}

#[derive(PartialEq, Eq, Structural, Clone, Copy, Debug)]
pub enum LoadStoreOp {
    Lri,
    Lr,
    Sr,
    Mrr,
    Si,
    Lrr,
    Lrrd,
    Lrri,
    Lrrn,
    Srr,
    Srrd,
    Srri,
    Srrn,
    Lrs,
    Srsh,
    Srs,
    Ilrr,
    Ilrrd,
    Ilrri,
    Ilrrn,
}

/// Address-register movement of the indirect load/store forms.
pub open spec fn load_store_step(op: LoadStoreOp) -> ArStep {
    match op {
        LoadStoreOp::Lrrd | LoadStoreOp::Srrd | LoadStoreOp::Ilrrd => ArStep::Dec,
        LoadStoreOp::Lrri | LoadStoreOp::Srri | LoadStoreOp::Ilrri => ArStep::Inc,
        LoadStoreOp::Lrrn | LoadStoreOp::Srrn | LoadStoreOp::Ilrrn => ArStep::AddIx,
        _ => ArStep::Keep,
    }
}

/// Data-memory address formed from `$cr` (high byte) and an 8-bit offset.
pub open spec fn short_addr(r: Registers, instr: DspInstruction) -> u16 {
    (r.config << 8u16) | instr.mem_8_15_u16()
}

pub open spec fn load_store_spec(d: Dsp, op: LoadStoreOp, instr: DspInstruction) -> DspMemState {
    let r = d.registers;
    let m = d.dmem@;
    let imm = instr.imm_16_31();
    let reg = instr.d_11_15();
    let s = instr.s_9_10() as int;
    match op {
        LoadStoreOp::Lri => (r.write_spec(true, reg, imm), m),
        LoadStoreOp::Lr => (r.write_spec(true, reg, m[imm as int]), m),
        LoadStoreOp::Sr => (r, m.update(imm as int, r.read_spec(true, reg))),
        LoadStoreOp::Mrr => (r.write_spec(true, instr.dst(), r.read_spec(true, instr.src())), m),
        LoadStoreOp::Si => (r, m.update((0xFF00u16 | instr.mem_8_15_u16()) as int, imm)),
        LoadStoreOp::Lrr | LoadStoreOp::Lrrd | LoadStoreOp::Lrri | LoadStoreOp::Lrrn => (
            ar_step_spec(r.write_spec(true, reg, m[r.ar[s] as int]), s, load_store_step(op)),
            m,
        ),
        LoadStoreOp::Srr | LoadStoreOp::Srrd | LoadStoreOp::Srri | LoadStoreOp::Srrn => (
            ar_step_spec(r, s, load_store_step(op)),
            m.update(r.ar[s] as int, r.read_spec(true, reg)),
        ),
        LoadStoreOp::Lrs => (
            r.write_spec(true, (AX0L + instr.reg_5_7()) as u8, m[short_addr(r, instr) as int]),
            m,
        ),
        LoadStoreOp::Srsh => {
            let src = if instr.s_7_7() != 0 {
                AC1H
            } else {
                AC0H
            };
            (r, m.update(short_addr(r, instr) as int, r.read_spec(true, src)))
        },
        LoadStoreOp::Srs => (
            r,
            m.update(short_addr(r, instr) as int, r.read_spec(true, (AC0L + instr.reg_6_7()) as u8)),
        ),
        LoadStoreOp::Ilrr | LoadStoreOp::Ilrrd | LoadStoreOp::Ilrri | LoadStoreOp::Ilrrn => {
            let src = instr.s_14_15() as int;
            let dst = if instr.d_7_7() != 0 {
                AC1M
            } else {
                AC0M
            };
            (
                ar_step_spec(r.write_spec(true, dst, d.imem@[r.ar[src] as int]), src, load_store_step(op)),
                m,
            )
        },
    }
}

pub open spec fn mem_effect(d: Dsp, e: Dsp, post: DspMemState) -> bool {
    &&& e.wf()
    &&& e.registers == post.0
    &&& e.dmem@ == post.1
    &&& e.imem == d.imem
    &&& e.csr == d.csr
}

fn step_of(op: LoadStoreOp) -> (r: ArStep)
    ensures
        r == load_store_step(op),
{
    match op {
        LoadStoreOp::Lrrd | LoadStoreOp::Srrd | LoadStoreOp::Ilrrd => ArStep::Dec,
        LoadStoreOp::Lrri | LoadStoreOp::Srri | LoadStoreOp::Ilrri => ArStep::Inc,
        LoadStoreOp::Lrrn | LoadStoreOp::Srrn | LoadStoreOp::Ilrrn => ArStep::AddIx,
        _ => ArStep::Keep,
    }
}

#[inline(always)]
pub fn load_store(dsp: &mut Dsp, op: LoadStoreOp, instr: DspInstruction)
    requires
        old(dsp).wf(),
    ensures
        mem_effect(*old(dsp), *final(dsp), load_store_spec(*old(dsp), op, instr)),
{
    let reg = instr.d_11_15();
    match op {
        LoadStoreOp::Lri => {
            dsp.registers.write::<true>(reg, instr.imm_16_31());
        },
        LoadStoreOp::Lr => {
            let value = dsp.read_dmem(instr.imm_16_31());
            dsp.registers.write::<true>(reg, value);
        },
        LoadStoreOp::Sr => {
            let value = dsp.registers.read::<true>(reg);
            dsp.write_dmem(instr.imm_16_31(), value);
        },
        LoadStoreOp::Mrr => {
            let value = dsp.registers.read::<true>(instr.src());
            dsp.registers.write::<true>(instr.dst(), value);
        },
        LoadStoreOp::Si => {
            let addr = 0xFF00u16 | instr.mem_8_15_u16();
            dsp.write_dmem(addr, instr.imm_16_31());
        },
        LoadStoreOp::Lrr | LoadStoreOp::Lrrd | LoadStoreOp::Lrri | LoadStoreOp::Lrrn => {
            let s = instr.s_9_10() as usize;
            let value = dsp.read_dmem(dsp.registers.ar[s]);
            dsp.registers.write::<true>(reg, value);
            step_ar(&mut dsp.registers, s, step_of(op));
        },
        LoadStoreOp::Srr | LoadStoreOp::Srrd | LoadStoreOp::Srri | LoadStoreOp::Srrn => {
            let d = instr.s_9_10() as usize;
            let value = dsp.registers.read::<true>(reg);
            dsp.write_dmem(dsp.registers.ar[d], value);
            step_ar(&mut dsp.registers, d, step_of(op));
        },
        LoadStoreOp::Lrs => {
            let dst = AX0L + instr.reg_5_7();
            let addr = (dsp.registers.config << 8u16) | instr.mem_8_15_u16();
            let value = dsp.read_dmem(addr);
            dsp.registers.write::<true>(dst, value);
        },
        LoadStoreOp::Srsh | LoadStoreOp::Srs => {
            let addr = (dsp.registers.config << 8u16) | instr.mem_8_15_u16();
            let src = match op {
                LoadStoreOp::Srsh => {
                    if instr.s_7_7() != 0 {
                        AC1H
                    } else {
                        AC0H
                    }
                },
                _ => AC0L + instr.reg_6_7(),
            };
            let value = dsp.registers.read::<true>(src);
            dsp.write_dmem(addr, value);
        },
        LoadStoreOp::Ilrr | LoadStoreOp::Ilrrd | LoadStoreOp::Ilrri | LoadStoreOp::Ilrrn => {
            let src = instr.s_14_15() as usize;
            let dst = if instr.d_7_7() != 0 {
                AC1M
            } else {
                AC0M
            };
            let value = dsp.read_imem(dsp.registers.ar[src]);
            dsp.registers.write::<true>(dst, value);
            step_ar(&mut dsp.registers, src, step_of(op));
        },
    }
}

// ---------------------------------------------------------------------------
// Extension opcodes (the low byte of many arithmetic instructions).

/// The extension that does nothing.
#[inline(always)]
pub fn ext_nop(dsp: &mut Dsp, instr: GcDspExt)
    ensures
        *final(dsp) == *old(dsp),
{
}

#[derive(PartialEq, Eq, Structural, Clone, Copy, Debug)]
pub enum ExtAddrOp {
    Dr,
    Ir,
    Nr,
}

pub open spec fn ext_addr_step(op: ExtAddrOp) -> ArStep {
    match op {
        ExtAddrOp::Dr => ArStep::Dec,
        ExtAddrOp::Ir => ArStep::Inc,
        ExtAddrOp::Nr => ArStep::AddIx,
    }
}

#[inline(always)]
pub fn ext_addr(dsp: &mut Dsp, op: ExtAddrOp, instr: GcDspExt)
    requires
        old(dsp).wf(),
    ensures
        final(dsp).wf(),
        *final(dsp) == old(dsp).with_registers(
            ar_step_spec(old(dsp).registers, instr.r_6_7() as int, ext_addr_step(op)),
        ),
{
    let r = instr.r_6_7() as usize;
    let step = match op {
        ExtAddrOp::Dr => ArStep::Dec,
        ExtAddrOp::Ir => ArStep::Inc,
        ExtAddrOp::Nr => ArStep::AddIx,
    };
    step_ar(&mut dsp.registers, r, step);
}

pub open spec fn ext_mv_spec(r: Registers, instr: GcDspExt) -> Registers {
    r.write_spec(
        true,
        (AX0L + instr.d_4_5()) as u8,
        r.read_spec(true, (AX0L + instr.s_6_7()) as u8),
    )
}

#[inline(always)]
pub fn ext_mv(dsp: &mut Dsp, instr: GcDspExt)
    requires
        old(dsp).wf(),
    ensures
        final(dsp).wf(),
        *final(dsp) == old(dsp).with_registers(ext_mv_spec(old(dsp).registers, instr)),
{
    let d = instr.d_4_5();
    let s = instr.s_6_7();
    let value = dsp.registers.read::<true>(AX0L + s);
    dsp.registers.write::<true>(AX0L + d, value);
}

#[derive(PartialEq, Eq, Structural, Clone, Copy, Debug)]
pub enum ExtStoreOp {
    S,
    Sn,
}

pub open spec fn ext_store_spec(d: Dsp, op: ExtStoreOp, instr: GcDspExt) -> DspMemState {
    let r = d.registers;
    let s = instr.s_3_4() as int;
    let value = r.read_spec(true, (AC0M + instr.d_6_7()) as u8);
    (
        ar_step_spec(
            r,
            s,
            if op == ExtStoreOp::Sn {
                ArStep::AddIx
            } else {
                ArStep::Keep
            },
        ),
        d.dmem@.update(r.ar[s] as int, value),
    )
}

#[inline(always)]
pub fn ext_store(dsp: &mut Dsp, op: ExtStoreOp, instr: GcDspExt)
    requires
        old(dsp).wf(),
        instr.d_6_7() < 2,
    ensures
        mem_effect(*old(dsp), *final(dsp), ext_store_spec(*old(dsp), op, instr)),
{
    let s = instr.s_3_4() as usize;
    let d = instr.d_6_7();
    let value = dsp.registers.read::<true>(AC0M + d);
    dsp.write_dmem(dsp.registers.ar[s], value);
    match op {
        ExtStoreOp::S => {},
        ExtStoreOp::Sn => step_ar(&mut dsp.registers, s, ArStep::AddIx),
    }
}

#[derive(PartialEq, Eq, Structural, Clone, Copy, Debug)]
pub enum ExtLoadOp {
    L,
    Ln,
}

pub open spec fn ext_load_spec(d: Dsp, op: ExtLoadOp, instr: GcDspExt) -> Registers {
    let r = d.registers;
    let s = instr.s_6_7() as int;
    ar_step_spec(
        r.write_spec(true, (AX0L + instr.d_2_4()) as u8, d.dmem@[r.ar[s] as int]),
        s,
        if op == ExtLoadOp::Ln {
            ArStep::AddIx
        } else {
            ArStep::Keep
        },
    )
}

#[inline(always)]
pub fn ext_load(dsp: &mut Dsp, op: ExtLoadOp, instr: GcDspExt)
    requires
        old(dsp).wf(),
    ensures
        final(dsp).wf(),
        *final(dsp) == old(dsp).with_registers(ext_load_spec(*old(dsp), op, instr)),
{
    let d = instr.d_2_4();
    let s = instr.s_6_7() as usize;
    let value = dsp.read_dmem(dsp.registers.ar[s]);
    dsp.registers.write::<true>(AX0L + d, value);
    match op {
        ExtLoadOp::L => {},
        ExtLoadOp::Ln => step_ar(&mut dsp.registers, s, ArStep::AddIx),
    }
}

/// Movement of `$ar{d}` and `$ar3` for the dual-access extensions: the
/// first register steps by its index register or decrements, the second
/// likewise.
#[derive(PartialEq, Eq, Structural, Clone, Copy, Debug)]
pub enum DualStep {
    NextNext,
    NextDec,
    DecNext,
    DecDec,
}

pub open spec fn dual_step_spec(r: Registers, first: int, step: DualStep) -> Registers {
    let (a, b) = match step {
        DualStep::NextNext => (ArStep::AddIx, ArStep::AddIx),
        DualStep::NextDec => (ArStep::AddIx, ArStep::Dec),
        DualStep::DecNext => (ArStep::Dec, ArStep::AddIx),
        DualStep::DecDec => (ArStep::Dec, ArStep::Dec),
    };
    ar_step_spec(ar_step_spec(r, first, a), 3, b)
}

fn dual_step(regs: &mut Registers, first: usize, step: DualStep)
    requires
        first < 4,
    ensures
        *final(regs) == dual_step_spec(*old(regs), first as int, step),
{
    let (a, b) = match step {
        DualStep::NextNext => (ArStep::AddIx, ArStep::AddIx),
        DualStep::NextDec => (ArStep::AddIx, ArStep::Dec),
        DualStep::DecNext => (ArStep::Dec, ArStep::AddIx),
        DualStep::DecDec => (ArStep::Dec, ArStep::Dec),
    };
    step_ar(regs, first, a);
    step_ar(regs, 3, b);
}

/// `LS`, `LSM`, `LSN`, `LSNM`: store `$acS.m` at `$ar3`, then load `$ar{d}`
/// into `$(0x1a + d)`.
pub open spec fn ext_load_store_spec(d: Dsp, step: DualStep, instr: GcDspExt) -> DspMemState {
    let r = d.registers;
    let s = instr.s_7_7();
    let t = instr.d_2_3();
    let m1 = d.dmem@.update(r.ar[3] as int, r.read_spec(true, (AC0M + s) as u8));
    let r1 = r.write_spec(true, (AX0H + t) as u8, m1[r.ar[t as int] as int]);
    (dual_step_spec(r1, t as int, step), m1)
}

#[inline(always)]
pub fn ext_load_store(dsp: &mut Dsp, step: DualStep, instr: GcDspExt)
    requires
        old(dsp).wf(),
    ensures
        mem_effect(*old(dsp), *final(dsp), ext_load_store_spec(*old(dsp), step, instr)),
{
    let s = instr.s_7_7();
    let d = instr.d_2_3();
    let store_value = dsp.registers.read::<true>(AC0M + s);
    dsp.write_dmem(dsp.registers.ar[3], store_value);
    let load_value = dsp.read_dmem(dsp.registers.ar[d as usize]);
    dsp.registers.write::<true>(AX0H + d, load_value);
    dual_step(&mut dsp.registers, d as usize, step);
}

/// `LD` forms: load `$ar0` and `$ar3` into `$ax{d}.l` / the following
/// register, then step `$ar0` and `$ar3`.
pub open spec fn ext_ld_spec(d: Dsp, step: DualStep, instr: GcDspExt) -> Registers {
    let r = d.registers;
    let t = instr.d_2_2();
    let r1 = r.write_spec(true, (AX0L + t * 2) as u8, d.dmem@[r.ar[0] as int]);
    let r2 = r1.write_spec(true, (AX0L + t * 2 + 1) as u8, d.dmem@[r1.ar[3] as int]);
    dual_step_spec(r2, 0, step)
}

#[inline(always)]
pub fn ext_ld(dsp: &mut Dsp, step: DualStep, instr: GcDspExt)
    requires
        old(dsp).wf(),
    ensures
        final(dsp).wf(),
        *final(dsp) == old(dsp).with_registers(ext_ld_spec(*old(dsp), step, instr)),
{
    let d = instr.d_2_2();
    let value0 = dsp.read_dmem(dsp.registers.ar[0]);
    dsp.registers.write::<true>(AX0L + d * 2, value0);
    let value1 = dsp.read_dmem(dsp.registers.ar[3]);
    dsp.registers.write::<true>(AX0L + d * 2 + 1, value1);
    dual_step(&mut dsp.registers, 0, step);
}

/// `LDAX` forms: load `$ar0` into `$axS.l` and `$ar3` into `$axS.h`.
pub open spec fn ext_ldax_spec(d: Dsp, step: DualStep, instr: GcDspExt) -> Registers {
    let r = d.registers;
    let s = instr.s_2_2();
    let r1 = r.write_spec(
        true,
        if s != 0 {
            AX1L
        } else {
            AX0L
        },
        d.dmem@[r.ar[0] as int],
    );
    let r2 = r1.write_spec(
        true,
        if s != 0 {
            AX1H
        } else {
            AX0H
        },
        d.dmem@[r1.ar[3] as int],
    );
    dual_step_spec(r2, 0, step)
}

#[inline(always)]
pub fn ext_ldax(dsp: &mut Dsp, step: DualStep, instr: GcDspExt)
    requires
        old(dsp).wf(),
    ensures
        final(dsp).wf(),
        *final(dsp) == old(dsp).with_registers(ext_ldax_spec(*old(dsp), step, instr)),
{
    let s = instr.s_2_2();
    let value0 = dsp.read_dmem(dsp.registers.ar[0]);
    dsp.registers.write::<true>(
        if s != 0 {
            AX1L
        } else {
            AX0L
        },
        value0,
    );
    let value1 = dsp.read_dmem(dsp.registers.ar[3]);
    dsp.registers.write::<true>(
        if s != 0 {
            AX1H
        } else {
            AX0H
        },
        value1,
    );
    dual_step(&mut dsp.registers, 0, step);
}

} // verus!
