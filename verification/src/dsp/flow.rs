use crate::bits::with_bit16;
use crate::dsp::condition::{branch_control_of, BranchControl};
use crate::dsp::instr::DspInstruction;
use crate::dsp::machine::{Dsp, CSR_HALT};
use crate::dsp::regs::Registers;
use crate::dsp::status::StatusRegister;
use vstd::prelude::*;

verus! {

#[derive(PartialEq, Eq, Structural, Clone, Copy, Debug)]
pub enum ControlOp {
    Jcc,
    Nop,
    Halt,
    Ifcc,
    Callcc,
    Retcc,
    Rticc,
    Jrcc,
    Callrcc,
}

/// Whether the instruction's condition field holds.
pub open spec fn cond_holds(r: Registers, instr: DspInstruction) -> bool {
    branch_control_of(instr.cond()).holds(r.status)
}

/// Stack room needed by a taken control transfer.
pub open spec fn control_ok(d: Dsp, op: ControlOp, instr: DspInstruction) -> bool {
    let r = d.registers;
    cond_holds(r, instr) ==> match op {
        ControlOp::Callcc | ControlOp::Callrcc => r.call_stack.depth() + 1 < 8,
        ControlOp::Retcc => r.call_stack.depth() > 0,
        ControlOp::Rticc => r.call_stack.depth() > 0 && r.data_stack.depth() > 0,
        _ => true,
    }
}

pub open spec fn control_spec(d: Dsp, op: ControlOp, instr: DspInstruction) -> Dsp {
    let r = d.registers;
    let taken = cond_holds(r, instr);
    match op {
        ControlOp::Jcc => if taken {
            d.with_registers(Registers { nia: instr.addr(), ..r })
        } else {
            d
        },
        ControlOp::Nop => d,
        ControlOp::Halt => Dsp { csr: with_bit16(d.csr, CSR_HALT, true), ..d },
        ControlOp::Ifcc => if !taken {
            d.with_registers(Registers { nia: r.nia.wrapping_add(1), ..r })
        } else {
            d
        },
        ControlOp::Callcc => if taken {
            d.with_registers(Registers { call_stack: r.call_stack.push_spec(r.nia), nia: instr.addr(), ..r })
        } else {
            d
        },
        ControlOp::Retcc => if taken {
            d.with_registers(
                Registers { nia: r.call_stack.top_spec(), call_stack: r.call_stack.pop_spec(), ..r },
            )
        } else {
            d
        },
        ControlOp::Rticc => if taken {
            d.with_registers(
                Registers {
                    status: StatusRegister { raw: r.data_stack.top_spec() },
                    data_stack: r.data_stack.pop_spec(),
                    nia: r.call_stack.top_spec(),
                    call_stack: r.call_stack.pop_spec(),
                    ..r
                },
            )
        } else {
            d
        },
        ControlOp::Jrcc => if taken {
            d.with_registers(Registers { nia: r.read_spec(true, instr.reg_8_10()), ..r })
        } else {
            d
        },
        ControlOp::Callrcc => if taken {
            let r1 = Registers { call_stack: r.call_stack.push_spec(r.nia), ..r };
            d.with_registers(Registers { nia: r1.read_spec(true, instr.reg_8_10()), ..r1 })
        } else {
            d
        },
    }
}

#[inline(always)]
pub fn control(dsp: &mut Dsp, op: ControlOp, instr: DspInstruction)
    requires
        old(dsp).wf(),
        control_ok(*old(dsp), op, instr),
    ensures
        final(dsp).wf(),
        *final(dsp) == control_spec(*old(dsp), op, instr),
{
    proof {
        let r = dsp.registers;
        if r.call_stack.depth() + 1 < 8 {
            r.call_stack.lemma_push_pop(r.nia);
        }
        if r.call_stack.depth() > 0 {
            r.call_stack.lemma_pop();
        }
        if r.data_stack.depth() > 0 {
            r.data_stack.lemma_pop();
        }
    }
    match op {
        ControlOp::Jcc => {
            let branch_control = BranchControl::from(instr.cond());
            if branch_control.evaluate(dsp) {
                dsp.registers.nia = instr.addr();
            }
        },
        ControlOp::Nop => {},
        ControlOp::Halt => {
            dsp.csr = crate::bits::set_bit16(dsp.csr, CSR_HALT, true);
        },
        ControlOp::Ifcc => {
            let branch_control = BranchControl::from(instr.cond());
            if !branch_control.evaluate(dsp) {
                dsp.registers.nia = dsp.registers.nia.wrapping_add(1);
            }
        },
        ControlOp::Callcc => {
            let branch_control = BranchControl::from(instr.cond());
            if branch_control.evaluate(dsp) {
                let nia = dsp.registers.nia;
                dsp.registers.call_stack.push(nia);
                dsp.registers.nia = instr.addr();
            }
        },
        ControlOp::Retcc => {
            let branch_control = BranchControl::from(instr.cond());
            if branch_control.evaluate(dsp) {
                dsp.registers.nia = dsp.registers.call_stack.pop();
            }
        },
        ControlOp::Rticc => {
            let branch_control = BranchControl::from(instr.cond());
            if branch_control.evaluate(dsp) {
                let sr = dsp.registers.data_stack.pop();
                dsp.registers.status = StatusRegister::from_raw(sr);
                dsp.registers.nia = dsp.registers.call_stack.pop();
            }
        },
        ControlOp::Jrcc => {
            let branch_control = BranchControl::from(instr.cond());
            if branch_control.evaluate(dsp) {
                dsp.registers.nia = dsp.registers.read::<true>(instr.reg_8_10());
            }
        },
        ControlOp::Callrcc => {
            let branch_control = BranchControl::from(instr.cond());
            if branch_control.evaluate(dsp) {
                let nia = dsp.registers.nia;
                dsp.registers.call_stack.push(nia);
                dsp.registers.nia = dsp.registers.read::<true>(instr.reg_8_10());
            }
        },
    }
}

#[derive(PartialEq, Eq, Structural, Clone, Copy, Debug)]
pub enum LoopOp {
    LoopReg,
    Loopi,
    Bloop,
    Bloopi,
}

/// Iteration count of a loop instruction.
pub open spec fn loop_counter_spec(r: Registers, op: LoopOp, instr: DspInstruction) -> u16 {
    match op {
        LoopOp::LoopReg | LoopOp::Bloop => r.read_spec(true, instr.reg_11_15()),
        _ => instr.imm_8_15_u8() as u16,
    }
}

/// Address of the last instruction of the loop body.
pub open spec fn loop_end_spec(r: Registers, op: LoopOp, instr: DspInstruction) -> u16 {
    match op {
        LoopOp::LoopReg | LoopOp::Loopi => r.nia,
        _ => instr.addr(),
    }
}

/// Stack room needed to start a loop.
pub open spec fn loops_ok(d: Dsp, op: LoopOp, instr: DspInstruction) -> bool {
    let r = d.registers;
    loop_counter_spec(r, op, instr) != 0 ==> {
        &&& r.call_stack.depth() + 1 < 8
        &&& r.loop_addr.depth() + 1 < 4
        &&& r.loop_counter.depth() + 1 < 4
    }
}

/// A non-zero count pushes the return address, the loop end + 1 and the
/// count; a zero count skips the body.
pub open spec fn loops_spec(r: Registers, op: LoopOp, instr: DspInstruction) -> Registers {
    let counter = loop_counter_spec(r, op, instr);
    let end_addr = loop_end_spec(r, op, instr);
    if counter != 0 {
        Registers {
            call_stack: r.call_stack.push_spec(r.nia),
            loop_addr: r.loop_addr.push_spec(end_addr.wrapping_add(1)),
            loop_counter: r.loop_counter.push_spec(counter),
            ..r
        }
    } else {
        Registers { nia: end_addr.wrapping_add(1), ..r }
    }
}

#[inline(always)]
pub fn loops(dsp: &mut Dsp, op: LoopOp, instr: DspInstruction)
    requires
        old(dsp).wf(),
        loops_ok(*old(dsp), op, instr),
    ensures
        final(dsp).wf(),
        *final(dsp) == old(dsp).with_registers(loops_spec(old(dsp).registers, op, instr)),
{
    let counter = match op {
        LoopOp::LoopReg | LoopOp::Bloop => dsp.registers.read::<true>(instr.reg_11_15()),
        _ => instr.imm_8_15_u8() as u16,
    };
    let end_addr = match op {
        LoopOp::LoopReg | LoopOp::Loopi => dsp.registers.nia,
        _ => instr.addr(),
    };
    if counter != 0 {
        let nia = dsp.registers.nia;
        dsp.registers.call_stack.push(nia);
        dsp.registers.loop_addr.push(end_addr.wrapping_add(1));
        dsp.registers.loop_counter.push(counter);
    } else {
        dsp.registers.nia = end_addr.wrapping_add(1);
    }
}

} // verus!
