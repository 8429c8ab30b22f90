use crate::cpu::instr::Instruction;
use crate::cpu::state::{cr_bit, Cpu};
use vstd::prelude::*;

verus! {

/// What a conditional branch tests, decoded from its BO field.
#[derive(Clone, Copy, Debug, PartialEq, Eq, Structural)]
pub enum BranchControl {
    BranchIfConditionTrue,
    BranchIfConditionFalse,
    BranchAlways,
    DecrementBranchIfNotZeroAndConditionFalse,
    DecrementBranchIfZeroAndConditionFalse,
    DecrementBranchIfNotZeroAndConditionTrue,
    DecrementBranchIfZeroAndConditionTrue,
    DecrementBranchIfNotZero,
    DecrementBranchIfZero,
}

/// Decoding of BO; its lowest bit is only a prediction hint.
pub open spec fn branch_control_of(value: u8) -> BranchControl {
    let v = value & 0b11110u8;
    if v == 0b00000 {
        BranchControl::DecrementBranchIfNotZeroAndConditionFalse
    } else if v == 0b00010 {
        BranchControl::DecrementBranchIfZeroAndConditionFalse
    } else if v == 0b00100 || v == 0b00110 {
        BranchControl::BranchIfConditionFalse
    } else if v == 0b01000 {
        BranchControl::DecrementBranchIfNotZeroAndConditionTrue
    } else if v == 0b01010 {
        BranchControl::DecrementBranchIfZeroAndConditionTrue
    } else if v == 0b01100 || v == 0b01110 {
        BranchControl::BranchIfConditionTrue
    } else if v == 0b10000 || v == 0b11000 {
        BranchControl::DecrementBranchIfNotZero
    } else if v == 0b10010 || v == 0b11010 {
        BranchControl::DecrementBranchIfZero
    } else {
        BranchControl::BranchAlways
    }
}

impl BranchControl {
    pub fn from_bo(value: u8) -> (r: Self)
        ensures
            r == branch_control_of(value),
    {
        let v = value & 0b11110;
        if v == 0b00000 {
            Self::DecrementBranchIfNotZeroAndConditionFalse
        } else if v == 0b00010 {
            Self::DecrementBranchIfZeroAndConditionFalse
        } else if v == 0b00100 || v == 0b00110 {
            Self::BranchIfConditionFalse
        } else if v == 0b01000 {
            Self::DecrementBranchIfNotZeroAndConditionTrue
        } else if v == 0b01010 {
            Self::DecrementBranchIfZeroAndConditionTrue
        } else if v == 0b01100 || v == 0b01110 {
            Self::BranchIfConditionTrue
        } else if v == 0b10000 || v == 0b11000 {
            Self::DecrementBranchIfNotZero
        } else if v == 0b10010 || v == 0b11010 {
            Self::DecrementBranchIfZero
        } else {
            Self::BranchAlways
        }
    }

    /// Whether the branch is taken, given the (already decremented) count
    /// register and the tested condition bit.
    pub open spec fn taken(&self, ctr: u32, condition: bool) -> bool {
        match self {
            Self::BranchIfConditionTrue => condition,
            Self::BranchIfConditionFalse => !condition,
            Self::BranchAlways => true,
            Self::DecrementBranchIfNotZeroAndConditionFalse => ctr != 0 && !condition,
            Self::DecrementBranchIfZeroAndConditionFalse => ctr == 0 && !condition,
            Self::DecrementBranchIfNotZeroAndConditionTrue => ctr != 0 && condition,
            Self::DecrementBranchIfZeroAndConditionTrue => ctr == 0 && condition,
            Self::DecrementBranchIfNotZero => ctr != 0,
            Self::DecrementBranchIfZero => ctr == 0,
        }
    }

    pub fn should_branch(&self, ctr: u32, condition: bool) -> (r: bool)
        ensures
            r == self.taken(ctr, condition),
    {
        match self {
            Self::BranchIfConditionTrue => condition,
            Self::BranchIfConditionFalse => !condition,
            Self::BranchAlways => true,
            Self::DecrementBranchIfNotZeroAndConditionFalse => ctr != 0 && !condition,
            Self::DecrementBranchIfZeroAndConditionFalse => ctr == 0 && !condition,
            Self::DecrementBranchIfNotZeroAndConditionTrue => ctr != 0 && condition,
            Self::DecrementBranchIfZeroAndConditionTrue => ctr == 0 && condition,
            Self::DecrementBranchIfNotZero => ctr != 0,
            Self::DecrementBranchIfZero => ctr == 0,
        }
    }

    /// The variants that count down CTR before testing it.
    pub open spec fn decrements(&self) -> bool {
        match self {
            Self::DecrementBranchIfNotZeroAndConditionFalse
            | Self::DecrementBranchIfZeroAndConditionFalse
            | Self::DecrementBranchIfNotZeroAndConditionTrue
            | Self::DecrementBranchIfZeroAndConditionTrue
            | Self::DecrementBranchIfNotZero
            | Self::DecrementBranchIfZero => true,
            _ => false,
        }
    }

    pub fn should_decrement_ctr(&self) -> (r: bool)
        ensures
            r == self.decrements(),
    {
        match self {
            Self::DecrementBranchIfNotZeroAndConditionFalse
            | Self::DecrementBranchIfZeroAndConditionFalse
            | Self::DecrementBranchIfNotZeroAndConditionTrue
            | Self::DecrementBranchIfZeroAndConditionTrue
            | Self::DecrementBranchIfNotZero
            | Self::DecrementBranchIfZero => true,
            _ => false,
        }
    }
}

/// Count register after evaluating BO: decremented (wrapping) when the
/// decoded control counts down.
pub open spec fn ctr_after(bo: u8, ctr: u32) -> u32 {
    if branch_control_of(bo).decrements() {
        ctr.wrapping_sub(1)
    } else {
        ctr
    }
}

/// Evaluates a BO/BI condition: decrements CTR where BO asks for it and
/// reports whether the branch is taken. The decision agrees with the
/// decoded [`BranchControl`].
pub fn eval_bo(cpu: &mut Cpu, bo: u8, bi: u8) -> (taken: bool)
    requires
        bi < 32,
    ensures
        *final(cpu) == (Cpu { ctr: ctr_after(bo, old(cpu).ctr), ..*old(cpu) }),
        taken == branch_control_of(bo).taken(final(cpu).ctr, cr_bit(old(cpu).cr, bi as int)),
{
    let cond = cpu.get_cr_bit(bi);
    let v = bo & 0b11110;
    if v == 0b00000 {
        let ctr = cpu.ctr.wrapping_sub(1);
        cpu.ctr = ctr;
        ctr != 0 && !cond
    } else if v == 0b00010 {
        let ctr = cpu.ctr.wrapping_sub(1);
        cpu.ctr = ctr;
        ctr == 0 && !cond
    } else if v == 0b00100 || v == 0b00110 {
        !cond
    } else if v == 0b01000 {
        let ctr = cpu.ctr.wrapping_sub(1);
        cpu.ctr = ctr;
        ctr != 0 && cond
    } else if v == 0b01010 {
        let ctr = cpu.ctr.wrapping_sub(1);
        cpu.ctr = ctr;
        ctr == 0 && cond
    } else if v == 0b01100 || v == 0b01110 {
        cond
    } else if v == 0b10000 || v == 0b11000 {
        let ctr = cpu.ctr.wrapping_sub(1);
        cpu.ctr = ctr;
        ctr != 0
    } else if v == 0b10010 || v == 0b11010 {
        let ctr = cpu.ctr.wrapping_sub(1);
        cpu.ctr = ctr;
        ctr == 0
    } else {
        true
    }
}

/// Branch instructions.
#[derive(Clone, Copy, Debug, PartialEq, Eq, Structural)]
pub enum BranchOp {
    Bx,
    Bcx,
    Bclrx,
    Bcctrx,
}

/// `bcctr`'s condition: BO bit 4 (0x10) skips the test, otherwise CR bit
/// `bi` must equal BO bit 3 (0x08). CTR is not counted down.
pub open spec fn bcctr_taken(bo: u8, cr: u32, bi: u8) -> bool {
    (bo & 0x10u8) != 0 || (cr_bit(cr, bi as int) == ((bo & 0x08u8) != 0))
}

/// Link register after a taken branch.
pub open spec fn lr_after(cpu: Cpu, instr: Instruction) -> u32 {
    if instr.spec_lk() {
        cpu.cia.wrapping_add(4)
    } else {
        cpu.lr
    }
}

/// State after a branch instruction.
pub open spec fn branch_spec(cpu: Cpu, op: BranchOp, instr: Instruction) -> Cpu {
    match op {
        BranchOp::Bx => Cpu {
            nia: if instr.spec_aa() {
                instr.spec_li() as u32
            } else {
                cpu.cia.wrapping_add_signed(instr.spec_li())
            },
            lr: lr_after(cpu, instr),
            ..cpu
        },
        BranchOp::Bcx => {
            let bo = instr.spec_bo();
            let c = Cpu { ctr: ctr_after(bo, cpu.ctr), ..cpu };
            if branch_control_of(bo).taken(c.ctr, cr_bit(cpu.cr, instr.spec_bi() as int)) {
                Cpu {
                    nia: if instr.spec_aa() {
                        instr.spec_bd() as u32
                    } else {
                        cpu.cia.wrapping_add_signed(instr.spec_bd())
                    },
                    lr: lr_after(cpu, instr),
                    ..c
                }
            } else {
                c
            }
        },
        BranchOp::Bclrx => {
            let bo = instr.spec_bo();
            let c = Cpu { ctr: ctr_after(bo, cpu.ctr), ..cpu };
            if branch_control_of(bo).taken(c.ctr, cr_bit(cpu.cr, instr.spec_bi() as int)) {
                Cpu { nia: cpu.lr & !3u32, lr: lr_after(cpu, instr), ..c }
            } else {
                c
            }
        },
        BranchOp::Bcctrx => {
            if bcctr_taken(instr.spec_bo(), cpu.cr, instr.spec_bi()) {
                Cpu { nia: cpu.ctr & !3u32, lr: lr_after(cpu, instr), ..cpu }
            } else {
                cpu
            }
        },
    }
}

/// Executes a branch instruction: sets the next instruction address when
/// taken and saves the return address when the link bit is set. Cycle
/// accounting is the caller's.
pub fn branch(cpu: &mut Cpu, op: BranchOp, instr: Instruction)
    ensures
        *final(cpu) == branch_spec(*old(cpu), op, instr),
{
    match op {
        BranchOp::Bx => {
            cpu.nia = if instr.aa() {
                instr.li() as u32
            } else {
                cpu.cia.wrapping_add_signed(instr.li())
            };
            if instr.lk() {
                cpu.lr = cpu.cia.wrapping_add(4);
            }
        },
        BranchOp::Bcx => {
            if !eval_bo(cpu, instr.bo(), instr.bi()) {
                return;
            }
            cpu.nia = if instr.aa() {
                instr.bd() as u32
            } else {
                cpu.cia.wrapping_add_signed(instr.bd())
            };
            if instr.lk() {
                cpu.lr = cpu.cia.wrapping_add(4);
            }
        },
        BranchOp::Bclrx => {
            if !eval_bo(cpu, instr.bo(), instr.bi()) {
                return;
            }
            cpu.nia = cpu.lr & !3;
            if instr.lk() {
                cpu.lr = cpu.cia.wrapping_add(4);
            }
        },
        BranchOp::Bcctrx => {
            let bo = instr.bo();
            let condition = (bo & 0x10) != 0 || (cpu.get_cr_bit(instr.bi()) == ((bo & 0x08) != 0));
            if !condition {
                return;
            }
            cpu.nia = cpu.ctr & !3;
            if instr.lk() {
                cpu.lr = cpu.cia.wrapping_add(4);
            }
        },
    }
}

} // verus!
