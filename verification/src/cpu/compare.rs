use crate::bits::{bit32, get_bit32};
use crate::cpu::instr::Instruction;
use crate::cpu::state::{cr_field, field_of, lemma_low_nibble_small, lemma_with_nibble, with_nibble, Cpu, XER_SO_BIT};
use vstd::prelude::*;

verus! {

/// Integer compare instructions.
#[derive(Clone, Copy, Debug, PartialEq, Eq, Structural)]
pub enum CompareOp {
    Cmp,
    Cmpi,
    Cmpl,
    Cmpli,
}

/// The two operands, as mathematical integers (signed or unsigned by the
/// instruction).
pub open spec fn compare_operands(cpu: Cpu, op: CompareOp, instr: Instruction) -> (int, int) {
    let a = cpu.gpr[instr.spec_ra() as int];
    match op {
        CompareOp::Cmp => ((a as i32) as int, (cpu.gpr[instr.spec_rb() as int] as i32) as int),
        CompareOp::Cmpi => ((a as i32) as int, instr.spec_simm() as int),
        CompareOp::Cmpl => (a as int, cpu.gpr[instr.spec_rb() as int] as int),
        CompareOp::Cmpli => (a as int, instr.spec_uimm() as int),
    }
}

/// State after a compare instruction.
pub open spec fn compare_cpu(cpu: Cpu, op: CompareOp, instr: Instruction) -> Cpu {
    let (a, b) = compare_operands(cpu, op, instr);
    Cpu {
        cr: with_nibble(
            cpu.cr,
            7 - instr.spec_crfd(),
            field_of(a < b, a > b, a == b, bit32(cpu.xer, XER_SO_BIT)),
        ),
        ..cpu
    }
}

/// Compares `rA` with `rB` or an immediate and sets CR field `crfD` to
/// less-than, greater-than, equal, and XER's summary overflow. Cycle
/// accounting is the caller's.
pub fn compare(cpu: &mut Cpu, op: CompareOp, instr: Instruction)
    ensures
        *final(cpu) == compare_cpu(*old(cpu), op, instr),
        ({
            let (a, b) = compare_operands(*old(cpu), op, instr);
            *final(cpu) == Cpu {
                cr: with_nibble(
                    old(cpu).cr,
                    7 - instr.spec_crfd(),
                    field_of(a < b, a > b, a == b, bit32(old(cpu).xer, XER_SO_BIT)),
                ),
                ..*old(cpu)
            }
        }),
{
    let (lt, gt, eq) = match op {
        CompareOp::Cmp => {
            let a = cpu.read_gpr(instr.ra()) as i32;
            let b = cpu.read_gpr(instr.rb()) as i32;
            (a < b, a > b, a == b)
        },
        CompareOp::Cmpi => {
            let a = cpu.read_gpr(instr.ra()) as i32;
            let b = instr.simm();
            (a < b, a > b, a == b)
        },
        CompareOp::Cmpl => {
            let a = cpu.read_gpr(instr.ra());
            let b = cpu.read_gpr(instr.rb());
            (a < b, a > b, a == b)
        },
        CompareOp::Cmpli => {
            let a = cpu.read_gpr(instr.ra());
            let b = instr.uimm() as u32;
            (a < b, a > b, a == b)
        },
    };
    let so = get_bit32(cpu.xer, XER_SO_BIT);
    let field = (if lt { 8u32 } else { 0 }) + (if gt { 4u32 } else { 0 }) + (if eq { 2u32 } else { 0 }) + (
    if so {
        1u32
    } else {
        0
    });
    cpu.set_cr_field(instr.crfd(), field);
}


/// A compare sets CR field `crfD` to 8 when the first value is less, 4
/// when it is greater, 2 when they are equal, plus 1 when XER[SO] is set;
/// every other CR field, and every register but CR, is kept. `cmpl` and
/// `cmpli` compare `rA` with `rB` or the immediate as unsigned 32-bit
/// numbers, `cmp` and `cmpi` as signed ones.
pub proof fn lemma_compare_sets_field(cpu: Cpu, op: CompareOp, instr: Instruction)
    ensures
        ({
            let c2 = compare_cpu(cpu, op, instr);
            let f = instr.spec_crfd() as int;
            let ra: u32 = cpu.gpr[instr.spec_ra() as int];
            let rb: u32 = cpu.gpr[instr.spec_rb() as int];
            let (a, b): (int, int) = match op {
                CompareOp::Cmpl => (ra as int, rb as int),
                CompareOp::Cmpli => (ra as int, instr.spec_uimm() as int),
                CompareOp::Cmp => ((ra as i32) as int, (rb as i32) as int),
                CompareOp::Cmpi => ((ra as i32) as int, instr.spec_simm() as int),
            };
            &&& cr_field(c2.cr, f) as int == (if a < b { 8int } else { 0int }) + (if a > b { 4int } else { 0int })
                + (if a == b { 2int } else { 0int }) + (if bit32(cpu.xer, XER_SO_BIT) { 1int } else { 0int })
            &&& forall|g: int| 0 <= g < 8 && g != f ==> #[trigger] cr_field(c2.cr, g) == cr_field(cpu.cr, g)
            &&& c2 == (Cpu { cr: c2.cr, ..cpu })
        }),
{
    let f = instr.spec_crfd();
    crate::dsp::instr::lemma_and_le_u32(instr.0 >> 23u32, 0x7);
    let (a, b) = compare_operands(cpu, op, instr);
    let v = field_of(a < b, a > b, a == b, bit32(cpu.xer, XER_SO_BIT));
    lemma_low_nibble_small(v);
    lemma_with_nibble(cpu.cr, (7 - f) as u32, v, (7 - f) as u32);
    assert forall|g: int| 0 <= g < 8 && g != f as int implies #[trigger] cr_field(compare_cpu(cpu, op, instr).cr, g)
        == cr_field(cpu.cr, g) by {
        lemma_with_nibble(cpu.cr, (7 - f) as u32, v, (7 - g) as u32);
    }
}

} // verus!
