use crate::bits::{bit32, get_bit32, set_bit32, with_bit32};
use crate::cpu::instr::Instruction;
use crate::cpu::state::{
    cr_bit, cr_field, field_of, lemma_merge_nibble, nibble, with_nibble, Cpu, XER_CA_BIT,
    XER_OV_BIT, XER_SO_BIT,
};
use vstd::prelude::*;

verus! {

/// Condition-register instructions.
#[derive(Clone, Copy, Debug, PartialEq, Eq, Structural)]
pub enum CrOp {
    Mtcrf,
    Mfcr,
    Mcrf,
    Crxor,
    Cror,
    Crand,
    Creqv,
    Crnor,
    Crnand,
    Crandc,
    Crorc,
}

/// Result of a CR bit operation on bits `a` and `b`.
pub open spec fn cr_logic(op: CrOp, a: bool, b: bool) -> bool {
    match op {
        CrOp::Crxor => a != b,
        CrOp::Cror => a || b,
        CrOp::Crand => a && b,
        CrOp::Creqv => a == b,
        CrOp::Crnor => !(a || b),
        CrOp::Crnand => !(a && b),
        CrOp::Crandc => a && !b,
        _ => a || !b,
    }
}

/// `mtcrf`: field `f` (msb0) comes from `rs` where CRM bit `7 - f` (lsb0) is
/// set and keeps its old value elsewhere.
pub open spec fn mtcrf_field(cr: u32, rs: u32, crm: u8, f: int) -> u32 {
    if (crm >> (7 - f) as u8) & 1u8 == 1u8 {
        cr_field(rs, f)
    } else {
        cr_field(cr, f)
    }
}

/// Copies XER's summary overflow, overflow and carry into CR field `crfD`
/// and clears them in XER.
pub fn mcrxr(cpu: &mut Cpu, instr: Instruction)
    ensures
        ({
            let xer = old(cpu).xer;
            *final(cpu) == Cpu {
                cr: with_nibble(
                    old(cpu).cr,
                    7 - instr.spec_crfd(),
                    field_of(bit32(xer, XER_SO_BIT), bit32(xer, XER_OV_BIT), bit32(xer, XER_CA_BIT), false),
                ),
                xer: with_bit32(with_bit32(with_bit32(xer, XER_SO_BIT, false), XER_OV_BIT, false), XER_CA_BIT, false),
                ..*old(cpu)
            }
        }),
{
    let xer = cpu.xer;
    let so = get_bit32(xer, XER_SO_BIT);
    let ov = get_bit32(xer, XER_OV_BIT);
    let ca = get_bit32(xer, XER_CA_BIT);
    let field = (if so { 8u32 } else { 0 }) + (if ov { 4u32 } else { 0 }) + (if ca { 2u32 } else { 0 });
    cpu.set_cr_field(instr.crfd(), field);
    cpu.xer = set_bit32(set_bit32(set_bit32(xer, XER_SO_BIT, false), XER_OV_BIT, false), XER_CA_BIT, false);
}

/// `mtcrf` on a raw condition register.
fn move_to_cr_fields(cr: u32, rs: u32, crm: u8) -> (r: u32)
    ensures
        forall|f: int| 0 <= f < 8 ==> #[trigger] cr_field(r, f) == mtcrf_field(cr, rs, crm, f),
{
    let mut out = cr;
    let mut i: u8 = 0;
    while i < 8
        invariant
            i <= 8,
            forall|f: int|
                0 <= f < 8 ==> #[trigger] cr_field(out, f) == if f < i {
                    mtcrf_field(cr, rs, crm, f)
                } else {
                    cr_field(cr, f)
                },
        decreases 8 - i,
    {
        let ghost prev = out;
        let sh: u8 = 7 - i;
        let shift: u32 = (sh as u32) * 4;
        if crm & (1u8 << sh) != 0 {
            let mask = 0xFu32 << shift;
            out = (out & !mask) | (rs & mask);
            assert(out == (prev & !(0xFu32 << (4 * (sh as u32)))) | (rs & (0xFu32 << (4 * (sh as u32)))));
            assert forall|f: int| 0 <= f < 8 implies #[trigger] cr_field(out, f) == if f < i + 1 {
                mtcrf_field(cr, rs, crm, f)
            } else {
                cr_field(cr, f)
            } by {
                lemma_merge_nibble(prev, rs, sh as u32, (7 - f) as u32);
                assert((crm >> sh) & 1u8 == 1u8) by (bit_vector)
                    requires
                        sh < 8,
                        crm & (1u8 << sh) != 0,
                ;
                assert(cr_field(prev, f) == nibble(prev, 7 - f));
                assert(((7 - f) as u32) as int == 7 - f);
            }
        } else {
            assert((crm >> sh) & 1u8 != 1u8) by (bit_vector)
                requires
                    sh < 8,
                    crm & (1u8 << sh) == 0,
            ;
        }
        i = i + 1;
    }
    out
}

/// Executes a condition-register instruction.
pub fn cr_ops(cpu: &mut Cpu, op: CrOp, instr: Instruction)
    ensures
        op == CrOp::Mtcrf ==> {
            &&& forall|f: int|
                0 <= f < 8 ==> #[trigger] cr_field(final(cpu).cr, f) == mtcrf_field(
                    old(cpu).cr,
                    old(cpu).gpr[instr.spec_rs() as int],
                    instr.spec_crm(),
                    f,
                )
            &&& *final(cpu) == (Cpu { cr: final(cpu).cr, ..*old(cpu) })
        },
        op == CrOp::Mfcr ==> final(cpu).gpr@ == old(cpu).gpr@.update(instr.spec_rd() as int, old(cpu).cr)
            && *final(cpu) == (Cpu { gpr: final(cpu).gpr, ..*old(cpu) }),
        op == CrOp::Mcrf ==> *final(cpu) == (Cpu {
            cr: with_nibble(old(cpu).cr, 7 - instr.spec_crfd(), cr_field(old(cpu).cr, instr.spec_crfs() as int)),
            ..*old(cpu)
        }),
        op != CrOp::Mtcrf && op != CrOp::Mfcr && op != CrOp::Mcrf ==> *final(cpu) == (Cpu {
            cr: with_bit32(
                old(cpu).cr,
                (31 - instr.spec_crbd()) as u32,
                cr_logic(
                    op,
                    cr_bit(old(cpu).cr, instr.spec_crba() as int),
                    cr_bit(old(cpu).cr, instr.spec_crbb() as int),
                ),
            ),
            ..*old(cpu)
        }),
{
    match op {
        CrOp::Mtcrf => {
            let rs = cpu.read_gpr(instr.rs());
            cpu.cr = move_to_cr_fields(cpu.cr, rs, instr.crm());
        },
        CrOp::Mfcr => {
            let cr = cpu.cr;
            cpu.write_gpr(instr.rd(), cr);
        },
        CrOp::Mcrf => {
            let src = cpu.get_cr_field(instr.crfs());
            cpu.set_cr_field(instr.crfd(), src);
        },
        _ => {
            let a = cpu.get_cr_bit(instr.crba());
            let b = cpu.get_cr_bit(instr.crbb());
            let result = match op {
                CrOp::Crxor => a != b,
                CrOp::Cror => a || b,
                CrOp::Crand => a && b,
                CrOp::Creqv => a == b,
                CrOp::Crnor => !(a || b),
                CrOp::Crnand => !(a && b),
                CrOp::Crandc => a && !b,
                _ => a || !b,
            };
            cpu.set_cr_bit(instr.crbd(), result);
        },
    }
}

} // verus!
