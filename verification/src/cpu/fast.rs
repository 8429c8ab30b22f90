use crate::bits::bit32;
use crate::console::Gekko;
use crate::cpu::branch::{branch, branch_spec, BranchOp};
use crate::cpu::compare::{compare, compare_cpu, CompareOp};
use crate::cpu::cr_ops::{cr_logic, cr_ops, mtcrf_field, CrOp};
use crate::cpu::instr::Instruction;
use crate::cpu::rotate::{rotate, rotate_cpu, RotateOp};
use crate::cpu::state::{
    cr_bit, cr_field, s32, signed_overflow, trunc32, with_nibble, xer_with_carry, xer_with_overflow, Cpu,
    XER_CA_BIT,
};
use crate::cpu::fpbits::{exec_fp_bits, fp_bits_form, fp_bits_spec, FpRegs};
use crate::cpu::sysregs::{exec_system, fp_enabled, fp_unavailable_spec, raise_fp_unavailable, system_form, system_spec, MSR_FP};
use crate::dsp::instr::lemma_and_le_u32;
use vstd::prelude::*;

verus! {

/// The carry bit of XER as a number.
pub open spec fn ca_of(cpu: Cpu) -> int {
    if bit32(cpu.xer, XER_CA_BIT) {
        1
    } else {
        0
    }
}

/// `rA + rB + carry-in` style additions: the word written, the carry out,
/// and signed overflow of the sum.
pub open spec fn add_result(a: u32, b: u32, c: int) -> u32 {
    trunc32(a + b + c)
}

pub open spec fn add_carry(a: u32, b: u32, c: int) -> bool {
    a + b + c > 0xFFFF_FFFF
}

pub open spec fn add_ov(a: u32, b: u32, c: int) -> bool {
    signed_overflow(s32(a) + s32(b) + c)
}

/// Writes `res` to `rD`, updates CA, and OV/SO when OE is set, and CR0
/// when Rc is set: the common tail of the carrying arithmetic forms.
pub open spec fn arith_tail(cpu: Cpu, instr: Instruction, res: u32, ca: Option<bool>, ov: bool) -> Cpu {
    let c1 = cpu.with_gpr(instr.spec_rd() as int, res);
    let c2 = match ca {
        Some(b) => Cpu { xer: xer_with_carry(c1.xer, b), ..c1 },
        None => c1,
    };
    let c3 = if instr.spec_oe() {
        Cpu { xer: xer_with_overflow(c2.xer, ov), ..c2 }
    } else {
        c2
    };
    if instr.spec_rc() {
        c3.with_cr0(res)
    } else {
        c3
    }
}

/// `rA` gets a logical result, with CR0 when `record` holds.
pub open spec fn logic_tail(cpu: Cpu, instr: Instruction, res: u32, record: bool) -> Cpu {
    let c = cpu.with_gpr(instr.spec_ra() as int, res);
    if record {
        c.with_cr0(res)
    } else {
        c
    }
}

/// Whether a primary opcode is a register-only immediate form handled by
/// [`exec_immediate`].
pub open spec fn is_immediate_form(op: u32) -> bool {
    op == 7 || op == 8 || op == 10 || op == 11 || op == 12 || op == 13 || op == 14 || op == 15 || op
        == 20 || op == 21 || op == 23 || (24 <= op <= 29)
}

/// State after an immediate-form instruction.
pub open spec fn immediate_spec(cpu: Cpu, word: u32) -> Cpu {
    let i = Instruction(word);
    let op = word >> 26u32;
    let a = cpu.gpr[i.spec_ra() as int];
    let s = cpu.gpr[i.spec_rs() as int];
    let simm = i.spec_simm() as int;
    let uimm = i.spec_uimm() as u32;
    if op == 7 {
        cpu.with_gpr(i.spec_rd() as int, trunc32(s32(a) * simm))
    } else if op == 8 {
        let c = cpu.with_gpr(i.spec_rd() as int, trunc32(simm - a));
        Cpu { xer: xer_with_carry(c.xer, trunc32(simm) >= a), ..c }
    } else if op == 10 {
        compare_cpu(cpu, CompareOp::Cmpli, i)
    } else if op == 11 {
        compare_cpu(cpu, CompareOp::Cmpi, i)
    } else if op == 12 || op == 13 {
        let res = add_result(a, trunc32(simm), 0);
        let c = cpu.with_gpr(i.spec_rd() as int, res);
        let c2 = Cpu { xer: xer_with_carry(c.xer, add_carry(a, trunc32(simm), 0)), ..c };
        if op == 13 {
            c2.with_cr0(res)
        } else {
            c2
        }
    } else if op == 14 {
        cpu.with_gpr(i.spec_rd() as int, trunc32(cpu.gpr_or_zero(i.spec_ra()) + simm))
    } else if op == 15 {
        cpu.with_gpr(i.spec_rd() as int, trunc32(cpu.gpr_or_zero(i.spec_ra()) + simm * 0x1_0000))
    } else if op == 20 {
        rotate_cpu(cpu, RotateOp::Rlwimi, i)
    } else if op == 21 {
        rotate_cpu(cpu, RotateOp::Rlwinm, i)
    } else if op == 23 {
        rotate_cpu(cpu, RotateOp::Rlwnm, i)
    } else if op == 24 {
        logic_tail(cpu, i, s | uimm, false)
    } else if op == 25 {
        logic_tail(cpu, i, s | (uimm << 16u32), false)
    } else if op == 26 {
        logic_tail(cpu, i, s ^ uimm, false)
    } else if op == 27 {
        logic_tail(cpu, i, s ^ (uimm << 16u32), false)
    } else if op == 28 {
        logic_tail(cpu, i, s & uimm, true)
    } else {
        logic_tail(cpu, i, s & (uimm << 16u32), true)
    }
}

/// Primary opcode of an instruction.
pub fn primary_opcode(instr: Instruction) -> (r: u8)
    ensures
        r == instr.spec_opcd(),
        r < 64,
{
    instr.opcd()
}

/// Extended opcode (bits 21..=30) of X- and XL-form instructions.
pub fn xo10(instr: Instruction) -> (r: u32)
    ensures
        r == instr.spec_xo(),
{
    instr.xo()
}

/// Five-bit field of `word` starting at `shift` (lsb0).
pub fn bits_u5(word: u32, shift: u32) -> (r: u8)
    requires
        shift < 32,
    ensures
        r == ((word >> shift) & 0x1F) as u8,
        r < 32,
{
    proof { lemma_and_le_u32(word >> shift, 0x1F); }
    ((word >> shift) & 0x1F) as u8
}

/// Low halfword of `word`.
pub fn low_u16(word: u32) -> (r: u16)
    ensures
        r == Instruction(word).spec_uimm(),
{
    Instruction(word).uimm()
}

/// Low halfword of `word`, sign-extended.
pub fn low_s16(word: u32) -> (r: i32)
    ensures
        r == Instruction(word).spec_simm(),
        -0x8000 <= r < 0x8000,
{
    Instruction(word).simm()
}

/// Conditional-branch displacement of `word`.
pub fn branch_disp_bd(word: u32) -> (r: i32)
    ensures
        r == Instruction(word).spec_bd(),
{
    Instruction(word).bd()
}

/// Unconditional-branch displacement of `word`.
pub fn branch_disp_li(word: u32) -> (r: i32)
    ensures
        r == Instruction(word).spec_li(),
{
    Instruction(word).li()
}

/// A sign-extended immediate as an unsigned word (two's complement).
fn simm_word(simm: i32) -> (r: u32)
    ensures
        r == trunc32(simm as int),
{
    if simm < 0 {
        (simm as i64 + 0x1_0000_0000) as u32
    } else {
        simm as u32
    }
}

/// Two's-complement value of a word.
fn signed_value(x: u32) -> (r: i64)
    ensures
        r == s32(x),
{
    if x < 0x8000_0000 {
        x as i64
    } else {
        x as i64 - 0x1_0000_0000
    }
}

/// Low word of the signed product of `a` and `b`.
fn mul_low(a: u32, sb: i64, b_word: u32) -> (r: u32)
    requires
        -0x8000_0000 <= sb < 0x8000_0000,
        b_word == trunc32(sb as int),
    ensures
        r == trunc32(s32(a) * sb),
{
    assert((a as int) * (b_word as int) <= 0xFFFF_FFFF * 0xFFFF_FFFF) by (nonlinear_arith)
        requires
            a <= 0xFFFF_FFFF,
            b_word <= 0xFFFF_FFFF,
    ;
    let p = (a as u64) * (b_word as u64);
    proof {
        let sa = s32(a);
        let ka: int = if a < 0x8000_0000 { 0 } else { 1 };
        let kb: int = if sb >= 0 { 0 } else { 1 };
        assert(sa == a - ka * 0x1_0000_0000);
        assert(b_word == sb + kb * 0x1_0000_0000);
        let m: int = 0x1_0000_0000;
        assert(sa * sb == (a as int) * (b_word as int) + m * (-(ka * (b_word as int)) - kb * (a as int) + ka * kb * m)) by (nonlinear_arith)
            requires
                sa == a - ka * m,
                sb == b_word - kb * m,
        ;
        vstd::arithmetic::div_mod::lemma_mod_multiples_vanish(
            -(ka * (b_word as int)) - kb * (a as int) + ka * kb * m,
            (a as int) * (b_word as int),
            m,
        );
    }
    (p % 0x1_0000_0000) as u32
}

/// Executes an immediate-form instruction; returns whether the primary
/// opcode is one of them.
#[verifier::spinoff_prover]
#[verifier::rlimit(30)]
pub fn exec_immediate(cpu: &mut Cpu, word: u32) -> (handled: bool)
    ensures
        handled == is_immediate_form(word >> 26u32),
        handled ==> *final(cpu) == immediate_spec(*old(cpu), word),
        !handled ==> *final(cpu) == *old(cpu),
{
    let instr = Instruction(word);
    let op = word >> 26;
    let rd = instr.rd();
    let ra = instr.ra();
    let rs = instr.rs();
    if op == 7 {
        let simm = low_s16(word);
        let res = mul_low(cpu.read_gpr(ra), simm as i64, simm_word(simm));
        cpu.write_gpr(rd, res);
        true
    } else if op == 8 {
        let ra_val = cpu.read_gpr(ra);
        let simm = simm_word(low_s16(word));
        cpu.write_gpr(rd, simm.wrapping_sub(ra_val));
        cpu.set_carry(simm >= ra_val);
        true
    } else if op == 10 {
        compare(cpu, CompareOp::Cmpli, instr);
        true
    } else if op == 11 {
        compare(cpu, CompareOp::Cmpi, instr);
        true
    } else if op == 12 || op == 13 {
        let ra_val = cpu.read_gpr(ra);
        let imm = simm_word(low_s16(word));
        let res = ra_val.wrapping_add(imm);
        let carry = (ra_val as u64) + (imm as u64) > 0xFFFF_FFFF;
        cpu.write_gpr(rd, res);
        cpu.set_carry(carry);
        if op == 13 {
            cpu.update_cr0(res);
        }
        true
    } else if op == 14 {
        let ra_val = cpu.read_gpr_or_zero(ra);
        cpu.write_gpr(rd, ra_val.wrapping_add_signed(low_s16(word)));
        true
    } else if op == 15 {
        let ra_val = cpu.read_gpr_or_zero(ra);
        let simm = low_s16(word) * 0x1_0000;
        cpu.write_gpr(rd, ra_val.wrapping_add_signed(simm));
        true
    } else if op == 20 {
        rotate(cpu, RotateOp::Rlwimi, instr);
        true
    } else if op == 21 {
        rotate(cpu, RotateOp::Rlwinm, instr);
        true
    } else if op == 23 {
        rotate(cpu, RotateOp::Rlwnm, instr);
        true
    } else if 24 <= op && op <= 29 {
        let s = cpu.read_gpr(rs);
        let imm = low_u16(word) as u32;
        let res = if op == 24 {
            s | imm
        } else if op == 25 {
            s | (imm << 16u32)
        } else if op == 26 {
            s ^ imm
        } else if op == 27 {
            s ^ (imm << 16u32)
        } else if op == 28 {
            s & imm
        } else {
            s & (imm << 16u32)
        };
        cpu.write_gpr(ra, res);
        if op >= 28 {
            cpu.update_cr0(res);
        }
        true
    } else {
        false
    }
}

/// CR bit operation selected by an XL-form extended opcode.
pub open spec fn cr_logic_op(xo: u32) -> Option<CrOp> {
    if xo == 33 {
        Some(CrOp::Crnor)
    } else if xo == 129 {
        Some(CrOp::Crandc)
    } else if xo == 193 {
        Some(CrOp::Crxor)
    } else if xo == 225 {
        Some(CrOp::Crnand)
    } else if xo == 257 {
        Some(CrOp::Crand)
    } else if xo == 289 {
        Some(CrOp::Creqv)
    } else if xo == 417 {
        Some(CrOp::Crorc)
    } else if xo == 449 {
        Some(CrOp::Cror)
    } else {
        None
    }
}

/// State after a handled branch (primary 16 or 18) or XL-form (primary 19)
/// instruction; `None` for the XL forms left to the full interpreter.
pub open spec fn branch_form_spec(cpu: Cpu, word: u32) -> Option<Cpu> {
    let i = Instruction(word);
    let op = word >> 26u32;
    if op == 16 {
        Some(branch_spec(cpu, BranchOp::Bcx, i))
    } else if op == 18 {
        Some(branch_spec(cpu, BranchOp::Bx, i))
    } else if op == 19 {
        let xo = i.spec_xo();
        if xo == 16 {
            Some(branch_spec(cpu, BranchOp::Bclrx, i))
        } else if xo == 528 {
            Some(branch_spec(cpu, BranchOp::Bcctrx, i))
        } else if xo == 0 {
            Some(Cpu { cr: with_nibble(cpu.cr, 7 - i.spec_crfd(), cr_field(cpu.cr, i.spec_crfs() as int)), ..cpu })
        } else if xo == 150 {
            Some(cpu)
        } else {
            match cr_logic_op(xo) {
                Some(crop) => Some(Cpu {
                    cr: crate::bits::with_bit32(
                        cpu.cr,
                        (31 - i.spec_crbd()) as u32,
                        cr_logic(crop, cr_bit(cpu.cr, i.spec_crba() as int), cr_bit(cpu.cr, i.spec_crbb() as int)),
                    ),
                    ..cpu
                }),
                None => None,
            }
        }
    } else {
        None
    }
}

/// Executes `b`, `bc`, and the XL forms `bclr`, `bcctr`, `mcrf`, `isync`
/// and the CR bit operations. Returns whether the word was one of them.
pub fn exec_branch_form(cpu: &mut Cpu, word: u32) -> (handled: bool)
    ensures
        handled == branch_form_spec(*old(cpu), word) is Some,
        handled ==> *final(cpu) == branch_form_spec(*old(cpu), word)->0,
        !handled ==> *final(cpu) == *old(cpu),
{
    let instr = Instruction(word);
    let op = word >> 26;
    if op == 16 {
        branch(cpu, BranchOp::Bcx, instr);
        true
    } else if op == 18 {
        branch(cpu, BranchOp::Bx, instr);
        true
    } else if op == 19 {
        let xo = xo10(instr);
        if xo == 16 {
            branch(cpu, BranchOp::Bclrx, instr);
            true
        } else if xo == 528 {
            branch(cpu, BranchOp::Bcctrx, instr);
            true
        } else if xo == 0 {
            cr_ops(cpu, CrOp::Mcrf, instr);
            true
        } else if xo == 150 {
            true
        } else {
            let crop = if xo == 33 {
                CrOp::Crnor
            } else if xo == 129 {
                CrOp::Crandc
            } else if xo == 193 {
                CrOp::Crxor
            } else if xo == 225 {
                CrOp::Crnand
            } else if xo == 257 {
                CrOp::Crand
            } else if xo == 289 {
                CrOp::Creqv
            } else if xo == 417 {
                CrOp::Crorc
            } else if xo == 449 {
                CrOp::Cror
            } else {
                return false;
            };
            cr_ops(cpu, crop, instr);
            true
        }
    } else {
        false
    }
}

/// Bitwise complement of a word, as arithmetic.
pub open spec fn notw(a: u32) -> u32 {
    (0xFFFF_FFFF - a) as u32
}

proof fn lemma_word_bits(a: u32, sh: u32)
    by (bit_vector)
    requires
        sh < 32,
    ensures
        !a == (0xFFFF_FFFF - a) as u32,
        1u32 << sh >= 1,
{
}

/// `a + b + c` on words: the low word, the carry out and signed overflow.
fn add3(a: u32, b: u32, c: u32) -> (r: (u32, bool, bool))
    requires
        c <= 1,
    ensures
        r.0 == add_result(a, b, c as int),
        r.1 == add_carry(a, b, c as int),
        r.2 == add_ov(a, b, c as int),
{
    let sum = a as u64 + b as u64 + c as u64;
    let res = (sum % 0x1_0000_0000) as u32;
    let carry = sum > 0xFFFF_FFFF;
    let s = signed_value(a) + signed_value(b) + c as i64;
    (res, carry, s < -0x8000_0000 || s > 0x7FFF_FFFF)
}

/// The carrying arithmetic X-forms (`subfc`, `addc`, `subf`, `neg`,
/// `subfe`, `adde`, `subfze`, `addze`, `subfme`, `addme`, `add`):
/// `rD = x + y + c` with the operands each form names.
pub open spec fn x_arith_spec(cpu: Cpu, word: u32) -> Option<Cpu> {
    let i = Instruction(word);
    let xo = i.spec_xo();
    let a = cpu.gpr[i.spec_ra() as int];
    let b = cpu.gpr[i.spec_rb() as int];
    let ca = ca_of(cpu);
    let with_ca = |x: u32, y: u32, c: int|
        arith_tail(cpu, i, add_result(x, y, c), Some(add_carry(x, y, c)), add_ov(x, y, c));
    let no_ca = |x: u32, y: u32, c: int| arith_tail(cpu, i, add_result(x, y, c), None, add_ov(x, y, c));
    if xo == 8 {
        Some(with_ca(notw(a), b, 1))
    } else if xo == 10 {
        Some(with_ca(a, b, 0))
    } else if xo == 40 {
        Some(no_ca(notw(a), b, 1))
    } else if xo == 104 {
        Some(arith_tail(cpu, i, add_result(notw(a), 0, 1), None, a == 0x8000_0000))
    } else if xo == 136 {
        Some(with_ca(notw(a), b, ca))
    } else if xo == 138 {
        Some(with_ca(a, b, ca))
    } else if xo == 200 {
        Some(with_ca(notw(a), 0, ca))
    } else if xo == 202 {
        Some(with_ca(a, 0, ca))
    } else if xo == 232 {
        Some(with_ca(notw(a), 0xFFFF_FFFF, ca))
    } else if xo == 234 {
        Some(with_ca(a, 0xFFFF_FFFF, ca))
    } else if xo == 266 {
        Some(no_ca(a, b, 0))
    } else {
        None
    }
}

fn exec_x_arith(cpu: &mut Cpu, word: u32) -> (handled: bool)
    ensures
        handled == x_arith_spec(*old(cpu), word) is Some,
        handled ==> *final(cpu) == x_arith_spec(*old(cpu), word)->0,
        !handled ==> *final(cpu) == *old(cpu),
{
    let instr = Instruction(word);
    let xo = xo10(instr);
    let a = cpu.read_gpr(instr.ra());
    let b = cpu.read_gpr(instr.rb());
    let ca: u32 = if crate::bits::get_bit32(cpu.xer, XER_CA_BIT) { 1 } else { 0 };
    proof {
        lemma_word_bits(a, 0);
    }
    let not_a = !a;
    let (x, y, c, sets_ca) = if xo == 8 {
        (not_a, b, 1u32, true)
    } else if xo == 10 {
        (a, b, 0u32, true)
    } else if xo == 40 {
        (not_a, b, 1u32, false)
    } else if xo == 104 {
        (not_a, 0u32, 1u32, false)
    } else if xo == 136 {
        (not_a, b, ca, true)
    } else if xo == 138 {
        (a, b, ca, true)
    } else if xo == 200 {
        (not_a, 0u32, ca, true)
    } else if xo == 202 {
        (a, 0u32, ca, true)
    } else if xo == 232 {
        (not_a, 0xFFFF_FFFFu32, ca, true)
    } else if xo == 234 {
        (a, 0xFFFF_FFFFu32, ca, true)
    } else if xo == 266 {
        (a, b, 0u32, false)
    } else {
        return false;
    };
    let (res, carry, ov) = add3(x, y, c);
    let ov = if xo == 104 { a == 0x8000_0000 } else { ov };
    cpu.write_gpr(instr.rd(), res);
    if sets_ca {
        cpu.set_carry(carry);
    }
    if instr.oe() {
        cpu.set_overflow(ov);
    }
    if instr.rc() {
        cpu.update_cr0(res);
    }
    true
}

/// `rD` gets `res`, with CR0 when Rc is set (no XER update).
pub open spec fn rd_tail(cpu: Cpu, instr: Instruction, res: u32) -> Cpu {
    let c = cpu.with_gpr(instr.spec_rd() as int, res);
    if instr.spec_rc() {
        c.with_cr0(res)
    } else {
        c
    }
}

pub open spec fn abs_int(x: int) -> int {
    if x < 0 {
        -x
    } else {
        x
    }
}

/// Division rounding toward zero.
pub open spec fn trunc_div(x: int, y: int) -> int {
    if (x < 0) == (y < 0) {
        abs_int(x) / abs_int(y)
    } else {
        -(abs_int(x) / abs_int(y))
    }
}

/// `divw` cases without a defined quotient: division by zero and
/// `0x8000_0000 / -1`.
pub open spec fn divw_undefined(a: u32, b: u32) -> bool {
    b == 0 || (a == 0x8000_0000 && b == 0xFFFF_FFFF)
}

/// The multiply and divide X-forms (`mulhwu`, `mulhw`, `mullw`, `divwu`,
/// `divw`).
pub open spec fn x_muldiv_spec(cpu: Cpu, word: u32) -> Option<Cpu> {
    let i = Instruction(word);
    let xo = i.spec_xo();
    let a = cpu.gpr[i.spec_ra() as int];
    let b = cpu.gpr[i.spec_rb() as int];
    let m: int = 0x1_0000_0000;
    if xo == 11 {
        Some(rd_tail(cpu, i, ((a * b) / m) as u32))
    } else if xo == 75 {
        Some(rd_tail(cpu, i, trunc32((s32(a) * s32(b)) / m)))
    } else if xo == 235 {
        Some(arith_tail(cpu, i, trunc32(s32(a) * s32(b)), None, signed_overflow(s32(a) * s32(b))))
    } else if xo == 459 {
        Some(arith_tail(cpu, i, if b == 0 { 0 } else { a / b }, None, b == 0))
    } else if xo == 491 {
        let res = if divw_undefined(a, b) {
            if s32(a) < 0 { 0xFFFF_FFFFu32 } else { 0u32 }
        } else {
            trunc32(trunc_div(s32(a), s32(b)))
        };
        Some(arith_tail(cpu, i, res, None, divw_undefined(a, b)))
    } else {
        None
    }
}

/// A possibly negative value reduced to a word.
fn wrap_i64(t: i64) -> (r: u32)
    requires
        -0x4_0000_0000 <= t <= 0x4_0000_0000,
    ensures
        r == trunc32(t as int),
{
    let shifted = (t + 0x4_0000_0000) as u64;
    proof {
        vstd::arithmetic::div_mod::lemma_mod_multiples_vanish(4, t as int, 0x1_0000_0000);
    }
    (shifted % 0x1_0000_0000) as u32
}

/// High word of the signed product.
fn mul_high_signed(a: u32, b: u32) -> (r: u32)
    ensures
        r == trunc32((s32(a) * s32(b)) / 0x1_0000_0000),
{
    assert((a as int) * (b as int) <= 0xFFFF_FFFF * 0xFFFF_FFFF) by (nonlinear_arith)
        requires
            a <= 0xFFFF_FFFF,
            b <= 0xFFFF_FFFF,
    ;
    let hi = (a as u64) * (b as u64) / 0x1_0000_0000;
    assert(hi <= 0xFFFF_FFFF) by (nonlinear_arith)
        requires
            hi == (a as int) * (b as int) / 0x1_0000_0000,
            (a as int) * (b as int) <= 0xFFFF_FFFF * 0xFFFF_FFFF,
            0 <= (a as int) * (b as int),
    ;
    let corr_a: i64 = if a >= 0x8000_0000 { b as i64 } else { 0 };
    let corr_b: i64 = if b >= 0x8000_0000 { a as i64 } else { 0 };
    let t = hi as i64 - corr_a - corr_b;
    proof {
        let m: int = 0x1_0000_0000;
        let ka: int = if a >= 0x8000_0000 { 1 } else { 0 };
        let kb: int = if b >= 0x8000_0000 { 1 } else { 0 };
        let ab = (a as int) * (b as int);
        let j = -(ka * (b as int)) - kb * (a as int) + ka * kb * m;
        assert(s32(a) * s32(b) == ab + j * m) by (nonlinear_arith)
            requires
                s32(a) == a - ka * m,
                s32(b) == b - kb * m,
                j == -(ka * (b as int)) - kb * (a as int) + ka * kb * m,
                ab == (a as int) * (b as int),
        ;
        vstd::arithmetic::div_mod::lemma_hoist_over_denominator(ab, j, m as nat);
        assert(ab / m + j == t + ka * kb * m);
        vstd::arithmetic::div_mod::lemma_mod_multiples_vanish(ka * kb, t as int, m);
        assert(ka * kb * m == m * (ka * kb)) by (nonlinear_arith);
    }
    wrap_i64(t)
}

/// Signed division rounding toward zero, for defined cases.
fn div_signed(a: u32, b: u32) -> (r: u32)
    requires
        !divw_undefined(a, b),
    ensures
        r == trunc32(trunc_div(s32(a), s32(b))),
{
    let sa = signed_value(a);
    let sb = signed_value(b);
    let ua: u64 = if sa < 0 { (0 - sa) as u64 } else { sa as u64 };
    let ub: u64 = if sb < 0 { (0 - sb) as u64 } else { sb as u64 };
    let q = ua / ub;
    assert(q <= ua) by (nonlinear_arith)
        requires
            ub >= 1,
            q == ua / ub,
    ;
    let qi = q as i64;
    let t = if (sa < 0) != (sb < 0) { 0 - qi } else { qi };
    wrap_i64(t)
}

fn exec_x_muldiv(cpu: &mut Cpu, word: u32) -> (handled: bool)
    ensures
        handled == x_muldiv_spec(*old(cpu), word) is Some,
        handled ==> *final(cpu) == x_muldiv_spec(*old(cpu), word)->0,
        !handled ==> *final(cpu) == *old(cpu),
{
    let instr = Instruction(word);
    let xo = xo10(instr);
    let a = cpu.read_gpr(instr.ra());
    let b = cpu.read_gpr(instr.rb());
    if xo == 11 {
        assert((a as int) * (b as int) <= 0xFFFF_FFFF * 0xFFFF_FFFF) by (nonlinear_arith)
            requires
                a <= 0xFFFF_FFFF,
                b <= 0xFFFF_FFFF,
        ;
        let hi = (a as u64) * (b as u64) / 0x1_0000_0000;
        assert(hi <= 0xFFFF_FFFF) by (nonlinear_arith)
            requires
                hi == (a as int) * (b as int) / 0x1_0000_0000,
                (a as int) * (b as int) <= 0xFFFF_FFFF * 0xFFFF_FFFF,
                0 <= (a as int) * (b as int),
        ;
        let res = hi as u32;
        cpu.write_gpr(instr.rd(), res);
        if instr.rc() {
            cpu.update_cr0(res);
        }
        true
    } else if xo == 75 {
        let res = mul_high_signed(a, b);
        cpu.write_gpr(instr.rd(), res);
        if instr.rc() {
            cpu.update_cr0(res);
        }
        true
    } else if xo == 235 || xo == 459 || xo == 491 {
        let (res, ov) = if xo == 235 {
            assert(-0x4000_0000_0000_0000 <= s32(a) * s32(b) <= 0x4000_0000_0000_0000) by (nonlinear_arith)
                requires
                    -0x8000_0000 <= s32(a) <= 0x7FFF_FFFF,
                    -0x8000_0000 <= s32(b) <= 0x7FFF_FFFF,
            ;
            let full = signed_value(a) * signed_value(b);
            let sb = signed_value(b);
            (mul_low(a, sb, b), full < -0x8000_0000 || full > 0x7FFF_FFFF)
        } else if xo == 459 {
            (if b == 0 { 0 } else { a / b }, b == 0)
        } else {
            let undefined = b == 0 || (a == 0x8000_0000 && b == 0xFFFF_FFFF);
            if undefined {
                (if a >= 0x8000_0000 { 0xFFFF_FFFFu32 } else { 0u32 }, true)
            } else {
                (div_signed(a, b), false)
            }
        };
        cpu.write_gpr(instr.rd(), res);
        if instr.oe() {
            cpu.set_overflow(ov);
        }
        if instr.rc() {
            cpu.update_cr0(res);
        }
        true
    } else {
        false
    }
}

/// `sraw`/`srawi`: the shifted word and the carry (set when a negative
/// value loses one bits).
pub open spec fn sraw_result(s: u32, sh: u32) -> (u32, bool) {
    if sh >= 32 {
        (if s >= 0x8000_0000 { 0xFFFF_FFFFu32 } else { 0u32 }, s >= 0x8000_0000)
    } else if sh == 0 {
        (s, false)
    } else {
        (((s as i32) >> sh) as u32, s >= 0x8000_0000 && (s & ((1u32 << sh) - 1) as u32) != 0)
    }
}

/// The logical, shift, sign-extension, `mfcr` and compare X-forms, and
/// the cache and synchronisation forms that have no effect here.
pub open spec fn x_logic_spec(cpu: Cpu, word: u32) -> Option<Cpu> {
    let i = Instruction(word);
    let xo = i.spec_xo();
    let s = cpu.gpr[i.spec_rs() as int];
    let b = cpu.gpr[i.spec_rb() as int];
    let rc = i.spec_rc();
    let sh = b & 0x3F;
    if xo == 19 {
        Some(cpu.with_gpr(i.spec_rd() as int, cpu.cr))
    } else if xo == 0 {
        Some(compare_cpu(cpu, CompareOp::Cmp, i))
    } else if xo == 32 {
        Some(compare_cpu(cpu, CompareOp::Cmpl, i))
    } else if xo == 24 {
        Some(logic_tail(cpu, i, if sh >= 32 { 0 } else { s << sh }, rc))
    } else if xo == 536 {
        Some(logic_tail(cpu, i, if sh >= 32 { 0 } else { s >> sh }, rc))
    } else if xo == 792 || xo == 824 {
        let amount = if xo == 792 { sh } else { i.spec_sh() as u32 };
        let (res, ca) = sraw_result(s, amount);
        Some(logic_tail(Cpu { xer: xer_with_carry(cpu.xer, ca), ..cpu }, i, res, rc))
    } else if xo == 26 {
        Some(logic_tail(cpu, i, s.leading_zeros(), rc))
    } else if xo == 28 {
        Some(logic_tail(cpu, i, s & b, rc))
    } else if xo == 60 {
        Some(logic_tail(cpu, i, s & !b, rc))
    } else if xo == 124 {
        Some(logic_tail(cpu, i, !(s | b), rc))
    } else if xo == 284 {
        Some(logic_tail(cpu, i, !(s ^ b), rc))
    } else if xo == 316 {
        Some(logic_tail(cpu, i, s ^ b, rc))
    } else if xo == 412 {
        Some(logic_tail(cpu, i, s | !b, rc))
    } else if xo == 444 {
        Some(logic_tail(cpu, i, s | b, rc))
    } else if xo == 476 {
        Some(logic_tail(cpu, i, !(s & b), rc))
    } else if xo == 922 {
        Some(logic_tail(cpu, i, (s as i16) as i32 as u32, rc))
    } else if xo == 954 {
        Some(logic_tail(cpu, i, (s as i8) as i32 as u32, rc))
    } else if xo == 54 || xo == 86 || xo == 470 || xo == 598 {
        Some(cpu)
    } else {
        None
    }
}

fn exec_x_logic(cpu: &mut Cpu, word: u32) -> (handled: bool)
    ensures
        handled == x_logic_spec(*old(cpu), word) is Some,
        handled ==> *final(cpu) == x_logic_spec(*old(cpu), word)->0,
        !handled ==> *final(cpu) == *old(cpu),
{
    let instr = Instruction(word);
    let xo = xo10(instr);
    if xo == 19 {
        let cr = cpu.cr;
        cpu.write_gpr(instr.rd(), cr);
        return true;
    } else if xo == 0 {
        compare(cpu, CompareOp::Cmp, instr);
        return true;
    } else if xo == 32 {
        compare(cpu, CompareOp::Cmpl, instr);
        return true;
    } else if xo == 54 || xo == 86 || xo == 470 || xo == 598 {
        return true;
    }
    let s = cpu.read_gpr(instr.rs());
    let b = cpu.read_gpr(instr.rb());
    let sh = b & 0x3F;
    proof { lemma_and_le_u32(b, 0x3F); }
    let res = if xo == 24 {
        if sh >= 32 { 0 } else { s << sh }
    } else if xo == 536 {
        if sh >= 32 { 0 } else { s >> sh }
    } else if xo == 792 || xo == 824 {
        let amount: u32 = if xo == 792 { sh } else { instr.sh() as u32 };
        let neg = s >= 0x8000_0000;
        let (res, ca) = if amount >= 32 {
            (if neg { 0xFFFF_FFFFu32 } else { 0u32 }, neg)
        } else if amount == 0 {
            (s, false)
        } else {
            proof { lemma_word_bits(s, amount); }
            let mask = (1u32 << amount) - 1;
            (((s as i32) >> amount) as u32, neg && (s & mask) != 0)
        };
        cpu.set_carry(ca);
        res
    } else if xo == 26 {
        s.leading_zeros()
    } else if xo == 28 {
        s & b
    } else if xo == 60 {
        s & !b
    } else if xo == 124 {
        !(s | b)
    } else if xo == 284 {
        !(s ^ b)
    } else if xo == 316 {
        s ^ b
    } else if xo == 412 {
        s | !b
    } else if xo == 444 {
        s | b
    } else if xo == 476 {
        !(s & b)
    } else if xo == 922 {
        (s as i16) as i32 as u32
    } else if xo == 954 {
        (s as i8) as i32 as u32
    } else {
        return false;
    };
    cpu.write_gpr(instr.ra(), res);
    if instr.rc() {
        cpu.update_cr0(res);
    }
    true
}

/// A load or store form: direction, access size in bytes, sign extension
/// (halfword algebraic loads) and base-register update.
#[derive(Clone, Copy, PartialEq, Eq, Structural)]
pub struct MemForm {
    pub store: bool,
    pub size: u32,
    pub signed: bool,
    pub update: bool,
}

/// D-form loads and stores by primary opcode (32..=45).
pub open spec fn d_mem_form(op: u32) -> Option<MemForm> {
    if 32 <= op <= 45 {
        let k = op - 32;
        let kind = k / 2;
        Some(MemForm {
            store: kind == 2 || kind == 3 || kind == 6,
            size: if kind == 0 || kind == 2 { 4 } else if kind == 1 || kind == 3 { 1 } else { 2 },
            signed: kind == 5,
            update: k % 2 == 1,
        })
    } else {
        None
    }
}

/// X-form loads and stores by extended opcode.
pub open spec fn x_mem_form(xo: u32) -> Option<MemForm> {
    let f = |store: bool, size: u32, signed: bool, update: bool|
        Some(MemForm { store, size, signed, update });
    if xo == 23 {
        f(false, 4, false, false)
    } else if xo == 55 {
        f(false, 4, false, true)
    } else if xo == 87 {
        f(false, 1, false, false)
    } else if xo == 119 {
        f(false, 1, false, true)
    } else if xo == 151 {
        f(true, 4, false, false)
    } else if xo == 183 {
        f(true, 4, false, true)
    } else if xo == 215 {
        f(true, 1, false, false)
    } else if xo == 247 {
        f(true, 1, false, true)
    } else if xo == 279 {
        f(false, 2, false, false)
    } else if xo == 311 {
        f(false, 2, false, true)
    } else if xo == 343 {
        f(false, 2, true, false)
    } else if xo == 375 {
        f(false, 2, true, true)
    } else if xo == 407 {
        f(true, 2, false, false)
    } else if xo == 439 {
        f(true, 2, false, true)
    } else {
        None
    }
}

/// The load/store form of `word`, if it is one of the single-access forms.
pub open spec fn mem_form(word: u32) -> Option<MemForm> {
    let op = word >> 26u32;
    if op == 31 {
        x_mem_form(Instruction(word).spec_xo())
    } else {
        d_mem_form(op)
    }
}

/// Effective address: `(rA|0) + rB` for X-forms, `(rA|0) + d` otherwise.
pub open spec fn mem_ea(cpu: Cpu, word: u32) -> u32 {
    let i = Instruction(word);
    if word >> 26u32 == 31 {
        cpu.gpr_or_zero(i.spec_ra()).wrapping_add(cpu.gpr[i.spec_rb() as int])
    } else {
        cpu.gpr_or_zero(i.spec_ra()).wrapping_add_signed(i.spec_simm())
    }
}

/// Value a load of form `f` from `ea` puts in `rD`.
pub open spec fn loaded_value(g: Gekko, ea: u32, f: MemForm) -> u32 {
    let v = g.bus_value(ea, f.size);
    if f.size == 1 {
        (v as u8) as u32
    } else if f.size == 2 {
        if f.signed {
            ((v as u16) as i16) as i32 as u32
        } else {
            (v as u16) as u32
        }
    } else {
        v
    }
}

/// Value a store of form `f` sends: the low bytes of `rS`.
pub open spec fn stored_value(rs: u32, f: MemForm) -> u32 {
    if f.size == 1 {
        (rs as u8) as u32
    } else if f.size == 2 {
        (rs as u16) as u32
    } else {
        rs
    }
}

/// Register file after the load or store: the loaded value in `rD`, then
/// the effective address in `rA` for update forms.
pub open spec fn mem_cpu(g: Gekko, word: u32, f: MemForm) -> Cpu {
    let i = Instruction(word);
    let ea = mem_ea(g.cpu, word);
    let c = if f.store {
        g.cpu
    } else {
        g.cpu.with_gpr(i.spec_rd() as int, loaded_value(g, ea, f))
    };
    if f.update {
        c.with_gpr(i.spec_ra() as int, ea)
    } else {
        c
    }
}

/// Effect of a single-access load or store.
pub open spec fn mem_step_ok(old: Gekko, new: Gekko, word: u32, f: MemForm) -> bool {
    let ea = mem_ea(old.cpu, word);
    &&& new.cpu == mem_cpu(old, word, f)
    &&& if f.store {
        Gekko::bus_write_ok(
            old,
            Gekko { cpu: old.cpu, ..new },
            ea,
            f.size,
            stored_value(old.cpu.gpr[Instruction(word).spec_rs() as int], f),
        )
    } else {
        new == (Gekko { cpu: new.cpu, ..old })
    }
}

fn mem_form_of(word: u32) -> (r: Option<MemForm>)
    ensures
        r == mem_form(word),
{
    let op = word >> 26;
    if op == 31 {
        let xo = xo10(Instruction(word));
        let (store, size, signed, update) = if xo == 23 {
            (false, 4u32, false, false)
        } else if xo == 55 {
            (false, 4, false, true)
        } else if xo == 87 {
            (false, 1, false, false)
        } else if xo == 119 {
            (false, 1, false, true)
        } else if xo == 151 {
            (true, 4, false, false)
        } else if xo == 183 {
            (true, 4, false, true)
        } else if xo == 215 {
            (true, 1, false, false)
        } else if xo == 247 {
            (true, 1, false, true)
        } else if xo == 279 {
            (false, 2, false, false)
        } else if xo == 311 {
            (false, 2, false, true)
        } else if xo == 343 {
            (false, 2, true, false)
        } else if xo == 375 {
            (false, 2, true, true)
        } else if xo == 407 {
            (true, 2, false, false)
        } else if xo == 439 {
            (true, 2, false, true)
        } else {
            return None;
        };
        Some(MemForm { store, size, signed, update })
    } else if 32 <= op && op <= 45 {
        let k = op - 32;
        let kind = k / 2;
        Some(MemForm {
            store: kind == 2 || kind == 3 || kind == 6,
            size: if kind == 0 || kind == 2 { 4 } else if kind == 1 || kind == 3 { 1 } else { 2 },
            signed: kind == 5,
            update: k % 2 == 1,
        })
    } else {
        None
    }
}

/// Executes a single-access load or store of form `f`.
fn exec_mem(g: &mut Gekko, word: u32, f: MemForm)
    requires
        old(g).wf(),
        f == mem_form(word)->0,
        mem_form(word) is Some,
        old(g).access_ok(mem_ea(old(g).cpu, word), f.size),
    ensures
        final(g).wf(),
        mem_step_ok(*old(g), *final(g), word, f),
{
    let instr = Instruction(word);
    let ra = instr.ra();
    let ea = if word >> 26 == 31 {
        g.cpu.read_gpr_or_zero(ra).wrapping_add(g.cpu.read_gpr(instr.rb()))
    } else {
        g.cpu.read_gpr_or_zero(ra).wrapping_add_signed(low_s16(word))
    };
    if f.store {
        let v = g.cpu.read_gpr(instr.rs());
        if f.size == 1 {
            g.write_u8(ea, v as u8);
        } else if f.size == 2 {
            g.write_u16(ea, v as u16);
        } else {
            g.write_u32(ea, v);
        }
    } else {
        let v = if f.size == 1 {
            g.read_u8(ea) as u32
        } else if f.size == 2 {
            let h = g.read_u16(ea);
            if f.signed {
                (h as i16) as i32 as u32
            } else {
                h as u32
            }
        } else {
            g.read_u32(ea)
        };
        g.cpu.write_gpr(instr.rd(), v);
    }
    if f.update {
        g.cpu.write_gpr(ra, ea);
    }
}

/// Address of word `k` of a load/store multiple from `ea` (wrapping).
pub open spec fn multiple_addr(ea: u32, k: int) -> u32 {
    ((ea + 4 * k) % 0x1_0000_0000) as u32
}

/// `lmw`: registers from `rD` to r31 hold the words read from `ea` on.
pub open spec fn lmw_ok(old: Gekko, new: Gekko, word: u32) -> bool {
    let rd = Instruction(word).spec_rd() as int;
    let ea = mem_ea(old.cpu, word);
    &&& new == (Gekko { cpu: new.cpu, ..old })
    &&& new.cpu == (Cpu { gpr: new.cpu.gpr, ..old.cpu })
    &&& forall|r: int|
        0 <= r < 32 ==> #[trigger] new.cpu.gpr[r] == if r >= rd {
            old.bus_value(multiple_addr(ea, r - rd), 4)
        } else {
            old.cpu.gpr[r]
        }
}

/// A sequence of console states linked by the word stores of an `stmw`
/// from register `rs` at `ea`: step `k` stores `rs + k` at word `k`.
pub open spec fn store_chain(states: Seq<Gekko>, ea: u32, rs: int) -> bool {
    forall|k: int|
        0 <= k < states.len() - 1 ==> #[trigger] Gekko::bus_write_ok(
            states[k],
            states[k + 1],
            multiple_addr(ea, k),
            4,
            states[0].cpu.gpr[rs + k],
        )
}

/// `stmw`: the console went from `old` to `new` by the stores of
/// registers `rS` to r31 at consecutive words from `ea`.
pub open spec fn stmw_ok(old: Gekko, new: Gekko, word: u32) -> bool {
    let rs = Instruction(word).spec_rs() as int;
    let ea = mem_ea(old.cpu, word);
    exists|states: Seq<Gekko>|
        #![trigger store_chain(states, ea, rs)]
        states.len() == 33 - rs && states[0] == old && states.last() == new && store_chain(states, ea, rs)
}

/// Every address a handled memory form touches is mapped when it falls
/// to memory.
pub open spec fn fast_access_ok(g: Gekko, word: u32) -> bool {
    let op = word >> 26u32;
    let ea = mem_ea(g.cpu, word);
    if mem_form(word) is Some {
        g.access_ok(ea, mem_form(word)->0.size)
    } else if op == 46 || op == 47 {
        let first = Instruction(word).spec_rd() as int;
        forall|k: int| 0 <= k < 32 - first ==> #[trigger] g.access_ok(multiple_addr(ea, k), 4)
    } else if fp_double_form(word) {
        fp_double_access_ok(g, word)
    } else {
        true
    }
}

fn load_multiple(g: &mut Gekko, word: u32)
    requires
        old(g).wf(),
        word >> 26u32 == 46,
        fast_access_ok(*old(g), word),
    ensures
        final(g).wf(),
        lmw_ok(*old(g), *final(g), word),
{
    let ghost g0 = *g;
    let instr = Instruction(word);
    let rd = instr.rd();
    let mut addr = g.cpu.read_gpr_or_zero(instr.ra()).wrapping_add_signed(low_s16(word));
    let ghost ea = addr;
    assert(mem_form(word) is None);
    let mut r: u8 = rd;
    while r < 32
        invariant
            g.wf(),
            rd <= r <= 32,
            rd < 32,
            ea == mem_ea(g0.cpu, word),
            forall|k: int| 0 <= k < 32 - rd ==> #[trigger] g0.access_ok(multiple_addr(ea, k), 4),
            addr == multiple_addr(ea, r - rd),
            *g == (Gekko { cpu: g.cpu, ..g0 }),
            g.cpu == (Cpu { gpr: g.cpu.gpr, ..g0.cpu }),
            forall|q: int|
                0 <= q < 32 ==> #[trigger] g.cpu.gpr[q] == if rd <= q < r {
                    g0.bus_value(multiple_addr(ea, q - rd), 4)
                } else {
                    g0.cpu.gpr[q]
                },
        decreases 32 - r,
    {
        assert(g0.access_ok(multiple_addr(ea, r - rd), 4));
        let val = g.read_u32(addr);
        g.cpu.write_gpr(r, val);
        addr = addr.wrapping_add(4);
        r = r + 1;
    }
}

fn store_multiple(g: &mut Gekko, word: u32)
    requires
        old(g).wf(),
        word >> 26u32 == 47,
        fast_access_ok(*old(g), word),
    ensures
        final(g).wf(),
        final(g).cpu == old(g).cpu,
        stmw_ok(*old(g), *final(g), word),
{
    let ghost g0 = *g;
    let instr = Instruction(word);
    let rs = instr.rs();
    let mut addr = g.cpu.read_gpr_or_zero(instr.ra()).wrapping_add_signed(low_s16(word));
    let ghost ea = addr;
    assert(mem_form(word) is None);
    let ghost mut states: Seq<Gekko> = seq![*g];
    assert(instr.spec_rs() == instr.spec_rd());
    let mut r: u8 = rs;
    while r < 32
        invariant
            g.wf(),
            rs <= r <= 32,
            rs < 32,
            rs == instr.spec_rs(),
            rs == instr.spec_rd(),
            ea == mem_ea(g0.cpu, word),
            forall|k: int| 0 <= k < 32 - rs ==> #[trigger] g0.access_ok(multiple_addr(ea, k), 4),
            addr == multiple_addr(ea, r - rs),
            g.cpu == g0.cpu,
            states.len() == r - rs + 1,
            states[0] == g0,
            states.last() == *g,
            store_chain(states, ea, rs as int),
        decreases 32 - r,
    {
        let ghost before = *g;
        assert(g0.access_ok(multiple_addr(ea, r - rs), 4));
        let val = g.cpu.read_gpr(r);
        g.write_u32(addr, val);
        proof {
            let prev = states;
            states = states.push(*g);
            assert forall|k: int| 0 <= k < states.len() - 1 implies #[trigger] Gekko::bus_write_ok(
                states[k],
                states[k + 1],
                multiple_addr(ea, k),
                4,
                states[0].cpu.gpr[rs + k],
            ) by {
                if k < prev.len() - 1 {
                    assert(states[k] == prev[k] && states[k + 1] == prev[k + 1]);
                } else {
                    assert(states[k] == before);
                }
            }
        }
        addr = addr.wrapping_add(4);
        r = r + 1;
    }
}

/// State after a handled register-only instruction; `None` for words that
/// touch memory or are left to the full interpreter.
pub open spec fn fast_cpu_spec(cpu: Cpu, word: u32) -> Option<Cpu> {
    let op = word >> 26u32;
    if is_immediate_form(op) {
        Some(immediate_spec(cpu, word))
    } else if op == 16 || op == 18 || op == 19 {
        branch_form_spec(cpu, word)
    } else if op == 31 {
        if x_arith_spec(cpu, word) is Some {
            x_arith_spec(cpu, word)
        } else if x_muldiv_spec(cpu, word) is Some {
            x_muldiv_spec(cpu, word)
        } else {
            x_logic_spec(cpu, word)
        }
    } else {
        None
    }
}

/// `mtcrf` (primary 31, extended 144).
pub open spec fn is_mtcrf(word: u32) -> bool {
    word >> 26u32 == 31 && Instruction(word).spec_xo() == 144
}

/// Whether the fast path executes `word`: the integer, branch, condition
/// register, load/store and system forms (`sc`, `rfi`, the MSR and SPR
/// moves, `mftb`), and the floating-point forms that only move bits. The
/// floating-point arithmetic, conversion, compare and load/store forms are
/// not among them.
pub open spec fn fast_handles(cpu: Cpu, word: u32) -> bool {
    let op = word >> 26u32;
    fast_cpu_spec(cpu, word) is Some || is_mtcrf(word) || mem_form(word) is Some || op == 46 || op == 47
        || system_form(word) || fp_bits_form(word) || fp_double_form(word)
}

/// What executing `word` on the fast path does to the console, form by
/// form.
pub open spec fn fast_step(old: Gekko, new: Gekko, word: u32) -> bool {
    &&& new.wf()
    &&& fast_cpu_spec(old.cpu, word) is Some ==> new == (Gekko { cpu: fast_cpu_spec(old.cpu, word)->0, ..old })
    &&& is_mtcrf(word) ==> {
        &&& new == (Gekko { cpu: Cpu { cr: new.cpu.cr, ..old.cpu }, ..old })
        &&& forall|f: int|
            0 <= f < 8 ==> #[trigger] cr_field(new.cpu.cr, f) == mtcrf_field(
                old.cpu.cr,
                old.cpu.gpr[Instruction(word).spec_rs() as int],
                Instruction(word).spec_crm(),
                f,
            )
    }
    &&& mem_form(word) is Some ==> mem_step_ok(old, new, word, mem_form(word)->0)
    &&& word >> 26u32 == 46 ==> lmw_ok(old, new, word)
    &&& word >> 26u32 == 47 ==> new.cpu == old.cpu && stmw_ok(old, new, word)
    &&& system_form(word) ==> system_step_ok(old, new, word)
    &&& fp_bits_form(word) ==> fp_bits_step_ok(old, new, word)
    &&& fp_double_form(word) ==> fp_double_step_ok(old, new, word)
}

/// `new` is `old` after the floating-point bit form `word`: the registers
/// as `fp_bits_spec` gives them, or the floating-point-unavailable
/// exception when the MSR disables floating point.
pub open spec fn fp_bits_step_ok(old: Gekko, new: Gekko, word: u32) -> bool {
    if fp_enabled(old.sys@) {
        let r = fp_bits_spec(old.cpu, old.fp, word);
        new == (Gekko { cpu: r.0, fp: r.1, ..old })
    } else {
        let r = fp_unavailable_spec(old.cpu, old.sys@);
        &&& new == (Gekko { cpu: r.0, sys: new.sys, ..old })
        &&& new.sys@ == r.1
    }
}

/// `new` is `old` after the system form `word`: the CPU and system
/// registers as `system_spec` gives them, all else unchanged.
pub open spec fn system_step_ok(old: Gekko, new: Gekko, word: u32) -> bool {
    let r = system_spec(old.cpu, old.sys@, old.cycles, word);
    &&& new == (Gekko { cpu: r.0, sys: new.sys, ..old })
    &&& new.sys@ == r.1
}

/// Effective address of the load or store `word`: `(rA|0) + rB` for the
/// X forms, `(rA|0) + SIMM` for the D forms.
fn effective_address(cpu: &Cpu, word: u32) -> (r: u32)
    ensures
        r == mem_ea(*cpu, word),
{
    let instr = Instruction(word);
    if word >> 26 == 31 {
        cpu.read_gpr_or_zero(instr.ra()).wrapping_add(cpu.read_gpr(instr.rb()))
    } else {
        cpu.read_gpr_or_zero(instr.ra()).wrapping_add_signed(low_s16(word))
    }
}

/// The double-word floating-point loads and stores, which move bits
/// only: `lfd`, `lfdu`, `stfd`, `stfdu` and their indexed forms.
pub open spec fn fp_double_form(word: u32) -> bool {
    let op = word >> 26u32;
    let xo = Instruction(word).spec_xo();
    ||| op == 50 || op == 51 || op == 54 || op == 55
    ||| op == 31 && (xo == 599 || xo == 631 || xo == 727 || xo == 759)
}

/// Whether the double-word form `word` stores.
pub open spec fn fp_double_store(word: u32) -> bool {
    let op = word >> 26u32;
    let xo = Instruction(word).spec_xo();
    op == 54 || op == 55 || (op == 31 && (xo == 727 || xo == 759))
}

/// Whether the double-word form `word` writes the address back to rA.
pub open spec fn fp_double_update(word: u32) -> bool {
    let op = word >> 26u32;
    let xo = Instruction(word).spec_xo();
    op == 51 || op == 55 || (op == 31 && (xo == 631 || xo == 759))
}

/// The CPU after the double-word form `word`: rA takes the address for
/// the update forms.
pub open spec fn fp_double_cpu(cpu: Cpu, word: u32) -> Cpu {
    if fp_double_update(word) {
        cpu.with_gpr(Instruction(word).spec_ra() as int, mem_ea(cpu, word))
    } else {
        cpu
    }
}

/// The 64 bits at `ea`: the word there, then the word after it.
pub open spec fn double_at(g: Gekko, ea: u32) -> u64 {
    ((g.bus_value(ea, 4) as u64) << 32u64) | (g.bus_value(ea.wrapping_add(4), 4) as u64)
}

/// `new` is `old` after the double-word form `word`: a load puts the
/// bits at the address in frD; a store writes the high word of frS there
/// and the low word after it; floating point unavailable takes the
/// exception instead.
pub open spec fn fp_double_step_ok(old: Gekko, new: Gekko, word: u32) -> bool {
    let ea = mem_ea(old.cpu, word);
    let d = Instruction(word).spec_rd() as int;
    if !fp_enabled(old.sys@) {
        let r = fp_unavailable_spec(old.cpu, old.sys@);
        &&& new == (Gekko { cpu: r.0, sys: new.sys, ..old })
        &&& new.sys@ == r.1
    } else if !fp_double_store(word) {
        new == (Gekko {
            cpu: fp_double_cpu(old.cpu, word),
            fp: FpRegs { ps0: vstd::array::spec_array_update(old.fp.ps0, d, double_at(old, ea)), ..old.fp },
            ..old
        })
    } else {
        let bits = old.fp.ps0[d];
        exists|mid: Gekko, after: Gekko|
            #![trigger Gekko::bus_write_ok(old, mid, ea, 4, (bits >> 32u64) as u32), Gekko::bus_write_ok(mid, after, ea.wrapping_add(4), 4, bits as u32)]
            Gekko::bus_write_ok(old, mid, ea, 4, (bits >> 32u64) as u32) && Gekko::bus_write_ok(
                mid,
                after,
                ea.wrapping_add(4),
                4,
                bits as u32,
            ) && after.cpu == old.cpu && new == (Gekko { cpu: fp_double_cpu(old.cpu, word), ..after })
    }
}

/// Whether the accesses of the double-word form `word` are allowed.
pub open spec fn fp_double_access_ok(g: Gekko, word: u32) -> bool {
    let ea = mem_ea(g.cpu, word);
    fp_enabled(g.sys@) ==> g.access_ok(ea, 4) && g.access_ok(ea.wrapping_add(4), 4)
}

/// Whether `word` is a double-word floating-point load or store.
pub fn is_fp_double_form(word: u32) -> (r: bool)
    ensures
        r == fp_double_form(word),
{
    let op = word >> 26;
    let xo = Instruction(word).xo();
    op == 50 || op == 51 || op == 54 || op == 55 || (op == 31 && (xo == 599 || xo == 631 || xo == 727 || xo
        == 759))
}

/// Runs the double-word form `word` when it is one, and reports whether
/// it was; otherwise nothing changes.
#[verifier::spinoff_prover]
#[verifier::rlimit(40)]
fn exec_fp_double(g: &mut Gekko, word: u32) -> (handled: bool)
    requires
        old(g).wf(),
        fp_double_form(word) ==> fp_double_access_ok(*old(g), word),
    ensures
        final(g).wf(),
        handled == fp_double_form(word),
        handled ==> fp_double_step_ok(*old(g), *final(g), word),
        !handled ==> *final(g) == *old(g),
{
    if !is_fp_double_form(word) {
        return false;
    }
    if g.sys.msr & MSR_FP == 0 {
        raise_fp_unavailable(&mut g.cpu, &mut g.sys);
        return true;
    }
    let ghost g0 = *g;
    let instr = Instruction(word);
    let op = word >> 26;
    let xo = instr.xo();
    let ea = effective_address(&g.cpu, word);
    let d = instr.rd() as usize;
    let store = op == 54 || op == 55 || (op == 31 && (xo == 727 || xo == 759));
    let update = op == 51 || op == 55 || (op == 31 && (xo == 631 || xo == 759));
    if !store {
        let hi = g.read_u32(ea);
        let lo = g.read_u32(ea.wrapping_add(4));
        g.fp.ps0[d] = ((hi as u64) << 32) | (lo as u64);
        proof {
            assert(g.fp.ps0@ =~= vstd::array::spec_array_update(g0.fp.ps0, d as int, double_at(g0, ea))@);
        }
    } else {
        let bits = g.fp.ps0[d];
        g.write_u32(ea, (bits >> 32) as u32);
        let ghost mid = *g;
        g.write_u32(ea.wrapping_add(4), bits as u32);
        let ghost after = *g;
        assert(Gekko::bus_write_ok(mid, after, ea.wrapping_add(4), 4, bits as u32));
    }
    if update {
        g.cpu.write_gpr(instr.ra(), ea);
    }
    true
}

/// Whether every memory access the fast path makes for `word` lands on a
/// device register or in mapped memory.
pub fn fast_access_allowed(g: &Gekko, word: u32) -> (r: bool)
    ensures
        r == fast_access_ok(*g, word),
{
    let op = word >> 26;
    let ea = effective_address(&g.cpu, word);
    match mem_form_of(word) {
        Some(f) => g.access_allowed(ea, f.size),
        None => {
            if op == 46 || op == 47 {
                let first = Instruction(word).rd();
                let n: u32 = 32 - first as u32;
                let mut k: u32 = 0;
                let mut addr = ea;
                while k < n
                    invariant
                        k <= n,
                        n == 32 - first,
                        first == Instruction(word).spec_rd(),
                        mem_form(word) is None,
                        word >> 26u32 == 46 || word >> 26u32 == 47,
                        ea == mem_ea(g.cpu, word),
                        addr == multiple_addr(ea, k as int),
                        forall|j: int| 0 <= j < k ==> #[trigger] g.access_ok(multiple_addr(ea, j), 4),
                    decreases n - k,
                {
                    if !g.access_allowed(addr, 4) {
                        assert(!g.access_ok(multiple_addr(ea, k as int), 4));
                        return false;
                    }
                    addr = addr.wrapping_add(4);
                    k = k + 1;
                }
                true
            } else if is_fp_double_form(word) {
                g.sys.msr & MSR_FP == 0 || (g.access_allowed(ea, 4) && g.access_allowed(ea.wrapping_add(4), 4))
            } else {
                true
            }
        },
    }
}

/// Executes `word` when the fast path handles it and reports whether it
/// did; otherwise nothing changes.
#[verifier::spinoff_prover]
#[verifier::rlimit(40)]
pub fn try_execute_fast_instruction(g: &mut Gekko, word: u32) -> (handled: bool)
    requires
        old(g).wf(),
        fast_access_ok(*old(g), word),
    ensures
        final(g).wf(),
        handled == fast_handles(old(g).cpu, word),
        fast_cpu_spec(old(g).cpu, word) is Some ==> *final(g) == (Gekko {
            cpu: fast_cpu_spec(old(g).cpu, word)->0,
            ..*old(g)
        }),
        is_mtcrf(word) ==> {
            &&& *final(g) == (Gekko { cpu: Cpu { cr: final(g).cpu.cr, ..old(g).cpu }, ..*old(g) })
            &&& forall|f: int|
                0 <= f < 8 ==> #[trigger] cr_field(final(g).cpu.cr, f) == mtcrf_field(
                    old(g).cpu.cr,
                    old(g).cpu.gpr[Instruction(word).spec_rs() as int],
                    Instruction(word).spec_crm(),
                    f,
                )
        },
        mem_form(word) is Some ==> mem_step_ok(*old(g), *final(g), word, mem_form(word)->0),
        word >> 26u32 == 46 ==> lmw_ok(*old(g), *final(g), word),
        word >> 26u32 == 47 ==> final(g).cpu == old(g).cpu && stmw_ok(*old(g), *final(g), word),
        system_form(word) ==> system_step_ok(*old(g), *final(g), word),
        fp_bits_form(word) ==> fp_bits_step_ok(*old(g), *final(g), word),
        fp_double_form(word) ==> fp_double_step_ok(*old(g), *final(g), word),
        !handled ==> *final(g) == *old(g),
        fast_step(*old(g), *final(g), word),
{
    let cycles = g.cycles;
    if exec_system(&mut g.cpu, &mut g.sys, cycles, word) {
        return true;
    }
    if exec_fp_bits(&mut g.cpu, &mut g.sys, &mut g.fp, word) {
        return true;
    }
    if exec_fp_double(g, word) {
        return true;
    }
    let op = word >> 26;
    if 32 <= op && op <= 45 {
        let f = mem_form_of(word);
        match f {
            Some(form) => {
                exec_mem(g, word, form);
                return true;
            },
            None => {
                return false;
            },
        }
    } else if op == 46 {
        load_multiple(g, word);
        return true;
    } else if op == 47 {
        store_multiple(g, word);
        return true;
    } else if op == 31 {
        let instr = Instruction(word);
        let xo = xo10(instr);
        if xo == 144 {
            cr_ops(&mut g.cpu, CrOp::Mtcrf, instr);
            return true;
        }
        match mem_form_of(word) {
            Some(form) => {
                exec_mem(g, word, form);
                return true;
            },
            None => {},
        }
        if exec_x_arith(&mut g.cpu, word) {
            return true;
        }
        if exec_x_muldiv(&mut g.cpu, word) {
            return true;
        }
        return exec_x_logic(&mut g.cpu, word);
    } else if op == 16 || op == 18 || op == 19 {
        return exec_branch_form(&mut g.cpu, word);
    } else {
        return exec_immediate(&mut g.cpu, word);
    }
}

} // verus!
