use crate::cpu::fast::{fp_double_form, is_fp_double_form};
use crate::cpu::fpscr::Fpscr;
use crate::cpu::instr::Instruction;
use crate::cpu::state::Cpu;
use crate::cpu::sysregs::{fp_enabled, fp_unavailable_spec, raise_fp_unavailable, SysRegs, SysView, MSR_FP};
use vstd::prelude::*;

verus! {

broadcast use vstd::array::group_array_axioms;

/// Sign bit of a double held as bits.
pub const SIGN_BIT: u64 = 0x8000_0000_0000_0000;

/// The floating-point registers as bit patterns: the first and second
/// slot of each paired-single register (the first is the scalar value),
/// and the FPSCR.
#[derive(Clone, Copy)]
pub struct FpRegs {
    pub ps0: [u64; 32],
    pub ps1: [u64; 32],
    pub fpscr: Fpscr,
}

impl FpRegs {
    pub fn new() -> (r: FpRegs)
        ensures
            forall|i: int| 0 <= i < 32 ==> r.ps0[i] == 0 && r.ps1[i] == 0,
            r.fpscr.raw == 0,
    {
        FpRegs { ps0: [0u64; 32], ps1: [0u64; 32], fpscr: Fpscr { raw: 0 } }
    }
}

/// Five-bit field of `word` at `shift` (lsb0).
pub open spec fn field5(word: u32, shift: u32) -> int {
    ((word >> shift) & 0x1F) as int
}

/// The floating-point forms that only move or flip bits: `fmr`, `fneg`,
/// `fabs`, `fnabs`, `mtfsb0`, `mtfsb1`, `ps_mr`, `ps_neg`, `ps_abs`,
/// `ps_nabs` and the four `ps_merge` forms.
pub open spec fn fp_bits_form(word: u32) -> bool {
    let op = word >> 26u32;
    let xo = (word >> 1u32) & 0x3FF;
    let sub = (word >> 1u32) & 0x1F;
    let unary = (word >> 6u32) & 0xF;
    ||| op == 63 && (xo == 72 || xo == 40 || xo == 264 || xo == 136 || xo == 38 || xo == 70)
    ||| op == 4 && sub == 8 && (unary == 1 || unary == 2 || unary == 4 || unary == 8)
    ||| op == 4 && sub == 16
}

/// FPSCR after `mtfsb1` (set) or `mtfsb0` (clear) of bit `bit` (msb0);
/// bits 1 and 2 (FEX, VX) are summaries and stay as they are.
pub open spec fn fpscr_with_bit(fpscr: u32, bit: int, set: bool) -> u32 {
    let mask = 0x8000_0000u32 >> (bit as u32);
    if bit == 1 || bit == 2 {
        fpscr
    } else if set {
        fpscr | mask
    } else {
        fpscr & !mask
    }
}

/// Whether `word` is a bit form.
pub fn is_fp_bits_form(word: u32) -> (r: bool)
    ensures
        r == fp_bits_form(word),
{
    let op = word >> 26;
    let xo = (word >> 1) & 0x3FF;
    let sub = (word >> 1) & 0x1F;
    let unary = (word >> 6) & 0xF;
    (op == 63 && (xo == 72 || xo == 40 || xo == 264 || xo == 136 || xo == 38 || xo == 70)) || (op == 4 && sub == 8
        && (unary == 1 || unary == 2 || unary == 4 || unary == 8)) || (op == 4 && sub == 16)
}

/// The floating-point forms run outside this library: the scalar and
/// paired-single arithmetic, conversion and compare forms, the
/// single-precision and quantized loads and stores, `stfiwx`, and the
/// FPSCR moves.
pub open spec fn float_form(word: u32) -> bool {
    let op = word >> 26u32;
    let xo = Instruction(word).spec_xo();
    ||| (op == 4 || (48 <= op && op <= 63)) && !fp_bits_form(word) && !fp_double_form(word)
    ||| op == 31 && (xo == 535 || xo == 567 || xo == 663 || xo == 695 || xo == 983)
}

/// Whether `word` is a floating-point form run outside this library.
pub fn is_float_form(word: u32) -> (r: bool)
    ensures
        r == float_form(word),
{
    let op = word >> 26;
    let xo = Instruction(word).xo();
    ((op == 4 || (48 <= op && op <= 63)) && !is_fp_bits_form(word) && !is_fp_double_form(word)) || (op == 31 && (xo
        == 535 || xo == 567 || xo == 663 || xo == 695 || xo == 983))
}

/// `v` with its sign as the form `word` asks: kept, flipped, cleared or
/// set.
pub open spec fn sign_op(word: u32, v: u64) -> u64 {
    let op = word >> 26u32;
    let xo = (word >> 1u32) & 0x3FF;
    let unary = (word >> 6u32) & 0xF;
    if (op == 63 && xo == 40) || (op == 4 && unary == 1) {
        v ^ SIGN_BIT
    } else if (op == 63 && xo == 264) || (op == 4 && unary == 8) {
        v & !SIGN_BIT
    } else if (op == 63 && xo == 136) || (op == 4 && unary == 4) {
        v | SIGN_BIT
    } else {
        v
    }
}

/// CR with field 1 taken from FPSCR bits 0..=3 (FX, FEX, VX, OX).
pub open spec fn cr1_from_fpscr(cr: u32, fpscr: u32) -> u32 {
    (cr & !0x0F00_0000u32) | (((fpscr >> 28u32) & 0xF) << 24u32)
}

/// The registers after the bit form `word`, when floating point is
/// available.
pub open spec fn fp_bits_spec(cpu: Cpu, fp: FpRegs, word: u32) -> (Cpu, FpRegs) {
    let op = word >> 26u32;
    let sub = (word >> 1u32) & 0x1F;
    let d = field5(word, 21);
    let a = field5(word, 16);
    let b = field5(word, 11);
    let kind = (word >> 6u32) & 0x3;
    let xo = (word >> 1u32) & 0x3FF;
    let fp2 = if op == 63 && (xo == 38 || xo == 70) {
        FpRegs { fpscr: Fpscr { raw: fpscr_with_bit(fp.fpscr.raw, d, xo == 38) }, ..fp }
    } else if op == 63 {
        FpRegs { ps0: vstd::array::spec_array_update(fp.ps0, d, sign_op(word, fp.ps0[b])), ..fp }
    } else if sub == 8 {
        FpRegs {
            ps0: vstd::array::spec_array_update(fp.ps0, d, sign_op(word, fp.ps0[b])),
            ps1: vstd::array::spec_array_update(fp.ps1, d, sign_op(word, fp.ps1[b])),
            ..fp
        }
    } else {
        let p0 = if kind == 0 || kind == 1 {
            fp.ps0[a]
        } else {
            fp.ps1[a]
        };
        let p1 = if kind == 0 || kind == 2 {
            fp.ps0[b]
        } else {
            fp.ps1[b]
        };
        FpRegs { ps0: vstd::array::spec_array_update(fp.ps0, d, p0), ps1: vstd::array::spec_array_update(fp.ps1, d, p1), ..fp }
    };
    let cpu2 = if word & 1 != 0 {
        Cpu { cr: cr1_from_fpscr(cpu.cr, fp2.fpscr.raw), ..cpu }
    } else {
        cpu
    };
    (cpu2, fp2)
}

/// Runs `word` when it is a bit form, as the instruction at `cpu.cia`,
/// and reports whether it was: with floating point unavailable the
/// exception is taken instead; otherwise nothing changes.
pub fn exec_fp_bits(cpu: &mut Cpu, s: &mut SysRegs, fp: &mut FpRegs, word: u32) -> (handled: bool)
    requires
        old(s).wf(),
    ensures
        final(s).wf(),
        handled == fp_bits_form(word),
        handled && !fp_enabled(old(s)@) ==> (*final(cpu), final(s)@) == fp_unavailable_spec(*old(cpu), old(s)@)
            && *final(fp) == *old(fp),
        handled && fp_enabled(old(s)@) ==> (*final(cpu), *final(fp)) == fp_bits_spec(*old(cpu), *old(fp), word)
            && *final(s) == *old(s),
        !handled ==> *final(cpu) == *old(cpu) && *final(s) == *old(s) && *final(fp) == *old(fp),
{
    let op = word >> 26;
    let xo = (word >> 1) & 0x3FF;
    let sub = (word >> 1) & 0x1F;
    let unary = (word >> 6) & 0xF;
    let is_form = is_fp_bits_form(word);
    if !is_form {
        return false;
    }
    if s.msr & MSR_FP == 0 {
        raise_fp_unavailable(cpu, s);
        return true;
    }
    let d = ((word >> 21) & 0x1F) as usize;
    let a = ((word >> 16) & 0x1F) as usize;
    let b = ((word >> 11) & 0x1F) as usize;
    proof {
        assert((word >> 21u32) & 0x1F < 32) by (bit_vector);
        assert((word >> 16u32) & 0x1F < 32) by (bit_vector);
        assert((word >> 11u32) & 0x1F < 32) by (bit_vector);
    }
    let ghost fp0 = *fp;
    let neg = (op == 63 && xo == 40) || (op == 4 && unary == 1);
    let abs = (op == 63 && xo == 264) || (op == 4 && unary == 8);
    let nabs = (op == 63 && xo == 136) || (op == 4 && unary == 4);
    if op == 63 && (xo == 38 || xo == 70) {
        let f = fp.fpscr.raw;
        let mask = 0x8000_0000u32 >> (d as u32);
        fp.fpscr = Fpscr {
            raw: if d == 1 || d == 2 {
                f
            } else if xo == 38 {
                f | mask
            } else {
                f & !mask
            },
        };
    } else if op == 63 || sub == 8 {
        let v0 = fp.ps0[b];
        let v1 = fp.ps1[b];
        let r0 = if neg {
            v0 ^ SIGN_BIT
        } else if abs {
            v0 & !SIGN_BIT
        } else if nabs {
            v0 | SIGN_BIT
        } else {
            v0
        };
        let r1 = if neg {
            v1 ^ SIGN_BIT
        } else if abs {
            v1 & !SIGN_BIT
        } else if nabs {
            v1 | SIGN_BIT
        } else {
            v1
        };
        fp.ps0[d] = r0;
        if op != 63 {
            fp.ps1[d] = r1;
        }
    } else {
        let kind = (word >> 6) & 0x3;
        let p0 = if kind == 0 || kind == 1 {
            fp.ps0[a]
        } else {
            fp.ps1[a]
        };
        let p1 = if kind == 0 || kind == 2 {
            fp.ps0[b]
        } else {
            fp.ps1[b]
        };
        fp.ps0[d] = p0;
        fp.ps1[d] = p1;
    }
    if word & 1 != 0 {
        let f = fp.fpscr.raw;
        cpu.cr = (cpu.cr & !0x0F00_0000u32) | (((f >> 28) & 0xF) << 24);
    }
    proof {
        let r = fp_bits_spec(*old(cpu), fp0, word);
        assert(fp.ps0@ =~= r.1.ps0@);
        assert(fp.ps1@ =~= r.1.ps1@);
    }
    true
}

} // verus!
