use crate::cpu::fast::xo10;
use crate::cpu::instr::Instruction;
use crate::wasmjit::block::{term_index, term_number, BlockSpec, TermKind, MIN_COMPILED_BLOCK_INSTRS};
use vstd::prelude::*;

verus! {

/// Why a block stays with the interpreter.
#[derive(Clone, Copy, Debug, PartialEq, Eq, Structural)]
pub enum UnsupportedOpcode {
    Primary(u8),
    Xo10(u32),
    Mtspr(u16),
    Terminator(TermKind),
    Unprofitable { instr_count: u16 },
}

/// Primary opcodes whose lowering to wasm has been checked against the
/// interpreter: compares, the immediate arithmetic and logic forms,
/// `rlwinm`, and the D-form loads and stores.
pub open spec fn lowered_primary(op: u32) -> bool {
    (10 <= op <= 15) || op == 21 || (24 <= op <= 29) || (32 <= op <= 45)
}

/// Extended opcodes of primary 31 that are lowered to wasm.
pub open spec fn lowered_xo(xo: u32) -> bool {
    xo == 0 || xo == 8 || xo == 10 || xo == 23 || xo == 24 || xo == 28 || xo == 32 || xo == 40 || xo == 55
        || xo == 87 || xo == 119 || xo == 151 || xo == 183 || xo == 215 || xo == 247 || xo == 266 || xo
        == 279 || xo == 311 || xo == 316 || xo == 407 || xo == 439 || xo == 444 || xo == 536 || xo == 792
        || xo == 824
}

/// Why `word`, in the body of a block, cannot be compiled, if it cannot.
pub open spec fn instr_reason(word: u32) -> Option<UnsupportedOpcode> {
    let op = word >> 26u32;
    if lowered_primary(op) {
        None
    } else if op == 31 {
        if lowered_xo(Instruction(word).spec_xo()) {
            None
        } else {
            Some(UnsupportedOpcode::Xo10(Instruction(word).spec_xo()))
        }
    } else {
        Some(UnsupportedOpcode::Primary(op as u8))
    }
}

pub fn instruction_unsupported_reason(instr: Instruction) -> (r: Option<UnsupportedOpcode>)
    ensures
        r == instr_reason(instr.0),
{
    let op = instr.0 >> 26;
    if (10 <= op && op <= 15) || op == 21 || (24 <= op && op <= 29) || (32 <= op && op <= 45) {
        None
    } else if op == 31 {
        let xo = xo10(instr);
        if xo == 0 || xo == 8 || xo == 10 || xo == 23 || xo == 24 || xo == 28 || xo == 32 || xo == 40 || xo
            == 55 || xo == 87 || xo == 119 || xo == 151 || xo == 183 || xo == 215 || xo == 247 || xo == 266
            || xo == 279 || xo == 311 || xo == 316 || xo == 407 || xo == 439 || xo == 444 || xo == 536 || xo
            == 792 || xo == 824 {
            None
        } else {
            Some(UnsupportedOpcode::Xo10(xo))
        }
    } else {
        Some(UnsupportedOpcode::Primary(op as u8))
    }
}

/// Why the last instruction `word` of a block that ends as `term` cannot
/// be compiled, if it cannot: a block cut at the length cap ends in an
/// ordinary instruction, checked as such; otherwise only the plain,
/// linking and conditional branches and the branches to LR or CTR are
/// lowered, each matching its kind.
pub open spec fn terminator_reason(term: TermKind, word: u32) -> Option<UnsupportedOpcode> {
    let op = word >> 26u32;
    let lk = Instruction(word).spec_lk();
    match term {
        TermKind::LengthCap => instr_reason(word),
        TermKind::Branch => if op != 18 || lk {
            Some(UnsupportedOpcode::Terminator(TermKind::Branch))
        } else {
            None
        },
        TermKind::BranchLink => if op != 18 || !lk {
            Some(UnsupportedOpcode::Terminator(TermKind::BranchLink))
        } else {
            None
        },
        TermKind::BranchCond => if op != 16 || lk {
            Some(UnsupportedOpcode::Terminator(TermKind::BranchCond))
        } else {
            None
        },
        TermKind::BranchToReg => if op != 19 || !(Instruction(word).spec_xo() == 16 || Instruction(word).spec_xo()
            == 528) {
            Some(UnsupportedOpcode::Terminator(TermKind::BranchToReg))
        } else {
            None
        },
        other => Some(UnsupportedOpcode::Terminator(other)),
    }
}

pub fn terminator_unsupported_reason(term: TermKind, instr: Instruction) -> (r: Option<UnsupportedOpcode>)
    ensures
        r == terminator_reason(term, instr.0),
{
    let op = instr.0 >> 26;
    match term {
        TermKind::LengthCap => instruction_unsupported_reason(instr),
        TermKind::Branch => {
            if op != 18 || instr.lk() {
                Some(UnsupportedOpcode::Terminator(TermKind::Branch))
            } else {
                None
            }
        },
        TermKind::BranchLink => {
            if op != 18 || !instr.lk() {
                Some(UnsupportedOpcode::Terminator(TermKind::BranchLink))
            } else {
                None
            }
        },
        TermKind::BranchCond => {
            if op != 16 || instr.lk() {
                Some(UnsupportedOpcode::Terminator(TermKind::BranchCond))
            } else {
                None
            }
        },
        TermKind::BranchToReg => {
            let xo = xo10(instr);
            if op != 19 || !(xo == 16 || xo == 528) {
                Some(UnsupportedOpcode::Terminator(TermKind::BranchToReg))
            } else {
                None
            }
        },
        other => Some(UnsupportedOpcode::Terminator(other)),
    }
}

/// The first reason, from position `i` on, that an instruction of `instrs`
/// cannot be compiled: the body instructions by their opcodes, the last
/// one as the terminator `term`.
pub open spec fn body_reason(instrs: Seq<u32>, term: TermKind, i: int) -> Option<UnsupportedOpcode>
    decreases instrs.len() - i,
{
    if i < 0 || i >= instrs.len() {
        None
    } else if i == instrs.len() - 1 {
        terminator_reason(term, instrs[i])
    } else {
        match instr_reason(instrs[i]) {
            Some(r) => Some(r),
            None => body_reason(instrs, term, i + 1),
        }
    }
}

/// Why the instructions of `b` cannot be compiled, if they cannot; an
/// empty block counts as cut at the length cap.
pub open spec fn semantic_reason(b: BlockSpec) -> Option<UnsupportedOpcode> {
    if b.instrs@.len() == 0 {
        Some(UnsupportedOpcode::Terminator(TermKind::LengthCap))
    } else {
        body_reason(b.instrs@, b.terminator, 0)
    }
}

/// Why the single block `b` is not compiled, if it is not: empty, an
/// instruction that is not lowered, or too short to pay off. Only a block
/// that ends in a plain branch or at the length cap counts as too short;
/// one that ends in a conditional branch, a call or a branch to a
/// register is compiled whatever its length.
pub open spec fn block_reason(b: BlockSpec) -> Option<UnsupportedOpcode> {
    if b.instrs@.len() == 0 {
        Some(UnsupportedOpcode::Terminator(TermKind::LengthCap))
    } else {
        match body_reason(b.instrs@, b.terminator, 0) {
            Some(r) => Some(r),
            None => if b.instrs@.len() < MIN_COMPILED_BLOCK_INSTRS && (b.terminator == TermKind::Branch
                || b.terminator == TermKind::LengthCap) {
                Some(UnsupportedOpcode::Unprofitable { instr_count: b.instrs@.len() as u16 })
            } else {
                None
            },
        }
    }
}

fn scan_block(spec: &BlockSpec) -> (r: Option<UnsupportedOpcode>)
    requires
        spec.instrs@.len() > 0,
    ensures
        r == body_reason(spec.instrs@, spec.terminator, 0),
{
    let n = spec.instrs.len();
    let last = n - 1;
    let mut idx: usize = 0;
    while idx < last
        invariant
            n == spec.instrs@.len(),
            last == n - 1,
            idx <= last,
            body_reason(spec.instrs@, spec.terminator, 0) == body_reason(spec.instrs@, spec.terminator, idx as int),
        decreases last - idx,
    {
        match instruction_unsupported_reason(Instruction(spec.instrs[idx])) {
            Some(reason) => {
                return Some(reason);
            },
            None => {},
        }
        idx = idx + 1;
    }
    terminator_unsupported_reason(spec.terminator, Instruction(spec.instrs[last]))
}

pub fn block_semantic_unsupported_reason(spec: &BlockSpec) -> (r: Option<UnsupportedOpcode>)
    ensures
        r == semantic_reason(*spec),
{
    if spec.instrs.len() == 0 {
        return Some(UnsupportedOpcode::Terminator(TermKind::LengthCap));
    }
    scan_block(spec)
}

pub fn block_unsupported_reason(spec: &BlockSpec) -> (r: Option<UnsupportedOpcode>)
    ensures
        r == block_reason(*spec),
{
    if spec.instrs.len() == 0 {
        return Some(UnsupportedOpcode::Terminator(TermKind::LengthCap));
    }
    match scan_block(spec) {
        Some(reason) => Some(reason),
        None => {
            let short = spec.len() < MIN_COMPILED_BLOCK_INSTRS;
            match spec.terminator {
                TermKind::Branch | TermKind::LengthCap => {
                    if short {
                        Some(UnsupportedOpcode::Unprofitable { instr_count: spec.len() as u16 })
                    } else {
                        None
                    }
                },
                _ => None,
            }
        },
    }
}

/// Order of fallback reasons in reports: by kind, then by the number the
/// reason carries.
pub open spec fn reason_key(reason: UnsupportedOpcode) -> (u8, u32) {
    match reason {
        UnsupportedOpcode::Primary(op) => (0u8, op as u32),
        UnsupportedOpcode::Xo10(xo) => (1u8, xo),
        UnsupportedOpcode::Mtspr(spr) => (2u8, spr as u32),
        UnsupportedOpcode::Terminator(term) => (3u8, term_index(term)),
        UnsupportedOpcode::Unprofitable { instr_count } => (4u8, instr_count as u32),
    }
}

pub fn fallback_reason_sort_key(reason: UnsupportedOpcode) -> (r: (u8, u32))
    ensures
        r == reason_key(reason),
{
    match reason {
        UnsupportedOpcode::Primary(op) => (0, op as u32),
        UnsupportedOpcode::Xo10(xo) => (1, xo),
        UnsupportedOpcode::Mtspr(spr) => (2, spr as u32),
        UnsupportedOpcode::Terminator(term) => (3, term_number(term)),
        UnsupportedOpcode::Unprofitable { instr_count } => (4, instr_count as u32),
    }
}

/// Mnemonic shown for primary opcode `op` in fallback reports.
pub open spec fn primary_label(op: u8) -> Seq<char> {
    if op == 10 {
        "cmpli"@
    } else if op == 11 {
        "cmpi"@
    } else if op == 14 {
        "addi"@
    } else if op == 15 {
        "addis"@
    } else if op == 16 {
        "bc"@
    } else if op == 18 {
        "b"@
    } else if op == 19 {
        "bclr/bcctr/misc19"@
    } else if op == 21 {
        "rlwinm"@
    } else if op == 24 {
        "ori"@
    } else if op == 25 {
        "oris"@
    } else if op == 26 {
        "xori"@
    } else if op == 27 {
        "xoris"@
    } else if op == 28 {
        "andi."@
    } else if op == 29 {
        "andis."@
    } else if op == 31 {
        "xform31"@
    } else if op == 32 {
        "lwz"@
    } else if op == 33 {
        "lwzu"@
    } else if op == 34 {
        "lbz"@
    } else if op == 35 {
        "lbzu"@
    } else if op == 36 {
        "stw"@
    } else if op == 37 {
        "stwu"@
    } else if op == 38 {
        "stb"@
    } else if op == 39 {
        "stbu"@
    } else if op == 40 {
        "lhz"@
    } else if op == 41 {
        "lhzu"@
    } else if op == 42 {
        "lha"@
    } else if op == 43 {
        "lhau"@
    } else if op == 44 {
        "sth"@
    } else if op == 45 {
        "sthu"@
    } else if op == 46 {
        "lmw"@
    } else if op == 47 {
        "stmw"@
    } else {
        "op"@
    }
}

pub fn primary_opcode_label(op: u8) -> (r: &'static str)
    ensures
        r@ == primary_label(op),
{
    if op == 10 {
        "cmpli"
    } else if op == 11 {
        "cmpi"
    } else if op == 14 {
        "addi"
    } else if op == 15 {
        "addis"
    } else if op == 16 {
        "bc"
    } else if op == 18 {
        "b"
    } else if op == 19 {
        "bclr/bcctr/misc19"
    } else if op == 21 {
        "rlwinm"
    } else if op == 24 {
        "ori"
    } else if op == 25 {
        "oris"
    } else if op == 26 {
        "xori"
    } else if op == 27 {
        "xoris"
    } else if op == 28 {
        "andi."
    } else if op == 29 {
        "andis."
    } else if op == 31 {
        "xform31"
    } else if op == 32 {
        "lwz"
    } else if op == 33 {
        "lwzu"
    } else if op == 34 {
        "lbz"
    } else if op == 35 {
        "lbzu"
    } else if op == 36 {
        "stw"
    } else if op == 37 {
        "stwu"
    } else if op == 38 {
        "stb"
    } else if op == 39 {
        "stbu"
    } else if op == 40 {
        "lhz"
    } else if op == 41 {
        "lhzu"
    } else if op == 42 {
        "lha"
    } else if op == 43 {
        "lhau"
    } else if op == 44 {
        "sth"
    } else if op == 45 {
        "sthu"
    } else if op == 46 {
        "lmw"
    } else if op == 47 {
        "stmw"
    } else {
        "op"
    }
}

/// Label shown for a terminator kind in fallback reports.
pub open spec fn term_label(t: TermKind) -> Seq<char> {
    match t {
        TermKind::Branch => "b-term"@,
        TermKind::BranchLink => "bl-term"@,
        TermKind::BranchCond => "bc-term"@,
        TermKind::BranchToReg => "breg-term"@,
        TermKind::SystemCall => "sc-term"@,
        TermKind::Rfi => "rfi-term"@,
        TermKind::Mtmsr => "mtmsr-term"@,
        TermKind::Mtspr => "mtspr-term"@,
        TermKind::Isync => "isync-term"@,
        TermKind::LengthCap => "len-cap"@,
    }
}

pub fn terminator_label(term: TermKind) -> (r: &'static str)
    ensures
        r@ == term_label(term),
{
    match term {
        TermKind::Branch => "b-term",
        TermKind::BranchLink => "bl-term",
        TermKind::BranchCond => "bc-term",
        TermKind::BranchToReg => "breg-term",
        TermKind::SystemCall => "sc-term",
        TermKind::Rfi => "rfi-term",
        TermKind::Mtmsr => "mtmsr-term",
        TermKind::Mtspr => "mtspr-term",
        TermKind::Isync => "isync-term",
        TermKind::LengthCap => "len-cap",
    }
}

/// Decimal digit `d`.
pub open spec fn dec_digit(d: int) -> Seq<char> {
    "0123456789"@.subrange(d, d + 1)
}

/// `n` in decimal, without leading zeros.
pub open spec fn decimal(n: nat) -> Seq<char>
    decreases n,
{
    if n < 10 {
        dec_digit(n as int)
    } else {
        decimal(n / 10) + dec_digit((n % 10) as int)
    }
}

fn push_decimal(out: &mut String, n: u32)
    ensures
        final(out)@ == old(out)@ + decimal(n as nat),
    decreases n,
{
    if n >= 10 {
        push_decimal(out, n / 10);
    }
    let digits = "0123456789";
    proof {
        reveal_strlit("0123456789");
        assert(digits.is_ascii());
    }
    let d = (n % 10) as usize;
    out.append(digits.substring_ascii(d, d + 1));
    assert(final(out)@ =~= old(out)@ + decimal(n as nat));
}

/// How a fallback reason reads in reports: the mnemonic and opcode, the
/// extended opcode, the SPR number, the terminator, or the block length.
pub open spec fn reason_text(reason: UnsupportedOpcode) -> Seq<char> {
    match reason {
        UnsupportedOpcode::Primary(op) => primary_label(op) + "("@ + decimal(op as nat) + ")"@,
        UnsupportedOpcode::Xo10(xo) => "xo"@ + decimal(xo as nat),
        UnsupportedOpcode::Mtspr(spr) => "mtspr"@ + decimal(spr as nat),
        UnsupportedOpcode::Terminator(term) => term_label(term),
        UnsupportedOpcode::Unprofitable { instr_count } => "tiny"@ + decimal(instr_count as nat),
    }
}

pub fn format_fallback_reason(reason: UnsupportedOpcode) -> (r: String)
    ensures
        r@ == reason_text(reason),
{
    let mut out = String::new();
    match reason {
        UnsupportedOpcode::Primary(op) => {
            out.append(primary_opcode_label(op));
            out.append("(");
            push_decimal(&mut out, op as u32);
            out.append(")");
        },
        UnsupportedOpcode::Xo10(xo) => {
            out.append("xo");
            push_decimal(&mut out, xo);
        },
        UnsupportedOpcode::Mtspr(spr) => {
            out.append("mtspr");
            push_decimal(&mut out, spr as u32);
        },
        UnsupportedOpcode::Terminator(term) => {
            out.append(terminator_label(term));
        },
        UnsupportedOpcode::Unprofitable { instr_count } => {
            out.append("tiny");
            push_decimal(&mut out, instr_count as u32);
        },
    }
    assert(out@ =~= reason_text(reason));
    out
}

} // verus!
