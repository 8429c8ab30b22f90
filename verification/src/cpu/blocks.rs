use crate::cpu::instr::Instruction;
use vstd::prelude::*;

verus! {

/// Longest block the block interpreter decodes.
pub const MAX_BLOCK_INSTRS: usize = 256;
/// Longest loop body (without its branch) taken for a polling loop.
pub const MAX_IDLE_BODY: usize = 6;

/// How a decoded block ends.
#[derive(Debug, Clone, Copy, PartialEq, Eq, Structural)]
pub enum TermKind {
    Branch,
    BranchCond,
    BranchToReg,
    SystemCall,
    Rfi,
    Mtmsr,
    Mtspr,
    LengthCap,
}

/// Whether a block only waits for an event.
#[derive(Debug, Clone, Copy, PartialEq, Eq, Structural)]
pub enum IdleClass {
    Busy,
    BranchToSelf,
    PollingLoop,
}

/// SPR number of an `mtspr`/`mfspr` word (the field's halves swapped).
pub open spec fn spr_number(word: u32) -> u32 {
    let raw = (word >> 11u32) & 0x3FF;
    (raw / 32 + (raw % 32) * 32) as u32
}

/// SPRs a block may write without ending: XER, LR, CTR, DEC, SRR0/1,
/// SPRG0..3, the GQRs, HID2, HID0 and HID1.
pub open spec fn block_safe_spr(spr: u16) -> bool {
    spr == 1 || spr == 8 || spr == 9 || spr == 22 || spr == 26 || spr == 27 || (272 <= spr <= 275) || (912
        <= spr <= 920) || spr == 1008 || spr == 1009
}

pub fn mtspr_is_block_safe(spr: u16) -> (r: bool)
    ensures
        r == block_safe_spr(spr),
{
    spr == 1 || spr == 8 || spr == 9 || spr == 22 || spr == 26 || spr == 27 || (272 <= spr && spr <= 275)
        || (912 <= spr && spr <= 920) || spr == 1008 || spr == 1009
}

/// How `word` ends a block, if it does: conditional and unconditional
/// branches, `sc`, branches to LR/CTR, `rfi`, `mtmsr`, and `mtspr` to an
/// SPR the block interpreter cannot keep in flight.
pub open spec fn terminator_of(word: u32) -> Option<TermKind> {
    let primary = word >> 26u32;
    let xo = Instruction(word).spec_xo();
    if primary == 16 {
        Some(TermKind::BranchCond)
    } else if primary == 17 {
        Some(TermKind::SystemCall)
    } else if primary == 18 {
        Some(TermKind::Branch)
    } else if primary == 19 {
        if xo == 16 || xo == 528 {
            Some(TermKind::BranchToReg)
        } else if xo == 50 {
            Some(TermKind::Rfi)
        } else {
            None
        }
    } else if primary == 31 {
        if xo == 146 {
            Some(TermKind::Mtmsr)
        } else if xo == 467 && !block_safe_spr(spr_number(word) as u16) {
            Some(TermKind::Mtspr)
        } else {
            None
        }
    } else {
        None
    }
}

pub fn classify_terminator(instr: Instruction) -> (r: Option<TermKind>)
    ensures
        r == terminator_of(instr.0),
{
    let word = instr.0;
    let primary = word >> 26;
    if primary == 16 {
        Some(TermKind::BranchCond)
    } else if primary == 17 {
        Some(TermKind::SystemCall)
    } else if primary == 18 {
        Some(TermKind::Branch)
    } else if primary == 19 {
        let xo = instr.xo();
        if xo == 16 || xo == 528 {
            Some(TermKind::BranchToReg)
        } else if xo == 50 {
            Some(TermKind::Rfi)
        } else {
            None
        }
    } else if primary == 31 {
        let xo = instr.xo();
        if xo == 146 {
            Some(TermKind::Mtmsr)
        } else if xo == 467 {
            let spr_num = instr.spr_swapped() as u16;
            proof {
                crate::dsp::instr::lemma_and_le_u32(word >> 11u32, 0x3FF);
                assert(instr.spec_spr() as u32 == (word >> 11u32) & 0x3FF);
            }
            assert(spr_num == spr_number(word) as u16);
            if mtspr_is_block_safe(spr_num) {
                None
            } else {
                Some(TermKind::Mtspr)
            }
        } else {
            None
        }
    } else {
        None
    }
}

/// Target of an unconditional branch without link at `pc`, which the block
/// decoder may follow instead of ending the block.
pub open spec fn extension_target_of(word: u32, pc: u32) -> Option<u32> {
    let i = Instruction(word);
    if word >> 26u32 != 18 || i.spec_lk() {
        None
    } else if i.spec_aa() {
        Some(i.spec_li() as u32)
    } else {
        Some(pc.wrapping_add_signed(i.spec_li()))
    }
}

pub fn extension_target(instr: Instruction, pc: u32) -> (r: Option<u32>)
    ensures
        r == extension_target_of(instr.0, pc),
{
    if instr.0 >> 26 != 18 || instr.lk() {
        return None;
    }
    let li = instr.li();
    Some(if instr.aa() { li as u32 } else { pc.wrapping_add_signed(li) })
}

/// Register bit `r` of a dataflow mask.
fn reg_bit(r: u32) -> (b: u32)
    requires
        r < 32,
    ensures
        b == 1u32 << r,
{
    1u32 << r
}

/// Registers read and written by an X-form (primary 31) instruction, as
/// bit masks, for the forms a polling loop may contain.
pub open spec fn xform_dataflow_of(word: u32) -> Option<(u32, u32)> {
    let i = Instruction(word);
    let d = 1u32 << (i.spec_rd() as u32);
    let a = 1u32 << (i.spec_ra() as u32);
    let b = 1u32 << (i.spec_rb() as u32);
    let a0 = if i.spec_ra() == 0 { 0u32 } else { a };
    let xo = i.spec_xo();
    if xo == 266 || xo == 40 || xo == 10 || xo == 138 || xo == 202 || xo == 234 || xo == 8 || xo == 136
        || xo == 200 || xo == 232 || xo == 104 || xo == 235 || xo == 75 || xo == 11 || xo == 491 || xo
        == 459 || xo == 778 || xo == 552 || xo == 522 || xo == 650 || xo == 714 || xo == 746 || xo == 520
        || xo == 648 || xo == 712 || xo == 744 || xo == 616 || xo == 747 || xo == 1003 || xo == 971 {
        Some((a | b, d))
    } else if xo == 28 || xo == 60 || xo == 124 || xo == 284 || xo == 316 || xo == 412 || xo == 444 || xo
        == 476 {
        Some((d | b, a))
    } else if xo == 26 || xo == 922 || xo == 954 {
        Some((d, a))
    } else if xo == 24 || xo == 536 || xo == 792 {
        Some((d | b, a))
    } else if xo == 824 {
        Some((d, a))
    } else if xo == 0 || xo == 32 {
        Some((a | b, 0))
    } else if xo == 19 || xo == 83 || xo == 87 || xo == 279 || xo == 371 || xo == 595 || xo == 659 {
        Some((d | a0, d))
    } else if xo == 54 || xo == 86 || xo == 246 || xo == 278 || xo == 470 || xo == 758 || xo == 982 || xo
        == 1014 {
        Some((0, 0))
    } else {
        None
    }
}

pub fn xform_dataflow(instr: Instruction) -> (r: Option<(u32, u32)>)
    ensures
        r == xform_dataflow_of(instr.0),
{
    let d = reg_bit(instr.rd() as u32);
    let a = reg_bit(instr.ra() as u32);
    let b = reg_bit(instr.rb() as u32);
    let a0 = if instr.ra() == 0 { 0 } else { a };
    let xo = instr.xo();
    if xo == 266 || xo == 40 || xo == 10 || xo == 138 || xo == 202 || xo == 234 || xo == 8 || xo == 136
        || xo == 200 || xo == 232 || xo == 104 || xo == 235 || xo == 75 || xo == 11 || xo == 491 || xo
        == 459 || xo == 778 || xo == 552 || xo == 522 || xo == 650 || xo == 714 || xo == 746 || xo == 520
        || xo == 648 || xo == 712 || xo == 744 || xo == 616 || xo == 747 || xo == 1003 || xo == 971 {
        Some((a | b, d))
    } else if xo == 28 || xo == 60 || xo == 124 || xo == 284 || xo == 316 || xo == 412 || xo == 444 || xo
        == 476 {
        Some((d | b, a))
    } else if xo == 26 || xo == 922 || xo == 954 {
        Some((d, a))
    } else if xo == 24 || xo == 536 || xo == 792 {
        Some((d | b, a))
    } else if xo == 824 {
        Some((d, a))
    } else if xo == 0 || xo == 32 {
        Some((a | b, 0))
    } else if xo == 19 || xo == 83 || xo == 87 || xo == 279 || xo == 371 || xo == 595 || xo == 659 {
        Some((d | a0, d))
    } else if xo == 54 || xo == 86 || xo == 246 || xo == 278 || xo == 470 || xo == 758 || xo == 982 || xo
        == 1014 {
        Some((0, 0))
    } else {
        None
    }
}

/// Registers read and written by `word`, as bit masks, for the forms a
/// polling loop may contain; `None` for anything else.
pub open spec fn gpr_dataflow_of(word: u32) -> Option<(u32, u32)> {
    let i = Instruction(word);
    let d = 1u32 << (i.spec_rd() as u32);
    let a = 1u32 << (i.spec_ra() as u32);
    let b = 1u32 << (i.spec_rb() as u32);
    let a0 = if i.spec_ra() == 0 { 0u32 } else { a };
    let op = word >> 26u32;
    if op == 14 || op == 15 {
        Some((a0, d))
    } else if op == 7 || op == 8 || op == 12 || op == 13 {
        Some((a, d))
    } else if op == 10 || op == 11 {
        Some((a, 0))
    } else if 24 <= op <= 29 {
        Some((d, a))
    } else if op == 20 {
        Some((d | a, a))
    } else if op == 21 {
        Some((d, a))
    } else if op == 23 {
        Some((d | b, a))
    } else if op == 32 || op == 34 || op == 40 || op == 42 {
        Some((a0, d))
    } else if op == 33 || op == 35 || op == 41 || op == 43 {
        Some((a, d | a))
    } else if op == 31 {
        xform_dataflow_of(word)
    } else {
        None
    }
}

pub fn gpr_dataflow(instr: Instruction) -> (r: Option<(u32, u32)>)
    ensures
        r == gpr_dataflow_of(instr.0),
{
    let d = reg_bit(instr.rd() as u32);
    let a = reg_bit(instr.ra() as u32);
    let b = reg_bit(instr.rb() as u32);
    let a0 = if instr.ra() == 0 { 0 } else { a };
    let op = instr.0 >> 26;
    if op == 14 || op == 15 {
        Some((a0, d))
    } else if op == 7 || op == 8 || op == 12 || op == 13 {
        Some((a, d))
    } else if op == 10 || op == 11 {
        Some((a, 0))
    } else if 24 <= op && op <= 29 {
        Some((d, a))
    } else if op == 20 {
        Some((d | a, a))
    } else if op == 21 {
        Some((d, a))
    } else if op == 23 {
        Some((d | b, a))
    } else if op == 32 || op == 34 || op == 40 || op == 42 {
        Some((a0, d))
    } else if op == 33 || op == 35 || op == 41 || op == 43 {
        Some((a, d | a))
    } else if op == 31 {
        xform_dataflow(instr)
    } else {
        None
    }
}

/// Scans a loop body in order: every instruction must have known dataflow,
/// and none may write a register that the loop reads before writing it
/// (a value from outside the loop); `disallowed` and `written` carry the
/// masks so far.
pub open spec fn idle_body_ok(body: Seq<u32>, disallowed: u32, written: u32) -> bool
    decreases body.len(),
{
    if body.len() == 0 {
        true
    } else {
        match gpr_dataflow_of(body[0]) {
            None => false,
            Some((reads, writes)) => {
                let d = disallowed | (reads & !written);
                if writes & d != 0 {
                    false
                } else {
                    idle_body_ok(body.drop_first(), d, written | writes)
                }
            },
        }
    }
}

/// Whether a loop body only observes state from outside the loop.
pub fn validate_idle_loop(body: &[u32]) -> (r: bool)
    ensures
        r == idle_body_ok(body@, 0, 0),
{
    let mut write_disallowed: u32 = 0;
    let mut written: u32 = 0;
    let mut i: usize = 0;
    assert(body@.skip(0) =~= body@);
    while i < body.len()
        invariant
            i <= body@.len(),
            idle_body_ok(body@, 0, 0) == idle_body_ok(body@.skip(i as int), write_disallowed, written),
        decreases body@.len() - i,
    {
        let raw = body[i];
        assert(body@.skip(i as int)[0] == raw);
        assert(body@.skip(i as int).drop_first() =~= body@.skip(i as int + 1));
        let (reads, writes) = match gpr_dataflow(Instruction(raw)) {
            Some(pair) => pair,
            None => {
                return false;
            },
        };
        let externals = reads & !written;
        write_disallowed = write_disallowed | externals;
        if writes & write_disallowed != 0 {
            return false;
        }
        written = written | writes;
        i = i + 1;
    }
    assert(body@.skip(i as int) =~= Seq::<u32>::empty());
    true
}

/// Whether `word` at `branch_pc` is the closing branch of a polling loop
/// starting at `block_start_pc`: a `bc` without link that tests a
/// condition bit and jumps back to the start.
pub open spec fn idle_terminator(word: u32, branch_pc: u32, block_start_pc: u32) -> bool {
    let i = Instruction(word);
    &&& word >> 26u32 == 16
    &&& !i.spec_lk()
    &&& i.spec_bo() & 0b00100u8 != 0
    &&& (if i.spec_aa() {
        i.spec_bd() as u32
    } else {
        branch_pc.wrapping_add_signed(i.spec_bd())
    }) == block_start_pc
}

pub fn is_idle_loop_terminator(instr: Instruction, branch_pc: u32, block_start_pc: u32) -> (r: bool)
    ensures
        r == idle_terminator(instr.0, branch_pc, block_start_pc),
{
    if instr.0 >> 26 != 16 {
        return false;
    }
    if instr.lk() {
        return false;
    }
    if instr.bo() & 0b00100 == 0 {
        return false;
    }
    let target = if instr.aa() { instr.bd() as u32 } else { branch_pc.wrapping_add_signed(instr.bd()) };
    target == block_start_pc
}

/// A single unconditional branch back to its own address.
pub open spec fn branch_to_self(instrs: Seq<u32>, terminator: TermKind, start_pc: u32) -> bool {
    &&& terminator == TermKind::Branch
    &&& instrs.len() == 1
    &&& !Instruction(instrs[0]).spec_lk()
    &&& (if Instruction(instrs[0]).spec_aa() {
        Instruction(instrs[0]).spec_li() as u32
    } else {
        start_pc.wrapping_add_signed(Instruction(instrs[0]).spec_li())
    }) == start_pc
}

pub fn classify_branch_to_self(instrs: &[u32], terminator: TermKind, start_pc: u32) -> (r: Option<IdleClass>)
    ensures
        r == if branch_to_self(instrs@, terminator, start_pc) {
            Some(IdleClass::BranchToSelf)
        } else {
            None
        },
{
    if terminator != TermKind::Branch || instrs.len() != 1 {
        return None;
    }
    let instr = Instruction(instrs[0]);
    if instr.lk() {
        return None;
    }
    let target = if instr.aa() { instr.li() as u32 } else { start_pc.wrapping_add_signed(instr.li()) };
    if target == start_pc {
        Some(IdleClass::BranchToSelf)
    } else {
        None
    }
}

/// A short loop (one to six body instructions) closed by a conditional
/// branch back to its start, whose body only observes outside state.
pub open spec fn polling_loop(instrs: Seq<u32>, terminator: TermKind, start_pc: u32) -> bool {
    let last = instrs.len() - 1;
    &&& terminator == TermKind::BranchCond
    &&& 1 <= last <= MAX_IDLE_BODY
    &&& idle_terminator(instrs[last], start_pc.wrapping_add((last * 4) as u32), start_pc)
    &&& idle_body_ok(instrs.take(last), 0, 0)
}

pub fn classify_polling_loop(instrs: &[u32], terminator: TermKind, start_pc: u32) -> (r: bool)
    ensures
        r == polling_loop(instrs@, terminator, start_pc),
{
    if terminator != TermKind::BranchCond {
        return false;
    }
    if instrs.len() < 2 {
        return false;
    }
    let last_idx = instrs.len() - 1;
    if last_idx > MAX_IDLE_BODY {
        return false;
    }
    let term_pc = start_pc.wrapping_add((last_idx as u32) * 4);
    if !is_idle_loop_terminator(Instruction(instrs[last_idx]), term_pc, start_pc) {
        return false;
    }
    let body = vstd::slice::slice_subrange(instrs, 0, last_idx);
    assert(body@ =~= instrs@.take(last_idx as int));
    validate_idle_loop(body)
}

/// Idle class of a decoded block.
pub open spec fn idle_class_of(instrs: Seq<u32>, terminator: TermKind, start_pc: u32) -> IdleClass {
    if branch_to_self(instrs, terminator, start_pc) {
        IdleClass::BranchToSelf
    } else if polling_loop(instrs, terminator, start_pc) {
        IdleClass::PollingLoop
    } else {
        IdleClass::Busy
    }
}

pub fn classify_idle_loop(instrs: &[u32], terminator: TermKind, start_pc: u32) -> (r: IdleClass)
    ensures
        r == idle_class_of(instrs@, terminator, start_pc),
{
    if let Some(class) = classify_branch_to_self(instrs, terminator, start_pc) {
        return class;
    }
    if classify_polling_loop(instrs, terminator, start_pc) {
        return IdleClass::PollingLoop;
    }
    IdleClass::Busy
}

} // verus!
