use crate::cpu::fast::{primary_opcode, xo10};
use crate::cpu::instr::Instruction;
use crate::wasmjit::block::{end_pc_of, BlockSpec, TermKind, TraceSpec};
use crate::wasmjit::classify::{body_reason, instr_reason, semantic_reason, terminator_reason};
use crate::wasmjit::lower::{
    addcx_code, addi_like_code, addic_code, addx_code, andi_dot_like_code, andx_code,
    bc_terminator_code, branch_to_reg_terminator_code, compare_imm_code, compare_xform_code,
    emit_addcx, emit_addi_like, emit_addic, emit_addx, emit_andi_dot_like, emit_andx,
    emit_bc_terminator, emit_branch_to_reg_terminator, emit_compare_imm, emit_compare_xform,
    emit_i32_const, emit_lbz, emit_lbzu, emit_lbzux, emit_lbzx, emit_lha, emit_lhau, emit_lhz,
    emit_lhzu, emit_lhzux, emit_lhzx, emit_local_get, emit_local_set, emit_logical_imm, emit_lwz,
    emit_lwzu, emit_lwzux, emit_lwzx, emit_orx, emit_rlwinm, emit_slwx, emit_srawix, emit_srawx,
    emit_srwx, emit_state_load_local, emit_state_store_local, emit_stb, emit_stbu, emit_stbux,
    emit_stbx, emit_sth, emit_sthu, emit_sthux, emit_sthx, emit_stw, emit_stwu, emit_stwux,
    emit_stwx, emit_subfcx, emit_subfic, emit_subfx, emit_xorx, i32_const, lbz_code, lbzu_code,
    lbzux_code, lbzx_code, lha_code, lhau_code, lhz_code, lhzu_code, lhzux_code, lhzx_code,
    local_get, local_set, logical_imm_code, lwz_code, lwzu_code, lwzux_code, lwzx_code, orx_code,
    rlwinm_code, slwx_code, srawix_code, srawx_code, srwx_code, state_load_local_code,
    state_store_local_code, stb_code, stbu_code, stbux_code, stbx_code, sth_code, sthu_code,
    sthux_code, sthx_code, stw_code, stwu_code, stwux_code, stwx_code, subfcx_code, subfic_code,
    subfx_code, xorx_code, CA_PARAM_INDEX, CMP_LHS_LOCAL_INDEX, CR_PARAM_INDEX, CTR_PARAM_INDEX,
    CURRENT_PC_LOCAL_INDEX, EXECUTED_INSTRS_LOCAL_INDEX, EXECUTED_INSTRS_STATE_INDEX,
    LAST_PC_LOCAL_INDEX, LAST_PC_STATE_INDEX, LR_LOCAL_INDEX, LR_STATE_INDEX,
    NEXT_PC_LOCAL_INDEX, OV_PARAM_INDEX, PC_STATE_INDEX, SO_PARAM_INDEX,
};
use crate::wasmjit::state::{compiled_trace_block, sorted_by_start, starts_at, BlockFingerprint, RuntimeWasmState};
use crate::wasmjit::wasm::{uleb, write_uleb};
use vstd::prelude::*;

verus! {

/// The dispatch loop picks one of this many buckets by the entry address.
pub const DISPATCH_BUCKETS: u32 = 32;
pub const DISPATCH_BUCKET_MASK: u32 = 31;

/// Function types of the module: memory reads, memory writes, the run
/// function; the run function's index after the six imports.
pub const READ_SCALAR_FUNCTION_TYPE_INDEX: u32 = 0;
pub const WRITE_SCALAR_FUNCTION_TYPE_INDEX: u32 = 1;
pub const RUN_FUNCTION_TYPE_INDEX: u32 = 2;
pub const RUN_FUNCTION_INDEX: u32 = 6;

/// Code for the extended opcodes of primary opcode 31.
pub open spec fn lowered_xo_code(instr: Instruction, mem1: u32, refcount: u32) -> Seq<u8> {
    let xo = instr.spec_xo();
    if xo == 0 {
        compare_xform_code(instr, true)
    } else if xo == 8 {
        subfcx_code(instr)
    } else if xo == 10 {
        addcx_code(instr)
    } else if xo == 23 {
        lwzx_code(instr, mem1)
    } else if xo == 24 {
        slwx_code(instr)
    } else if xo == 28 {
        andx_code(instr)
    } else if xo == 32 {
        compare_xform_code(instr, false)
    } else if xo == 40 {
        subfx_code(instr)
    } else if xo == 55 {
        lwzux_code(instr, mem1)
    } else if xo == 87 {
        lbzx_code(instr, mem1)
    } else if xo == 119 {
        lbzux_code(instr, mem1)
    } else if xo == 151 {
        stwx_code(instr, mem1, refcount)
    } else if xo == 183 {
        stwux_code(instr, mem1, refcount)
    } else if xo == 215 {
        stbx_code(instr, mem1, refcount)
    } else if xo == 247 {
        stbux_code(instr, mem1, refcount)
    } else if xo == 266 {
        addx_code(instr)
    } else if xo == 279 {
        lhzx_code(instr, mem1)
    } else if xo == 311 {
        lhzux_code(instr, mem1)
    } else if xo == 316 {
        xorx_code(instr)
    } else if xo == 407 {
        sthx_code(instr, mem1, refcount)
    } else if xo == 439 {
        sthux_code(instr, mem1, refcount)
    } else if xo == 444 {
        orx_code(instr)
    } else if xo == 536 {
        srwx_code(instr)
    } else if xo == 792 {
        srawx_code(instr)
    } else if xo == 824 {
        srawix_code(instr)
    } else {
        Seq::empty()
    }
}

/// Code for one body instruction, chosen by its primary opcode.
pub open spec fn lowered_integer_op_code(instr: Instruction, mem1: u32, refcount: u32) -> Seq<u8> {
    let op = instr.spec_opcd();
    if op == 10 {
        compare_imm_code(instr, false)
    } else if op == 11 {
        compare_imm_code(instr, true)
    } else if op == 12 {
        subfic_code(instr)
    } else if op == 13 {
        addic_code(instr, true)
    } else if op == 14 {
        addi_like_code(instr, false)
    } else if op == 15 {
        addi_like_code(instr, true)
    } else if op == 21 {
        rlwinm_code(instr)
    } else if op == 24 {
        logical_imm_code(instr, 0x72, false)
    } else if op == 25 {
        logical_imm_code(instr, 0x72, true)
    } else if op == 26 {
        logical_imm_code(instr, 0x73, false)
    } else if op == 27 {
        logical_imm_code(instr, 0x73, true)
    } else if op == 28 {
        andi_dot_like_code(instr, false)
    } else if op == 29 {
        andi_dot_like_code(instr, true)
    } else if op == 32 {
        lwz_code(instr, mem1)
    } else if op == 33 {
        lwzu_code(instr, mem1)
    } else if op == 34 {
        lbz_code(instr, mem1)
    } else if op == 35 {
        lbzu_code(instr, mem1)
    } else if op == 36 {
        stw_code(instr, mem1, refcount)
    } else if op == 37 {
        stwu_code(instr, mem1, refcount)
    } else if op == 38 {
        stb_code(instr, mem1, refcount)
    } else if op == 39 {
        stbu_code(instr, mem1, refcount)
    } else if op == 40 {
        lhz_code(instr, mem1)
    } else if op == 41 {
        lhzu_code(instr, mem1)
    } else if op == 42 {
        lha_code(instr, mem1)
    } else if op == 43 {
        lhau_code(instr, mem1)
    } else if op == 44 {
        sth_code(instr, mem1, refcount)
    } else if op == 45 {
        sthu_code(instr, mem1, refcount)
    } else if op == 31 {
        lowered_xo_code(instr, mem1, refcount)
    } else {
        Seq::empty()
    }
}

fn emit_lowered_xo_op(out: &mut Vec<u8>, instr: Instruction, mem1: u32, refcount: u32)
    ensures
        final(out)@ == old(out)@ + lowered_xo_code(instr, mem1, refcount),
{
    let xo = xo10(instr);
    if xo == 0 {
        emit_compare_xform(out, instr, true);
    } else if xo == 8 {
        emit_subfcx(out, instr);
    } else if xo == 10 {
        emit_addcx(out, instr);
    } else if xo == 23 {
        emit_lwzx(out, instr, mem1);
    } else if xo == 24 {
        emit_slwx(out, instr);
    } else if xo == 28 {
        emit_andx(out, instr);
    } else if xo == 32 {
        emit_compare_xform(out, instr, false);
    } else if xo == 40 {
        emit_subfx(out, instr);
    } else if xo == 55 {
        emit_lwzux(out, instr, mem1);
    } else if xo == 87 {
        emit_lbzx(out, instr, mem1);
    } else if xo == 119 {
        emit_lbzux(out, instr, mem1);
    } else if xo == 151 {
        emit_stwx(out, instr, mem1, refcount);
    } else if xo == 183 {
        emit_stwux(out, instr, mem1, refcount);
    } else if xo == 215 {
        emit_stbx(out, instr, mem1, refcount);
    } else if xo == 247 {
        emit_stbux(out, instr, mem1, refcount);
    } else if xo == 266 {
        emit_addx(out, instr);
    } else if xo == 279 {
        emit_lhzx(out, instr, mem1);
    } else if xo == 311 {
        emit_lhzux(out, instr, mem1);
    } else if xo == 316 {
        emit_xorx(out, instr);
    } else if xo == 407 {
        emit_sthx(out, instr, mem1, refcount);
    } else if xo == 439 {
        emit_sthux(out, instr, mem1, refcount);
    } else if xo == 444 {
        emit_orx(out, instr);
    } else if xo == 536 {
        emit_srwx(out, instr);
    } else if xo == 792 {
        emit_srawx(out, instr);
    } else if xo == 824 {
        emit_srawix(out, instr);
    } else {
        assert(out@ =~= old(out)@ + Seq::<u8>::empty());
    }
}

/// Appends the code of a body instruction of a compiled block; `mem1` and
/// `refcount` are where main memory and the code-line counters lie.
pub fn emit_lowered_integer_op(out: &mut Vec<u8>, instr: Instruction, mem1: u32, refcount: u32)
    requires
        instr_reason(instr.0) is None,
    ensures
        final(out)@ == old(out)@ + lowered_integer_op_code(instr, mem1, refcount),
{
    let op = primary_opcode(instr);
    if op == 10 {
        emit_compare_imm(out, instr, false);
    } else if op == 11 {
        emit_compare_imm(out, instr, true);
    } else if op == 12 {
        emit_subfic(out, instr);
    } else if op == 13 {
        emit_addic(out, instr, true);
    } else if op == 14 {
        emit_addi_like(out, instr, false);
    } else if op == 15 {
        emit_addi_like(out, instr, true);
    } else if op == 21 {
        emit_rlwinm(out, instr);
    } else if op == 24 {
        emit_logical_imm(out, instr, 0x72, false);
    } else if op == 25 {
        emit_logical_imm(out, instr, 0x72, true);
    } else if op == 26 {
        emit_logical_imm(out, instr, 0x73, false);
    } else if op == 27 {
        emit_logical_imm(out, instr, 0x73, true);
    } else if op == 28 {
        emit_andi_dot_like(out, instr, false);
    } else if op == 29 {
        emit_andi_dot_like(out, instr, true);
    } else if op == 32 {
        emit_lwz(out, instr, mem1);
    } else if op == 33 {
        emit_lwzu(out, instr, mem1);
    } else if op == 34 {
        emit_lbz(out, instr, mem1);
    } else if op == 35 {
        emit_lbzu(out, instr, mem1);
    } else if op == 36 {
        emit_stw(out, instr, mem1, refcount);
    } else if op == 37 {
        emit_stwu(out, instr, mem1, refcount);
    } else if op == 38 {
        emit_stb(out, instr, mem1, refcount);
    } else if op == 39 {
        emit_stbu(out, instr, mem1, refcount);
    } else if op == 40 {
        emit_lhz(out, instr, mem1);
    } else if op == 41 {
        emit_lhzu(out, instr, mem1);
    } else if op == 42 {
        emit_lha(out, instr, mem1);
    } else if op == 43 {
        emit_lhau(out, instr, mem1);
    } else if op == 44 {
        emit_sth(out, instr, mem1, refcount);
    } else if op == 45 {
        emit_sthu(out, instr, mem1, refcount);
    } else if op == 31 {
        emit_lowered_xo_op(out, instr, mem1, refcount);
    } else {
        assert(out@ =~= old(out)@ + Seq::<u8>::empty());
    }
}

/// Whether the last instruction of a block ending as `term` can be
/// lowered: every branch kind but the system call, `rfi`, `mtmsr`,
/// `mtspr` and `isync`, a branch to a register only through LR or CTR.
pub open spec fn terminator_lowerable(term: TermKind, instr: Instruction) -> bool {
    match term {
        TermKind::LengthCap => true,
        TermKind::Branch => true,
        TermKind::BranchLink => true,
        TermKind::BranchCond => true,
        TermKind::BranchToReg => instr.spec_xo() == 16 || instr.spec_xo() == 528,
        _ => false,
    }
}

/// Target of the I-form branch `instr` at `branch_pc`.
pub open spec fn branch_target(instr: Instruction, branch_pc: u32) -> u32 {
    if instr.spec_aa() {
        instr.spec_li() as u32
    } else {
        branch_pc.wrapping_add_signed(instr.spec_li())
    }
}

/// Code for the last instruction of a block ending as `term`: nothing at
/// the length cap, the target as the next address for a plain branch, LR
/// first for a linking one, the conditional forms as their emitters.
pub open spec fn lowered_terminator_code(term: TermKind, instr: Instruction, branch_pc: u32) -> Seq<u8> {
    match term {
        TermKind::Branch => i32_const(branch_target(instr, branch_pc) as i32) + local_set(
            NEXT_PC_LOCAL_INDEX,
        ),
        TermKind::BranchLink => i32_const(branch_pc.wrapping_add(4) as i32) + local_set(LR_LOCAL_INDEX)
            + i32_const(branch_target(instr, branch_pc) as i32) + local_set(NEXT_PC_LOCAL_INDEX),
        TermKind::BranchCond => bc_terminator_code(instr, branch_pc),
        TermKind::BranchToReg => branch_to_reg_terminator_code(instr, branch_pc),
        _ => Seq::empty(),
    }
}

/// Appends the code of the last instruction `instr`, at `branch_pc`, of
/// the block `spec`.
pub fn emit_lowered_terminator(out: &mut Vec<u8>, spec: &BlockSpec, instr: Instruction, branch_pc: u32)
    requires
        terminator_lowerable(spec.terminator, instr),
    ensures
        final(out)@ == old(out)@ + lowered_terminator_code(spec.terminator, instr, branch_pc),
{
    let ghost start = out@;
    match spec.terminator {
        TermKind::Branch => {
            let target = if instr.aa() {
                instr.li() as u32
            } else {
                branch_pc.wrapping_add_signed(instr.li())
            };
            emit_i32_const(out, target as i32);
            emit_local_set(out, NEXT_PC_LOCAL_INDEX);
            assert(out@ =~= start + lowered_terminator_code(spec.terminator, instr, branch_pc));
        },
        TermKind::BranchLink => {
            emit_i32_const(out, branch_pc.wrapping_add(4) as i32);
            emit_local_set(out, LR_LOCAL_INDEX);
            let target = if instr.aa() {
                instr.li() as u32
            } else {
                branch_pc.wrapping_add_signed(instr.li())
            };
            emit_i32_const(out, target as i32);
            emit_local_set(out, NEXT_PC_LOCAL_INDEX);
            assert(out@ =~= start + lowered_terminator_code(spec.terminator, instr, branch_pc));
        },
        TermKind::BranchCond => {
            emit_bc_terminator(out, instr, branch_pc);
        },
        TermKind::BranchToReg => {
            emit_branch_to_reg_terminator(out, instr, branch_pc);
        },
        _ => {
            assert(out@ =~= start + lowered_terminator_code(spec.terminator, instr, branch_pc));
        },
    }
}

/// A block whose code can be generated: an address for each instruction,
/// body instructions the lowering knows, and a lowerable ending.
pub open spec fn lowerable(b: BlockSpec) -> bool {
    &&& b.pcs@.len() >= b.instrs@.len()
    &&& forall|i: int| 0 <= i < b.instrs@.len() - 1 ==> #[trigger] instr_reason(b.instrs@[i]) is None
    &&& b.instrs@.len() > 0 ==> terminator_lowerable(b.terminator, Instruction(b.instrs@.last()))
}

/// Code for instruction `idx` of `b`: the ending for the last one.
pub open spec fn block_instr_code(b: BlockSpec, idx: int, mem1: u32, refcount: u32) -> Seq<u8> {
    if idx == b.instrs@.len() - 1 {
        lowered_terminator_code(b.terminator, Instruction(b.instrs@[idx]), b.pcs@[idx])
    } else {
        lowered_integer_op_code(Instruction(b.instrs@[idx]), mem1, refcount)
    }
}

/// Code for the first `n` instructions of `b`.
pub open spec fn block_instrs_code(b: BlockSpec, n: nat, mem1: u32, refcount: u32) -> Seq<u8>
    decreases n,
{
    if n == 0 {
        Seq::empty()
    } else {
        block_instrs_code(b, (n - 1) as nat, mem1, refcount) + block_instr_code(b, n - 1, mem1, refcount)
    }
}

/// Address of the last instruction of `b`, or its start when it has none.
pub open spec fn last_pc_of(b: BlockSpec) -> u32 {
    if b.pcs@.len() == 0 {
        b.start_pc
    } else {
        b.pcs@.last()
    }
}

/// Opening of a block in the dispatch loop: entered when the current
/// address is its start, the next address preset to its end.
pub open spec fn block_entry_code(b: BlockSpec) -> Seq<u8> {
    local_get(CURRENT_PC_LOCAL_INDEX) + i32_const(b.start_pc as i32) + seq![0x46u8, 0x04u8, 0x40u8]
        + i32_const(end_pc_of(b) as i32) + local_set(NEXT_PC_LOCAL_INDEX)
}

/// Closing of a block: the last address and the executed count updated,
/// the next address made current, back to the loop head.
pub open spec fn block_exit_code(b: BlockSpec) -> Seq<u8> {
    i32_const(last_pc_of(b) as i32) + local_set(LAST_PC_LOCAL_INDEX) + local_get(
        EXECUTED_INSTRS_LOCAL_INDEX,
    ) + i32_const(b.instrs@.len() as i32) + seq![0x6au8] + local_set(EXECUTED_INSTRS_LOCAL_INDEX)
        + local_get(NEXT_PC_LOCAL_INDEX) + local_set(CURRENT_PC_LOCAL_INDEX) + seq![0x0cu8] + uleb(2)
        + seq![0x0bu8]
}

/// Code for the block `b` in the dispatch loop.
pub open spec fn block_code(b: BlockSpec, mem1: u32, refcount: u32) -> Seq<u8> {
    block_entry_code(b) + block_instrs_code(b, b.instrs@.len(), mem1, refcount) + block_exit_code(b)
}

fn emit_block_entry(out: &mut Vec<u8>, b: &BlockSpec)
    ensures
        final(out)@ == old(out)@ + block_entry_code(*b),
{
    let ghost start = out@;
    emit_local_get(out, CURRENT_PC_LOCAL_INDEX);
    emit_i32_const(out, b.start_pc as i32);
    out.push(0x46);
    out.push(0x04);
    out.push(0x40);
    emit_i32_const(out, b.end_pc() as i32);
    emit_local_set(out, NEXT_PC_LOCAL_INDEX);
    assert(out@ =~= start + block_entry_code(*b));
}

#[verifier::spinoff_prover]
#[verifier::rlimit(100)]
fn emit_block_exit(out: &mut Vec<u8>, b: &BlockSpec)
    ensures
        final(out)@ == old(out)@ + block_exit_code(*b),
{
    let ghost start = out@;
    let last_pc = if b.pcs.len() == 0 {
        b.start_pc
    } else {
        b.pcs[b.pcs.len() - 1]
    };
    emit_i32_const(out, last_pc as i32);
    emit_local_set(out, LAST_PC_LOCAL_INDEX);
    emit_local_get(out, EXECUTED_INSTRS_LOCAL_INDEX);
    emit_i32_const(out, b.len() as i32);
    out.push(0x6a);
    emit_local_set(out, EXECUTED_INSTRS_LOCAL_INDEX);
    emit_local_get(out, NEXT_PC_LOCAL_INDEX);
    emit_local_set(out, CURRENT_PC_LOCAL_INDEX);
    out.push(0x0c);
    write_uleb(out, 2);
    out.push(0x0b);
    assert(out@ =~= start + block_exit_code(*b));
}

/// Appends the code of the block `b` for the dispatch loop.
#[verifier::spinoff_prover]
#[verifier::rlimit(100)]
pub fn emit_block(out: &mut Vec<u8>, b: &BlockSpec, mem1: u32, refcount: u32)
    requires
        lowerable(*b),
    ensures
        final(out)@ == old(out)@ + block_code(*b, mem1, refcount),
{
    let ghost start = out@;
    emit_block_entry(out, b);
    let ghost body_start = out@;
    let n = b.instrs.len();
    let mut idx: usize = 0;
    while idx < n
        invariant
            n == b.instrs@.len(),
            idx <= n,
            lowerable(*b),
            out@ == body_start + block_instrs_code(*b, idx as nat, mem1, refcount),
        decreases n - idx,
    {
        let ghost before = out@;
        let instr = Instruction(b.instrs[idx]);
        if idx == n - 1 {
            emit_lowered_terminator(out, b, instr, b.pcs[idx]);
        } else {
            assert(instr_reason(b.instrs@[idx as int]) is None);
            emit_lowered_integer_op(out, instr, mem1, refcount);
        }
        assert(out@ =~= body_start + block_instrs_code(*b, (idx + 1) as nat, mem1, refcount));
        idx = idx + 1;
    }
    emit_block_exit(out, b);
    assert(out@ =~= start + block_code(*b, mem1, refcount));
}

/// Dispatch bucket of a block: bits 25..=29 of its start address.
pub open spec fn bucket_of(b: BlockSpec) -> u32 {
    (b.start_pc >> 2u32) & DISPATCH_BUCKET_MASK
}

/// The blocks behind a sequence of references.
pub open spec fn deref_blocks(bs: Seq<&BlockSpec>) -> Seq<BlockSpec> {
    bs.map_values(|b: &BlockSpec| *b)
}

/// Code for the blocks of `bs` that fall in `bucket`, in their order.
pub open spec fn bucket_blocks_code(bs: Seq<BlockSpec>, bucket: u32, mem1: u32, refcount: u32) -> Seq<u8>
    decreases bs.len(),
{
    if bs.len() == 0 {
        Seq::empty()
    } else {
        bucket_blocks_code(bs.drop_last(), bucket, mem1, refcount) + (if bucket_of(bs.last()) == bucket {
            block_code(bs.last(), mem1, refcount)
        } else {
            Seq::empty()
        })
    }
}

/// Whether some block of `bs` falls in `bucket`.
pub open spec fn bucket_used(bs: Seq<BlockSpec>, bucket: u32) -> bool {
    exists|k: int| 0 <= k < bs.len() && #[trigger] bucket_of(bs[k]) == bucket
}

/// Code for one bucket: nothing when it is empty, else a test of the
/// bucket number around the code of its blocks.
pub open spec fn bucket_code(bs: Seq<BlockSpec>, bucket: u32, mem1: u32, refcount: u32) -> Seq<u8> {
    if bucket_used(bs, bucket) {
        local_get(CMP_LHS_LOCAL_INDEX) + i32_const(bucket as i32) + seq![0x46u8, 0x04u8, 0x40u8]
            + bucket_blocks_code(bs, bucket, mem1, refcount) + seq![0x0bu8]
    } else {
        Seq::empty()
    }
}

/// Code for the first `n` buckets.
pub open spec fn buckets_code(bs: Seq<BlockSpec>, n: nat, mem1: u32, refcount: u32) -> Seq<u8>
    decreases n,
{
    if n == 0 {
        Seq::empty()
    } else {
        buckets_code(bs, (n - 1) as nat, mem1, refcount) + bucket_code(bs, (n - 1) as u32, mem1, refcount)
    }
}

#[verifier::spinoff_prover]
#[verifier::rlimit(100)]
fn emit_bucket(out: &mut Vec<u8>, blocks: &[&BlockSpec], bucket: u32, mem1: u32, refcount: u32)
    requires
        forall|k: int| 0 <= k < blocks@.len() ==> lowerable(*#[trigger] blocks@[k]),
    ensures
        final(out)@ == old(out)@ + bucket_code(deref_blocks(blocks@), bucket, mem1, refcount),
{
    let ghost bss = deref_blocks(blocks@);
    let ghost start = out@;
    let mut used = false;
    let mut j: usize = 0;
    while j < blocks.len()
        invariant
            j <= blocks@.len(),
            bss == deref_blocks(blocks@),
            bss.len() == blocks@.len(),
            used <==> exists|k: int| 0 <= k < j && #[trigger] bucket_of(bss[k]) == bucket,
        decreases blocks@.len() - j,
    {
        assert(bss[j as int] == *blocks@[j as int]);
        let hit = (blocks[j].start_pc >> 2) & DISPATCH_BUCKET_MASK == bucket;
        assert(hit == (bucket_of(bss[j as int]) == bucket));
        if hit {
            used = true;
        }
        j = j + 1;
    }
    if !used {
        assert(!bucket_used(bss, bucket));
        assert(out@ =~= start + bucket_code(bss, bucket, mem1, refcount));
        return;
    }
    emit_local_get(out, CMP_LHS_LOCAL_INDEX);
    emit_i32_const(out, bucket as i32);
    out.push(0x46);
    out.push(0x04);
    out.push(0x40);
    let ghost mid = out@;
    j = 0;
    assert(bss.take(0) =~= Seq::<BlockSpec>::empty());
    while j < blocks.len()
        invariant
            j <= blocks@.len(),
            bss == deref_blocks(blocks@),
            bss.len() == blocks@.len(),
            forall|k: int| 0 <= k < blocks@.len() ==> lowerable(*#[trigger] blocks@[k]),
            out@ == mid + bucket_blocks_code(bss.take(j as int), bucket, mem1, refcount),
        decreases blocks@.len() - j,
    {
        let b: &BlockSpec = blocks[j];
        assert(bss[j as int] == *b);
        assert(bss.take(j + 1).drop_last() =~= bss.take(j as int));
        assert(bss.take(j + 1).last() == *b);
        if (b.start_pc >> 2) & DISPATCH_BUCKET_MASK == bucket {
            emit_block(out, b, mem1, refcount);
        } else {
            assert(out@ =~= out@ + Seq::<u8>::empty());
        }
        j = j + 1;
    }
    assert(bss.take(blocks@.len() as int) =~= bss);
    out.push(0x0b);
    assert(out@ =~= start + bucket_code(bss, bucket, mem1, refcount));
}

/// Start of every module: the magic number and version 1.
pub open spec fn wasm_header() -> Seq<u8> {
    seq![0x00u8, 0x61u8, 0x73u8, 0x6du8, 0x01u8, 0x00u8, 0x00u8, 0x00u8]
}

/// A section: its id, the payload's length and the payload.
pub open spec fn section(id: u8, payload: Seq<u8>) -> Seq<u8> {
    seq![id] + uleb((payload.len() as u32) as nat) + payload
}

/// Appends the section `id` with `payload`.
pub fn push_section(module: &mut Vec<u8>, id: u8, payload: &Vec<u8>)
    ensures
        final(module)@ == old(module)@ + section(id, payload@),
{
    let ghost start = module@;
    module.push(id);
    write_uleb(module, payload.len() as u32);
    let ghost head = module@;
    let mut i: usize = 0;
    while i < payload.len()
        invariant
            i <= payload@.len(),
            module@ == head + payload@.take(i as int),
        decreases payload@.len() - i,
    {
        module.push(payload[i]);
        assert(payload@.take(i + 1) =~= payload@.take(i as int).push(payload@[i as int]));
        i = i + 1;
    }
    assert(payload@.take(payload@.len() as int) =~= payload@);
    assert(module@ =~= start + section(id, payload@));
}

/// Types: (i32) -> i32 for reads, (i32, i32) -> () for writes, () -> ()
/// for the run function.
pub open spec fn type_payload() -> Seq<u8> {
    uleb(3) + seq![0x60u8] + uleb(1) + seq![0x7fu8] + uleb(1) + seq![0x7fu8] + seq![0x60u8] + uleb(2)
        + seq![0x7fu8, 0x7fu8] + uleb(0) + seq![0x60u8] + uleb(0) + uleb(0)
}

fn type_section() -> (r: Vec<u8>)
    ensures
        r@ == type_payload(),
{
    let mut out: Vec<u8> = Vec::new();
    write_uleb(&mut out, 3);
    out.push(0x60);
    write_uleb(&mut out, 1);
    out.push(0x7f);
    write_uleb(&mut out, 1);
    out.push(0x7f);
    out.push(0x60);
    write_uleb(&mut out, 2);
    out.push(0x7f);
    out.push(0x7f);
    write_uleb(&mut out, 0);
    out.push(0x60);
    write_uleb(&mut out, 0);
    write_uleb(&mut out, 0);
    assert(out@ =~= type_payload());
    out
}

/// The module name of every import.
pub open spec fn env_name() -> Seq<u8> {
    seq![0x65u8, 0x6eu8, 0x76u8]
}

/// A function import of `name` from `env` with type `type_index`.
pub open spec fn func_import(name: Seq<u8>, type_index: u32) -> Seq<u8> {
    uleb(3) + env_name() + uleb(name.len()) + name + seq![0x00u8] + uleb(type_index as nat)
}

/// The imported memory: `env.memory`, at least one page.
pub open spec fn memory_import() -> Seq<u8> {
    uleb(3) + env_name() + uleb(6) + seq![0x6du8, 0x65u8, 0x6du8, 0x6fu8, 0x72u8, 0x79u8] + seq![0x02u8, 0x00u8] + uleb(1)
}

/// `read_u32`.
pub open spec fn read_u32_name() -> Seq<u8> {
    seq![0x72u8, 0x65u8, 0x61u8, 0x64u8, 0x5fu8, 0x75u8, 0x33u8, 0x32u8]
}

/// `read_u16`.
pub open spec fn read_u16_name() -> Seq<u8> {
    seq![0x72u8, 0x65u8, 0x61u8, 0x64u8, 0x5fu8, 0x75u8, 0x31u8, 0x36u8]
}

/// `read_u8`.
pub open spec fn read_u8_name() -> Seq<u8> {
    seq![0x72u8, 0x65u8, 0x61u8, 0x64u8, 0x5fu8, 0x75u8, 0x38u8]
}

/// `write_u32`.
pub open spec fn write_u32_name() -> Seq<u8> {
    seq![0x77u8, 0x72u8, 0x69u8, 0x74u8, 0x65u8, 0x5fu8, 0x75u8, 0x33u8, 0x32u8]
}

/// `write_u16`.
pub open spec fn write_u16_name() -> Seq<u8> {
    seq![0x77u8, 0x72u8, 0x69u8, 0x74u8, 0x65u8, 0x5fu8, 0x75u8, 0x31u8, 0x36u8]
}

/// `write_u8`.
pub open spec fn write_u8_name() -> Seq<u8> {
    seq![0x77u8, 0x72u8, 0x69u8, 0x74u8, 0x65u8, 0x5fu8, 0x75u8, 0x38u8]
}

/// Imports: the memory accessors, then the memory.
pub open spec fn import_payload() -> Seq<u8> {
    uleb(7)
        + func_import(read_u32_name(), READ_SCALAR_FUNCTION_TYPE_INDEX)
        + func_import(read_u16_name(), READ_SCALAR_FUNCTION_TYPE_INDEX)
        + func_import(read_u8_name(), READ_SCALAR_FUNCTION_TYPE_INDEX)
        + func_import(write_u32_name(), WRITE_SCALAR_FUNCTION_TYPE_INDEX)
        + func_import(write_u16_name(), WRITE_SCALAR_FUNCTION_TYPE_INDEX)
        + func_import(write_u8_name(), WRITE_SCALAR_FUNCTION_TYPE_INDEX)
        + memory_import()
}

fn emit_read_u32_import(out: &mut Vec<u8>)
    ensures
        final(out)@ == old(out)@ + func_import(read_u32_name(), READ_SCALAR_FUNCTION_TYPE_INDEX),
{
    let ghost start = out@;
    write_uleb(out, 3);
    out.push(0x65);
    out.push(0x6e);
    out.push(0x76);
    write_uleb(out, 8);
    out.push(0x72);
    out.push(0x65);
    out.push(0x61);
    out.push(0x64);
    out.push(0x5f);
    out.push(0x75);
    out.push(0x33);
    out.push(0x32);
    out.push(0x00);
    write_uleb(out, READ_SCALAR_FUNCTION_TYPE_INDEX);
    assert(out@ =~= start + func_import(read_u32_name(), READ_SCALAR_FUNCTION_TYPE_INDEX));
}

fn emit_read_u16_import(out: &mut Vec<u8>)
    ensures
        final(out)@ == old(out)@ + func_import(read_u16_name(), READ_SCALAR_FUNCTION_TYPE_INDEX),
{
    let ghost start = out@;
    write_uleb(out, 3);
    out.push(0x65);
    out.push(0x6e);
    out.push(0x76);
    write_uleb(out, 8);
    out.push(0x72);
    out.push(0x65);
    out.push(0x61);
    out.push(0x64);
    out.push(0x5f);
    out.push(0x75);
    out.push(0x31);
    out.push(0x36);
    out.push(0x00);
    write_uleb(out, READ_SCALAR_FUNCTION_TYPE_INDEX);
    assert(out@ =~= start + func_import(read_u16_name(), READ_SCALAR_FUNCTION_TYPE_INDEX));
}

fn emit_read_u8_import(out: &mut Vec<u8>)
    ensures
        final(out)@ == old(out)@ + func_import(read_u8_name(), READ_SCALAR_FUNCTION_TYPE_INDEX),
{
    let ghost start = out@;
    write_uleb(out, 3);
    out.push(0x65);
    out.push(0x6e);
    out.push(0x76);
    write_uleb(out, 7);
    out.push(0x72);
    out.push(0x65);
    out.push(0x61);
    out.push(0x64);
    out.push(0x5f);
    out.push(0x75);
    out.push(0x38);
    out.push(0x00);
    write_uleb(out, READ_SCALAR_FUNCTION_TYPE_INDEX);
    assert(out@ =~= start + func_import(read_u8_name(), READ_SCALAR_FUNCTION_TYPE_INDEX));
}

fn emit_write_u32_import(out: &mut Vec<u8>)
    ensures
        final(out)@ == old(out)@ + func_import(write_u32_name(), WRITE_SCALAR_FUNCTION_TYPE_INDEX),
{
    let ghost start = out@;
    write_uleb(out, 3);
    out.push(0x65);
    out.push(0x6e);
    out.push(0x76);
    write_uleb(out, 9);
    out.push(0x77);
    out.push(0x72);
    out.push(0x69);
    out.push(0x74);
    out.push(0x65);
    out.push(0x5f);
    out.push(0x75);
    out.push(0x33);
    out.push(0x32);
    out.push(0x00);
    write_uleb(out, WRITE_SCALAR_FUNCTION_TYPE_INDEX);
    assert(out@ =~= start + func_import(write_u32_name(), WRITE_SCALAR_FUNCTION_TYPE_INDEX));
}

fn emit_write_u16_import(out: &mut Vec<u8>)
    ensures
        final(out)@ == old(out)@ + func_import(write_u16_name(), WRITE_SCALAR_FUNCTION_TYPE_INDEX),
{
    let ghost start = out@;
    write_uleb(out, 3);
    out.push(0x65);
    out.push(0x6e);
    out.push(0x76);
    write_uleb(out, 9);
    out.push(0x77);
    out.push(0x72);
    out.push(0x69);
    out.push(0x74);
    out.push(0x65);
    out.push(0x5f);
    out.push(0x75);
    out.push(0x31);
    out.push(0x36);
    out.push(0x00);
    write_uleb(out, WRITE_SCALAR_FUNCTION_TYPE_INDEX);
    assert(out@ =~= start + func_import(write_u16_name(), WRITE_SCALAR_FUNCTION_TYPE_INDEX));
}

fn emit_write_u8_import(out: &mut Vec<u8>)
    ensures
        final(out)@ == old(out)@ + func_import(write_u8_name(), WRITE_SCALAR_FUNCTION_TYPE_INDEX),
{
    let ghost start = out@;
    write_uleb(out, 3);
    out.push(0x65);
    out.push(0x6e);
    out.push(0x76);
    write_uleb(out, 8);
    out.push(0x77);
    out.push(0x72);
    out.push(0x69);
    out.push(0x74);
    out.push(0x65);
    out.push(0x5f);
    out.push(0x75);
    out.push(0x38);
    out.push(0x00);
    write_uleb(out, WRITE_SCALAR_FUNCTION_TYPE_INDEX);
    assert(out@ =~= start + func_import(write_u8_name(), WRITE_SCALAR_FUNCTION_TYPE_INDEX));
}

fn emit_memory_import(out: &mut Vec<u8>)
    ensures
        final(out)@ == old(out)@ + memory_import(),
{
    let ghost start = out@;
    write_uleb(out, 3);
    out.push(0x65);
    out.push(0x6e);
    out.push(0x76);
    write_uleb(out, 6);
    out.push(0x6d);
    out.push(0x65);
    out.push(0x6d);
    out.push(0x6f);
    out.push(0x72);
    out.push(0x79);
    out.push(0x02);
    out.push(0x00);
    write_uleb(out, 1);
    assert(out@ =~= start + memory_import());
}

fn import_section() -> (r: Vec<u8>)
    ensures
        r@ == import_payload(),
{
    let mut out: Vec<u8> = Vec::new();
    write_uleb(&mut out, 7);
    emit_read_u32_import(&mut out);
    emit_read_u16_import(&mut out);
    emit_read_u8_import(&mut out);
    emit_write_u32_import(&mut out);
    emit_write_u16_import(&mut out);
    emit_write_u8_import(&mut out);
    emit_memory_import(&mut out);
    assert(out@ =~= import_payload());
    out
}

/// One function, of the run type.
pub open spec fn func_payload() -> Seq<u8> {
    uleb(1) + uleb(RUN_FUNCTION_TYPE_INDEX as nat)
}

/// One export: the run function as `run`.
pub open spec fn export_payload() -> Seq<u8> {
    uleb(1) + uleb(3) + seq![0x72u8, 0x75u8, 0x6eu8] + seq![0x00u8] + uleb(RUN_FUNCTION_INDEX as nat)
}

fn func_section() -> (r: Vec<u8>)
    ensures
        r@ == func_payload(),
{
    let mut out: Vec<u8> = Vec::new();
    write_uleb(&mut out, 1);
    write_uleb(&mut out, RUN_FUNCTION_TYPE_INDEX);
    assert(out@ =~= func_payload());
    out
}

fn export_section() -> (r: Vec<u8>)
    ensures
        r@ == export_payload(),
{
    let mut out: Vec<u8> = Vec::new();
    write_uleb(&mut out, 1);
    write_uleb(&mut out, 3);
    out.push(0x72);
    out.push(0x75);
    out.push(0x6e);
    out.push(0x00);
    write_uleb(&mut out, RUN_FUNCTION_INDEX);
    assert(out@ =~= export_payload());
    out
}

/// Name of the custom section.
pub open spec fn custom_name() -> Seq<u8> {
    seq![0x67u8, 0x65u8, 0x63u8, 0x6bu8, 0x6fu8, 0x2du8, 0x77u8, 0x61u8, 0x73u8, 0x6du8]
}

/// The custom section: its name, then the fingerprint (its address,
/// length and the two halves of its hash), or for a module of many traces
/// zero, the number of blocks and two zeros.
pub open spec fn custom_payload(block_count: nat, fingerprint: Option<BlockFingerprint>) -> Seq<u8> {
    uleb(10) + custom_name() + match fingerprint {
        Some(f) => uleb(f.pc as nat) + uleb(f.instr_count as nat) + uleb((f.hash as u32) as nat) + uleb(
            ((f.hash >> 32u64) as u32) as nat,
        ),
        None => uleb(0) + uleb((block_count as u32) as nat) + uleb(0) + uleb(0),
    }
}

fn custom_section(block_count: usize, fingerprint: Option<BlockFingerprint>) -> (r: Vec<u8>)
    ensures
        r@ == custom_payload(block_count as nat, fingerprint),
{
    let mut out: Vec<u8> = Vec::new();
    write_uleb(&mut out, 10);
    out.push(0x67);
    out.push(0x65);
    out.push(0x63);
    out.push(0x6b);
    out.push(0x6f);
    out.push(0x2d);
    out.push(0x77);
    out.push(0x61);
    out.push(0x73);
    out.push(0x6d);
    match fingerprint {
        Some(f) => {
            write_uleb(&mut out, f.pc);
            write_uleb(&mut out, f.instr_count as u32);
            write_uleb(&mut out, f.hash as u32);
            write_uleb(&mut out, (f.hash >> 32) as u32);
        },
        None => {
            write_uleb(&mut out, 0);
            write_uleb(&mut out, block_count as u32);
            write_uleb(&mut out, 0);
            write_uleb(&mut out, 0);
        },
    }
    assert(out@ =~= custom_payload(block_count as nat, fingerprint));
    out
}

/// Loads of the first `n` general registers from the state block at
/// `state_ptr` into their locals.
pub open spec fn gpr_loads_code(state_ptr: u32, n: nat) -> Seq<u8>
    decreases n,
{
    if n == 0 {
        Seq::empty()
    } else {
        gpr_loads_code(state_ptr, (n - 1) as nat) + state_load_local_code(state_ptr, (n - 1) as u32, (n - 1) as u32)
    }
}

/// Stores of the first `n` general registers from their locals.
pub open spec fn gpr_stores_code(state_ptr: u32, n: nat) -> Seq<u8>
    decreases n,
{
    if n == 0 {
        Seq::empty()
    } else {
        gpr_stores_code(state_ptr, (n - 1) as nat) + state_store_local_code(state_ptr, (n - 1) as u32, (n - 1) as u32)
    }
}

/// Loads of the whole guest state into the locals.
pub open spec fn state_loads_code(state_ptr: u32) -> Seq<u8> {
    gpr_loads_code(state_ptr, 32)
        + state_load_local_code(state_ptr, CR_PARAM_INDEX, CR_PARAM_INDEX)
        + state_load_local_code(state_ptr, CTR_PARAM_INDEX, CTR_PARAM_INDEX)
        + state_load_local_code(state_ptr, SO_PARAM_INDEX, SO_PARAM_INDEX)
        + state_load_local_code(state_ptr, OV_PARAM_INDEX, OV_PARAM_INDEX)
        + state_load_local_code(state_ptr, CA_PARAM_INDEX, CA_PARAM_INDEX)
        + state_load_local_code(state_ptr, PC_STATE_INDEX, CURRENT_PC_LOCAL_INDEX)
        + state_load_local_code(state_ptr, LAST_PC_STATE_INDEX, LAST_PC_LOCAL_INDEX)
        + state_load_local_code(state_ptr, LR_STATE_INDEX, LR_LOCAL_INDEX)
}

/// Stores of the locals back into the whole guest state.
pub open spec fn state_stores_code(state_ptr: u32) -> Seq<u8> {
    gpr_stores_code(state_ptr, 32)
        + state_store_local_code(state_ptr, CR_PARAM_INDEX, CR_PARAM_INDEX)
        + state_store_local_code(state_ptr, CTR_PARAM_INDEX, CTR_PARAM_INDEX)
        + state_store_local_code(state_ptr, SO_PARAM_INDEX, SO_PARAM_INDEX)
        + state_store_local_code(state_ptr, OV_PARAM_INDEX, OV_PARAM_INDEX)
        + state_store_local_code(state_ptr, CA_PARAM_INDEX, CA_PARAM_INDEX)
        + state_store_local_code(state_ptr, PC_STATE_INDEX, CURRENT_PC_LOCAL_INDEX)
        + state_store_local_code(state_ptr, LAST_PC_STATE_INDEX, LAST_PC_LOCAL_INDEX)
        + state_store_local_code(state_ptr, LR_STATE_INDEX, LR_LOCAL_INDEX)
        + state_store_local_code(state_ptr, EXECUTED_INSTRS_STATE_INDEX, EXECUTED_INSTRS_LOCAL_INDEX)
}

#[verifier::spinoff_prover]
#[verifier::rlimit(100)]
fn emit_state_loads(out: &mut Vec<u8>, state_ptr: u32)
    requires
        state_ptr <= u32::MAX - 160,
    ensures
        final(out)@ == old(out)@ + state_loads_code(state_ptr),
{
    let ghost start = out@;
    let mut reg: u32 = 0;
    while reg < 32
        invariant
            reg <= 32,
            state_ptr <= u32::MAX - 160,
            out@ == start + gpr_loads_code(state_ptr, reg as nat),
        decreases 32 - reg,
    {
        emit_state_load_local(out, state_ptr, reg, reg);
        assert(out@ =~= start + gpr_loads_code(state_ptr, (reg + 1) as nat));
        reg = reg + 1;
    }
    let ghost mut acc = gpr_loads_code(state_ptr, 32);
    emit_state_load_local(out, state_ptr, CR_PARAM_INDEX, CR_PARAM_INDEX);
    proof {
        acc = acc + state_load_local_code(state_ptr, CR_PARAM_INDEX, CR_PARAM_INDEX);
    }
    assert(out@ =~= start + acc);
    emit_state_load_local(out, state_ptr, CTR_PARAM_INDEX, CTR_PARAM_INDEX);
    proof {
        acc = acc + state_load_local_code(state_ptr, CTR_PARAM_INDEX, CTR_PARAM_INDEX);
    }
    assert(out@ =~= start + acc);
    emit_state_load_local(out, state_ptr, SO_PARAM_INDEX, SO_PARAM_INDEX);
    proof {
        acc = acc + state_load_local_code(state_ptr, SO_PARAM_INDEX, SO_PARAM_INDEX);
    }
    assert(out@ =~= start + acc);
    emit_state_load_local(out, state_ptr, OV_PARAM_INDEX, OV_PARAM_INDEX);
    proof {
        acc = acc + state_load_local_code(state_ptr, OV_PARAM_INDEX, OV_PARAM_INDEX);
    }
    assert(out@ =~= start + acc);
    emit_state_load_local(out, state_ptr, CA_PARAM_INDEX, CA_PARAM_INDEX);
    proof {
        acc = acc + state_load_local_code(state_ptr, CA_PARAM_INDEX, CA_PARAM_INDEX);
    }
    assert(out@ =~= start + acc);
    emit_state_load_local(out, state_ptr, PC_STATE_INDEX, CURRENT_PC_LOCAL_INDEX);
    proof {
        acc = acc + state_load_local_code(state_ptr, PC_STATE_INDEX, CURRENT_PC_LOCAL_INDEX);
    }
    assert(out@ =~= start + acc);
    emit_state_load_local(out, state_ptr, LAST_PC_STATE_INDEX, LAST_PC_LOCAL_INDEX);
    proof {
        acc = acc + state_load_local_code(state_ptr, LAST_PC_STATE_INDEX, LAST_PC_LOCAL_INDEX);
    }
    assert(out@ =~= start + acc);
    emit_state_load_local(out, state_ptr, LR_STATE_INDEX, LR_LOCAL_INDEX);
    proof {
        acc = acc + state_load_local_code(state_ptr, LR_STATE_INDEX, LR_LOCAL_INDEX);
    }
    assert(out@ =~= start + acc);
}

#[verifier::spinoff_prover]
#[verifier::rlimit(100)]
fn emit_state_stores(out: &mut Vec<u8>, state_ptr: u32)
    requires
        state_ptr <= u32::MAX - 160,
    ensures
        final(out)@ == old(out)@ + state_stores_code(state_ptr),
{
    let ghost start = out@;
    let mut reg: u32 = 0;
    while reg < 32
        invariant
            reg <= 32,
            state_ptr <= u32::MAX - 160,
            out@ == start + gpr_stores_code(state_ptr, reg as nat),
        decreases 32 - reg,
    {
        emit_state_store_local(out, state_ptr, reg, reg);
        assert(out@ =~= start + gpr_stores_code(state_ptr, (reg + 1) as nat));
        reg = reg + 1;
    }
    let ghost mut acc = gpr_stores_code(state_ptr, 32);
    emit_state_store_local(out, state_ptr, CR_PARAM_INDEX, CR_PARAM_INDEX);
    proof {
        acc = acc + state_store_local_code(state_ptr, CR_PARAM_INDEX, CR_PARAM_INDEX);
    }
    assert(out@ =~= start + acc);
    emit_state_store_local(out, state_ptr, CTR_PARAM_INDEX, CTR_PARAM_INDEX);
    proof {
        acc = acc + state_store_local_code(state_ptr, CTR_PARAM_INDEX, CTR_PARAM_INDEX);
    }
    assert(out@ =~= start + acc);
    emit_state_store_local(out, state_ptr, SO_PARAM_INDEX, SO_PARAM_INDEX);
    proof {
        acc = acc + state_store_local_code(state_ptr, SO_PARAM_INDEX, SO_PARAM_INDEX);
    }
    assert(out@ =~= start + acc);
    emit_state_store_local(out, state_ptr, OV_PARAM_INDEX, OV_PARAM_INDEX);
    proof {
        acc = acc + state_store_local_code(state_ptr, OV_PARAM_INDEX, OV_PARAM_INDEX);
    }
    assert(out@ =~= start + acc);
    emit_state_store_local(out, state_ptr, CA_PARAM_INDEX, CA_PARAM_INDEX);
    proof {
        acc = acc + state_store_local_code(state_ptr, CA_PARAM_INDEX, CA_PARAM_INDEX);
    }
    assert(out@ =~= start + acc);
    emit_state_store_local(out, state_ptr, PC_STATE_INDEX, CURRENT_PC_LOCAL_INDEX);
    proof {
        acc = acc + state_store_local_code(state_ptr, PC_STATE_INDEX, CURRENT_PC_LOCAL_INDEX);
    }
    assert(out@ =~= start + acc);
    emit_state_store_local(out, state_ptr, LAST_PC_STATE_INDEX, LAST_PC_LOCAL_INDEX);
    proof {
        acc = acc + state_store_local_code(state_ptr, LAST_PC_STATE_INDEX, LAST_PC_LOCAL_INDEX);
    }
    assert(out@ =~= start + acc);
    emit_state_store_local(out, state_ptr, LR_STATE_INDEX, LR_LOCAL_INDEX);
    proof {
        acc = acc + state_store_local_code(state_ptr, LR_STATE_INDEX, LR_LOCAL_INDEX);
    }
    assert(out@ =~= start + acc);
    emit_state_store_local(out, state_ptr, EXECUTED_INSTRS_STATE_INDEX, EXECUTED_INSTRS_LOCAL_INDEX);
    proof {
        acc = acc + state_store_local_code(state_ptr, EXECUTED_INSTRS_STATE_INDEX, EXECUTED_INSTRS_LOCAL_INDEX);
    }
    assert(out@ =~= start + acc);
}

/// Head of the dispatch loop: a block, a loop, and the bucket of the
/// current address in the first scratch local.
pub open spec fn dispatch_head_code() -> Seq<u8> {
    seq![0x02u8, 0x40u8, 0x03u8, 0x40u8] + local_get(CURRENT_PC_LOCAL_INDEX) + i32_const(2) + seq![0x76u8]
        + i32_const(DISPATCH_BUCKET_MASK as i32) + seq![0x71u8] + local_set(CMP_LHS_LOCAL_INDEX)
}

fn emit_dispatch_head(out: &mut Vec<u8>)
    ensures
        final(out)@ == old(out)@ + dispatch_head_code(),
{
    let ghost start = out@;
    out.push(0x02);
    out.push(0x40);
    out.push(0x03);
    out.push(0x40);
    emit_local_get(out, CURRENT_PC_LOCAL_INDEX);
    emit_i32_const(out, 2);
    out.push(0x76);
    emit_i32_const(out, DISPATCH_BUCKET_MASK as i32);
    out.push(0x71);
    emit_local_set(out, CMP_LHS_LOCAL_INDEX);
    assert(out@ =~= start + dispatch_head_code());
}

/// Body of the run function: 44 i32 locals, the state loaded, the
/// dispatch loop over every bucket (left when no block starts at the
/// current address), the state stored back.
pub open spec fn dispatch_body(state_ptr: u32, mem1: u32, refcount: u32, bs: Seq<BlockSpec>) -> Seq<u8> {
    uleb(1) + uleb(44) + seq![0x7fu8] + state_loads_code(state_ptr) + i32_const(0) + local_set(
        EXECUTED_INSTRS_LOCAL_INDEX,
    ) + dispatch_head_code() + buckets_code(bs, DISPATCH_BUCKETS as nat, mem1, refcount) + seq![0x0cu8]
        + uleb(1) + seq![0x0bu8, 0x0bu8] + state_stores_code(state_ptr) + seq![0x0bu8]
}

#[verifier::spinoff_prover]
#[verifier::rlimit(100)]
fn dispatch_body_bytes(state_ptr: u32, mem1: u32, refcount: u32, blocks: &[&BlockSpec]) -> (r: Vec<u8>)
    requires
        state_ptr <= u32::MAX - 160,
        forall|k: int| 0 <= k < blocks@.len() ==> lowerable(*#[trigger] blocks@[k]),
    ensures
        r@ == dispatch_body(state_ptr, mem1, refcount, deref_blocks(blocks@)),
{
    let ghost bss = deref_blocks(blocks@);
    let mut body: Vec<u8> = Vec::new();
    write_uleb(&mut body, 1);
    write_uleb(&mut body, 44);
    body.push(0x7f);
    emit_state_loads(&mut body, state_ptr);
    emit_i32_const(&mut body, 0);
    emit_local_set(&mut body, EXECUTED_INSTRS_LOCAL_INDEX);
    emit_dispatch_head(&mut body);
    let ghost head = body@;
    let mut bucket: u32 = 0;
    while bucket < DISPATCH_BUCKETS
        invariant
            bucket <= DISPATCH_BUCKETS,
            bss == deref_blocks(blocks@),
            forall|k: int| 0 <= k < blocks@.len() ==> lowerable(*#[trigger] blocks@[k]),
            body@ == head + buckets_code(bss, bucket as nat, mem1, refcount),
        decreases DISPATCH_BUCKETS - bucket,
    {
        emit_bucket(&mut body, blocks, bucket, mem1, refcount);
        assert(body@ =~= head + buckets_code(bss, (bucket + 1) as nat, mem1, refcount));
        bucket = bucket + 1;
    }
    let ghost loop_end = body@;
    body.push(0x0c);
    write_uleb(&mut body, 1);
    body.push(0x0b);
    body.push(0x0b);
    emit_state_stores(&mut body, state_ptr);
    body.push(0x0b);
    assert(body@ =~= dispatch_body(state_ptr, mem1, refcount, bss));
    body
}

/// The code section's payload: one function body.
pub open spec fn code_payload(body: Seq<u8>) -> Seq<u8> {
    uleb(1) + uleb((body.len() as u32) as nat) + body
}

/// The module that runs the blocks `bs`: header, types, imports, the run
/// function and its export, its code, and the custom section.
pub open spec fn dispatch_module(
    state_ptr: u32,
    mem1: u32,
    refcount: u32,
    bs: Seq<BlockSpec>,
    fingerprint: Option<BlockFingerprint>,
) -> Seq<u8> {
    wasm_header() + section(1, type_payload()) + section(2, import_payload()) + section(3, func_payload())
        + section(7, export_payload()) + section(10, code_payload(dispatch_body(state_ptr, mem1, refcount, bs)))
        + section(0, custom_payload(bs.len(), fingerprint))
}

/// Builds the module that runs `blocks` from a dispatch loop; the guest
/// state lies at `state_ptr`, main memory at `mem1`, the code-line
/// counters at `refcount`.
#[verifier::spinoff_prover]
#[verifier::rlimit(100)]
pub fn build_dispatch_module(
    state_ptr: u32,
    mem1: u32,
    refcount: u32,
    blocks: &[&BlockSpec],
    fingerprint: Option<BlockFingerprint>,
) -> (r: Vec<u8>)
    requires
        state_ptr <= u32::MAX - 160,
        forall|k: int| 0 <= k < blocks@.len() ==> lowerable(*#[trigger] blocks@[k]),
    ensures
        r@ == dispatch_module(state_ptr, mem1, refcount, deref_blocks(blocks@), fingerprint),
{
    let ghost bss = deref_blocks(blocks@);
    let mut module: Vec<u8> = Vec::new();
    module.push(0x00);
    module.push(0x61);
    module.push(0x73);
    module.push(0x6d);
    module.push(0x01);
    module.push(0x00);
    module.push(0x00);
    module.push(0x00);
    let ghost mut acc = wasm_header();
    assert(module@ =~= acc);
    let types = type_section();
    push_section(&mut module, 1, &types);
    proof {
        acc = acc + section(1, type_payload());
    }
    let imports = import_section();
    push_section(&mut module, 2, &imports);
    proof {
        acc = acc + section(2, import_payload());
    }
    let funcs = func_section();
    push_section(&mut module, 3, &funcs);
    proof {
        acc = acc + section(3, func_payload());
    }
    let exports = export_section();
    push_section(&mut module, 7, &exports);
    proof {
        acc = acc + section(7, export_payload());
    }
    let body = dispatch_body_bytes(state_ptr, mem1, refcount, blocks);
    let mut code: Vec<u8> = Vec::new();
    write_uleb(&mut code, 1);
    write_uleb(&mut code, body.len() as u32);
    let mut i: usize = 0;
    let ghost code_head = code@;
    while i < body.len()
        invariant
            i <= body@.len(),
            code@ == code_head + body@.take(i as int),
        decreases body@.len() - i,
    {
        code.push(body[i]);
        assert(body@.take(i + 1) =~= body@.take(i as int).push(body@[i as int]));
        i = i + 1;
    }
    assert(body@.take(body@.len() as int) =~= body@);
    assert(code@ =~= code_payload(body@));
    push_section(&mut module, 10, &code);
    proof {
        acc = acc + section(10, code_payload(dispatch_body(state_ptr, mem1, refcount, bss)));
    }
    let custom = custom_section(blocks.len(), fingerprint);
    push_section(&mut module, 0, &custom);
    proof {
        acc = acc + section(0, custom_payload(bss.len(), fingerprint));
    }
    assert(module@ =~= acc);
    module
}

proof fn lemma_body_reason_clear(instrs: Seq<u32>, term: TermKind, i: int)
    requires
        0 <= i < instrs.len(),
        body_reason(instrs, term, i) is None,
    ensures
        forall|j: int| i <= j < instrs.len() - 1 ==> #[trigger] instr_reason(instrs[j]) is None,
        terminator_reason(term, instrs.last()) is None,
    decreases instrs.len() - i,
{
    if i < instrs.len() - 1 {
        lemma_body_reason_clear(instrs, term, i + 1);
    }
}

/// A block that passes the check of its instructions, with an address for
/// each of them, can be lowered: classification and lowering agree.
pub proof fn lemma_compileable_block_lowerable(b: BlockSpec)
    requires
        semantic_reason(b) is None,
        b.pcs@.len() >= b.instrs@.len(),
    ensures
        lowerable(b),
{
    lemma_body_reason_clear(b.instrs@, b.terminator, 0);
}

impl<const SYSTEM: u8> RuntimeWasmState<SYSTEM> {
    /// Where the compiled code finds the guest state. Outside a browser no
    /// shared block exists, and the state, main memory and the code-line
    /// counters are addressed from zero.
    fn runtime_state_ptr(&self) -> (r: u32)
        ensures
            r == 0,
    {
        0
    }

    fn runtime_mem1_base(&self) -> (r: u32)
        ensures
            r == 0,
    {
        0
    }

    fn runtime_code_refcount_base(&self) -> (r: u32)
        ensures
            r == 0,
    {
        0
    }

    /// The module that runs `blocks`, its custom section naming
    /// `fingerprint` when one trace is compiled alone.
    pub fn build_wasm_dispatch_module(&self, blocks: &[&BlockSpec], fingerprint: Option<&BlockFingerprint>) -> (r:
        Vec<u8>)
        requires
            forall|k: int| 0 <= k < blocks@.len() ==> lowerable(*#[trigger] blocks@[k]),
        ensures
            r@ == dispatch_module(
                0,
                0,
                0,
                deref_blocks(blocks@),
                match fingerprint {
                    Some(f) => Some(*f),
                    None => None,
                },
            ),
    {
        let state_ptr = self.runtime_state_ptr();
        let mem1 = self.runtime_mem1_base();
        let refcount = self.runtime_code_refcount_base();
        let owned = match fingerprint {
            Some(f) => Some(*f),
            None => None,
        };
        build_dispatch_module(state_ptr, mem1, refcount, blocks, owned)
    }

    /// The module of the trace `trace`, compiled as `fingerprint`.
    pub fn build_wasm_trace_module(&self, fingerprint: &BlockFingerprint, trace: &TraceSpec) -> (r: Vec<u8>)
        requires
            forall|k: int| 0 <= k < trace.blocks().len() ==> lowerable(#[trigger] trace.blocks()[k]),
        ensures
            r@ == dispatch_module(0, 0, 0, trace.blocks(), Some(*fingerprint)),
    {
        let blocks = trace.all_blocks();
        assert(deref_blocks(blocks@) =~= trace.blocks());
        self.build_wasm_dispatch_module(blocks.as_slice(), Some(fingerprint))
    }

    /// The module shared by all compiled traces: one block for each start
    /// address, in increasing order of it, and no fingerprint.
    pub fn build_shared_wasm_module(&self) -> (r: Vec<u8>)
        requires
            forall|k: u128, i: int|
                self@.compiled.contains_key(k) && 0 <= i < self@.compiled[k].trace.blocks().len() ==> lowerable(
                    #[trigger] self@.compiled[k].trace.blocks()[i],
                ),
        ensures
            exists|bs: Seq<&BlockSpec>|
                #![trigger deref_blocks(bs)]
                {
                    &&& sorted_by_start(bs)
                    &&& forall|i: int| 0 <= i < bs.len() ==> compiled_trace_block(self@.compiled, *#[trigger] bs[i])
                    &&& forall|k: u128, i: int|
                        self@.compiled.contains_key(k) && 0 <= i < self@.compiled[k].trace.blocks().len()
                            ==> starts_at(bs, #[trigger] self@.compiled[k].trace.blocks()[i].start_pc)
                    &&& r@ == dispatch_module(0, 0, 0, deref_blocks(bs), None)
                },
    {
        let blocks = self.unique_trace_blocks();
        assert forall|j: int| 0 <= j < blocks@.len() implies lowerable(*#[trigger] blocks@[j]) by {
            let (k, i) = choose|k: u128, i: int|
                #![trigger self@.compiled[k].trace.blocks()[i]]
                self@.compiled.contains_key(k) && 0 <= i < self@.compiled[k].trace.blocks().len()
                    && self@.compiled[k].trace.blocks()[i] == *blocks@[j];
            assert(lowerable(self@.compiled[k].trace.blocks()[i]));
        }
        self.build_wasm_dispatch_module(blocks.as_slice(), None)
    }

    /// The module of the single block `spec`, compiled as `fingerprint`.
    pub fn build_wasm_module(&self, fingerprint: &BlockFingerprint, spec: &BlockSpec) -> (r: Vec<u8>)
        requires
            lowerable(*spec),
        ensures
            r@ == dispatch_module(0, 0, 0, seq![*spec], Some(*fingerprint)),
    {
        let mut blocks: Vec<&BlockSpec> = Vec::new();
        blocks.push(spec);
        assert(deref_blocks(blocks@) =~= seq![*spec]);
        self.build_wasm_dispatch_module(blocks.as_slice(), Some(fingerprint))
    }
}

} // verus!
