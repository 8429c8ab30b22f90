use crate::cpu::instr::Instruction;
use crate::wasmjit::wasm::{sleb, uleb, write_sleb, write_uleb};
use vstd::prelude::*;

verus! {

/// Locals of the compiled function: the 32 GPRs, then CR, CTR, SO, OV,
/// CA, the current, last and next address, LR, the executed-instruction
/// count and two scratch registers.
pub const GPR_PARAM_COUNT: u32 = 32;
pub const CR_PARAM_INDEX: u32 = 32;
pub const CTR_PARAM_INDEX: u32 = 33;
pub const SO_PARAM_INDEX: u32 = 34;
pub const OV_PARAM_INDEX: u32 = 35;
pub const CA_PARAM_INDEX: u32 = 36;
pub const CURRENT_PC_LOCAL_INDEX: u32 = 37;
pub const LAST_PC_LOCAL_INDEX: u32 = 38;
pub const NEXT_PC_LOCAL_INDEX: u32 = 39;
pub const LR_LOCAL_INDEX: u32 = 40;
pub const EXECUTED_INSTRS_LOCAL_INDEX: u32 = 41;
pub const CMP_LHS_LOCAL_INDEX: u32 = 42;
pub const CMP_RHS_LOCAL_INDEX: u32 = 43;

/// Words of the state block the compiled function loads and stores.
pub const PC_STATE_INDEX: u32 = 37;
pub const LAST_PC_STATE_INDEX: u32 = 38;
pub const LR_STATE_INDEX: u32 = 39;
pub const EXECUTED_INSTRS_STATE_INDEX: u32 = 40;
pub const STATE_WORDS: usize = 41;

/// Imported memory accessors, by function index.
pub const READ_U32_IMPORT_INDEX: u32 = 0;
pub const READ_U16_IMPORT_INDEX: u32 = 1;
pub const READ_U8_IMPORT_INDEX: u32 = 2;
pub const WRITE_U32_IMPORT_INDEX: u32 = 3;
pub const WRITE_U16_IMPORT_INDEX: u32 = 4;
pub const WRITE_U8_IMPORT_INDEX: u32 = 5;

/// Last byte of main memory, and the size of a code line as a shift.
pub const RAM_END: u32 = 0x017F_FFFF;
pub const CODE_LINE_SHIFT: u32 = 5;

/// `local.get idx`.
pub open spec fn local_get(idx: u32) -> Seq<u8> {
    seq![0x20u8] + uleb(idx as nat)
}

/// `local.set idx`.
pub open spec fn local_set(idx: u32) -> Seq<u8> {
    seq![0x21u8] + uleb(idx as nat)
}

/// `local.tee idx`.
pub open spec fn local_tee(idx: u32) -> Seq<u8> {
    seq![0x22u8] + uleb(idx as nat)
}

/// `i32.const value`.
pub open spec fn i32_const(value: i32) -> Seq<u8> {
    seq![0x41u8] + sleb(value as int)
}

/// `call func`.
pub open spec fn call_op(func: u32) -> Seq<u8> {
    seq![0x10u8] + uleb(func as nat)
}

pub fn emit_local_get(out: &mut Vec<u8>, idx: u32)
    ensures
        final(out)@ == old(out)@ + local_get(idx),
{
    let ghost start = out@;
    out.push(0x20);
    write_uleb(out, idx);
    assert(out@ =~= start + local_get(idx));
}

pub fn emit_local_set(out: &mut Vec<u8>, idx: u32)
    ensures
        final(out)@ == old(out)@ + local_set(idx),
{
    let ghost start = out@;
    out.push(0x21);
    write_uleb(out, idx);
    assert(out@ =~= start + local_set(idx));
}

pub fn emit_local_tee(out: &mut Vec<u8>, idx: u32)
    ensures
        final(out)@ == old(out)@ + local_tee(idx),
{
    let ghost start = out@;
    out.push(0x22);
    write_uleb(out, idx);
    assert(out@ =~= start + local_tee(idx));
}

pub fn emit_call(out: &mut Vec<u8>, func_idx: u32)
    ensures
        final(out)@ == old(out)@ + call_op(func_idx),
{
    let ghost start = out@;
    out.push(0x10);
    write_uleb(out, func_idx);
    assert(out@ =~= start + call_op(func_idx));
}

pub fn emit_i32_const(out: &mut Vec<u8>, value: i32)
    ensures
        final(out)@ == old(out)@ + i32_const(value),
{
    let ghost start = out@;
    out.push(0x41);
    write_sleb(out, value);
    assert(out@ =~= start + i32_const(value));
}

/// The mask of `rlwinm` from bit `mb` to bit `me` (msb 0), wrapping when
/// `mb > me`.
pub open spec fn rlwinm_mask_of(mb: u32, me: u32) -> u32 {
    let begin = 0xFFFF_FFFFu32 >> mb;
    let end = if me >= 31 { 0u32 } else { 0xFFFF_FFFFu32 >> (me + 1) as u32 };
    if mb <= me { begin & !end } else { begin | !end }
}

pub fn rlwinm_mask(mb: u32, me: u32) -> (r: u32)
    requires
        mb < 32,
        me < 32,
    ensures
        r == rlwinm_mask_of(mb, me),
{
    let begin = 0xFFFF_FFFFu32 >> mb;
    let end = if me >= 31 { 0 } else { 0xFFFF_FFFFu32 >> (me + 1) };
    if mb <= me { begin & !end } else { begin | !end }
}

/// `i32.load` of the word at `addr` (aligned, no offset).
pub open spec fn i32_load_code(addr: u32) -> Seq<u8> {
    i32_const(addr as i32)
        + seq![0x28u8]
        + uleb((2u32) as nat)
        + uleb((0u32) as nat)
}

#[verifier::spinoff_prover]
#[verifier::rlimit(100)]
pub fn emit_i32_load(out: &mut Vec<u8>, addr: u32)
    ensures
        final(out)@ == old(out)@ + i32_load_code(addr),
{
    let ghost start = out@;
    emit_i32_const(out, addr as i32);
    out.push(0x28);
    write_uleb(out, 2u32);
    write_uleb(out, 0u32);
    assert(out@ =~= start + i32_load_code(addr));
}

/// `i32.load8_u` of the byte at the address on the stack.
pub open spec fn i32_load8_u_from_stack_code() -> Seq<u8> {
    seq![0x2du8]
        + uleb((0u32) as nat)
        + uleb((0u32) as nat)
}

#[verifier::spinoff_prover]
#[verifier::rlimit(100)]
pub fn emit_i32_load8_u_from_stack(out: &mut Vec<u8>)
    ensures
        final(out)@ == old(out)@ + i32_load8_u_from_stack_code(),
{
    let ghost start = out@;
    out.push(0x2d);
    write_uleb(out, 0u32);
    write_uleb(out, 0u32);
    assert(out@ =~= start + i32_load8_u_from_stack_code());
}

/// Loads word `state_word_index` of the state block at `state_ptr` into a local.
pub open spec fn state_load_local_code(state_ptr: u32, state_word_index: u32, local_index: u32) -> Seq<u8> {
    i32_load_code((state_ptr + state_word_index * 4) as u32)
        + local_set(local_index)
}

#[verifier::spinoff_prover]
#[verifier::rlimit(100)]
pub fn emit_state_load_local(out: &mut Vec<u8>, state_ptr: u32, state_word_index: u32, local_index: u32)
    requires
        state_ptr + state_word_index * 4 <= u32::MAX,
    ensures
        final(out)@ == old(out)@ + state_load_local_code(state_ptr, state_word_index, local_index),
{
    let ghost start = out@;
    emit_i32_load(out, state_ptr + state_word_index * 4);
    emit_local_set(out, local_index);
    assert(out@ =~= start + state_load_local_code(state_ptr, state_word_index, local_index));
}

/// Stores a local into word `state_word_index` of the state block at `state_ptr`.
pub open spec fn state_store_local_code(state_ptr: u32, state_word_index: u32, local_index: u32) -> Seq<u8> {
    i32_const((state_ptr + state_word_index * 4) as i32)
        + local_get(local_index)
        + seq![0x36u8]
        + uleb((2u32) as nat)
        + uleb((0u32) as nat)
}

#[verifier::spinoff_prover]
#[verifier::rlimit(100)]
pub fn emit_state_store_local(out: &mut Vec<u8>, state_ptr: u32, state_word_index: u32, local_index: u32)
    requires
        state_ptr + state_word_index * 4 <= u32::MAX,
    ensures
        final(out)@ == old(out)@ + state_store_local_code(state_ptr, state_word_index, local_index),
{
    let ghost start = out@;
    emit_i32_const(out, (state_ptr + state_word_index * 4) as i32);
    emit_local_get(out, local_index);
    out.push(0x36);
    write_uleb(out, 2u32);
    write_uleb(out, 0u32);
    assert(out@ =~= start + state_store_local_code(state_ptr, state_word_index, local_index));
}

/// Reverses the bytes of the word on the stack (keeping it in the first scratch register).
pub open spec fn i32_bswap_code() -> Seq<u8> {
    local_tee(CMP_LHS_LOCAL_INDEX)
        + local_get(CMP_LHS_LOCAL_INDEX)
        + i32_const(24i32)
        + seq![0x76u8]
        + local_get(CMP_LHS_LOCAL_INDEX)
        + i32_const(0x00FF_0000i32)
        + seq![0x71u8]
        + i32_const(8i32)
        + seq![0x76u8]
        + seq![0x72u8]
        + local_get(CMP_LHS_LOCAL_INDEX)
        + i32_const(0x0000_FF00i32)
        + seq![0x71u8]
        + i32_const(8i32)
        + seq![0x74u8]
        + seq![0x72u8]
        + local_get(CMP_LHS_LOCAL_INDEX)
        + i32_const(24i32)
        + seq![0x74u8]
        + seq![0x72u8]
}

#[verifier::spinoff_prover]
#[verifier::rlimit(100)]
pub fn emit_i32_bswap(out: &mut Vec<u8>)
    ensures
        final(out)@ == old(out)@ + i32_bswap_code(),
{
    let ghost start = out@;
    emit_local_tee(out, CMP_LHS_LOCAL_INDEX);
    emit_local_get(out, CMP_LHS_LOCAL_INDEX);
    emit_i32_const(out, 24i32);
    out.push(0x76);
    emit_local_get(out, CMP_LHS_LOCAL_INDEX);
    emit_i32_const(out, 0x00FF_0000i32);
    out.push(0x71);
    emit_i32_const(out, 8i32);
    out.push(0x76);
    out.push(0x72);
    emit_local_get(out, CMP_LHS_LOCAL_INDEX);
    emit_i32_const(out, 0x0000_FF00i32);
    out.push(0x71);
    emit_i32_const(out, 8i32);
    out.push(0x74);
    out.push(0x72);
    emit_local_get(out, CMP_LHS_LOCAL_INDEX);
    emit_i32_const(out, 24i32);
    out.push(0x74);
    out.push(0x72);
    assert(out@ =~= start + i32_bswap_code());
}

/// Sets CR0 from the signed value of a local and SO.
pub open spec fn update_cr0_from_reg_code(reg_local_index: u32) -> Seq<u8> {
    local_get(CR_PARAM_INDEX)
        + i32_const(!(0xFu32 << 28u32) as i32)
        + seq![0x71u8]
        + local_get(reg_local_index)
        + i32_const(0i32)
        + seq![0x48u8]
        + i32_const(3i32)
        + seq![0x74u8]
        + local_get(reg_local_index)
        + i32_const(0i32)
        + seq![0x4au8]
        + i32_const(2i32)
        + seq![0x74u8]
        + seq![0x72u8]
        + local_get(reg_local_index)
        + i32_const(0i32)
        + seq![0x46u8]
        + i32_const(1i32)
        + seq![0x74u8]
        + seq![0x72u8]
        + local_get(SO_PARAM_INDEX)
        + seq![0x72u8]
        + seq![0x72u8]
        + local_set(CR_PARAM_INDEX)
}

#[verifier::spinoff_prover]
#[verifier::rlimit(100)]
pub fn emit_update_cr0_from_reg(out: &mut Vec<u8>, reg_local_index: u32)
    ensures
        final(out)@ == old(out)@ + update_cr0_from_reg_code(reg_local_index),
{
    let ghost start = out@;
    emit_local_get(out, CR_PARAM_INDEX);
    emit_i32_const(out, !(0xFu32 << 28u32) as i32);
    out.push(0x71);
    emit_local_get(out, reg_local_index);
    emit_i32_const(out, 0i32);
    out.push(0x48);
    emit_i32_const(out, 3i32);
    out.push(0x74);
    emit_local_get(out, reg_local_index);
    emit_i32_const(out, 0i32);
    out.push(0x4a);
    emit_i32_const(out, 2i32);
    out.push(0x74);
    out.push(0x72);
    emit_local_get(out, reg_local_index);
    emit_i32_const(out, 0i32);
    out.push(0x46);
    emit_i32_const(out, 1i32);
    out.push(0x74);
    out.push(0x72);
    emit_local_get(out, SO_PARAM_INDEX);
    out.push(0x72);
    out.push(0x72);
    emit_local_set(out, CR_PARAM_INDEX);
    assert(out@ =~= start + update_cr0_from_reg_code(reg_local_index));
}

/// Sets OV from the signs of an addition's operands and result, and ORs it into SO.
pub open spec fn update_ov_so_from_add_like_code(lhs_local: u32, rhs_local: u32, res_local: u32) -> Seq<u8> {
    local_get(lhs_local)
        + local_get(res_local)
        + seq![0x73u8]
        + local_get(rhs_local)
        + local_get(res_local)
        + seq![0x73u8]
        + seq![0x71u8]
        + i32_const(31i32)
        + seq![0x76u8]
        + local_set(OV_PARAM_INDEX)
        + local_get(SO_PARAM_INDEX)
        + local_get(OV_PARAM_INDEX)
        + seq![0x72u8]
        + local_set(SO_PARAM_INDEX)
}

#[verifier::spinoff_prover]
#[verifier::rlimit(100)]
pub fn emit_update_ov_so_from_add_like(out: &mut Vec<u8>, lhs_local: u32, rhs_local: u32, res_local: u32)
    ensures
        final(out)@ == old(out)@ + update_ov_so_from_add_like_code(lhs_local, rhs_local, res_local),
{
    let ghost start = out@;
    emit_local_get(out, lhs_local);
    emit_local_get(out, res_local);
    out.push(0x73);
    emit_local_get(out, rhs_local);
    emit_local_get(out, res_local);
    out.push(0x73);
    out.push(0x71);
    emit_i32_const(out, 31i32);
    out.push(0x76);
    emit_local_set(out, OV_PARAM_INDEX);
    emit_local_get(out, SO_PARAM_INDEX);
    emit_local_get(out, OV_PARAM_INDEX);
    out.push(0x72);
    emit_local_set(out, SO_PARAM_INDEX);
    assert(out@ =~= start + update_ov_so_from_add_like_code(lhs_local, rhs_local, res_local));
}

/// `addi` / `addis`: rD = (rA|0) + SIMM (shifted up for `addis`).
pub open spec fn addi_like_code(instr: Instruction, addis: bool) -> Seq<u8> {
    (if instr.ra() == 0 { i32_const(0i32) } else { local_get(instr.ra() as u32) })
        + (if addis { i32_const(((instr.uimm() as u32) << 16u32) as i32) } else { i32_const(instr.simm()) })
        + seq![0x6au8]
        + local_set(instr.rd() as u32)
}

#[verifier::spinoff_prover]
#[verifier::rlimit(100)]
pub fn emit_addi_like(out: &mut Vec<u8>, instr: Instruction, addis: bool)
    ensures
        final(out)@ == old(out)@ + addi_like_code(instr, addis),
{
    let ghost start = out@;
    if instr.ra() == 0 {
        emit_i32_const(out, 0i32);
    } else {
        emit_local_get(out, instr.ra() as u32);
    }
    if addis {
        emit_i32_const(out, ((instr.uimm() as u32) << 16u32) as i32);
    } else {
        emit_i32_const(out, instr.simm());
    }
    out.push(0x6a);
    emit_local_set(out, instr.rd() as u32);
    assert(out@ =~= start + addi_like_code(instr, addis));
}

/// `subfic`: rD = SIMM - rA, CA from the unsigned comparison.
pub open spec fn subfic_code(instr: Instruction) -> Seq<u8> {
    i32_const(instr.simm())
        + local_get(instr.ra() as u32)
        + seq![0x6bu8]
        + local_set(instr.rd() as u32)
        + i32_const(instr.simm())
        + local_get(instr.ra() as u32)
        + seq![0x4fu8]
        + local_set(CA_PARAM_INDEX)
}

#[verifier::spinoff_prover]
#[verifier::rlimit(100)]
pub fn emit_subfic(out: &mut Vec<u8>, instr: Instruction)
    ensures
        final(out)@ == old(out)@ + subfic_code(instr),
{
    let ghost start = out@;
    emit_i32_const(out, instr.simm());
    emit_local_get(out, instr.ra() as u32);
    out.push(0x6b);
    emit_local_set(out, instr.rd() as u32);
    emit_i32_const(out, instr.simm());
    emit_local_get(out, instr.ra() as u32);
    out.push(0x4f);
    emit_local_set(out, CA_PARAM_INDEX);
    assert(out@ =~= start + subfic_code(instr));
}

/// `addic` / `addic.`: rD = rA + SIMM, CA from the carry, CR0 when recording.
pub open spec fn addic_code(instr: Instruction, rc: bool) -> Seq<u8> {
    local_get(instr.ra() as u32)
        + i32_const(instr.simm())
        + seq![0x6au8]
        + local_set(instr.rd() as u32)
        + local_get(instr.rd() as u32)
        + local_get(instr.ra() as u32)
        + seq![0x49u8]
        + local_set(CA_PARAM_INDEX)
        + (if rc { update_cr0_from_reg_code(instr.rd() as u32) } else { Seq::<u8>::empty() })
}

#[verifier::spinoff_prover]
#[verifier::rlimit(100)]
pub fn emit_addic(out: &mut Vec<u8>, instr: Instruction, rc: bool)
    ensures
        final(out)@ == old(out)@ + addic_code(instr, rc),
{
    let ghost start = out@;
    emit_local_get(out, instr.ra() as u32);
    emit_i32_const(out, instr.simm());
    out.push(0x6a);
    emit_local_set(out, instr.rd() as u32);
    emit_local_get(out, instr.rd() as u32);
    emit_local_get(out, instr.ra() as u32);
    out.push(0x49);
    emit_local_set(out, CA_PARAM_INDEX);
    if rc {
        emit_update_cr0_from_reg(out, instr.rd() as u32);
    }
    assert(out@ =~= start + addic_code(instr, rc));
}

/// `add[o][.]`.
pub open spec fn addx_code(instr: Instruction) -> Seq<u8> {
    local_get(instr.ra() as u32)
        + local_get(instr.rb() as u32)
        + seq![0x6au8]
        + local_set(instr.rd() as u32)
        + (if instr.oe() { update_ov_so_from_add_like_code(instr.ra() as u32, instr.rb() as u32, instr.rd() as u32) } else { Seq::<u8>::empty() })
        + (if instr.rc() { update_cr0_from_reg_code(instr.rd() as u32) } else { Seq::<u8>::empty() })
}

#[verifier::spinoff_prover]
#[verifier::rlimit(100)]
pub fn emit_addx(out: &mut Vec<u8>, instr: Instruction)
    ensures
        final(out)@ == old(out)@ + addx_code(instr),
{
    let ghost start = out@;
    emit_local_get(out, instr.ra() as u32);
    emit_local_get(out, instr.rb() as u32);
    out.push(0x6a);
    emit_local_set(out, instr.rd() as u32);
    if instr.oe() {
        emit_update_ov_so_from_add_like(out, instr.ra() as u32, instr.rb() as u32, instr.rd() as u32);
    }
    if instr.rc() {
        emit_update_cr0_from_reg(out, instr.rd() as u32);
    }
    assert(out@ =~= start + addx_code(instr));
}

/// `subf[o][.]`: rD = rB - rA.
pub open spec fn subfx_code(instr: Instruction) -> Seq<u8> {
    local_get(instr.rb() as u32)
        + local_get(instr.ra() as u32)
        + seq![0x6bu8]
        + local_set(instr.rd() as u32)
        + (if instr.oe() { local_get(instr.ra() as u32)
        + i32_const(-1i32)
        + seq![0x73u8]
        + local_set(CMP_LHS_LOCAL_INDEX)
        + update_ov_so_from_add_like_code(CMP_LHS_LOCAL_INDEX, instr.rb() as u32, instr.rd() as u32) } else { Seq::<u8>::empty() })
        + (if instr.rc() { update_cr0_from_reg_code(instr.rd() as u32) } else { Seq::<u8>::empty() })
}

#[verifier::spinoff_prover]
#[verifier::rlimit(100)]
pub fn emit_subfx(out: &mut Vec<u8>, instr: Instruction)
    ensures
        final(out)@ == old(out)@ + subfx_code(instr),
{
    let ghost start = out@;
    emit_local_get(out, instr.rb() as u32);
    emit_local_get(out, instr.ra() as u32);
    out.push(0x6b);
    emit_local_set(out, instr.rd() as u32);
    if instr.oe() {
        emit_local_get(out, instr.ra() as u32);
        emit_i32_const(out, -1i32);
        out.push(0x73);
        emit_local_set(out, CMP_LHS_LOCAL_INDEX);
        emit_update_ov_so_from_add_like(out, CMP_LHS_LOCAL_INDEX, instr.rb() as u32, instr.rd() as u32);
    }
    if instr.rc() {
        emit_update_cr0_from_reg(out, instr.rd() as u32);
    }
    assert(out@ =~= start + subfx_code(instr));
}

/// What straight-line wasm code made of `local.get`, `local.set`,
/// `i32.add` and `i32.sub` (one-byte local indices) does to the locals and
/// the operand stack, by the WebAssembly semantics of those instructions;
/// `None` for any other code, a local out of range, or a stack underflow.
pub open spec fn i32_eval(code: Seq<u8>, locals: Seq<u32>, stack: Seq<u32>) -> Option<(Seq<u32>, Seq<u32>)>
    decreases code.len(),
{
    if code.len() == 0 {
        Some((locals, stack))
    } else if code[0] == 0x20u8 {
        if code.len() >= 2 && code[1] < 128 && code[1] < locals.len() {
            i32_eval(code.subrange(2, code.len() as int), locals, stack.push(locals[code[1] as int]))
        } else {
            None
        }
    } else if code[0] == 0x21u8 {
        if code.len() >= 2 && code[1] < 128 && code[1] < locals.len() && stack.len() >= 1 {
            i32_eval(
                code.subrange(2, code.len() as int),
                locals.update(code[1] as int, stack.last()),
                stack.drop_last(),
            )
        } else {
            None
        }
    } else if code[0] == 0x6au8 || code[0] == 0x6bu8 {
        if stack.len() >= 2 {
            let x = stack[stack.len() - 2] as int;
            let y = stack.last() as int;
            let v = if code[0] == 0x6au8 { (x + y) % 0x1_0000_0000 } else { (x - y) % 0x1_0000_0000 };
            i32_eval(code.drop_first(), locals, stack.drop_last().drop_last().push(v as u32))
        } else {
            None
        }
    } else {
        None
    }
}

/// The code for `subf rD,rA,rB` starts by pushing `rB`, then `rA`,
/// subtracting (`i32.sub` takes the first pushed minus the second) and
/// storing in `rD`. Without OE and Rc that is all of it, and run on the
/// registers as locals it leaves `rD = (rB - rA) mod 2^32`, every other
/// register as it was, and the stack empty.
pub proof fn lemma_subf_code_computes_rb_minus_ra(instr: Instruction, regs: Seq<u32>)
    requires
        regs.len() == 32,
    ensures
        subfx_code(instr).take(7) == seq![
            0x20u8,
            instr.spec_rb(),
            0x20u8,
            instr.spec_ra(),
            0x6bu8,
            0x21u8,
            instr.spec_rd(),
        ],
        !instr.spec_oe() && !instr.spec_rc() ==> i32_eval(subfx_code(instr), regs, Seq::empty()) == Some(
            (
                regs.update(
                    instr.spec_rd() as int,
                    ((regs[instr.spec_rb() as int] - regs[instr.spec_ra() as int]) % 0x1_0000_0000) as u32,
                ),
                Seq::<u32>::empty(),
            ),
        ),
{
    let w = instr.0;
    crate::dsp::instr::lemma_and_le_u32(w >> 21u32, 0x1F);
    crate::dsp::instr::lemma_and_le_u32(w >> 16u32, 0x1F);
    crate::dsp::instr::lemma_and_le_u32(w >> 11u32, 0x1F);
    let rd = instr.spec_rd();
    let ra = instr.spec_ra();
    let rb = instr.spec_rb();
    assert(uleb(rb as u32 as nat) == seq![rb]);
    assert(uleb(ra as u32 as nat) == seq![ra]);
    assert(uleb(rd as u32 as nat) == seq![rd]);
    let head = seq![0x20u8, rb, 0x20u8, ra, 0x6bu8, 0x21u8, rd];
    let tail = (if instr.spec_oe() {
        local_get(ra as u32) + i32_const(-1i32) + seq![0x73u8] + local_set(CMP_LHS_LOCAL_INDEX)
            + update_ov_so_from_add_like_code(CMP_LHS_LOCAL_INDEX, rb as u32, rd as u32)
    } else {
        Seq::<u8>::empty()
    }) + (if instr.spec_rc() { update_cr0_from_reg_code(rd as u32) } else { Seq::<u8>::empty() });
    assert(subfx_code(instr) =~= head + tail);
    assert((head + tail).take(7) =~= head);
    if !instr.spec_oe() && !instr.spec_rc() {
        assert(tail =~= Seq::<u8>::empty());
        assert(subfx_code(instr) =~= head);
        let s1 = seq![regs[rb as int]];
        let s2 = seq![regs[rb as int], regs[ra as int]];
        let v = ((regs[rb as int] - regs[ra as int]) % 0x1_0000_0000) as u32;
        let c1 = head.subrange(2, 7);
        let c2 = c1.subrange(2, 5);
        let c3 = c2.drop_first();
        let c4 = c3.subrange(2, 2);
        assert(c1 =~= seq![0x20u8, ra, 0x6bu8, 0x21u8, rd]);
        assert(c2 =~= seq![0x6bu8, 0x21u8, rd]);
        assert(c3 =~= seq![0x21u8, rd]);
        assert(c4 =~= Seq::<u8>::empty());
        assert(Seq::<u32>::empty().push(regs[rb as int]) =~= s1);
        assert(s1.push(regs[ra as int]) =~= s2);
        assert(s2.drop_last().drop_last().push(v) =~= seq![v]);
        assert(seq![v].drop_last() =~= Seq::<u32>::empty());
        assert(i32_eval(c4, regs.update(rd as int, v), Seq::empty()) == Some((regs.update(rd as int, v), Seq::<u32>::empty())));
        assert(i32_eval(c3, regs, seq![v]) == i32_eval(c4, regs.update(rd as int, v), Seq::empty()));
        assert(i32_eval(c2, regs, s2) == i32_eval(c3, regs, seq![v]));
        assert(i32_eval(c1, regs, s1) == i32_eval(c2, regs, s2));
        assert(i32_eval(head, regs, Seq::empty()) == i32_eval(c1, regs, s1));
    }
}

/// `addc[o][.]`: the sum and its carry.
pub open spec fn addcx_code(instr: Instruction) -> Seq<u8> {
    local_get(instr.ra() as u32)
        + local_get(instr.rb() as u32)
        + seq![0x6au8]
        + local_set(instr.rd() as u32)
        + local_get(instr.rd() as u32)
        + local_get(instr.ra() as u32)
        + seq![0x49u8]
        + local_set(CA_PARAM_INDEX)
        + (if instr.oe() { update_ov_so_from_add_like_code(instr.ra() as u32, instr.rb() as u32, instr.rd() as u32) } else { Seq::<u8>::empty() })
        + (if instr.rc() { update_cr0_from_reg_code(instr.rd() as u32) } else { Seq::<u8>::empty() })
}

#[verifier::spinoff_prover]
#[verifier::rlimit(100)]
pub fn emit_addcx(out: &mut Vec<u8>, instr: Instruction)
    ensures
        final(out)@ == old(out)@ + addcx_code(instr),
{
    let ghost start = out@;
    emit_local_get(out, instr.ra() as u32);
    emit_local_get(out, instr.rb() as u32);
    out.push(0x6a);
    emit_local_set(out, instr.rd() as u32);
    emit_local_get(out, instr.rd() as u32);
    emit_local_get(out, instr.ra() as u32);
    out.push(0x49);
    emit_local_set(out, CA_PARAM_INDEX);
    if instr.oe() {
        emit_update_ov_so_from_add_like(out, instr.ra() as u32, instr.rb() as u32, instr.rd() as u32);
    }
    if instr.rc() {
        emit_update_cr0_from_reg(out, instr.rd() as u32);
    }
    assert(out@ =~= start + addcx_code(instr));
}

/// `subfc[o][.]`: rD = rB - rA and its carry.
pub open spec fn subfcx_code(instr: Instruction) -> Seq<u8> {
    local_get(instr.rb() as u32)
        + local_get(instr.ra() as u32)
        + seq![0x6bu8]
        + local_set(instr.rd() as u32)
        + local_get(instr.rb() as u32)
        + local_get(instr.ra() as u32)
        + seq![0x4fu8]
        + local_set(CA_PARAM_INDEX)
        + (if instr.oe() { local_get(instr.ra() as u32)
        + i32_const(-1i32)
        + seq![0x73u8]
        + local_set(CMP_LHS_LOCAL_INDEX)
        + update_ov_so_from_add_like_code(CMP_LHS_LOCAL_INDEX, instr.rb() as u32, instr.rd() as u32) } else { Seq::<u8>::empty() })
        + (if instr.rc() { update_cr0_from_reg_code(instr.rd() as u32) } else { Seq::<u8>::empty() })
}

#[verifier::spinoff_prover]
#[verifier::rlimit(100)]
pub fn emit_subfcx(out: &mut Vec<u8>, instr: Instruction)
    ensures
        final(out)@ == old(out)@ + subfcx_code(instr),
{
    let ghost start = out@;
    emit_local_get(out, instr.rb() as u32);
    emit_local_get(out, instr.ra() as u32);
    out.push(0x6b);
    emit_local_set(out, instr.rd() as u32);
    emit_local_get(out, instr.rb() as u32);
    emit_local_get(out, instr.ra() as u32);
    out.push(0x4f);
    emit_local_set(out, CA_PARAM_INDEX);
    if instr.oe() {
        emit_local_get(out, instr.ra() as u32);
        emit_i32_const(out, -1i32);
        out.push(0x73);
        emit_local_set(out, CMP_LHS_LOCAL_INDEX);
        emit_update_ov_so_from_add_like(out, CMP_LHS_LOCAL_INDEX, instr.rb() as u32, instr.rd() as u32);
    }
    if instr.rc() {
        emit_update_cr0_from_reg(out, instr.rd() as u32);
    }
    assert(out@ =~= start + subfcx_code(instr));
}

/// `slw[.]`: shifts of 32 and more give zero.
pub open spec fn slwx_code(instr: Instruction) -> Seq<u8> {
    local_get(instr.rb() as u32)
        + i32_const(0x3fi32)
        + seq![0x71u8]
        + local_set(CMP_LHS_LOCAL_INDEX)
        + local_get(CMP_LHS_LOCAL_INDEX)
        + i32_const(32i32)
        + seq![0x4fu8]
        + seq![0x04u8]
        + seq![0x40u8]
        + i32_const(0i32)
        + local_set(instr.ra() as u32)
        + seq![0x05u8]
        + seq![0x40u8]
        + local_get(instr.rs() as u32)
        + local_get(CMP_LHS_LOCAL_INDEX)
        + seq![0x74u8]
        + local_set(instr.ra() as u32)
        + seq![0x0bu8]
        + (if instr.rc() { update_cr0_from_reg_code(instr.ra() as u32) } else { Seq::<u8>::empty() })
}

#[verifier::spinoff_prover]
#[verifier::rlimit(100)]
pub fn emit_slwx(out: &mut Vec<u8>, instr: Instruction)
    ensures
        final(out)@ == old(out)@ + slwx_code(instr),
{
    let ghost start = out@;
    emit_local_get(out, instr.rb() as u32);
    emit_i32_const(out, 0x3fi32);
    out.push(0x71);
    emit_local_set(out, CMP_LHS_LOCAL_INDEX);
    emit_local_get(out, CMP_LHS_LOCAL_INDEX);
    emit_i32_const(out, 32i32);
    out.push(0x4f);
    out.push(0x04);
    out.push(0x40);
    emit_i32_const(out, 0i32);
    emit_local_set(out, instr.ra() as u32);
    out.push(0x05);
    out.push(0x40);
    emit_local_get(out, instr.rs() as u32);
    emit_local_get(out, CMP_LHS_LOCAL_INDEX);
    out.push(0x74);
    emit_local_set(out, instr.ra() as u32);
    out.push(0x0b);
    if instr.rc() {
        emit_update_cr0_from_reg(out, instr.ra() as u32);
    }
    assert(out@ =~= start + slwx_code(instr));
}

/// `srw[.]`: shifts of 32 and more give zero.
pub open spec fn srwx_code(instr: Instruction) -> Seq<u8> {
    local_get(instr.rb() as u32)
        + i32_const(0x3fi32)
        + seq![0x71u8]
        + local_set(CMP_LHS_LOCAL_INDEX)
        + local_get(CMP_LHS_LOCAL_INDEX)
        + i32_const(32i32)
        + seq![0x4fu8]
        + seq![0x04u8]
        + seq![0x40u8]
        + i32_const(0i32)
        + local_set(instr.ra() as u32)
        + seq![0x05u8]
        + seq![0x40u8]
        + local_get(instr.rs() as u32)
        + local_get(CMP_LHS_LOCAL_INDEX)
        + seq![0x76u8]
        + local_set(instr.ra() as u32)
        + seq![0x0bu8]
        + (if instr.rc() { update_cr0_from_reg_code(instr.ra() as u32) } else { Seq::<u8>::empty() })
}

#[verifier::spinoff_prover]
#[verifier::rlimit(100)]
pub fn emit_srwx(out: &mut Vec<u8>, instr: Instruction)
    ensures
        final(out)@ == old(out)@ + srwx_code(instr),
{
    let ghost start = out@;
    emit_local_get(out, instr.rb() as u32);
    emit_i32_const(out, 0x3fi32);
    out.push(0x71);
    emit_local_set(out, CMP_LHS_LOCAL_INDEX);
    emit_local_get(out, CMP_LHS_LOCAL_INDEX);
    emit_i32_const(out, 32i32);
    out.push(0x4f);
    out.push(0x04);
    out.push(0x40);
    emit_i32_const(out, 0i32);
    emit_local_set(out, instr.ra() as u32);
    out.push(0x05);
    out.push(0x40);
    emit_local_get(out, instr.rs() as u32);
    emit_local_get(out, CMP_LHS_LOCAL_INDEX);
    out.push(0x76);
    emit_local_set(out, instr.ra() as u32);
    out.push(0x0b);
    if instr.rc() {
        emit_update_cr0_from_reg(out, instr.ra() as u32);
    }
    assert(out@ =~= start + srwx_code(instr));
}

/// `sraw` for a shift amount (in the scratch local) below 32: CA and rA.
pub open spec fn sraw_in_range_code(instr: Instruction) -> Seq<u8> {
    local_get(CMP_LHS_LOCAL_INDEX)
        + i32_const(0i32)
        + seq![0x46u8]
        + seq![0x04u8]
        + seq![0x40u8]
        + i32_const(0i32)
        + local_set(CA_PARAM_INDEX)
        + local_get(instr.rs() as u32)
        + local_set(instr.ra() as u32)
        + seq![0x05u8]
        + seq![0x40u8]
        + i32_const(1i32)
        + local_get(CMP_LHS_LOCAL_INDEX)
        + seq![0x74u8]
        + i32_const(1i32)
        + seq![0x6bu8]
        + local_set(CMP_RHS_LOCAL_INDEX)
        + local_get(instr.rs() as u32)
        + i32_const(0i32)
        + seq![0x48u8]
        + local_get(instr.rs() as u32)
        + local_get(CMP_RHS_LOCAL_INDEX)
        + seq![0x71u8]
        + i32_const(0i32)
        + seq![0x47u8]
        + seq![0x71u8]
        + local_set(CA_PARAM_INDEX)
        + local_get(instr.rs() as u32)
        + local_get(CMP_LHS_LOCAL_INDEX)
        + seq![0x75u8]
        + local_set(instr.ra() as u32)
        + seq![0x0bu8]
        + seq![0x0bu8]
}

#[verifier::spinoff_prover]
#[verifier::rlimit(100)]
pub fn emit_sraw_in_range(out: &mut Vec<u8>, instr: Instruction)
    ensures
        final(out)@ == old(out)@ + sraw_in_range_code(instr),
{
    let ghost start = out@;
    emit_local_get(out, CMP_LHS_LOCAL_INDEX);
    emit_i32_const(out, 0i32);
    out.push(0x46);
    out.push(0x04);
    out.push(0x40);
    emit_i32_const(out, 0i32);
    emit_local_set(out, CA_PARAM_INDEX);
    emit_local_get(out, instr.rs() as u32);
    emit_local_set(out, instr.ra() as u32);
    out.push(0x05);
    out.push(0x40);
    emit_i32_const(out, 1i32);
    emit_local_get(out, CMP_LHS_LOCAL_INDEX);
    out.push(0x74);
    emit_i32_const(out, 1i32);
    out.push(0x6b);
    emit_local_set(out, CMP_RHS_LOCAL_INDEX);
    emit_local_get(out, instr.rs() as u32);
    emit_i32_const(out, 0i32);
    out.push(0x48);
    emit_local_get(out, instr.rs() as u32);
    emit_local_get(out, CMP_RHS_LOCAL_INDEX);
    out.push(0x71);
    emit_i32_const(out, 0i32);
    out.push(0x47);
    out.push(0x71);
    emit_local_set(out, CA_PARAM_INDEX);
    emit_local_get(out, instr.rs() as u32);
    emit_local_get(out, CMP_LHS_LOCAL_INDEX);
    out.push(0x75);
    emit_local_set(out, instr.ra() as u32);
    out.push(0x0b);
    out.push(0x0b);
    assert(out@ =~= start + sraw_in_range_code(instr));
}

/// `sraw` for a shift amount of 32 or more: CA is the sign, rA all sign bits.
pub open spec fn sraw_saturated_code(instr: Instruction) -> Seq<u8> {
    local_get(instr.rs() as u32)
        + i32_const(0i32)
        + seq![0x48u8]
        + local_set(CA_PARAM_INDEX)
        + local_get(instr.rs() as u32)
        + i32_const(31i32)
        + seq![0x75u8]
        + local_set(instr.ra() as u32)
}

#[verifier::spinoff_prover]
#[verifier::rlimit(100)]
pub fn emit_sraw_saturated(out: &mut Vec<u8>, instr: Instruction)
    ensures
        final(out)@ == old(out)@ + sraw_saturated_code(instr),
{
    let ghost start = out@;
    emit_local_get(out, instr.rs() as u32);
    emit_i32_const(out, 0i32);
    out.push(0x48);
    emit_local_set(out, CA_PARAM_INDEX);
    emit_local_get(out, instr.rs() as u32);
    emit_i32_const(out, 31i32);
    out.push(0x75);
    emit_local_set(out, instr.ra() as u32);
    assert(out@ =~= start + sraw_saturated_code(instr));
}

/// `sraw[.]`: arithmetic shift by rB, CA when ones are shifted out of a negative value.
pub open spec fn srawx_code(instr: Instruction) -> Seq<u8> {
    local_get(instr.rb() as u32)
        + i32_const(0x3fi32)
        + seq![0x71u8]
        + local_set(CMP_LHS_LOCAL_INDEX)
        + local_get(CMP_LHS_LOCAL_INDEX)
        + i32_const(32i32)
        + seq![0x4fu8]
        + seq![0x04u8]
        + seq![0x40u8]
        + sraw_saturated_code(instr)
        + seq![0x05u8]
        + seq![0x40u8]
        + sraw_in_range_code(instr)
        + seq![0x0bu8]
        + (if instr.rc() { update_cr0_from_reg_code(instr.ra() as u32) } else { Seq::<u8>::empty() })
}

#[verifier::spinoff_prover]
#[verifier::rlimit(100)]
pub fn emit_srawx(out: &mut Vec<u8>, instr: Instruction)
    ensures
        final(out)@ == old(out)@ + srawx_code(instr),
{
    let ghost start = out@;
    emit_local_get(out, instr.rb() as u32);
    emit_i32_const(out, 0x3fi32);
    out.push(0x71);
    emit_local_set(out, CMP_LHS_LOCAL_INDEX);
    emit_local_get(out, CMP_LHS_LOCAL_INDEX);
    emit_i32_const(out, 32i32);
    out.push(0x4f);
    out.push(0x04);
    out.push(0x40);
    emit_sraw_saturated(out, instr);
    out.push(0x05);
    out.push(0x40);
    emit_sraw_in_range(out, instr);
    out.push(0x0b);
    if instr.rc() {
        emit_update_cr0_from_reg(out, instr.ra() as u32);
    }
    assert(out@ =~= start + srawx_code(instr));
}

/// `srawi[.]`: arithmetic shift by SH, CA when ones are shifted out of a negative value.
pub open spec fn srawix_code(instr: Instruction) -> Seq<u8> {
    (if instr.sh() == 0 { i32_const(0i32)
        + local_set(CA_PARAM_INDEX)
        + local_get(instr.rs() as u32)
        + local_set(instr.ra() as u32) } else { i32_const((1u32 << (instr.sh() as u32)) as i32)
        + i32_const(1i32)
        + seq![0x6bu8]
        + local_set(CMP_RHS_LOCAL_INDEX)
        + local_get(instr.rs() as u32)
        + i32_const(0i32)
        + seq![0x48u8]
        + local_get(instr.rs() as u32)
        + local_get(CMP_RHS_LOCAL_INDEX)
        + seq![0x71u8]
        + i32_const(0i32)
        + seq![0x47u8]
        + seq![0x71u8]
        + local_set(CA_PARAM_INDEX)
        + local_get(instr.rs() as u32)
        + i32_const(instr.sh() as i32)
        + seq![0x75u8]
        + local_set(instr.ra() as u32) })
        + (if instr.rc() { update_cr0_from_reg_code(instr.ra() as u32) } else { Seq::<u8>::empty() })
}

#[verifier::spinoff_prover]
#[verifier::rlimit(100)]
pub fn emit_srawix(out: &mut Vec<u8>, instr: Instruction)
    ensures
        final(out)@ == old(out)@ + srawix_code(instr),
{
    let ghost start = out@;
    if instr.sh() == 0 {
        emit_i32_const(out, 0i32);
        emit_local_set(out, CA_PARAM_INDEX);
        emit_local_get(out, instr.rs() as u32);
        emit_local_set(out, instr.ra() as u32);
    } else {
        emit_i32_const(out, (1u32 << (instr.sh() as u32)) as i32);
        emit_i32_const(out, 1i32);
        out.push(0x6b);
        emit_local_set(out, CMP_RHS_LOCAL_INDEX);
        emit_local_get(out, instr.rs() as u32);
        emit_i32_const(out, 0i32);
        out.push(0x48);
        emit_local_get(out, instr.rs() as u32);
        emit_local_get(out, CMP_RHS_LOCAL_INDEX);
        out.push(0x71);
        emit_i32_const(out, 0i32);
        out.push(0x47);
        out.push(0x71);
        emit_local_set(out, CA_PARAM_INDEX);
        emit_local_get(out, instr.rs() as u32);
        emit_i32_const(out, instr.sh() as i32);
        out.push(0x75);
        emit_local_set(out, instr.ra() as u32);
    }
    if instr.rc() {
        emit_update_cr0_from_reg(out, instr.ra() as u32);
    }
    assert(out@ =~= start + srawix_code(instr));
}

/// `rlwinm[.]`: rotate rS left by SH and mask from MB to ME.
pub open spec fn rlwinm_code(instr: Instruction) -> Seq<u8> {
    local_get(instr.rs() as u32)
        + i32_const(instr.sh() as i32)
        + seq![0x77u8]
        + i32_const(rlwinm_mask_of(instr.mb() as u32, instr.me() as u32) as i32)
        + seq![0x71u8]
        + local_set(instr.ra() as u32)
        + (if instr.rc() { update_cr0_from_reg_code(instr.ra() as u32) } else { Seq::<u8>::empty() })
}

#[verifier::spinoff_prover]
#[verifier::rlimit(100)]
pub fn emit_rlwinm(out: &mut Vec<u8>, instr: Instruction)
    ensures
        final(out)@ == old(out)@ + rlwinm_code(instr),
{
    let ghost start = out@;
    emit_local_get(out, instr.rs() as u32);
    emit_i32_const(out, instr.sh() as i32);
    out.push(0x77);
    emit_i32_const(out, rlwinm_mask(instr.mb() as u32, instr.me() as u32) as i32);
    out.push(0x71);
    emit_local_set(out, instr.ra() as u32);
    if instr.rc() {
        emit_update_cr0_from_reg(out, instr.ra() as u32);
    }
    assert(out@ =~= start + rlwinm_code(instr));
}

/// `or[.]`.
pub open spec fn orx_code(instr: Instruction) -> Seq<u8> {
    local_get(instr.rs() as u32)
        + local_get(instr.rb() as u32)
        + seq![0x72u8]
        + local_set(instr.ra() as u32)
        + (if instr.rc() { update_cr0_from_reg_code(instr.ra() as u32) } else { Seq::<u8>::empty() })
}

#[verifier::spinoff_prover]
#[verifier::rlimit(100)]
pub fn emit_orx(out: &mut Vec<u8>, instr: Instruction)
    ensures
        final(out)@ == old(out)@ + orx_code(instr),
{
    let ghost start = out@;
    emit_local_get(out, instr.rs() as u32);
    emit_local_get(out, instr.rb() as u32);
    out.push(0x72);
    emit_local_set(out, instr.ra() as u32);
    if instr.rc() {
        emit_update_cr0_from_reg(out, instr.ra() as u32);
    }
    assert(out@ =~= start + orx_code(instr));
}

/// `and[.]`.
pub open spec fn andx_code(instr: Instruction) -> Seq<u8> {
    local_get(instr.rs() as u32)
        + local_get(instr.rb() as u32)
        + seq![0x71u8]
        + local_set(instr.ra() as u32)
        + (if instr.rc() { update_cr0_from_reg_code(instr.ra() as u32) } else { Seq::<u8>::empty() })
}

#[verifier::spinoff_prover]
#[verifier::rlimit(100)]
pub fn emit_andx(out: &mut Vec<u8>, instr: Instruction)
    ensures
        final(out)@ == old(out)@ + andx_code(instr),
{
    let ghost start = out@;
    emit_local_get(out, instr.rs() as u32);
    emit_local_get(out, instr.rb() as u32);
    out.push(0x71);
    emit_local_set(out, instr.ra() as u32);
    if instr.rc() {
        emit_update_cr0_from_reg(out, instr.ra() as u32);
    }
    assert(out@ =~= start + andx_code(instr));
}

/// `xor[.]`.
pub open spec fn xorx_code(instr: Instruction) -> Seq<u8> {
    local_get(instr.rs() as u32)
        + local_get(instr.rb() as u32)
        + seq![0x73u8]
        + local_set(instr.ra() as u32)
        + (if instr.rc() { update_cr0_from_reg_code(instr.ra() as u32) } else { Seq::<u8>::empty() })
}

#[verifier::spinoff_prover]
#[verifier::rlimit(100)]
pub fn emit_xorx(out: &mut Vec<u8>, instr: Instruction)
    ensures
        final(out)@ == old(out)@ + xorx_code(instr),
{
    let ghost start = out@;
    emit_local_get(out, instr.rs() as u32);
    emit_local_get(out, instr.rb() as u32);
    out.push(0x73);
    emit_local_set(out, instr.ra() as u32);
    if instr.rc() {
        emit_update_cr0_from_reg(out, instr.ra() as u32);
    }
    assert(out@ =~= start + xorx_code(instr));
}

/// `ori`, `oris`, `xori`, `xoris`: the wasm operation `op` with UIMM (shifted up when `upper`).
pub open spec fn logical_imm_code(instr: Instruction, op: u8, upper: bool) -> Seq<u8> {
    local_get(instr.rs() as u32)
        + (if upper { i32_const(((instr.uimm() as u32) << 16u32) as i32) } else { i32_const(instr.uimm() as u32 as i32) })
        + seq![op]
        + local_set(instr.ra() as u32)
}

#[verifier::spinoff_prover]
#[verifier::rlimit(100)]
pub fn emit_logical_imm(out: &mut Vec<u8>, instr: Instruction, op: u8, upper: bool)
    ensures
        final(out)@ == old(out)@ + logical_imm_code(instr, op, upper),
{
    let ghost start = out@;
    emit_local_get(out, instr.rs() as u32);
    if upper {
        emit_i32_const(out, ((instr.uimm() as u32) << 16u32) as i32);
    } else {
        emit_i32_const(out, instr.uimm() as u32 as i32);
    }
    out.push(op);
    emit_local_set(out, instr.ra() as u32);
    assert(out@ =~= start + logical_imm_code(instr, op, upper));
}

/// `andi.` / `andis.`: AND with UIMM (shifted up when `upper`), always setting CR0.
pub open spec fn andi_dot_like_code(instr: Instruction, upper: bool) -> Seq<u8> {
    local_get(instr.rs() as u32)
        + (if upper { i32_const(((instr.uimm() as u32) << 16u32) as i32) } else { i32_const(instr.uimm() as u32 as i32) })
        + seq![0x71u8]
        + local_set(instr.ra() as u32)
        + update_cr0_from_reg_code(instr.ra() as u32)
}

#[verifier::spinoff_prover]
#[verifier::rlimit(100)]
pub fn emit_andi_dot_like(out: &mut Vec<u8>, instr: Instruction, upper: bool)
    ensures
        final(out)@ == old(out)@ + andi_dot_like_code(instr, upper),
{
    let ghost start = out@;
    emit_local_get(out, instr.rs() as u32);
    if upper {
        emit_i32_const(out, ((instr.uimm() as u32) << 16u32) as i32);
    } else {
        emit_i32_const(out, instr.uimm() as u32 as i32);
    }
    out.push(0x71);
    emit_local_set(out, instr.ra() as u32);
    emit_update_cr0_from_reg(out, instr.ra() as u32);
    assert(out@ =~= start + andi_dot_like_code(instr, upper));
}

/// Pushes (rA|0) + displacement.
pub open spec fn effective_address_code(ra: u8, disp: i32) -> Seq<u8> {
    (if ra == 0 { i32_const(0i32) } else { local_get(ra as u32) })
        + i32_const(disp)
        + seq![0x6au8]
}

#[verifier::spinoff_prover]
#[verifier::rlimit(100)]
pub fn emit_effective_address(out: &mut Vec<u8>, ra: u8, disp: i32)
    ensures
        final(out)@ == old(out)@ + effective_address_code(ra, disp),
{
    let ghost start = out@;
    if ra == 0 {
        emit_i32_const(out, 0i32);
    } else {
        emit_local_get(out, ra as u32);
    }
    emit_i32_const(out, disp);
    out.push(0x6a);
    assert(out@ =~= start + effective_address_code(ra, disp));
}

/// Pushes (rA|0) + rB.
pub open spec fn indexed_effective_address_code(ra: u8, rb: u8) -> Seq<u8> {
    (if ra == 0 { i32_const(0i32) } else { local_get(ra as u32) })
        + local_get(rb as u32)
        + seq![0x6au8]
}

#[verifier::spinoff_prover]
#[verifier::rlimit(100)]
pub fn emit_indexed_effective_address(out: &mut Vec<u8>, ra: u8, rb: u8)
    ensures
        final(out)@ == old(out)@ + indexed_effective_address_code(ra, rb),
{
    let ghost start = out@;
    if ra == 0 {
        emit_i32_const(out, 0i32);
    } else {
        emit_local_get(out, ra as u32);
    }
    emit_local_get(out, rb as u32);
    out.push(0x6a);
    assert(out@ =~= start + indexed_effective_address_code(ra, rb));
}

/// Masks an effective address to its physical address.
pub open spec fn fastmem_mem1_phys_code(ea_local_index: u32, phys_local_index: u32) -> Seq<u8> {
    local_get(ea_local_index)
        + i32_const(0x3FFF_FFFFu32 as i32)
        + seq![0x71u8]
        + local_set(phys_local_index)
}

#[verifier::spinoff_prover]
#[verifier::rlimit(100)]
pub fn emit_fastmem_mem1_phys(out: &mut Vec<u8>, ea_local_index: u32, phys_local_index: u32)
    ensures
        final(out)@ == old(out)@ + fastmem_mem1_phys_code(ea_local_index, phys_local_index),
{
    let ghost start = out@;
    emit_local_get(out, ea_local_index);
    emit_i32_const(out, 0x3FFF_FFFFu32 as i32);
    out.push(0x71);
    emit_local_set(out, phys_local_index);
    assert(out@ =~= start + fastmem_mem1_phys_code(ea_local_index, phys_local_index));
}

/// After the effective address is in the first scratch register: the big-endian word into rD, straight from main memory when it lies there, else through the read import.
pub open spec fn load_word_tail_code(rd: u32, mem1: u32) -> Seq<u8> {
    fastmem_mem1_phys_code(CMP_LHS_LOCAL_INDEX, CMP_RHS_LOCAL_INDEX)
        + local_get(CMP_RHS_LOCAL_INDEX)
        + i32_const(RAM_END.wrapping_sub(3) as i32)
        + seq![0x4cu8]
        + seq![0x04u8]
        + seq![0x40u8]
        + i32_const(mem1 as i32)
        + local_get(CMP_RHS_LOCAL_INDEX)
        + seq![0x6au8]
        + seq![0x28u8]
        + uleb((2u32) as nat)
        + uleb((0u32) as nat)
        + i32_bswap_code()
        + local_set(rd)
        + seq![0x05u8]
        + seq![0x40u8]
        + local_get(CMP_LHS_LOCAL_INDEX)
        + call_op(READ_U32_IMPORT_INDEX)
        + local_set(rd)
        + seq![0x0bu8]
}

#[verifier::spinoff_prover]
#[verifier::rlimit(100)]
pub fn emit_load_word_tail(out: &mut Vec<u8>, rd: u32, mem1: u32)
    ensures
        final(out)@ == old(out)@ + load_word_tail_code(rd, mem1),
{
    let ghost start = out@;
    emit_fastmem_mem1_phys(out, CMP_LHS_LOCAL_INDEX, CMP_RHS_LOCAL_INDEX);
    emit_local_get(out, CMP_RHS_LOCAL_INDEX);
    emit_i32_const(out, RAM_END.wrapping_sub(3) as i32);
    out.push(0x4c);
    out.push(0x04);
    out.push(0x40);
    emit_i32_const(out, mem1 as i32);
    emit_local_get(out, CMP_RHS_LOCAL_INDEX);
    out.push(0x6a);
    out.push(0x28);
    write_uleb(out, 2u32);
    write_uleb(out, 0u32);
    emit_i32_bswap(out);
    emit_local_set(out, rd);
    out.push(0x05);
    out.push(0x40);
    emit_local_get(out, CMP_LHS_LOCAL_INDEX);
    emit_call(out, READ_U32_IMPORT_INDEX);
    emit_local_set(out, rd);
    out.push(0x0b);
    assert(out@ =~= start + load_word_tail_code(rd, mem1));
}

/// After the effective address: the byte into rD, from main memory or through the read import.
pub open spec fn load_byte_tail_code(rd: u32, mem1: u32) -> Seq<u8> {
    fastmem_mem1_phys_code(CMP_LHS_LOCAL_INDEX, CMP_RHS_LOCAL_INDEX)
        + local_get(CMP_RHS_LOCAL_INDEX)
        + i32_const(RAM_END as i32)
        + seq![0x4cu8]
        + seq![0x04u8]
        + seq![0x40u8]
        + i32_const(mem1 as i32)
        + local_get(CMP_RHS_LOCAL_INDEX)
        + seq![0x6au8]
        + i32_load8_u_from_stack_code()
        + local_set(rd)
        + seq![0x05u8]
        + seq![0x40u8]
        + local_get(CMP_LHS_LOCAL_INDEX)
        + call_op(READ_U8_IMPORT_INDEX)
        + local_set(rd)
        + seq![0x0bu8]
}

#[verifier::spinoff_prover]
#[verifier::rlimit(100)]
pub fn emit_load_byte_tail(out: &mut Vec<u8>, rd: u32, mem1: u32)
    ensures
        final(out)@ == old(out)@ + load_byte_tail_code(rd, mem1),
{
    let ghost start = out@;
    emit_fastmem_mem1_phys(out, CMP_LHS_LOCAL_INDEX, CMP_RHS_LOCAL_INDEX);
    emit_local_get(out, CMP_RHS_LOCAL_INDEX);
    emit_i32_const(out, RAM_END as i32);
    out.push(0x4c);
    out.push(0x04);
    out.push(0x40);
    emit_i32_const(out, mem1 as i32);
    emit_local_get(out, CMP_RHS_LOCAL_INDEX);
    out.push(0x6a);
    emit_i32_load8_u_from_stack(out);
    emit_local_set(out, rd);
    out.push(0x05);
    out.push(0x40);
    emit_local_get(out, CMP_LHS_LOCAL_INDEX);
    emit_call(out, READ_U8_IMPORT_INDEX);
    emit_local_set(out, rd);
    out.push(0x0b);
    assert(out@ =~= start + load_byte_tail_code(rd, mem1));
}

/// After the effective address: the big-endian halfword into rD, from main memory or through the read import.
pub open spec fn load_half_tail_code(rd: u32, mem1: u32) -> Seq<u8> {
    fastmem_mem1_phys_code(CMP_LHS_LOCAL_INDEX, CMP_RHS_LOCAL_INDEX)
        + local_get(CMP_RHS_LOCAL_INDEX)
        + i32_const(RAM_END.wrapping_sub(1) as i32)
        + seq![0x4cu8]
        + seq![0x04u8]
        + seq![0x40u8]
        + i32_const(mem1 as i32)
        + local_get(CMP_RHS_LOCAL_INDEX)
        + seq![0x6au8]
        + i32_load8_u_from_stack_code()
        + i32_const(8i32)
        + seq![0x74u8]
        + i32_const(mem1 as i32)
        + local_get(CMP_RHS_LOCAL_INDEX)
        + i32_const(1i32)
        + seq![0x6au8]
        + seq![0x6au8]
        + i32_load8_u_from_stack_code()
        + seq![0x72u8]
        + local_set(rd)
        + seq![0x05u8]
        + seq![0x40u8]
        + local_get(CMP_LHS_LOCAL_INDEX)
        + call_op(READ_U16_IMPORT_INDEX)
        + local_set(rd)
        + seq![0x0bu8]
}

#[verifier::spinoff_prover]
#[verifier::rlimit(100)]
pub fn emit_load_half_tail(out: &mut Vec<u8>, rd: u32, mem1: u32)
    ensures
        final(out)@ == old(out)@ + load_half_tail_code(rd, mem1),
{
    let ghost start = out@;
    emit_fastmem_mem1_phys(out, CMP_LHS_LOCAL_INDEX, CMP_RHS_LOCAL_INDEX);
    emit_local_get(out, CMP_RHS_LOCAL_INDEX);
    emit_i32_const(out, RAM_END.wrapping_sub(1) as i32);
    out.push(0x4c);
    out.push(0x04);
    out.push(0x40);
    emit_i32_const(out, mem1 as i32);
    emit_local_get(out, CMP_RHS_LOCAL_INDEX);
    out.push(0x6a);
    emit_i32_load8_u_from_stack(out);
    emit_i32_const(out, 8i32);
    out.push(0x74);
    emit_i32_const(out, mem1 as i32);
    emit_local_get(out, CMP_RHS_LOCAL_INDEX);
    emit_i32_const(out, 1i32);
    out.push(0x6a);
    out.push(0x6a);
    emit_i32_load8_u_from_stack(out);
    out.push(0x72);
    emit_local_set(out, rd);
    out.push(0x05);
    out.push(0x40);
    emit_local_get(out, CMP_LHS_LOCAL_INDEX);
    emit_call(out, READ_U16_IMPORT_INDEX);
    emit_local_set(out, rd);
    out.push(0x0b);
    assert(out@ =~= start + load_half_tail_code(rd, mem1));
}

/// After the effective address: rS stored as a big-endian word, straight into main memory when it lies there and holds no compiled code, else through the write import.
pub open spec fn store_word_tail_code(rs: u32, mem1: u32, refcount: u32) -> Seq<u8> {
    fastmem_mem1_phys_code(CMP_LHS_LOCAL_INDEX, CMP_RHS_LOCAL_INDEX)
        + local_get(CMP_RHS_LOCAL_INDEX)
        + i32_const(RAM_END.wrapping_sub(3) as i32)
        + seq![0x4cu8]
        + seq![0x04u8]
        + seq![0x40u8]
        + i32_const(refcount as i32)
        + local_get(CMP_RHS_LOCAL_INDEX)
        + i32_const(CODE_LINE_SHIFT as i32)
        + seq![0x76u8]
        + seq![0x6au8]
        + seq![0x2du8]
        + uleb((0u32) as nat)
        + uleb((0u32) as nat)
        + i32_const(0i32)
        + seq![0x47u8]
        + seq![0x04u8]
        + seq![0x40u8]
        + local_get(CMP_LHS_LOCAL_INDEX)
        + local_get(rs)
        + call_op(WRITE_U32_IMPORT_INDEX)
        + seq![0x05u8]
        + seq![0x40u8]
        + i32_const(mem1 as i32)
        + local_get(CMP_RHS_LOCAL_INDEX)
        + seq![0x6au8]
        + local_get(rs)
        + i32_bswap_code()
        + seq![0x36u8]
        + uleb((2u32) as nat)
        + uleb((0u32) as nat)
        + seq![0x0bu8]
        + seq![0x05u8]
        + seq![0x40u8]
        + local_get(CMP_LHS_LOCAL_INDEX)
        + local_get(rs)
        + call_op(WRITE_U32_IMPORT_INDEX)
        + seq![0x0bu8]
}

#[verifier::spinoff_prover]
#[verifier::rlimit(100)]
pub fn emit_store_word_tail(out: &mut Vec<u8>, rs: u32, mem1: u32, refcount: u32)
    ensures
        final(out)@ == old(out)@ + store_word_tail_code(rs, mem1, refcount),
{
    let ghost start = out@;
    emit_fastmem_mem1_phys(out, CMP_LHS_LOCAL_INDEX, CMP_RHS_LOCAL_INDEX);
    emit_local_get(out, CMP_RHS_LOCAL_INDEX);
    emit_i32_const(out, RAM_END.wrapping_sub(3) as i32);
    out.push(0x4c);
    out.push(0x04);
    out.push(0x40);
    emit_i32_const(out, refcount as i32);
    emit_local_get(out, CMP_RHS_LOCAL_INDEX);
    emit_i32_const(out, CODE_LINE_SHIFT as i32);
    out.push(0x76);
    out.push(0x6a);
    out.push(0x2d);
    write_uleb(out, 0u32);
    write_uleb(out, 0u32);
    emit_i32_const(out, 0i32);
    out.push(0x47);
    out.push(0x04);
    out.push(0x40);
    emit_local_get(out, CMP_LHS_LOCAL_INDEX);
    emit_local_get(out, rs);
    emit_call(out, WRITE_U32_IMPORT_INDEX);
    out.push(0x05);
    out.push(0x40);
    emit_i32_const(out, mem1 as i32);
    emit_local_get(out, CMP_RHS_LOCAL_INDEX);
    out.push(0x6a);
    emit_local_get(out, rs);
    emit_i32_bswap(out);
    out.push(0x36);
    write_uleb(out, 2u32);
    write_uleb(out, 0u32);
    out.push(0x0b);
    out.push(0x05);
    out.push(0x40);
    emit_local_get(out, CMP_LHS_LOCAL_INDEX);
    emit_local_get(out, rs);
    emit_call(out, WRITE_U32_IMPORT_INDEX);
    out.push(0x0b);
    assert(out@ =~= start + store_word_tail_code(rs, mem1, refcount));
}

/// After the effective address: the low byte of rS stored, into main memory or through the write import.
pub open spec fn store_byte_tail_code(rs: u32, mem1: u32, refcount: u32) -> Seq<u8> {
    fastmem_mem1_phys_code(CMP_LHS_LOCAL_INDEX, CMP_RHS_LOCAL_INDEX)
        + local_get(CMP_RHS_LOCAL_INDEX)
        + i32_const(RAM_END as i32)
        + seq![0x4cu8]
        + seq![0x04u8]
        + seq![0x40u8]
        + i32_const(refcount as i32)
        + local_get(CMP_RHS_LOCAL_INDEX)
        + i32_const(CODE_LINE_SHIFT as i32)
        + seq![0x76u8]
        + seq![0x6au8]
        + seq![0x2du8]
        + uleb((0u32) as nat)
        + uleb((0u32) as nat)
        + i32_const(0i32)
        + seq![0x47u8]
        + seq![0x04u8]
        + seq![0x40u8]
        + local_get(CMP_LHS_LOCAL_INDEX)
        + local_get(rs)
        + call_op(WRITE_U8_IMPORT_INDEX)
        + seq![0x05u8]
        + seq![0x40u8]
        + i32_const(mem1 as i32)
        + local_get(CMP_RHS_LOCAL_INDEX)
        + seq![0x6au8]
        + local_get(rs)
        + seq![0x3au8]
        + uleb((0u32) as nat)
        + uleb((0u32) as nat)
        + seq![0x0bu8]
        + seq![0x05u8]
        + seq![0x40u8]
        + local_get(CMP_LHS_LOCAL_INDEX)
        + local_get(rs)
        + call_op(WRITE_U8_IMPORT_INDEX)
        + seq![0x0bu8]
}

#[verifier::spinoff_prover]
#[verifier::rlimit(100)]
pub fn emit_store_byte_tail(out: &mut Vec<u8>, rs: u32, mem1: u32, refcount: u32)
    ensures
        final(out)@ == old(out)@ + store_byte_tail_code(rs, mem1, refcount),
{
    let ghost start = out@;
    emit_fastmem_mem1_phys(out, CMP_LHS_LOCAL_INDEX, CMP_RHS_LOCAL_INDEX);
    emit_local_get(out, CMP_RHS_LOCAL_INDEX);
    emit_i32_const(out, RAM_END as i32);
    out.push(0x4c);
    out.push(0x04);
    out.push(0x40);
    emit_i32_const(out, refcount as i32);
    emit_local_get(out, CMP_RHS_LOCAL_INDEX);
    emit_i32_const(out, CODE_LINE_SHIFT as i32);
    out.push(0x76);
    out.push(0x6a);
    out.push(0x2d);
    write_uleb(out, 0u32);
    write_uleb(out, 0u32);
    emit_i32_const(out, 0i32);
    out.push(0x47);
    out.push(0x04);
    out.push(0x40);
    emit_local_get(out, CMP_LHS_LOCAL_INDEX);
    emit_local_get(out, rs);
    emit_call(out, WRITE_U8_IMPORT_INDEX);
    out.push(0x05);
    out.push(0x40);
    emit_i32_const(out, mem1 as i32);
    emit_local_get(out, CMP_RHS_LOCAL_INDEX);
    out.push(0x6a);
    emit_local_get(out, rs);
    out.push(0x3a);
    write_uleb(out, 0u32);
    write_uleb(out, 0u32);
    out.push(0x0b);
    out.push(0x05);
    out.push(0x40);
    emit_local_get(out, CMP_LHS_LOCAL_INDEX);
    emit_local_get(out, rs);
    emit_call(out, WRITE_U8_IMPORT_INDEX);
    out.push(0x0b);
    assert(out@ =~= start + store_byte_tail_code(rs, mem1, refcount));
}

/// After the effective address: the low halfword of rS stored big-endian, into main memory or through the write import.
pub open spec fn store_half_tail_code(rs: u32, mem1: u32, refcount: u32) -> Seq<u8> {
    fastmem_mem1_phys_code(CMP_LHS_LOCAL_INDEX, CMP_RHS_LOCAL_INDEX)
        + local_get(CMP_RHS_LOCAL_INDEX)
        + i32_const(RAM_END.wrapping_sub(1) as i32)
        + seq![0x4cu8]
        + seq![0x04u8]
        + seq![0x40u8]
        + i32_const(refcount as i32)
        + local_get(CMP_RHS_LOCAL_INDEX)
        + i32_const(CODE_LINE_SHIFT as i32)
        + seq![0x76u8]
        + seq![0x6au8]
        + seq![0x2du8]
        + uleb((0u32) as nat)
        + uleb((0u32) as nat)
        + i32_const(0i32)
        + seq![0x47u8]
        + seq![0x04u8]
        + seq![0x40u8]
        + local_get(CMP_LHS_LOCAL_INDEX)
        + local_get(rs)
        + call_op(WRITE_U16_IMPORT_INDEX)
        + seq![0x05u8]
        + seq![0x40u8]
        + i32_const(mem1 as i32)
        + local_get(CMP_RHS_LOCAL_INDEX)
        + seq![0x6au8]
        + local_get(rs)
        + i32_const(8i32)
        + seq![0x76u8]
        + seq![0x3au8]
        + uleb((0u32) as nat)
        + uleb((0u32) as nat)
        + i32_const(mem1 as i32)
        + local_get(CMP_RHS_LOCAL_INDEX)
        + i32_const(1i32)
        + seq![0x6au8]
        + seq![0x6au8]
        + local_get(rs)
        + seq![0x3au8]
        + uleb((0u32) as nat)
        + uleb((0u32) as nat)
        + seq![0x0bu8]
        + seq![0x05u8]
        + seq![0x40u8]
        + local_get(CMP_LHS_LOCAL_INDEX)
        + local_get(rs)
        + call_op(WRITE_U16_IMPORT_INDEX)
        + seq![0x0bu8]
}

#[verifier::spinoff_prover]
#[verifier::rlimit(100)]
pub fn emit_store_half_tail(out: &mut Vec<u8>, rs: u32, mem1: u32, refcount: u32)
    ensures
        final(out)@ == old(out)@ + store_half_tail_code(rs, mem1, refcount),
{
    let ghost start = out@;
    emit_fastmem_mem1_phys(out, CMP_LHS_LOCAL_INDEX, CMP_RHS_LOCAL_INDEX);
    emit_local_get(out, CMP_RHS_LOCAL_INDEX);
    emit_i32_const(out, RAM_END.wrapping_sub(1) as i32);
    out.push(0x4c);
    out.push(0x04);
    out.push(0x40);
    emit_i32_const(out, refcount as i32);
    emit_local_get(out, CMP_RHS_LOCAL_INDEX);
    emit_i32_const(out, CODE_LINE_SHIFT as i32);
    out.push(0x76);
    out.push(0x6a);
    out.push(0x2d);
    write_uleb(out, 0u32);
    write_uleb(out, 0u32);
    emit_i32_const(out, 0i32);
    out.push(0x47);
    out.push(0x04);
    out.push(0x40);
    emit_local_get(out, CMP_LHS_LOCAL_INDEX);
    emit_local_get(out, rs);
    emit_call(out, WRITE_U16_IMPORT_INDEX);
    out.push(0x05);
    out.push(0x40);
    emit_i32_const(out, mem1 as i32);
    emit_local_get(out, CMP_RHS_LOCAL_INDEX);
    out.push(0x6a);
    emit_local_get(out, rs);
    emit_i32_const(out, 8i32);
    out.push(0x76);
    out.push(0x3a);
    write_uleb(out, 0u32);
    write_uleb(out, 0u32);
    emit_i32_const(out, mem1 as i32);
    emit_local_get(out, CMP_RHS_LOCAL_INDEX);
    emit_i32_const(out, 1i32);
    out.push(0x6a);
    out.push(0x6a);
    emit_local_get(out, rs);
    out.push(0x3a);
    write_uleb(out, 0u32);
    write_uleb(out, 0u32);
    out.push(0x0b);
    out.push(0x05);
    out.push(0x40);
    emit_local_get(out, CMP_LHS_LOCAL_INDEX);
    emit_local_get(out, rs);
    emit_call(out, WRITE_U16_IMPORT_INDEX);
    out.push(0x0b);
    assert(out@ =~= start + store_half_tail_code(rs, mem1, refcount));
}

/// `lwz`.
pub open spec fn lwz_code(instr: Instruction, mem1: u32) -> Seq<u8> {
    effective_address_code(instr.ra(), instr.d_16_31())
        + local_set(CMP_LHS_LOCAL_INDEX)
        + load_word_tail_code(instr.rd() as u32, mem1)
}

#[verifier::spinoff_prover]
#[verifier::rlimit(100)]
pub fn emit_lwz(out: &mut Vec<u8>, instr: Instruction, mem1: u32)
    ensures
        final(out)@ == old(out)@ + lwz_code(instr, mem1),
{
    let ghost start = out@;
    emit_effective_address(out, instr.ra(), instr.disp());
    emit_local_set(out, CMP_LHS_LOCAL_INDEX);
    emit_load_word_tail(out, instr.rd() as u32, mem1);
    assert(out@ =~= start + lwz_code(instr, mem1));
}

/// `lwzu`: `lwz`, then rA takes the address.
pub open spec fn lwzu_code(instr: Instruction, mem1: u32) -> Seq<u8> {
    effective_address_code(instr.ra(), instr.d_16_31())
        + local_set(CMP_LHS_LOCAL_INDEX)
        + load_word_tail_code(instr.rd() as u32, mem1)
        + local_get(CMP_LHS_LOCAL_INDEX)
        + local_set(instr.ra() as u32)
}

#[verifier::spinoff_prover]
#[verifier::rlimit(100)]
pub fn emit_lwzu(out: &mut Vec<u8>, instr: Instruction, mem1: u32)
    ensures
        final(out)@ == old(out)@ + lwzu_code(instr, mem1),
{
    let ghost start = out@;
    emit_effective_address(out, instr.ra(), instr.disp());
    emit_local_set(out, CMP_LHS_LOCAL_INDEX);
    emit_load_word_tail(out, instr.rd() as u32, mem1);
    emit_local_get(out, CMP_LHS_LOCAL_INDEX);
    emit_local_set(out, instr.ra() as u32);
    assert(out@ =~= start + lwzu_code(instr, mem1));
}

/// `lbz`.
pub open spec fn lbz_code(instr: Instruction, mem1: u32) -> Seq<u8> {
    effective_address_code(instr.ra(), instr.d_16_31())
        + local_set(CMP_LHS_LOCAL_INDEX)
        + load_byte_tail_code(instr.rd() as u32, mem1)
}

#[verifier::spinoff_prover]
#[verifier::rlimit(100)]
pub fn emit_lbz(out: &mut Vec<u8>, instr: Instruction, mem1: u32)
    ensures
        final(out)@ == old(out)@ + lbz_code(instr, mem1),
{
    let ghost start = out@;
    emit_effective_address(out, instr.ra(), instr.disp());
    emit_local_set(out, CMP_LHS_LOCAL_INDEX);
    emit_load_byte_tail(out, instr.rd() as u32, mem1);
    assert(out@ =~= start + lbz_code(instr, mem1));
}

/// `lbzu`.
pub open spec fn lbzu_code(instr: Instruction, mem1: u32) -> Seq<u8> {
    effective_address_code(instr.ra(), instr.d_16_31())
        + local_set(CMP_LHS_LOCAL_INDEX)
        + load_byte_tail_code(instr.rd() as u32, mem1)
        + local_get(CMP_LHS_LOCAL_INDEX)
        + local_set(instr.ra() as u32)
}

#[verifier::spinoff_prover]
#[verifier::rlimit(100)]
pub fn emit_lbzu(out: &mut Vec<u8>, instr: Instruction, mem1: u32)
    ensures
        final(out)@ == old(out)@ + lbzu_code(instr, mem1),
{
    let ghost start = out@;
    emit_effective_address(out, instr.ra(), instr.disp());
    emit_local_set(out, CMP_LHS_LOCAL_INDEX);
    emit_load_byte_tail(out, instr.rd() as u32, mem1);
    emit_local_get(out, CMP_LHS_LOCAL_INDEX);
    emit_local_set(out, instr.ra() as u32);
    assert(out@ =~= start + lbzu_code(instr, mem1));
}

/// `lhz`.
pub open spec fn lhz_code(instr: Instruction, mem1: u32) -> Seq<u8> {
    effective_address_code(instr.ra(), instr.d_16_31())
        + local_set(CMP_LHS_LOCAL_INDEX)
        + load_half_tail_code(instr.rd() as u32, mem1)
}

#[verifier::spinoff_prover]
#[verifier::rlimit(100)]
pub fn emit_lhz(out: &mut Vec<u8>, instr: Instruction, mem1: u32)
    ensures
        final(out)@ == old(out)@ + lhz_code(instr, mem1),
{
    let ghost start = out@;
    emit_effective_address(out, instr.ra(), instr.disp());
    emit_local_set(out, CMP_LHS_LOCAL_INDEX);
    emit_load_half_tail(out, instr.rd() as u32, mem1);
    assert(out@ =~= start + lhz_code(instr, mem1));
}

/// `lhzu`.
pub open spec fn lhzu_code(instr: Instruction, mem1: u32) -> Seq<u8> {
    effective_address_code(instr.ra(), instr.d_16_31())
        + local_set(CMP_LHS_LOCAL_INDEX)
        + load_half_tail_code(instr.rd() as u32, mem1)
        + local_get(CMP_LHS_LOCAL_INDEX)
        + local_set(instr.ra() as u32)
}

#[verifier::spinoff_prover]
#[verifier::rlimit(100)]
pub fn emit_lhzu(out: &mut Vec<u8>, instr: Instruction, mem1: u32)
    ensures
        final(out)@ == old(out)@ + lhzu_code(instr, mem1),
{
    let ghost start = out@;
    emit_effective_address(out, instr.ra(), instr.disp());
    emit_local_set(out, CMP_LHS_LOCAL_INDEX);
    emit_load_half_tail(out, instr.rd() as u32, mem1);
    emit_local_get(out, CMP_LHS_LOCAL_INDEX);
    emit_local_set(out, instr.ra() as u32);
    assert(out@ =~= start + lhzu_code(instr, mem1));
}

/// `lha`: `lhz`, then sign-extended.
pub open spec fn lha_code(instr: Instruction, mem1: u32) -> Seq<u8> {
    effective_address_code(instr.ra(), instr.d_16_31())
        + local_set(CMP_LHS_LOCAL_INDEX)
        + load_half_tail_code(instr.rd() as u32, mem1)
        + local_get(instr.rd() as u32)
        + i32_const(16i32)
        + seq![0x74u8]
        + i32_const(16i32)
        + seq![0x75u8]
        + local_set(instr.rd() as u32)
}

#[verifier::spinoff_prover]
#[verifier::rlimit(100)]
pub fn emit_lha(out: &mut Vec<u8>, instr: Instruction, mem1: u32)
    ensures
        final(out)@ == old(out)@ + lha_code(instr, mem1),
{
    let ghost start = out@;
    emit_effective_address(out, instr.ra(), instr.disp());
    emit_local_set(out, CMP_LHS_LOCAL_INDEX);
    emit_load_half_tail(out, instr.rd() as u32, mem1);
    emit_local_get(out, instr.rd() as u32);
    emit_i32_const(out, 16i32);
    out.push(0x74);
    emit_i32_const(out, 16i32);
    out.push(0x75);
    emit_local_set(out, instr.rd() as u32);
    assert(out@ =~= start + lha_code(instr, mem1));
}

/// `lhau`.
pub open spec fn lhau_code(instr: Instruction, mem1: u32) -> Seq<u8> {
    effective_address_code(instr.ra(), instr.d_16_31())
        + local_set(CMP_LHS_LOCAL_INDEX)
        + load_half_tail_code(instr.rd() as u32, mem1)
        + local_get(instr.rd() as u32)
        + i32_const(16i32)
        + seq![0x74u8]
        + i32_const(16i32)
        + seq![0x75u8]
        + local_set(instr.rd() as u32)
        + local_get(CMP_LHS_LOCAL_INDEX)
        + local_set(instr.ra() as u32)
}

#[verifier::spinoff_prover]
#[verifier::rlimit(100)]
pub fn emit_lhau(out: &mut Vec<u8>, instr: Instruction, mem1: u32)
    ensures
        final(out)@ == old(out)@ + lhau_code(instr, mem1),
{
    let ghost start = out@;
    emit_effective_address(out, instr.ra(), instr.disp());
    emit_local_set(out, CMP_LHS_LOCAL_INDEX);
    emit_load_half_tail(out, instr.rd() as u32, mem1);
    emit_local_get(out, instr.rd() as u32);
    emit_i32_const(out, 16i32);
    out.push(0x74);
    emit_i32_const(out, 16i32);
    out.push(0x75);
    emit_local_set(out, instr.rd() as u32);
    emit_local_get(out, CMP_LHS_LOCAL_INDEX);
    emit_local_set(out, instr.ra() as u32);
    assert(out@ =~= start + lhau_code(instr, mem1));
}

/// `lwzx`.
pub open spec fn lwzx_code(instr: Instruction, mem1: u32) -> Seq<u8> {
    indexed_effective_address_code(instr.ra(), instr.rb())
        + local_set(CMP_LHS_LOCAL_INDEX)
        + load_word_tail_code(instr.rd() as u32, mem1)
}

#[verifier::spinoff_prover]
#[verifier::rlimit(100)]
pub fn emit_lwzx(out: &mut Vec<u8>, instr: Instruction, mem1: u32)
    ensures
        final(out)@ == old(out)@ + lwzx_code(instr, mem1),
{
    let ghost start = out@;
    emit_indexed_effective_address(out, instr.ra(), instr.rb());
    emit_local_set(out, CMP_LHS_LOCAL_INDEX);
    emit_load_word_tail(out, instr.rd() as u32, mem1);
    assert(out@ =~= start + lwzx_code(instr, mem1));
}

/// `lwzux`.
pub open spec fn lwzux_code(instr: Instruction, mem1: u32) -> Seq<u8> {
    indexed_effective_address_code(instr.ra(), instr.rb())
        + local_set(CMP_LHS_LOCAL_INDEX)
        + load_word_tail_code(instr.rd() as u32, mem1)
        + local_get(CMP_LHS_LOCAL_INDEX)
        + local_set(instr.ra() as u32)
}

#[verifier::spinoff_prover]
#[verifier::rlimit(100)]
pub fn emit_lwzux(out: &mut Vec<u8>, instr: Instruction, mem1: u32)
    ensures
        final(out)@ == old(out)@ + lwzux_code(instr, mem1),
{
    let ghost start = out@;
    emit_indexed_effective_address(out, instr.ra(), instr.rb());
    emit_local_set(out, CMP_LHS_LOCAL_INDEX);
    emit_load_word_tail(out, instr.rd() as u32, mem1);
    emit_local_get(out, CMP_LHS_LOCAL_INDEX);
    emit_local_set(out, instr.ra() as u32);
    assert(out@ =~= start + lwzux_code(instr, mem1));
}

/// `lbzx`.
pub open spec fn lbzx_code(instr: Instruction, mem1: u32) -> Seq<u8> {
    indexed_effective_address_code(instr.ra(), instr.rb())
        + local_set(CMP_LHS_LOCAL_INDEX)
        + load_byte_tail_code(instr.rd() as u32, mem1)
}

#[verifier::spinoff_prover]
#[verifier::rlimit(100)]
pub fn emit_lbzx(out: &mut Vec<u8>, instr: Instruction, mem1: u32)
    ensures
        final(out)@ == old(out)@ + lbzx_code(instr, mem1),
{
    let ghost start = out@;
    emit_indexed_effective_address(out, instr.ra(), instr.rb());
    emit_local_set(out, CMP_LHS_LOCAL_INDEX);
    emit_load_byte_tail(out, instr.rd() as u32, mem1);
    assert(out@ =~= start + lbzx_code(instr, mem1));
}

/// `lbzux`.
pub open spec fn lbzux_code(instr: Instruction, mem1: u32) -> Seq<u8> {
    indexed_effective_address_code(instr.ra(), instr.rb())
        + local_set(CMP_LHS_LOCAL_INDEX)
        + load_byte_tail_code(instr.rd() as u32, mem1)
        + local_get(CMP_LHS_LOCAL_INDEX)
        + local_set(instr.ra() as u32)
}

#[verifier::spinoff_prover]
#[verifier::rlimit(100)]
pub fn emit_lbzux(out: &mut Vec<u8>, instr: Instruction, mem1: u32)
    ensures
        final(out)@ == old(out)@ + lbzux_code(instr, mem1),
{
    let ghost start = out@;
    emit_indexed_effective_address(out, instr.ra(), instr.rb());
    emit_local_set(out, CMP_LHS_LOCAL_INDEX);
    emit_load_byte_tail(out, instr.rd() as u32, mem1);
    emit_local_get(out, CMP_LHS_LOCAL_INDEX);
    emit_local_set(out, instr.ra() as u32);
    assert(out@ =~= start + lbzux_code(instr, mem1));
}

/// `lhzx`.
pub open spec fn lhzx_code(instr: Instruction, mem1: u32) -> Seq<u8> {
    indexed_effective_address_code(instr.ra(), instr.rb())
        + local_set(CMP_LHS_LOCAL_INDEX)
        + load_half_tail_code(instr.rd() as u32, mem1)
}

#[verifier::spinoff_prover]
#[verifier::rlimit(100)]
pub fn emit_lhzx(out: &mut Vec<u8>, instr: Instruction, mem1: u32)
    ensures
        final(out)@ == old(out)@ + lhzx_code(instr, mem1),
{
    let ghost start = out@;
    emit_indexed_effective_address(out, instr.ra(), instr.rb());
    emit_local_set(out, CMP_LHS_LOCAL_INDEX);
    emit_load_half_tail(out, instr.rd() as u32, mem1);
    assert(out@ =~= start + lhzx_code(instr, mem1));
}

/// `lhzux`.
pub open spec fn lhzux_code(instr: Instruction, mem1: u32) -> Seq<u8> {
    indexed_effective_address_code(instr.ra(), instr.rb())
        + local_set(CMP_LHS_LOCAL_INDEX)
        + load_half_tail_code(instr.rd() as u32, mem1)
        + local_get(CMP_LHS_LOCAL_INDEX)
        + local_set(instr.ra() as u32)
}

#[verifier::spinoff_prover]
#[verifier::rlimit(100)]
pub fn emit_lhzux(out: &mut Vec<u8>, instr: Instruction, mem1: u32)
    ensures
        final(out)@ == old(out)@ + lhzux_code(instr, mem1),
{
    let ghost start = out@;
    emit_indexed_effective_address(out, instr.ra(), instr.rb());
    emit_local_set(out, CMP_LHS_LOCAL_INDEX);
    emit_load_half_tail(out, instr.rd() as u32, mem1);
    emit_local_get(out, CMP_LHS_LOCAL_INDEX);
    emit_local_set(out, instr.ra() as u32);
    assert(out@ =~= start + lhzux_code(instr, mem1));
}

/// `stw`.
pub open spec fn stw_code(instr: Instruction, mem1: u32, refcount: u32) -> Seq<u8> {
    effective_address_code(instr.ra(), instr.d_16_31())
        + local_set(CMP_LHS_LOCAL_INDEX)
        + store_word_tail_code(instr.rs() as u32, mem1, refcount)
}

#[verifier::spinoff_prover]
#[verifier::rlimit(100)]
pub fn emit_stw(out: &mut Vec<u8>, instr: Instruction, mem1: u32, refcount: u32)
    ensures
        final(out)@ == old(out)@ + stw_code(instr, mem1, refcount),
{
    let ghost start = out@;
    emit_effective_address(out, instr.ra(), instr.disp());
    emit_local_set(out, CMP_LHS_LOCAL_INDEX);
    emit_store_word_tail(out, instr.rs() as u32, mem1, refcount);
    assert(out@ =~= start + stw_code(instr, mem1, refcount));
}

/// `stwu`: `stw`, then rA takes the address.
pub open spec fn stwu_code(instr: Instruction, mem1: u32, refcount: u32) -> Seq<u8> {
    effective_address_code(instr.ra(), instr.d_16_31())
        + local_set(CMP_LHS_LOCAL_INDEX)
        + store_word_tail_code(instr.rs() as u32, mem1, refcount)
        + local_get(CMP_LHS_LOCAL_INDEX)
        + local_set(instr.ra() as u32)
}

#[verifier::spinoff_prover]
#[verifier::rlimit(100)]
pub fn emit_stwu(out: &mut Vec<u8>, instr: Instruction, mem1: u32, refcount: u32)
    ensures
        final(out)@ == old(out)@ + stwu_code(instr, mem1, refcount),
{
    let ghost start = out@;
    emit_effective_address(out, instr.ra(), instr.disp());
    emit_local_set(out, CMP_LHS_LOCAL_INDEX);
    emit_store_word_tail(out, instr.rs() as u32, mem1, refcount);
    emit_local_get(out, CMP_LHS_LOCAL_INDEX);
    emit_local_set(out, instr.ra() as u32);
    assert(out@ =~= start + stwu_code(instr, mem1, refcount));
}

/// `stb`.
pub open spec fn stb_code(instr: Instruction, mem1: u32, refcount: u32) -> Seq<u8> {
    effective_address_code(instr.ra(), instr.d_16_31())
        + local_set(CMP_LHS_LOCAL_INDEX)
        + store_byte_tail_code(instr.rs() as u32, mem1, refcount)
}

#[verifier::spinoff_prover]
#[verifier::rlimit(100)]
pub fn emit_stb(out: &mut Vec<u8>, instr: Instruction, mem1: u32, refcount: u32)
    ensures
        final(out)@ == old(out)@ + stb_code(instr, mem1, refcount),
{
    let ghost start = out@;
    emit_effective_address(out, instr.ra(), instr.disp());
    emit_local_set(out, CMP_LHS_LOCAL_INDEX);
    emit_store_byte_tail(out, instr.rs() as u32, mem1, refcount);
    assert(out@ =~= start + stb_code(instr, mem1, refcount));
}

/// `stbu`.
pub open spec fn stbu_code(instr: Instruction, mem1: u32, refcount: u32) -> Seq<u8> {
    effective_address_code(instr.ra(), instr.d_16_31())
        + local_set(CMP_LHS_LOCAL_INDEX)
        + store_byte_tail_code(instr.rs() as u32, mem1, refcount)
        + local_get(CMP_LHS_LOCAL_INDEX)
        + local_set(instr.ra() as u32)
}

#[verifier::spinoff_prover]
#[verifier::rlimit(100)]
pub fn emit_stbu(out: &mut Vec<u8>, instr: Instruction, mem1: u32, refcount: u32)
    ensures
        final(out)@ == old(out)@ + stbu_code(instr, mem1, refcount),
{
    let ghost start = out@;
    emit_effective_address(out, instr.ra(), instr.disp());
    emit_local_set(out, CMP_LHS_LOCAL_INDEX);
    emit_store_byte_tail(out, instr.rs() as u32, mem1, refcount);
    emit_local_get(out, CMP_LHS_LOCAL_INDEX);
    emit_local_set(out, instr.ra() as u32);
    assert(out@ =~= start + stbu_code(instr, mem1, refcount));
}

/// `sth`.
pub open spec fn sth_code(instr: Instruction, mem1: u32, refcount: u32) -> Seq<u8> {
    effective_address_code(instr.ra(), instr.d_16_31())
        + local_set(CMP_LHS_LOCAL_INDEX)
        + store_half_tail_code(instr.rs() as u32, mem1, refcount)
}

#[verifier::spinoff_prover]
#[verifier::rlimit(100)]
pub fn emit_sth(out: &mut Vec<u8>, instr: Instruction, mem1: u32, refcount: u32)
    ensures
        final(out)@ == old(out)@ + sth_code(instr, mem1, refcount),
{
    let ghost start = out@;
    emit_effective_address(out, instr.ra(), instr.disp());
    emit_local_set(out, CMP_LHS_LOCAL_INDEX);
    emit_store_half_tail(out, instr.rs() as u32, mem1, refcount);
    assert(out@ =~= start + sth_code(instr, mem1, refcount));
}

/// `sthu`.
pub open spec fn sthu_code(instr: Instruction, mem1: u32, refcount: u32) -> Seq<u8> {
    effective_address_code(instr.ra(), instr.d_16_31())
        + local_set(CMP_LHS_LOCAL_INDEX)
        + store_half_tail_code(instr.rs() as u32, mem1, refcount)
        + local_get(CMP_LHS_LOCAL_INDEX)
        + local_set(instr.ra() as u32)
}

#[verifier::spinoff_prover]
#[verifier::rlimit(100)]
pub fn emit_sthu(out: &mut Vec<u8>, instr: Instruction, mem1: u32, refcount: u32)
    ensures
        final(out)@ == old(out)@ + sthu_code(instr, mem1, refcount),
{
    let ghost start = out@;
    emit_effective_address(out, instr.ra(), instr.disp());
    emit_local_set(out, CMP_LHS_LOCAL_INDEX);
    emit_store_half_tail(out, instr.rs() as u32, mem1, refcount);
    emit_local_get(out, CMP_LHS_LOCAL_INDEX);
    emit_local_set(out, instr.ra() as u32);
    assert(out@ =~= start + sthu_code(instr, mem1, refcount));
}

/// `stwx`.
pub open spec fn stwx_code(instr: Instruction, mem1: u32, refcount: u32) -> Seq<u8> {
    indexed_effective_address_code(instr.ra(), instr.rb())
        + local_set(CMP_LHS_LOCAL_INDEX)
        + store_word_tail_code(instr.rs() as u32, mem1, refcount)
}

#[verifier::spinoff_prover]
#[verifier::rlimit(100)]
pub fn emit_stwx(out: &mut Vec<u8>, instr: Instruction, mem1: u32, refcount: u32)
    ensures
        final(out)@ == old(out)@ + stwx_code(instr, mem1, refcount),
{
    let ghost start = out@;
    emit_indexed_effective_address(out, instr.ra(), instr.rb());
    emit_local_set(out, CMP_LHS_LOCAL_INDEX);
    emit_store_word_tail(out, instr.rs() as u32, mem1, refcount);
    assert(out@ =~= start + stwx_code(instr, mem1, refcount));
}

/// `stwux`.
pub open spec fn stwux_code(instr: Instruction, mem1: u32, refcount: u32) -> Seq<u8> {
    indexed_effective_address_code(instr.ra(), instr.rb())
        + local_set(CMP_LHS_LOCAL_INDEX)
        + store_word_tail_code(instr.rs() as u32, mem1, refcount)
        + local_get(CMP_LHS_LOCAL_INDEX)
        + local_set(instr.ra() as u32)
}

#[verifier::spinoff_prover]
#[verifier::rlimit(100)]
pub fn emit_stwux(out: &mut Vec<u8>, instr: Instruction, mem1: u32, refcount: u32)
    ensures
        final(out)@ == old(out)@ + stwux_code(instr, mem1, refcount),
{
    let ghost start = out@;
    emit_indexed_effective_address(out, instr.ra(), instr.rb());
    emit_local_set(out, CMP_LHS_LOCAL_INDEX);
    emit_store_word_tail(out, instr.rs() as u32, mem1, refcount);
    emit_local_get(out, CMP_LHS_LOCAL_INDEX);
    emit_local_set(out, instr.ra() as u32);
    assert(out@ =~= start + stwux_code(instr, mem1, refcount));
}

/// `stbx`.
pub open spec fn stbx_code(instr: Instruction, mem1: u32, refcount: u32) -> Seq<u8> {
    indexed_effective_address_code(instr.ra(), instr.rb())
        + local_set(CMP_LHS_LOCAL_INDEX)
        + store_byte_tail_code(instr.rs() as u32, mem1, refcount)
}

#[verifier::spinoff_prover]
#[verifier::rlimit(100)]
pub fn emit_stbx(out: &mut Vec<u8>, instr: Instruction, mem1: u32, refcount: u32)
    ensures
        final(out)@ == old(out)@ + stbx_code(instr, mem1, refcount),
{
    let ghost start = out@;
    emit_indexed_effective_address(out, instr.ra(), instr.rb());
    emit_local_set(out, CMP_LHS_LOCAL_INDEX);
    emit_store_byte_tail(out, instr.rs() as u32, mem1, refcount);
    assert(out@ =~= start + stbx_code(instr, mem1, refcount));
}

/// `stbux`.
pub open spec fn stbux_code(instr: Instruction, mem1: u32, refcount: u32) -> Seq<u8> {
    indexed_effective_address_code(instr.ra(), instr.rb())
        + local_set(CMP_LHS_LOCAL_INDEX)
        + store_byte_tail_code(instr.rs() as u32, mem1, refcount)
        + local_get(CMP_LHS_LOCAL_INDEX)
        + local_set(instr.ra() as u32)
}

#[verifier::spinoff_prover]
#[verifier::rlimit(100)]
pub fn emit_stbux(out: &mut Vec<u8>, instr: Instruction, mem1: u32, refcount: u32)
    ensures
        final(out)@ == old(out)@ + stbux_code(instr, mem1, refcount),
{
    let ghost start = out@;
    emit_indexed_effective_address(out, instr.ra(), instr.rb());
    emit_local_set(out, CMP_LHS_LOCAL_INDEX);
    emit_store_byte_tail(out, instr.rs() as u32, mem1, refcount);
    emit_local_get(out, CMP_LHS_LOCAL_INDEX);
    emit_local_set(out, instr.ra() as u32);
    assert(out@ =~= start + stbux_code(instr, mem1, refcount));
}

/// `sthx`.
pub open spec fn sthx_code(instr: Instruction, mem1: u32, refcount: u32) -> Seq<u8> {
    indexed_effective_address_code(instr.ra(), instr.rb())
        + local_set(CMP_LHS_LOCAL_INDEX)
        + store_half_tail_code(instr.rs() as u32, mem1, refcount)
}

#[verifier::spinoff_prover]
#[verifier::rlimit(100)]
pub fn emit_sthx(out: &mut Vec<u8>, instr: Instruction, mem1: u32, refcount: u32)
    ensures
        final(out)@ == old(out)@ + sthx_code(instr, mem1, refcount),
{
    let ghost start = out@;
    emit_indexed_effective_address(out, instr.ra(), instr.rb());
    emit_local_set(out, CMP_LHS_LOCAL_INDEX);
    emit_store_half_tail(out, instr.rs() as u32, mem1, refcount);
    assert(out@ =~= start + sthx_code(instr, mem1, refcount));
}

/// `sthux`.
pub open spec fn sthux_code(instr: Instruction, mem1: u32, refcount: u32) -> Seq<u8> {
    indexed_effective_address_code(instr.ra(), instr.rb())
        + local_set(CMP_LHS_LOCAL_INDEX)
        + store_half_tail_code(instr.rs() as u32, mem1, refcount)
        + local_get(CMP_LHS_LOCAL_INDEX)
        + local_set(instr.ra() as u32)
}

#[verifier::spinoff_prover]
#[verifier::rlimit(100)]
pub fn emit_sthux(out: &mut Vec<u8>, instr: Instruction, mem1: u32, refcount: u32)
    ensures
        final(out)@ == old(out)@ + sthux_code(instr, mem1, refcount),
{
    let ghost start = out@;
    emit_indexed_effective_address(out, instr.ra(), instr.rb());
    emit_local_set(out, CMP_LHS_LOCAL_INDEX);
    emit_store_half_tail(out, instr.rs() as u32, mem1, refcount);
    emit_local_get(out, CMP_LHS_LOCAL_INDEX);
    emit_local_set(out, instr.ra() as u32);
    assert(out@ =~= start + sthux_code(instr, mem1, refcount));
}

/// Sets CR field `crfd` from comparing the two scratch registers (signed or unsigned) and SO.
pub open spec fn update_cr_field_from_compare_code(crfd: u8, signed: bool) -> Seq<u8> {
    local_get(CR_PARAM_INDEX)
        + i32_const(!(0xFu32 << (28 - 4 * crfd as u32) as u32) as i32)
        + seq![0x71u8]
        + local_get(CMP_LHS_LOCAL_INDEX)
        + local_get(CMP_RHS_LOCAL_INDEX)
        + (if signed { seq![0x48u8] } else { seq![0x49u8] })
        + i32_const(3i32)
        + seq![0x74u8]
        + local_get(CMP_LHS_LOCAL_INDEX)
        + local_get(CMP_RHS_LOCAL_INDEX)
        + (if signed { seq![0x4au8] } else { seq![0x4bu8] })
        + i32_const(2i32)
        + seq![0x74u8]
        + seq![0x72u8]
        + local_get(CMP_LHS_LOCAL_INDEX)
        + local_get(CMP_RHS_LOCAL_INDEX)
        + seq![0x46u8]
        + i32_const(1i32)
        + seq![0x74u8]
        + seq![0x72u8]
        + local_get(SO_PARAM_INDEX)
        + seq![0x72u8]
        + (if crfd != 0 { i32_const((28 - 4 * crfd as u32) as i32)
        + seq![0x74u8] } else { Seq::<u8>::empty() })
        + local_set(CR_PARAM_INDEX)
}

#[verifier::spinoff_prover]
#[verifier::rlimit(100)]
pub fn emit_update_cr_field_from_compare(out: &mut Vec<u8>, crfd: u8, signed: bool)
    requires
        crfd < 8,
    ensures
        final(out)@ == old(out)@ + update_cr_field_from_compare_code(crfd, signed),
{
    let ghost start = out@;
    emit_local_get(out, CR_PARAM_INDEX);
    emit_i32_const(out, !(0xFu32 << (28 - 4 * crfd as u32) as u32) as i32);
    out.push(0x71);
    emit_local_get(out, CMP_LHS_LOCAL_INDEX);
    emit_local_get(out, CMP_RHS_LOCAL_INDEX);
    if signed {
        out.push(0x48);
    } else {
        out.push(0x49);
    }
    emit_i32_const(out, 3i32);
    out.push(0x74);
    emit_local_get(out, CMP_LHS_LOCAL_INDEX);
    emit_local_get(out, CMP_RHS_LOCAL_INDEX);
    if signed {
        out.push(0x4a);
    } else {
        out.push(0x4b);
    }
    emit_i32_const(out, 2i32);
    out.push(0x74);
    out.push(0x72);
    emit_local_get(out, CMP_LHS_LOCAL_INDEX);
    emit_local_get(out, CMP_RHS_LOCAL_INDEX);
    out.push(0x46);
    emit_i32_const(out, 1i32);
    out.push(0x74);
    out.push(0x72);
    emit_local_get(out, SO_PARAM_INDEX);
    out.push(0x72);
    if crfd != 0 {
        emit_i32_const(out, (28 - 4 * crfd as u32) as i32);
        out.push(0x74);
    }
    emit_local_set(out, CR_PARAM_INDEX);
    assert(out@ =~= start + update_cr_field_from_compare_code(crfd, signed));
}

/// `cmpi` / `cmpli`: compares rA with SIMM (signed) or UIMM (unsigned).
pub open spec fn compare_imm_code(instr: Instruction, signed: bool) -> Seq<u8> {
    local_get(instr.ra() as u32)
        + local_set(CMP_LHS_LOCAL_INDEX)
        + (if signed { i32_const(instr.simm()) } else { i32_const(instr.uimm() as i32) })
        + local_set(CMP_RHS_LOCAL_INDEX)
        + update_cr_field_from_compare_code(instr.crfd(), signed)
}

#[verifier::spinoff_prover]
#[verifier::rlimit(100)]
pub fn emit_compare_imm(out: &mut Vec<u8>, instr: Instruction, signed: bool)
    ensures
        final(out)@ == old(out)@ + compare_imm_code(instr, signed),
{
    let ghost start = out@;
    emit_local_get(out, instr.ra() as u32);
    emit_local_set(out, CMP_LHS_LOCAL_INDEX);
    if signed {
        emit_i32_const(out, instr.simm());
    } else {
        emit_i32_const(out, instr.uimm() as i32);
    }
    emit_local_set(out, CMP_RHS_LOCAL_INDEX);
    emit_update_cr_field_from_compare(out, instr.crfd(), signed);
    assert(out@ =~= start + compare_imm_code(instr, signed));
}

/// `cmp` / `cmpl`: compares rA with rB.
pub open spec fn compare_xform_code(instr: Instruction, signed: bool) -> Seq<u8> {
    local_get(instr.ra() as u32)
        + local_set(CMP_LHS_LOCAL_INDEX)
        + local_get(instr.rb() as u32)
        + local_set(CMP_RHS_LOCAL_INDEX)
        + update_cr_field_from_compare_code(instr.crfd(), signed)
}

#[verifier::spinoff_prover]
#[verifier::rlimit(100)]
pub fn emit_compare_xform(out: &mut Vec<u8>, instr: Instruction, signed: bool)
    ensures
        final(out)@ == old(out)@ + compare_xform_code(instr, signed),
{
    let ghost start = out@;
    emit_local_get(out, instr.ra() as u32);
    emit_local_set(out, CMP_LHS_LOCAL_INDEX);
    emit_local_get(out, instr.rb() as u32);
    emit_local_set(out, CMP_RHS_LOCAL_INDEX);
    emit_update_cr_field_from_compare(out, instr.crfd(), signed);
    assert(out@ =~= start + compare_xform_code(instr, signed));
}

/// The CR half of a conditional branch: 1 when BO ignores CR, else whether CR bit BI equals BO's expected value.
pub open spec fn cr_condition_code(instr: Instruction) -> Seq<u8> {
    (if (instr.bo() & 0x10u8) != 0 { i32_const(1i32) } else { local_get(CR_PARAM_INDEX)
        + i32_const((31 - instr.bi() as u32) as i32)
        + seq![0x76u8]
        + i32_const(1i32)
        + seq![0x71u8]
        + (if (instr.bo() & 0x08u8) != 0 { i32_const(1i32) } else { i32_const(0i32) })
        + seq![0x46u8] })
}

#[verifier::spinoff_prover]
#[verifier::rlimit(100)]
pub fn emit_cr_condition(out: &mut Vec<u8>, instr: Instruction)
    ensures
        final(out)@ == old(out)@ + cr_condition_code(instr),
{
    let ghost start = out@;
    if (instr.bo() & 0x10u8) != 0 {
        emit_i32_const(out, 1i32);
    } else {
        emit_local_get(out, CR_PARAM_INDEX);
        emit_i32_const(out, (31 - instr.bi() as u32) as i32);
        out.push(0x76);
        emit_i32_const(out, 1i32);
        out.push(0x71);
        if (instr.bo() & 0x08u8) != 0 {
            emit_i32_const(out, 1i32);
        } else {
            emit_i32_const(out, 0i32);
        }
        out.push(0x46);
    }
    assert(out@ =~= start + cr_condition_code(instr));
}

/// The CTR half of a conditional branch: decrements CTR when BO asks, then tests it against zero (1 when BO ignores CTR).
pub open spec fn ctr_condition_code(instr: Instruction) -> Seq<u8> {
    (if (instr.bo() & 0x04u8) == 0 { local_get(CTR_PARAM_INDEX)
        + i32_const(-1i32)
        + seq![0x6au8]
        + local_set(CTR_PARAM_INDEX) } else { Seq::<u8>::empty() })
        + (if (instr.bo() & 0x04u8) == 0 { local_get(CTR_PARAM_INDEX)
        + i32_const(0i32)
        + (if (instr.bo() & 0x02u8) != 0 { seq![0x46u8] } else { seq![0x47u8] }) } else { i32_const(1i32) })
}

#[verifier::spinoff_prover]
#[verifier::rlimit(100)]
pub fn emit_ctr_condition(out: &mut Vec<u8>, instr: Instruction)
    ensures
        final(out)@ == old(out)@ + ctr_condition_code(instr),
{
    let ghost start = out@;
    if (instr.bo() & 0x04u8) == 0 {
        emit_local_get(out, CTR_PARAM_INDEX);
        emit_i32_const(out, -1i32);
        out.push(0x6a);
        emit_local_set(out, CTR_PARAM_INDEX);
    }
    if (instr.bo() & 0x04u8) == 0 {
        emit_local_get(out, CTR_PARAM_INDEX);
        emit_i32_const(out, 0i32);
        if (instr.bo() & 0x02u8) != 0 {
            out.push(0x46);
        } else {
            out.push(0x47);
        }
    } else {
        emit_i32_const(out, 1i32);
    }
    assert(out@ =~= start + ctr_condition_code(instr));
}

/// `bc`: decrements CTR as BO asks, then selects the target or the fall-through as the next address.
pub open spec fn bc_terminator_code(instr: Instruction, branch_pc: u32) -> Seq<u8> {
    ctr_condition_code(instr)
        + cr_condition_code(instr)
        + seq![0x71u8]
        + local_set(CMP_LHS_LOCAL_INDEX)
        + i32_const((if instr.aa() { instr.bd() as u32 } else { branch_pc.wrapping_add_signed(instr.bd()) }) as i32)
        + i32_const(branch_pc.wrapping_add(4) as i32)
        + local_get(CMP_LHS_LOCAL_INDEX)
        + seq![0x1bu8]
        + local_set(NEXT_PC_LOCAL_INDEX)
}

#[verifier::spinoff_prover]
#[verifier::rlimit(100)]
pub fn emit_bc_terminator(out: &mut Vec<u8>, instr: Instruction, branch_pc: u32)
    ensures
        final(out)@ == old(out)@ + bc_terminator_code(instr, branch_pc),
{
    let ghost start = out@;
    emit_ctr_condition(out, instr);
    emit_cr_condition(out, instr);
    out.push(0x71);
    emit_local_set(out, CMP_LHS_LOCAL_INDEX);
    emit_i32_const(out, (if instr.aa() { instr.bd() as u32 } else { branch_pc.wrapping_add_signed(instr.bd()) }) as i32);
    emit_i32_const(out, branch_pc.wrapping_add(4) as i32);
    emit_local_get(out, CMP_LHS_LOCAL_INDEX);
    out.push(0x1b);
    emit_local_set(out, NEXT_PC_LOCAL_INDEX);
    assert(out@ =~= start + bc_terminator_code(instr, branch_pc));
}

/// When linking, LR becomes the fall-through address if the branch is taken.
pub open spec fn link_update_code(instr: Instruction, branch_pc: u32) -> Seq<u8> {
    (if instr.lk() { i32_const(branch_pc.wrapping_add(4) as i32)
        + local_get(LR_LOCAL_INDEX)
        + local_get(CMP_LHS_LOCAL_INDEX)
        + seq![0x1bu8]
        + local_set(LR_LOCAL_INDEX) } else { Seq::<u8>::empty() })
}

#[verifier::spinoff_prover]
#[verifier::rlimit(100)]
pub fn emit_link_update(out: &mut Vec<u8>, instr: Instruction, branch_pc: u32)
    ensures
        final(out)@ == old(out)@ + link_update_code(instr, branch_pc),
{
    let ghost start = out@;
    if instr.lk() {
        emit_i32_const(out, branch_pc.wrapping_add(4) as i32);
        emit_local_get(out, LR_LOCAL_INDEX);
        emit_local_get(out, CMP_LHS_LOCAL_INDEX);
        out.push(0x1b);
        emit_local_set(out, LR_LOCAL_INDEX);
    }
    assert(out@ =~= start + link_update_code(instr, branch_pc));
}

/// `bclr` / `bcctr`: the condition as for `bc` (CTR only for `bclr`), LR updated when linking, then LR or CTR (word-aligned) or the fall-through as the next address.
pub open spec fn branch_to_reg_terminator_code(instr: Instruction, branch_pc: u32) -> Seq<u8> {
    (if instr.xo() == 16 { ctr_condition_code(instr)
        + cr_condition_code(instr)
        + seq![0x71u8]
        + local_set(CMP_LHS_LOCAL_INDEX)
        + link_update_code(instr, branch_pc)
        + local_get(LR_LOCAL_INDEX)
        + i32_const(!3i32)
        + seq![0x71u8]
        + i32_const(branch_pc.wrapping_add(4) as i32)
        + local_get(CMP_LHS_LOCAL_INDEX)
        + seq![0x1bu8]
        + local_set(NEXT_PC_LOCAL_INDEX) } else { cr_condition_code(instr)
        + local_set(CMP_LHS_LOCAL_INDEX)
        + link_update_code(instr, branch_pc)
        + local_get(CTR_PARAM_INDEX)
        + i32_const(!3i32)
        + seq![0x71u8]
        + i32_const(branch_pc.wrapping_add(4) as i32)
        + local_get(CMP_LHS_LOCAL_INDEX)
        + seq![0x1bu8]
        + local_set(NEXT_PC_LOCAL_INDEX) })
}

#[verifier::spinoff_prover]
#[verifier::rlimit(100)]
pub fn emit_branch_to_reg_terminator(out: &mut Vec<u8>, instr: Instruction, branch_pc: u32)
    requires
        instr.xo() == 16 || instr.xo() == 528,
    ensures
        final(out)@ == old(out)@ + branch_to_reg_terminator_code(instr, branch_pc),
{
    let ghost start = out@;
    if instr.xo() == 16 {
        emit_ctr_condition(out, instr);
        emit_cr_condition(out, instr);
        out.push(0x71);
        emit_local_set(out, CMP_LHS_LOCAL_INDEX);
        emit_link_update(out, instr, branch_pc);
        emit_local_get(out, LR_LOCAL_INDEX);
        emit_i32_const(out, !3i32);
        out.push(0x71);
        emit_i32_const(out, branch_pc.wrapping_add(4) as i32);
        emit_local_get(out, CMP_LHS_LOCAL_INDEX);
        out.push(0x1b);
        emit_local_set(out, NEXT_PC_LOCAL_INDEX);
    } else {
        emit_cr_condition(out, instr);
        emit_local_set(out, CMP_LHS_LOCAL_INDEX);
        emit_link_update(out, instr, branch_pc);
        emit_local_get(out, CTR_PARAM_INDEX);
        emit_i32_const(out, !3i32);
        out.push(0x71);
        emit_i32_const(out, branch_pc.wrapping_add(4) as i32);
        emit_local_get(out, CMP_LHS_LOCAL_INDEX);
        out.push(0x1b);
        emit_local_set(out, NEXT_PC_LOCAL_INDEX);
    }
    assert(out@ =~= start + branch_to_reg_terminator_code(instr, branch_pc));
}

} // verus!
