use gecko::cpu::state::Cpu;
use gecko::system::GC;
use gecko::wasmjit::block::{block_successors, BlockSpec, TermKind, TraceSpec, HOT_BLOCK_THRESHOLD};
use gecko::wasmjit::classify::{
    block_unsupported_reason, fallback_reason_sort_key, format_fallback_reason, instruction_unsupported_reason,
    UnsupportedOpcode,
};
use gecko::wasmjit::discover::{discover_block, discover_trace};
use gecko::wasmjit::state::{BlockCompileDecision, RuntimeWasmState};
use gecko::cpu::instr::Instruction;

fn runtime_addic_result_and_carry(ra: u32, simm: i16) -> (u32, bool) {
    let result = ra.wrapping_add(simm as u32);
    let carry = result < ra;
    (result, carry)
}

#[test]
fn hot_counts_reach_threshold() {
    let mut state = RuntimeWasmState::<GC>::new();
    for _ in 0..HOT_BLOCK_THRESHOLD {
        state.record_block_hit(0x8000_1000);
    }

    assert!(state.should_compile(0x8000_1000));
}

#[test]
fn invalidation_removes_compiled_block() {
    let mut state = RuntimeWasmState::<GC>::new();
    let fingerprint = state.fingerprint(0x8000_2000, 6, &[1, 2, 3]);
    state.register_compiled_block(
        fingerprint,
        TraceSpec {
            entry: BlockSpec {
                start_pc: fingerprint.pc,
                instrs: vec![0x38800001, 0x48000004],
                pcs: vec![fingerprint.pc, fingerprint.pc.wrapping_add(4)],
                terminator: TermKind::Branch,
            },
            successors: Vec::new(),
        },
    );

    assert!(state.lookup(&fingerprint).is_some());
    state.invalidate_pc(fingerprint.pc);
    assert!(state.lookup(&fingerprint).is_none());
    assert_eq!(state.compiled_block_count(), 0);
}

#[test]
fn compare_xform_is_compileable() {
    let state = RuntimeWasmState::<GC>::new();
    let spec = BlockSpec {
        start_pc: 0x8000_6200,
        instrs: vec![0x7C032000, 0x41820008],
        pcs: vec![0x8000_6200, 0x8000_6204],
        terminator: TermKind::BranchCond,
    };

    assert!(matches!(state.classify_block(&spec), BlockCompileDecision::Compileable(_)));
}

#[test]
fn branch_link_falls_back_separately_from_plain_branch() {
    let state = RuntimeWasmState::<GC>::new();
    let spec = BlockSpec {
        start_pc: 0x8000_6260,
        instrs: vec![0x38800001, 0x38840002, 0x60840003, 0x48000005],
        pcs: vec![0x8000_6260, 0x8000_6264, 0x8000_6268, 0x8000_626C],
        terminator: TermKind::BranchLink,
    };

    assert!(matches!(state.classify_block(&spec), BlockCompileDecision::Compileable(_)));
}

#[test]
fn unsupported_primary_opcode_falls_back() {
    let state = RuntimeWasmState::<GC>::new();
    let spec = BlockSpec {
        start_pc: 0x8000_3000,
        instrs: vec![0xFC00_0000],
        pcs: vec![0x8000_3000],
        terminator: TermKind::LengthCap,
    };

    match state.classify_block(&spec) {
        BlockCompileDecision::Fallback { reason, .. } => {
            assert!(matches!(reason, UnsupportedOpcode::Primary(_)));
        }
        BlockCompileDecision::Compileable(_) => panic!("block should not be compileable"),
    }
}

#[test]
fn addic_arithmetic_matches_interpreter_formula() {
    for (ra, simm) in [
        (0x0000_0000, 1i16),
        (0xFFFF_FFFF, 1i16),
        (0x7FFF_FFFF, -1i16),
        (0x8000_0000, -1i16),
        (0x0000_0001, -2i16),
        (0xFFFF_0000, 0x7FFF_i16),
    ] {
        let (runtime_res, runtime_carry) = runtime_addic_result_and_carry(ra, simm);
        let (interp_res, interp_carry) = ra.overflowing_add(simm as u32);
        assert_eq!(runtime_res, interp_res, "result mismatch for ra={ra:08X} simm={simm}");
        assert_eq!(runtime_carry, interp_carry, "carry mismatch for ra={ra:08X} simm={simm}");
    }
}

#[test]
fn addic_dot_cr0_matches_core_update() {
    for (result, so) in [
        (0x0000_0000, false),
        (0x0000_0001, false),
        (0xFFFF_FFFF, false),
        (0x8000_0000, true),
    ] {
        let mut cpu = Cpu::new();
        cpu.xer = if so { 1 << 31 } else { 0 };
        cpu.update_cr0(result);

        let mut runtime_cr = 0u32;
        runtime_cr |= u32::from((result as i32) < 0) << 31;
        runtime_cr |= u32::from((result as i32) > 0) << 30;
        runtime_cr |= u32::from(result == 0) << 29;
        runtime_cr |= u32::from(so) << 28;

        assert_eq!(cpu.cr & 0xF000_0000, runtime_cr, "cr0 mismatch for result={result:08X} so={so}");
    }
}

#[test]
fn tiny_block_falls_back_as_unprofitable() {
    let state = RuntimeWasmState::<GC>::new();
    let spec = BlockSpec {
        start_pc: 0x8000_7000,
        instrs: vec![0x38800001, 0x48000004],
        pcs: vec![0x8000_7000, 0x8000_7004],
        terminator: TermKind::Branch,
    };

    match state.classify_block(&spec) {
        BlockCompileDecision::Fallback {
            reason: UnsupportedOpcode::Unprofitable { instr_count },
            ..
        } => assert_eq!(instr_count, 2),
        other => panic!("expected unprofitable fallback, got {other:?}"),
    }
}

#[test]
fn trace_with_unsupported_successor_falls_back_at_that_block() {
    let state = RuntimeWasmState::<GC>::new();
    let trace = TraceSpec {
        entry: BlockSpec {
            start_pc: 0x8000_6400,
            instrs: vec![0x38800001, 0x38800002, 0x38800003, 0x2C030000, 0x41820008],
            pcs: vec![0x8000_6400, 0x8000_6404, 0x8000_6408, 0x8000_640C, 0x8000_6410],
            terminator: TermKind::BranchCond,
        },
        successors: vec![BlockSpec {
            start_pc: 0x8000_6418,
            instrs: vec![0xFC00_0000, 0x48000004],
            pcs: vec![0x8000_6418, 0x8000_641C],
            terminator: TermKind::Branch,
        }],
    };
    assert_eq!(trace.total_instrs(), 7);
    assert_eq!(
        state.classify_trace(&trace),
        BlockCompileDecision::Fallback { pc: 0x8000_6418, reason: UnsupportedOpcode::Primary(63) }
    );
}

#[test]
fn short_memory_heavy_trace_is_unprofitable() {
    let state = RuntimeWasmState::<GC>::new();
    let trace = TraceSpec {
        entry: BlockSpec {
            start_pc: 0x100,
            instrs: vec![0x80630000, 0x90640000, 0x80630004, 0x90640004, 0x38840004, 0x48000004],
            pcs: vec![0x100, 0x104, 0x108, 0x10C, 0x110, 0x114],
            terminator: TermKind::Branch,
        },
        successors: Vec::new(),
    };
    assert_eq!(
        state.classify_trace(&trace),
        BlockCompileDecision::Fallback { pc: 0x100, reason: UnsupportedOpcode::Unprofitable { instr_count: 6 } }
    );
}

#[test]
fn compiled_trace_is_found_until_its_code_changes() {
    let mut state = RuntimeWasmState::<GC>::new();
    let trace = TraceSpec {
        entry: BlockSpec {
            start_pc: 0x200,
            instrs: vec![0x38800001; 6],
            pcs: vec![0x200, 0x204, 0x208, 0x20C, 0x210, 0x214],
            terminator: TermKind::LengthCap,
        },
        successors: Vec::new(),
    };
    let fp = match state.compile_trace(trace) {
        BlockCompileDecision::Compileable(fp) => fp,
        other => panic!("expected a compiled trace, got {other:?}"),
    };
    assert_eq!(state.compile_attempts(), 1);
    assert_eq!(state.compiled_fingerprint_for_pc(0x200), Some(fp));
    assert_eq!(state.block_spec(&fp).map(|b| b.start_pc), Some(0x200));
    assert_eq!(state.lookup(&fp).map(|b| b.fingerprint), Some(fp));
    state.invalidate_range(0x100, 0x300);
    assert!(state.lookup(&fp).is_none());
    assert_eq!(state.compiled_fingerprint_for_pc(0x200), None);
    let mut taken = state.take_invalidated_pcs();
    taken.sort();
    assert_eq!(taken, vec![0x200]);
}

#[test]
fn fingerprints_differ_by_console_and_words() {
    let gc = RuntimeWasmState::<GC>::new();
    let wii = RuntimeWasmState::<1>::new();
    let a = gc.fingerprint(0x10, 2, &[1, 2]);
    assert_eq!(a, gc.fingerprint(0x10, 2, &[1, 2]));
    assert_ne!(a.hash, gc.fingerprint(0x10, 2, &[2, 1]).hash);
    assert_ne!(a.hash, wii.fingerprint(0x10, 2, &[1, 2]).hash);
}

#[test]
fn hot_candidates_are_polled_once() {
    let mut state = RuntimeWasmState::<GC>::new();
    for _ in 0..HOT_BLOCK_THRESHOLD + 1 {
        state.record_block_hit(0x40);
    }
    assert_eq!(state.poll_hot_candidate(), Some(0x40));
    assert_eq!(state.poll_hot_candidate(), None);
}

#[test]
fn fallbacks_are_counted_by_kind() {
    let mut state = RuntimeWasmState::<GC>::new();
    state.note_fallback(0x10, UnsupportedOpcode::Unprofitable { instr_count: 2 });
    state.note_fallback(0x10, UnsupportedOpcode::Xo10(339));
    let stats = state.stats();
    assert_eq!(stats.unprofitable_fallbacks, 1);
    assert_eq!(stats.unsupported_fallbacks, 1);
    assert_eq!(fallback_reason_sort_key(UnsupportedOpcode::Terminator(TermKind::Rfi)), (3, 5));
}

#[test]
fn reasons_and_successors() {
    assert_eq!(instruction_unsupported_reason(Instruction(0x7C0002A6)), Some(UnsupportedOpcode::Xo10(339)));
    assert_eq!(instruction_unsupported_reason(Instruction(0x38800001)), None);
    let b = BlockSpec {
        start_pc: 0x1000,
        instrs: vec![0x41820008],
        pcs: vec![0x1000],
        terminator: TermKind::BranchCond,
    };
    assert_eq!(block_successors(&b), vec![0x1004, 0x1008]);
    assert_eq!(block_unsupported_reason(&b), None);
    let capped = BlockSpec {
        start_pc: 0x2000,
        instrs: vec![0x38800001, 0x7C0002A6],
        pcs: vec![0x2000, 0x2004],
        terminator: TermKind::LengthCap,
    };
    assert_eq!(block_unsupported_reason(&capped), Some(UnsupportedOpcode::Xo10(339)));
    assert_eq!(block_successors(&capped), vec![0x2008]);
}

#[test]
fn top_fallback_reasons_rank_by_count_then_kind() {
    let mut state = RuntimeWasmState::<GC>::new();
    state.note_fallback(0x10, UnsupportedOpcode::Xo10(339));
    state.note_fallback(0x14, UnsupportedOpcode::Primary(63));
    state.note_fallback(0x18, UnsupportedOpcode::Xo10(339));
    state.note_fallback(0x1C, UnsupportedOpcode::Terminator(TermKind::Rfi));
    state.note_fallback(0x20, UnsupportedOpcode::Unprofitable { instr_count: 3 });
    assert_eq!(
        state.top_fallback_reasons(3),
        vec![
            (UnsupportedOpcode::Xo10(339), 2),
            (UnsupportedOpcode::Primary(63), 1),
            (UnsupportedOpcode::Terminator(TermKind::Rfi), 1),
        ]
    );
    assert_eq!(state.top_fallback_reasons(10).len(), 4);
    assert!(state.top_fallback_reasons(0).is_empty());
}

#[test]
fn fallback_reasons_read_as_labels() {
    assert_eq!(format_fallback_reason(UnsupportedOpcode::Primary(59)), "op(59)");
    assert_eq!(format_fallback_reason(UnsupportedOpcode::Primary(14)), "addi(14)");
    assert_eq!(format_fallback_reason(UnsupportedOpcode::Xo10(339)), "xo339");
    assert_eq!(format_fallback_reason(UnsupportedOpcode::Mtspr(1008)), "mtspr1008");
    assert_eq!(format_fallback_reason(UnsupportedOpcode::Terminator(TermKind::LengthCap)), "len-cap");
    assert_eq!(format_fallback_reason(UnsupportedOpcode::Unprofitable { instr_count: 0 }), "tiny0");
}

fn rom(words: &[u32]) -> Vec<u8> {
    words.iter().flat_map(|w| w.to_be_bytes()).collect()
}

fn sample_console() -> gecko::console::Gekko {
    gecko::console::Gekko::with_rom(&rom(&[
        0x3880_0001, // 0x00 addi r4, r0, 1
        0x4800_0008, // 0x04 b 0x0C (followed inside the block)
        0xFC00_0000, // 0x08 skipped
        0x3884_0001, // 0x0C addi r4, r4, 1
        0x4182_0008, // 0x10 beq 0x18
        0x4E80_0020, // 0x14 blr
        0x4800_0000, // 0x18 b .
    ]))
}

#[test]
fn discovery_follows_short_forward_branches() {
    let g = sample_console();
    let block = discover_block(&g, 0);
    assert_eq!(block.pcs, vec![0x00, 0x0C, 0x10]);
    assert_eq!(block.instrs, vec![0x3880_0001, 0x3884_0001, 0x4182_0008]);
    assert_eq!(block.terminator, TermKind::BranchCond);
}

#[test]
fn trace_discovery_visits_successors_breadth_first() {
    let g = sample_console();
    let trace = discover_trace(&g, 0);
    let starts: Vec<u32> = trace.successors.iter().map(|b| b.start_pc).collect();
    assert_eq!(starts, vec![0x14, 0x18]);
    assert_eq!(trace.successors[0].terminator, TermKind::BranchToReg);
    assert_eq!(trace.successors[1].terminator, TermKind::Branch);
    assert_eq!(trace.total_instrs(), 5);
}

#[test]
fn hot_candidate_is_compiled_or_counted_as_fallback() {
    let g = sample_console();
    let mut state = RuntimeWasmState::<GC>::new();
    assert_eq!(state.drive_hot_candidate(&g), None);
    for _ in 0..HOT_BLOCK_THRESHOLD {
        state.record_block_hit(0);
    }
    let expected = BlockCompileDecision::Fallback { pc: 0, reason: UnsupportedOpcode::Unprofitable { instr_count: 5 } };
    assert_eq!(state.discover_and_classify(&g, 0), expected);
    assert_eq!(state.drive_hot_candidate(&g), Some(expected));
    assert_eq!(state.stats().unprofitable_fallbacks, 1);
    assert_eq!(state.drive_hot_candidate(&g), None);
}
