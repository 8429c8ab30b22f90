use gecko::system::GC;
use gecko::wasmjit::block::{BlockSpec, TermKind, TraceSpec};
use gecko::cpu::instr::Instruction;
use gecko::wasmjit::module::{emit_lowered_integer_op, emit_lowered_terminator};
use gecko::wasmjit::state::{BlockFingerprint, RuntimeWasmState};
use wasmparser::{Parser, Payload};

#[test]
fn wasm_stub_looks_like_wasm() {
    let state = RuntimeWasmState::<GC>::new();
    let fingerprint = state.fingerprint(0x8000_4000, 1, &[0x6000_0000]);
    let spec = BlockSpec {
        start_pc: fingerprint.pc,
        instrs: vec![0x6000_0000],
        pcs: vec![fingerprint.pc],
        terminator: TermKind::LengthCap,
    };

    let bytes = state.build_wasm_module(&fingerprint, &spec);
    assert_eq!(&bytes[..4], b"\0asm");
    assert_eq!(&bytes[4..8], &1u32.to_le_bytes());
    assert!(bytes.contains(&0x20));
    assert!(bytes.contains(&0x41));
    assert!(bytes.contains(&0x6a));
}

#[test]
fn lowered_module_parses_as_wasm() {
    let state = RuntimeWasmState::<GC>::new();
    let fingerprint = state.fingerprint(0x8000_5000, 2, &[0x38800001, 0x48000004]);
    let spec = BlockSpec {
        start_pc: fingerprint.pc,
        instrs: vec![0x38800001, 0x48000004],
        pcs: vec![fingerprint.pc, fingerprint.pc.wrapping_add(4)],
        terminator: TermKind::Branch,
    };

    let bytes = state.build_wasm_module(&fingerprint, &spec);
    let mut payloads = 0usize;
    for item in Parser::new(0).parse_all(&bytes) {
        item.expect("generated module should parse");
        payloads += 1;
    }

    assert!(payloads > 0);
}

#[test]
fn branch_cond_module_parses_as_wasm() {
    let state = RuntimeWasmState::<GC>::new();
    let fingerprint = state.fingerprint(0x8000_6000, 2, &[0x704300FF, 0x41820008]);
    let spec = BlockSpec {
        start_pc: fingerprint.pc,
        instrs: vec![0x704300FF, 0x41820008],
        pcs: vec![fingerprint.pc, fingerprint.pc.wrapping_add(4)],
        terminator: TermKind::BranchCond,
    };

    let bytes = state.build_wasm_module(&fingerprint, &spec);
    for item in wasmparser::Parser::new(0).parse_all(&bytes) {
        item.expect("generated conditional-branch module should parse");
    }
}

#[test]
fn compare_immediate_branch_module_parses_as_wasm() {
    let state = RuntimeWasmState::<GC>::new();
    let fingerprint = state.fingerprint(0x8000_6100, 2, &[0x2C030000, 0x41820008]);
    let spec = BlockSpec {
        start_pc: fingerprint.pc,
        instrs: vec![0x2C030000, 0x41820008],
        pcs: vec![fingerprint.pc, fingerprint.pc.wrapping_add(4)],
        terminator: TermKind::BranchCond,
    };

    let bytes = state.build_wasm_module(&fingerprint, &spec);
    for item in wasmparser::Parser::new(0).parse_all(&bytes) {
        item.expect("generated compare-immediate branch module should parse");
    }
}

#[test]
fn rlwinm_module_parses_as_wasm() {
    let state = RuntimeWasmState::<GC>::new();
    let fingerprint = state.fingerprint(0x8000_6230, 4, &[0x5463063E, 0x38840001, 0x60840002, 0x48000004]);
    let spec = BlockSpec {
        start_pc: fingerprint.pc,
        instrs: vec![0x5463063E, 0x38840001, 0x60840002, 0x48000004],
        pcs: vec![
            fingerprint.pc,
            fingerprint.pc.wrapping_add(4),
            fingerprint.pc.wrapping_add(8),
            fingerprint.pc.wrapping_add(12),
        ],
        terminator: TermKind::Branch,
    };

    let bytes = state.build_wasm_module(&fingerprint, &spec);
    for item in Parser::new(0).parse_all(&bytes) {
        item.expect("generated rlwinm module should parse");
    }
}

#[test]
fn orx_module_parses_as_wasm() {
    let state = RuntimeWasmState::<GC>::new();
    let fingerprint = state.fingerprint(0x8000_6240, 4, &[0x7C632378, 0x38840001, 0x60840002, 0x48000004]);
    let spec = BlockSpec {
        start_pc: fingerprint.pc,
        instrs: vec![0x7C632378, 0x38840001, 0x60840002, 0x48000004],
        pcs: vec![
            fingerprint.pc,
            fingerprint.pc.wrapping_add(4),
            fingerprint.pc.wrapping_add(8),
            fingerprint.pc.wrapping_add(12),
        ],
        terminator: TermKind::Branch,
    };

    let bytes = state.build_wasm_module(&fingerprint, &spec);
    for item in Parser::new(0).parse_all(&bytes) {
        item.expect("generated orx module should parse");
    }
}

#[test]
fn lwz_stw_module_parses_as_wasm() {
    let state = RuntimeWasmState::<GC>::new();
    let fingerprint = state.fingerprint(0x8000_6250, 4, &[0x80630000, 0x90640000, 0x38840004, 0x48000004]);
    let spec = BlockSpec {
        start_pc: fingerprint.pc,
        instrs: vec![0x80630000, 0x90640000, 0x38840004, 0x48000004],
        pcs: vec![
            fingerprint.pc,
            fingerprint.pc.wrapping_add(4),
            fingerprint.pc.wrapping_add(8),
            fingerprint.pc.wrapping_add(12),
        ],
        terminator: TermKind::Branch,
    };

    let bytes = state.build_wasm_module(&fingerprint, &spec);
    for item in Parser::new(0).parse_all(&bytes) {
        item.expect("generated lwz/stw module should parse");
    }
}

#[test]
fn byte_halfword_module_parses_as_wasm() {
    let state = RuntimeWasmState::<GC>::new();
    let fingerprint = state.fingerprint(0x8000_6270, 6, &[0x88630000, 0xA8440002, 0x90640004, 0x98640008, 0xB064000A, 0x48000004]);
    let spec = BlockSpec {
        start_pc: fingerprint.pc,
        instrs: vec![0x88630000, 0xA8440002, 0x90640004, 0x98640008, 0xB064000A, 0x48000004],
        pcs: vec![
            fingerprint.pc,
            fingerprint.pc.wrapping_add(4),
            fingerprint.pc.wrapping_add(8),
            fingerprint.pc.wrapping_add(12),
            fingerprint.pc.wrapping_add(16),
            fingerprint.pc.wrapping_add(20),
        ],
        terminator: TermKind::Branch,
    };

    let bytes = state.build_wasm_module(&fingerprint, &spec);
    for item in Parser::new(0).parse_all(&bytes) {
        item.expect("generated byte/halfword module should parse");
    }
}

#[test]
fn successor_trace_module_parses_as_wasm() {
    let state = RuntimeWasmState::<GC>::new();
    let trace = TraceSpec {
        entry: BlockSpec {
            start_pc: 0x8000_6400,
            instrs: vec![0x2C030000, 0x41820008],
            pcs: vec![0x8000_6400, 0x8000_6404],
            terminator: TermKind::BranchCond,
        },
        successors: vec![
            BlockSpec {
                start_pc: 0x8000_6408,
                instrs: vec![0x38800001, 0x48000004],
                pcs: vec![0x8000_6408, 0x8000_640C],
                terminator: TermKind::Branch,
            },
            BlockSpec {
                start_pc: 0x8000_6410,
                instrs: vec![0x38800002, 0x48000004],
                pcs: vec![0x8000_6410, 0x8000_6414],
                terminator: TermKind::Branch,
            },
        ],
    };
    let fingerprint = state.fingerprint(
        trace.entry.start_pc,
        trace.total_instrs() as u16,
        &[
            0x2C030000, 0x41820008, 0x38800001, 0x48000004, 0x38800002, 0x48000004,
        ],
    );

    let bytes = state.build_wasm_trace_module(&fingerprint, &trace);
    for item in wasmparser::Parser::new(0).parse_all(&bytes) {
        item.expect("generated successor trace module should parse");
    }
}

#[test]
fn branch_cond_module_keeps_select_opcode() {
    let state = RuntimeWasmState::<GC>::new();
    let fingerprint = state.fingerprint(0x8000_6300, 2, &[0x704300FF, 0x41820008]);
    let spec = BlockSpec {
        start_pc: fingerprint.pc,
        instrs: vec![0x704300FF, 0x41820008],
        pcs: vec![fingerprint.pc, fingerprint.pc.wrapping_add(4)],
        terminator: TermKind::BranchCond,
    };

    let bytes = state.build_wasm_module(&fingerprint, &spec);
    assert!(bytes.contains(&0x1b));
}

#[test]
fn subfic_module_parses_as_wasm() {
    let state = RuntimeWasmState::<GC>::new();
    let fingerprint = state.fingerprint(0x8000_6310, 3, &[0x2084_0001, 0x3880_0002, 0x4800_0004]);
    let spec = BlockSpec {
        start_pc: fingerprint.pc,
        instrs: vec![0x2084_0001, 0x3880_0002, 0x4800_0004],
        pcs: vec![
            fingerprint.pc,
            fingerprint.pc.wrapping_add(4),
            fingerprint.pc.wrapping_add(8),
        ],
        terminator: TermKind::Branch,
    };

    let bytes = state.build_wasm_module(&fingerprint, &spec);
    for item in Parser::new(0).parse_all(&bytes) {
        item.expect("generated subfic module should parse");
    }
}

#[test]
fn addic_dot_module_parses_as_wasm() {
    let state = RuntimeWasmState::<GC>::new();
    let fingerprint = state.fingerprint(0x8000_6320, 3, &[0x3484_0001, 0x3880_0002, 0x4800_0004]);
    let spec = BlockSpec {
        start_pc: fingerprint.pc,
        instrs: vec![0x3484_0001, 0x3880_0002, 0x4800_0004],
        pcs: vec![
            fingerprint.pc,
            fingerprint.pc.wrapping_add(4),
            fingerprint.pc.wrapping_add(8),
        ],
        terminator: TermKind::Branch,
    };

    let bytes = state.build_wasm_module(&fingerprint, &spec);
    for item in Parser::new(0).parse_all(&bytes) {
        item.expect("generated addic. module should parse");
    }
}

#[test]
fn addi_lowers_to_const_add_set() {
    let mut out = Vec::new();
    emit_lowered_integer_op(&mut out, Instruction(0x3880_0001), 0, 0);
    // li r4, 1: rA is r0, so a zero constant, then 1, i32.add, local.set 4.
    assert_eq!(out, vec![0x41, 0x00, 0x41, 0x01, 0x6a, 0x21, 0x04]);

    let mut out = Vec::new();
    emit_lowered_integer_op(&mut out, Instruction(0x3884_0002), 0, 0);
    assert_eq!(out, vec![0x20, 0x04, 0x41, 0x02, 0x6a, 0x21, 0x04]);
}

#[test]
fn plain_branch_sets_next_address() {
    let spec = BlockSpec {
        start_pc: 0xfc,
        instrs: vec![0x3880_0001, 0x4800_0004],
        pcs: vec![0xfc, 0x100],
        terminator: TermKind::Branch,
    };
    let mut out = vec![0xaa];
    emit_lowered_terminator(&mut out, &spec, Instruction(0x4800_0004), 0x100);
    assert_eq!(out, vec![0xaa, 0x41, 0x84, 0x02, 0x21, 39]);

    let linking = BlockSpec { terminator: TermKind::BranchLink, ..spec.clone() };
    let mut out = Vec::new();
    emit_lowered_terminator(&mut out, &linking, Instruction(0x4800_0005), 0x100);
    assert_eq!(out, vec![0x41, 0x84, 0x02, 0x21, 40, 0x41, 0x84, 0x02, 0x21, 39]);

    let capped = BlockSpec { terminator: TermKind::LengthCap, ..spec };
    let mut out = Vec::new();
    emit_lowered_terminator(&mut out, &capped, Instruction(0x6000_0000), 0x100);
    assert!(out.is_empty());
}

#[test]
fn module_sections_come_in_order() {
    let state = RuntimeWasmState::<GC>::new();
    let fingerprint = BlockFingerprint { pc: 0x10, instr_count: 2, hash: 0x0000_0001_0000_0002 };
    let spec = BlockSpec {
        start_pc: 0x10,
        instrs: vec![0x3880_0001, 0x4800_0004],
        pcs: vec![0x10, 0x14],
        terminator: TermKind::Branch,
    };
    let bytes = state.build_wasm_module(&fingerprint, &spec);
    let mut kinds = Vec::new();
    for item in Parser::new(0).parse_all(&bytes) {
        let kind = match item.expect("module should parse") {
            Payload::Version { .. } => "version",
            Payload::TypeSection(reader) => {
                assert_eq!(reader.count(), 3);
                "types"
            }
            Payload::ImportSection(reader) => {
                assert_eq!(reader.count(), 7);
                "imports"
            }
            Payload::FunctionSection(reader) => {
                assert_eq!(reader.count(), 1);
                "functions"
            }
            Payload::ExportSection(reader) => {
                assert_eq!(reader.count(), 1);
                "exports"
            }
            Payload::CodeSectionStart { count, .. } => {
                assert_eq!(count, 1);
                "code"
            }
            Payload::CodeSectionEntry(_) => "body",
            Payload::CustomSection(reader) => {
                assert_eq!(reader.name(), "gecko-wasm");
                "custom"
            }
            Payload::End(_) => "end",
            _ => "other",
        };
        kinds.push(kind);
    }
    assert_eq!(kinds, vec!["version", "types", "imports", "functions", "exports", "code", "body", "custom", "end"]);
    // The custom section: id 0, length 15, the name, then pc, count and
    // the two halves of the hash.
    let tail = &bytes[bytes.len() - 17..];
    assert_eq!(tail[0], 0);
    assert_eq!(tail[1], 15);
    assert_eq!(&tail[2..3], &[10]);
    assert_eq!(&tail[3..13], b"gecko-wasm");
    assert_eq!(&tail[13..], &[0x10, 0x02, 0x02, 0x01]);
}

#[test]
fn trace_module_dispatches_every_block() {
    let state = RuntimeWasmState::<GC>::new();
    let trace = TraceSpec {
        entry: BlockSpec {
            start_pc: 0x8000_6400,
            instrs: vec![0x2C030000, 0x41820008],
            pcs: vec![0x8000_6400, 0x8000_6404],
            terminator: TermKind::BranchCond,
        },
        successors: vec![BlockSpec {
            start_pc: 0x8000_6408,
            instrs: vec![0x38800001, 0x48000004],
            pcs: vec![0x8000_6408, 0x8000_640C],
            terminator: TermKind::Branch,
        }],
    };
    let fingerprint = BlockFingerprint { pc: 0x8000_6400, instr_count: 4, hash: 7 };
    let both = state.build_wasm_trace_module(&fingerprint, &trace);
    let entry_only = state.build_wasm_module(&fingerprint, &trace.entry);
    assert!(both.len() > entry_only.len());
    assert_eq!(&both[..8], &entry_only[..8]);
}
#[test]
fn shared_container_module_parses_as_wasm() {
    let mut state = RuntimeWasmState::<GC>::new();
    let trace_a = TraceSpec {
        entry: BlockSpec {
            start_pc: 0x8000_6500,
            instrs: vec![0x38800001, 0x48000004],
            pcs: vec![0x8000_6500, 0x8000_6504],
            terminator: TermKind::Branch,
        },
        successors: vec![BlockSpec {
            start_pc: 0x8000_6508,
            instrs: vec![0x2C030000, 0x41820008],
            pcs: vec![0x8000_6508, 0x8000_650C],
            terminator: TermKind::BranchCond,
        }],
    };
    let trace_b = TraceSpec {
        entry: BlockSpec {
            start_pc: 0x8000_6600,
            instrs: vec![0x38800002, 0x48000004],
            pcs: vec![0x8000_6600, 0x8000_6604],
            terminator: TermKind::Branch,
        },
        successors: Vec::new(),
    };
    let fp_a = state.fingerprint(0x8000_6500, trace_a.total_instrs() as u16, &[0x38800001, 0x48000004, 0x2C030000, 0x41820008]);
    let fp_b = state.fingerprint(0x8000_6600, trace_b.total_instrs() as u16, &[0x38800002, 0x48000004]);
    state.register_compiled_block(fp_a, trace_a);
    state.register_compiled_block(fp_b, trace_b);

    let bytes = state.build_shared_wasm_module();
    for item in Parser::new(0).parse_all(&bytes) {
        item.expect("generated shared runtime-wasm container should parse");
    }
}

#[test]
fn shared_blocks_are_unique_and_ordered() {
    let mut state = RuntimeWasmState::<GC>::new();
    let late = BlockSpec {
        start_pc: 0x8000_7000,
        instrs: vec![0x38800001, 0x48000004],
        pcs: vec![0x8000_7000, 0x8000_7004],
        terminator: TermKind::Branch,
    };
    let early = BlockSpec {
        start_pc: 0x8000_6000,
        instrs: vec![0x38800002, 0x48000004],
        pcs: vec![0x8000_6000, 0x8000_6004],
        terminator: TermKind::Branch,
    };
    let fp_a = state.fingerprint(late.start_pc, 4, &[1]);
    let fp_b = state.fingerprint(early.start_pc, 2, &[2]);
    state.register_compiled_block(fp_a, TraceSpec { entry: late.clone(), successors: vec![early.clone()] });
    state.register_compiled_block(fp_b, TraceSpec { entry: early.clone(), successors: Vec::new() });
    let blocks = state.unique_trace_blocks();
    let starts: Vec<u32> = blocks.iter().map(|b| b.start_pc).collect();
    assert_eq!(starts, vec![0x8000_6000, 0x8000_7000]);
}
