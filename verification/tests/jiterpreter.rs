use gecko::console::Gekko;
use gecko::jiterpreter::{Jiterpreter, HOT_THRESHOLD, MAX_BLOCK_LEN};
use gecko::system::GC;

fn program(words: &[u32]) -> Vec<u8> {
    words.iter().flat_map(|w| w.to_be_bytes()).collect()
}

// addi r4, r0, 1; addi r4, r4, 1; b 0
const LOOP: [u32; 3] = [0x3880_0001, 0x3884_0001, 0x4BFF_FFF8];

#[test]
fn terminators_are_the_branch_opcodes() {
    assert!(Jiterpreter::<GC>::is_terminator(0x4800_0000)); // b
    assert!(Jiterpreter::<GC>::is_terminator(0x4182_0008)); // beq
    assert!(Jiterpreter::<GC>::is_terminator(0x4E80_0020)); // blr
    assert!(Jiterpreter::<GC>::is_terminator(0x4400_0002)); // sc
    assert!(!Jiterpreter::<GC>::is_terminator(0x3880_0001)); // addi
    assert!(!Jiterpreter::<GC>::is_terminator(0x5000_0000)); // rlwimi
}

#[test]
fn built_block_ends_with_its_branch() {
    let mut words = LOOP.to_vec();
    words.push(0x3880_0005);
    let g = Gekko::with_rom(&program(&words));
    let block = Jiterpreter::<GC>::build_block(&g, 0);
    let pcs: Vec<u32> = block.instructions.iter().map(|i| i.pc).collect();
    let raws: Vec<u32> = block.instructions.iter().map(|i| i.raw).collect();
    assert_eq!(pcs, vec![0, 4, 8]);
    assert_eq!(raws, LOOP.to_vec());
    assert_eq!(block.instructions[2].instr.0, 0x4BFF_FFF8);
}

#[test]
fn built_block_is_capped() {
    let g = Gekko::with_rom(&program(&[0x3884_0001; 40]));
    let block = Jiterpreter::<GC>::build_block(&g, 8);
    assert_eq!(block.instructions.len(), MAX_BLOCK_LEN);
    assert_eq!(block.instructions[0].pc, 8);
    assert_eq!(block.instructions[MAX_BLOCK_LEN - 1].pc, 8 + 4 * (MAX_BLOCK_LEN as u32 - 1));
}

#[test]
fn hot_block_runs_from_the_cache() {
    let mut g = Gekko::with_rom(&program(&LOOP));
    let mut jit = Jiterpreter::<GC>::new();
    // Cold: each call takes one instruction on the fallback path.
    for n in 0..HOT_THRESHOLD as u64 {
        g.cpu.pc = 0;
        jit.run_block(&mut g);
        assert_eq!(g.cpu.pc, 4);
        assert_eq!(g.cycles, n + 1);
    }
    // Hot: the cached block runs whole, two cycles an instruction.
    g.cpu.pc = 0;
    g.cpu.gpr[4] = 0;
    let before = g.cycles;
    jit.run_block(&mut g);
    assert_eq!(g.cpu.pc, 0);
    assert_eq!(g.cpu.gpr[4], 2);
    assert_eq!(g.cycles, before + 6);
}

#[test]
fn changed_code_leaves_the_cache() {
    let mut g = Gekko::with_rom(&program(&LOOP));
    let mut jit = Jiterpreter::<GC>::new();
    for _ in 0..HOT_THRESHOLD {
        g.cpu.pc = 0;
        jit.run_block(&mut g);
    }
    // The second word changes: addi r4, r4, 7.
    g.mmu.phys_write_u32(4, 0x3884_0007);
    g.cpu.pc = 0;
    g.cpu.gpr[4] = 0;
    let before = g.cycles;
    jit.run_block(&mut g);
    // The first cached instruction ran, the changed one stopped the block,
    // and the fallback path took it.
    assert_eq!(g.cpu.gpr[4], 8);
    assert_eq!(g.cpu.pc, 8);
    assert_eq!(g.cycles, before + 3);
    // The block is built anew from the changed code.
    g.cpu.pc = 0;
    g.cpu.gpr[4] = 0;
    let before = g.cycles;
    jit.run_block(&mut g);
    assert_eq!(g.cpu.gpr[4], 8);
    assert_eq!(g.cpu.pc, 0);
    assert_eq!(g.cycles, before + 6);
}
