use gecko::console::Gekko;
use gecko::cpu::blocks::IdleClass;
use gecko::cpu::jiterp::{discover, JiterpEngine};

fn words(ws: &[u32]) -> Vec<u8> {
    ws.iter().flat_map(|w| w.to_be_bytes()).collect()
}

#[test]
fn run_block_chains_blocks_until_a_branch_to_itself() {
    // li r3, 5 ; li r4, 6 ; b .
    let mut g = Gekko::with_rom(&words(&[0x3860_0005, 0x3880_0006, 0x4800_0000]));
    let mut engine = JiterpEngine::new();
    let stats = engine.run_block(&mut g);
    assert_eq!(g.cpu.gpr[3], 5);
    assert_eq!(g.cpu.gpr[4], 6);
    assert_eq!(g.cpu.pc, 8);
    assert_eq!(stats.instrs, 4);
    assert_eq!(stats.blocks, 2);
    assert_eq!(stats.cache_hits, 0);
    assert_eq!(stats.cache_misses, 2);
    assert_eq!(g.cycles, 8);
    // The block at the branch is cached now.
    let stats = engine.run_block(&mut g);
    assert_eq!(stats.instrs, 1);
    assert_eq!(stats.blocks, 1);
    assert_eq!(stats.cache_hits, 1);
    assert_eq!(stats.cache_misses, 0);
    assert_eq!(g.cpu.pc, 8);
}

#[test]
fn discover_follows_short_forward_branches() {
    // b +8 ; li r3, 1 ; li r3, 2 ; b .
    let g = Gekko::with_rom(&words(&[0x4800_0008, 0x3860_0001, 0x3860_0002, 0x4800_0000]));
    let b = discover(&g, 0);
    assert_eq!(b.pcs, vec![8, 12]);
    assert_eq!(b.instrs, vec![0x3860_0002, 0x4800_0000]);
    let spin = discover(&g, 12);
    assert_eq!(spin.pcs, vec![12]);
    assert_eq!(spin.idle_class, IdleClass::BranchToSelf);
}

#[test]
fn a_followed_branch_is_skipped_when_the_block_runs() {
    // b +8 ; li r3, 1 ; li r3, 2 ; b .
    let mut g = Gekko::with_rom(&words(&[0x4800_0008, 0x3860_0001, 0x3860_0002, 0x4800_0000]));
    let mut engine = JiterpEngine::new();
    let stats = engine.run_block(&mut g);
    assert_eq!(g.cpu.gpr[3], 2);
    assert_eq!(g.cpu.pc, 12);
    assert_eq!(stats.instrs, 3);
    assert_eq!(stats.cache_misses, 2);
}

#[test]
fn run_block_stops_where_a_word_is_no_instruction() {
    // li r3, 5 ; then zeros
    let mut g = Gekko::with_rom(&words(&[0x3860_0005]));
    let mut engine = JiterpEngine::new();
    let stats = engine.run_block(&mut g);
    assert_eq!(g.cpu.gpr[3], 5);
    assert_eq!(g.cpu.pc, 4);
    assert_eq!(stats.instrs, 1);
    assert_eq!(stats.blocks, 1);
}

#[test]
fn clear_cache_makes_every_block_decode_again() {
    // li r3, 5 ; li r4, 6 ; b .
    let mut g = Gekko::with_rom(&words(&[0x3860_0005, 0x3880_0006, 0x4800_0000]));
    let mut engine = JiterpEngine::new();
    engine.run_block(&mut g);
    let stats = engine.run_block(&mut g);
    assert_eq!(stats.cache_hits, 1);
    engine.clear_cache();
    let stats = engine.run_block(&mut g);
    assert_eq!(stats.cache_hits, 0);
    assert_eq!(stats.cache_misses, 1);
}
