use crate::console::Gekko;
use crate::cpu::fast::fast_step;
use crate::cpu::instr::Instruction;
use crate::cpu::state::Cpu;
use crate::cpu::step::{at_fetch, fast_steppable, fetched_word, StepOutcome};
use crate::mmu::{is_mapped, mapped, virt_to_phys, virt_to_phys_spec, Mmu};
use crate::wasmjit::fxmap::{map_get, map_insert, map_len, map_remove};
use rustc_hash::FxHashMap;
use std::collections::VecDeque;
use vstd::prelude::*;

verus! {

/// Fallbacks at one address before a block is cached there.
pub const HOT_THRESHOLD: u16 = 16;

/// Most instructions in a cached block.
pub const MAX_BLOCK_LEN: usize = 24;

/// Most blocks in the cache; the oldest leave first.
pub const MAX_BLOCK_CACHE_ENTRIES: usize = 4096;

/// An instruction of a cached block: its address, its word, and the word
/// decoded.
#[derive(Clone, Copy)]
pub struct CachedInsn {
    pub pc: u32,
    pub raw: u32,
    pub instr: Instruction,
}

/// A straight run of instructions cached at its first address.
pub struct CachedBlock {
    pub instructions: Vec<CachedInsn>,
}

/// Whether `raw` ends a block: a conditional branch, a system call, a
/// branch, or a branch through LR or CTR (primary opcodes 16 to 19).
pub open spec fn ends_block(raw: u32) -> bool {
    16 <= (raw >> 26u32) <= 19
}

/// Address of the `i`-th word from `start`, wrapping.
pub open spec fn word_pc(start: u32, i: nat) -> u32
    decreases i,
{
    if i == 0 {
        start
    } else {
        word_pc(start, (i - 1) as nat).wrapping_add(4)
    }
}

/// `b` is the block built at `start` from `mmu`: the words from `start`
/// on, up to and including the first that ends a block, at most
/// `MAX_BLOCK_LEN` of them.
pub open spec fn built_block(mmu: Mmu, start: u32, b: Seq<CachedInsn>) -> bool {
    &&& 1 <= b.len() <= MAX_BLOCK_LEN
    &&& forall|i: int|
        0 <= i < b.len() ==> {
            &&& (#[trigger] b[i]).pc == word_pc(start, i as nat)
            &&& b[i].raw == mmu.fetch_spec(word_pc(start, i as nat))
            &&& b[i].instr.0 == b[i].raw
        }
    &&& forall|i: int| 0 <= i < b.len() - 1 ==> !ends_block((#[trigger] b[i]).raw)
    &&& b.len() < MAX_BLOCK_LEN ==> ends_block(b.last().raw)
}

/// The cache: fallback counts by address, cached blocks by address, and
/// the addresses in the order their blocks came in (an address may stay
/// after its block left).
pub ghost struct JitView {
    pub hot: Map<u32, u16>,
    pub blocks: Map<u32, CachedBlock>,
    pub order: Seq<u32>,
}

/// Every cached block has its address in the order, is not empty and not
/// longer than `MAX_BLOCK_LEN`, and at most `MAX_BLOCK_CACHE_ENTRIES` are
/// cached.
pub open spec fn jit_wf(v: JitView) -> bool {
    &&& v.blocks.dom().finite()
    &&& v.blocks.dom().len() <= MAX_BLOCK_CACHE_ENTRIES
    &&& forall|pc: u32| #[trigger] v.blocks.contains_key(pc) ==> v.order.contains(pc)
    &&& forall|pc: u32|
        #[trigger] v.blocks.contains_key(pc) ==> 1 <= v.blocks[pc].instructions@.len() <= MAX_BLOCK_LEN
}

/// Drops the blocks of the oldest addresses until at most
/// `MAX_BLOCK_CACHE_ENTRIES` are left or no address is.
pub open spec fn evict(blocks: Map<u32, CachedBlock>, order: Seq<u32>) -> (Map<u32, CachedBlock>, Seq<u32>)
    decreases order.len(),
{
    if blocks.dom().len() <= MAX_BLOCK_CACHE_ENTRIES || order.len() == 0 {
        (blocks, order)
    } else {
        evict(blocks.remove(order[0]), order.drop_first())
    }
}

/// The cache after `block` is cached at `pc`: an empty block is not; the
/// address joins the order when it had no block; then the oldest leave.
pub open spec fn insert_view(v: JitView, pc: u32, block: CachedBlock) -> JitView {
    if block.instructions@.len() == 0 {
        v
    } else {
        let order = if v.blocks.contains_key(pc) {
            v.order
        } else {
            v.order.push(pc)
        };
        let kept = evict(v.blocks.insert(pc, block), order);
        JitView { hot: v.hot, blocks: kept.0, order: kept.1 }
    }
}

/// The fallback count at `pc` after one more fallback, saturating.
pub open spec fn hot_after(v: JitView, pc: u32) -> u16 {
    let n = if v.hot.contains_key(pc) {
        v.hot[pc]
    } else {
        0
    };
    if n == u16::MAX {
        n
    } else {
        (n + 1) as u16
    }
}

/// Eviction keeps every block's address in the order, keeps the map
/// finite, and leaves at most `MAX_BLOCK_CACHE_ENTRIES` blocks; what stays
/// was there before.
pub proof fn lemma_evict(blocks: Map<u32, CachedBlock>, order: Seq<u32>)
    requires
        blocks.dom().finite(),
        forall|pc: u32| #[trigger] blocks.contains_key(pc) ==> order.contains(pc),
    ensures
        evict(blocks, order).0.dom().finite(),
        evict(blocks, order).0.dom().len() <= MAX_BLOCK_CACHE_ENTRIES,
        forall|pc: u32| #[trigger] evict(blocks, order).0.contains_key(pc) ==> evict(blocks, order).1.contains(pc),
        forall|pc: u32|
            #[trigger] evict(blocks, order).0.contains_key(pc) ==> blocks.contains_key(pc)
                && evict(blocks, order).0[pc] == blocks[pc],
    decreases order.len(),
{
    if blocks.dom().len() <= MAX_BLOCK_CACHE_ENTRIES {
    } else if order.len() == 0 {
        assert(blocks.dom() =~= Set::<u32>::empty()) by {
            assert forall|pc: u32| !blocks.dom().contains(pc) by {
                if blocks.contains_key(pc) {
                    assert(order.contains(pc));
                }
            }
        }
    } else {
        let rest = blocks.remove(order[0]);
        assert forall|pc: u32| #[trigger] rest.contains_key(pc) implies order.drop_first().contains(pc) by {
            assert(order.contains(pc));
            let i = choose|i: int| 0 <= i < order.len() && order[i] == pc;
            assert(i != 0);
            assert(order.drop_first()[i - 1] == pc);
        }
        lemma_evict(rest, order.drop_first());
    }
}

/// Caching a block keeps the cache well formed: in particular it never
/// holds more than `MAX_BLOCK_CACHE_ENTRIES` blocks.
pub proof fn lemma_insert_keeps_wf(v: JitView, pc: u32, block: CachedBlock)
    requires
        jit_wf(v),
        block.instructions@.len() <= MAX_BLOCK_LEN,
    ensures
        jit_wf(insert_view(v, pc, block)),
{
    if block.instructions@.len() > 0 {
        let order = if v.blocks.contains_key(pc) {
            v.order
        } else {
            v.order.push(pc)
        };
        let grown = v.blocks.insert(pc, block);
        assert forall|q: u32| #[trigger] grown.contains_key(q) implies order.contains(q) by {
            if q == pc {
                if !v.blocks.contains_key(pc) {
                    assert(order[order.len() - 1] == pc);
                }
            } else {
                assert(v.order.contains(q));
                let i = choose|i: int| 0 <= i < v.order.len() && v.order[i] == q;
                assert(order[i] == q);
            }
        }
        lemma_evict(grown, order);
    }
}

/// One instruction of a cached block run from `s` to `t`: `pc` is its
/// address, memory still holds its word there, and the fast path runs it
/// in two cycles.
pub open spec fn cached_step(s: Gekko, insn: CachedInsn, t: Gekko) -> bool {
    &&& s.cpu.pc == insn.pc
    &&& s.mmu.fetch_spec(insn.pc) == insn.raw
    &&& exists|mid: Gekko|
        #[trigger] fast_step(at_fetch(s), mid, fetched_word(s)) && t == (Gekko {
            cpu: Cpu { pc: mid.cpu.nia, ..mid.cpu },
            cycles: (s.cycles + 2) as u64,
            ..mid
        })
}

/// `states` runs the first `k` instructions of `insns`, one state after
/// each.
pub open spec fn ran_cached(states: Seq<Gekko>, insns: Seq<CachedInsn>, k: int) -> bool {
    &&& states.len() == k + 1
    &&& forall|i: int| 0 <= i < k ==> #[trigger] cached_step(states[i], insns[i], states[i + 1])
}

/// Whether the cached instruction `insn` can run from `s`: `pc` is its
/// address, memory there is mapped and still holds its word, and the fast
/// path takes it.
pub open spec fn cached_ready(s: Gekko, insn: CachedInsn) -> bool {
    &&& s.cpu.pc == insn.pc
    &&& mapped(virt_to_phys_spec(insn.pc) as int, 4)
    &&& s.mmu.fetch_spec(insn.pc) == insn.raw
    &&& fast_steppable(s)
}

/// The fallback path from `s` to `t`: nothing, or one instruction on the
/// fast path in one cycle.
pub open spec fn fallback_step(s: Gekko, t: Gekko) -> bool {
    ||| t == s
    ||| exists|mid: Gekko|
        #[trigger] fast_step(at_fetch(s), mid, fetched_word(s)) && t == (Gekko {
            cpu: Cpu { pc: mid.cpu.nia, ..mid.cpu },
            cycles: (s.cycles + 1) as u64,
            ..mid
        })
}

pub struct Jiterpreter<const SYSTEM: u8> {
    hot_counts: FxHashMap<u32, u16>,
    blocks: FxHashMap<u32, CachedBlock>,
    insertion_order: VecDeque<u32>,
}

impl<const SYSTEM: u8> View for Jiterpreter<SYSTEM> {
    type V = JitView;

    closed spec fn view(&self) -> JitView {
        JitView { hot: self.hot_counts@, blocks: self.blocks@, order: self.insertion_order@ }
    }
}

impl<const SYSTEM: u8> Jiterpreter<SYSTEM> {
    pub open spec fn wf(&self) -> bool {
        jit_wf(self@)
    }

    pub fn new() -> (r: Self)
        ensures
            r@ == (JitView { hot: Map::empty(), blocks: Map::empty(), order: Seq::empty() }),
            r.wf(),
    {
        let r = Jiterpreter {
            hot_counts: FxHashMap::default(),
            blocks: FxHashMap::default(),
            insertion_order: VecDeque::new(),
        };
        assert(r@.hot =~= Map::empty());
        assert(r@.blocks =~= Map::empty());
        r
    }

    /// Whether `raw` ends a block.
    pub fn is_terminator(raw: u32) -> (r: bool)
        ensures
            r == ends_block(raw),
    {
        let opcd = raw >> 26;
        opcd == 16 || opcd == 17 || opcd == 18 || opcd == 19
    }

    /// The block at `start_pc` in the memory of `sys`.
    pub fn build_block(sys: &Gekko, start_pc: u32) -> (r: CachedBlock)
        requires
            sys.wf(),
        ensures
            built_block(sys.mmu, start_pc, r.instructions@),
    {
        let mut instructions: Vec<CachedInsn> = Vec::new();
        let mut pc = start_pc;
        loop
            invariant_except_break
                instructions@.len() < MAX_BLOCK_LEN,
                pc == word_pc(start_pc, instructions@.len()),
                forall|i: int| 0 <= i < instructions@.len() ==> !ends_block((#[trigger] instructions@[i]).raw),
            invariant
                sys.wf(),
                forall|i: int|
                    0 <= i < instructions@.len() ==> {
                        &&& (#[trigger] instructions@[i]).pc == word_pc(start_pc, i as nat)
                        &&& instructions@[i].raw == sys.mmu.fetch_spec(word_pc(start_pc, i as nat))
                        &&& instructions@[i].instr.0 == instructions@[i].raw
                    },
            ensures
                built_block(sys.mmu, start_pc, instructions@),
            decreases MAX_BLOCK_LEN - instructions@.len(),
        {
            let raw = sys.mmu.fetch_instruction(pc);
            let ghost n = instructions@.len();
            instructions.push(CachedInsn { pc, raw, instr: Instruction(raw) });
            assert(instructions@[n as int].pc == word_pc(start_pc, n));
            if Self::is_terminator(raw) || instructions.len() == MAX_BLOCK_LEN {
                break;
            }
            pc = pc.wrapping_add(4);
        }
        CachedBlock { instructions }
    }

    /// Caches `block` at `start_pc`, then drops the oldest blocks while
    /// more than `MAX_BLOCK_CACHE_ENTRIES` are cached.
    fn insert_block(&mut self, start_pc: u32, block: CachedBlock)
        requires
            old(self).wf(),
            block.instructions@.len() <= MAX_BLOCK_LEN,
        ensures
            final(self)@ == insert_view(old(self)@, start_pc, block),
            final(self).wf(),
    {
        proof {
            lemma_insert_keeps_wf(self@, start_pc, block);
        }
        if block.instructions.len() == 0 {
            return;
        }
        let ghost v0 = self@;
        let ghost target = insert_view(v0, start_pc, block);
        let prev = map_insert(&mut self.blocks, start_pc, block);
        if prev.is_none() {
            self.insertion_order.push_back(start_pc);
        }
        assert(evict(self.blocks@, self.insertion_order@) == (target.blocks, target.order));
        loop
            invariant
                self.hot_counts@ == v0.hot,
                evict(self.blocks@, self.insertion_order@) == (target.blocks, target.order),
            ensures
                self.hot_counts@ == v0.hot,
                self.blocks@ == target.blocks,
                self.insertion_order@ == target.order,
            decreases self.insertion_order@.len(),
        {
            if map_len(&self.blocks) <= MAX_BLOCK_CACHE_ENTRIES {
                break;
            }
            let ghost before = self.insertion_order@;
            match self.insertion_order.pop_front() {
                Some(evict_pc) => {
                    assert(self.insertion_order@ =~= before.drop_first());
                    map_remove(&mut self.blocks, &evict_pc);
                },
                None => {
                    assert(before.len() == 0);
                    break;
                },
            }
        }
        assert(self@ == target);
    }

    /// Counts a fallback at `start_pc`; once the count reaches
    /// `HOT_THRESHOLD` and no block is cached there, the block at
    /// `start_pc` in the memory of `sys` is built and cached.
    pub fn on_fallback(&mut self, start_pc: u32, sys: &Gekko)
        requires
            old(self).wf(),
            sys.wf(),
        ensures
            final(self).wf(),
            final(self)@.hot == old(self)@.hot.insert(start_pc, hot_after(old(self)@, start_pc)),
            (hot_after(old(self)@, start_pc) >= HOT_THRESHOLD && !old(self)@.blocks.contains_key(start_pc))
                ==> exists|b: CachedBlock|
                #![trigger insert_view(old(self)@, start_pc, b)]
                built_block(sys.mmu, start_pc, b.instructions@) && final(self)@.blocks == insert_view(
                    old(self)@,
                    start_pc,
                    b,
                ).blocks && final(self)@.order == insert_view(old(self)@, start_pc, b).order,
            !(hot_after(old(self)@, start_pc) >= HOT_THRESHOLD && !old(self)@.blocks.contains_key(start_pc))
                ==> final(self)@.blocks == old(self)@.blocks && final(self)@.order == old(self)@.order,
    {
        let ghost v0 = self@;
        let count = match map_get(&self.hot_counts, &start_pc) {
            Some(n) => *n,
            None => 0,
        };
        let hot = count.saturating_add(1);
        map_insert(&mut self.hot_counts, start_pc, hot);
        let cached = match map_get(&self.blocks, &start_pc) {
            Some(_) => true,
            None => false,
        };
        if hot >= HOT_THRESHOLD && !cached {
            let block = Self::build_block(sys, start_pc);
            let ghost b = block;
            self.insert_block(start_pc, block);
            assert(insert_view(v0, start_pc, b).blocks == self@.blocks);
        }
    }
    /// Runs the instructions of `block` from `sys` while each is ready:
    /// `true` when all ran, `false` at the first that is not (the ones
    /// before it have run) or for an empty block.
    fn execute_cached_block(&self, sys: &mut Gekko, block: &CachedBlock) -> (r: bool)
        requires
            old(sys).wf(),
            old(sys).cycles + 2 * block.instructions@.len() <= u64::MAX,
        ensures
            final(sys).wf(),
            r ==> block.instructions@.len() > 0 && exists|states: Seq<Gekko>|
                #![trigger ran_cached(states, block.instructions@, block.instructions@.len() as int)]
                ran_cached(states, block.instructions@, block.instructions@.len() as int) && states[0]
                    == *old(sys) && states.last() == *final(sys),
            !r ==> (block.instructions@.len() == 0 && *final(sys) == *old(sys)) || exists|states: Seq<Gekko>, k: int|
                #![trigger ran_cached(states, block.instructions@, k)]
                0 <= k < block.instructions@.len() && ran_cached(states, block.instructions@, k) && states[0]
                    == *old(sys) && states.last() == *final(sys) && !cached_ready(*final(sys), block.instructions@[k]),
    {
        let n = block.instructions.len();
        if n == 0 {
            return false;
        }
        let ghost g0 = *sys;
        let ghost insns = block.instructions@;
        let ghost mut states: Seq<Gekko> = seq![*sys];
        let mut i: usize = 0;
        while i < n
            invariant
                n == insns.len(),
                insns == block.instructions@,
                i <= n,
                ran_cached(states, insns, i as int),
                g0 == *old(sys),
                states[0] == g0,
                states.last() == *sys,
                sys.wf(),
                sys.cycles == g0.cycles + 2 * i,
                g0.cycles + 2 * n <= u64::MAX,
            ensures
                i == n,
                ran_cached(states, insns, n as int),
                states[0] == g0,
                states.last() == *sys,
                sys.wf(),
            decreases n - i,
        {
            let cached = block.instructions[i];
            if sys.cpu.pc != cached.pc || !is_mapped(virt_to_phys(cached.pc), 4) {
                assert(!cached_ready(*sys, insns[i as int]));
                assert(ran_cached(states, insns, i as int));
                return false;
            }
            let raw = sys.mmu.fetch_instruction(cached.pc);
            if raw != cached.raw {
                assert(!cached_ready(*sys, insns[i as int]));
                assert(ran_cached(states, insns, i as int));
                return false;
            }
            let ghost s = *sys;
            let stepped = sys.run_until_event() == StepOutcome::Done;
            if !stepped {
                assert(!cached_ready(*sys, insns[i as int]));
                assert(ran_cached(states, insns, i as int));
                return false;
            }
            let ghost after = *sys;
            sys.cycles = sys.cycles + 1;
            proof {
                let mid = choose|mid: Gekko|
                    #[trigger] fast_step(at_fetch(s), mid, fetched_word(s)) && after == (Gekko {
                        cpu: Cpu { pc: mid.cpu.nia, ..mid.cpu },
                        cycles: (s.cycles + 1) as u64,
                        ..mid
                    });
                assert(*sys == (Gekko { cpu: Cpu { pc: mid.cpu.nia, ..mid.cpu }, cycles: (s.cycles + 2) as u64, ..mid }));
                assert(cached_step(s, insns[i as int], *sys));
                let prev = states;
                states = states.push(*sys);
                assert forall|j: int| 0 <= j < i + 1 implies #[trigger] cached_step(states[j], insns[j], states[j + 1]) by {
                    if j < i {
                        assert(states[j] == prev[j]);
                        assert(states[j + 1] == prev[j + 1]);
                        assert(cached_step(prev[j], insns[j], prev[j + 1]));
                    }
                }
            }
            i = i + 1;
        }
        assert(ran_cached(states, insns, n as int));
        true
    }

    /// Runs the block cached at `start_pc`, if one is; one that stops
    /// before its end leaves the cache.
    fn execute_cached_if_available(&mut self, sys: &mut Gekko, start_pc: u32) -> (r: bool)
        requires
            old(self).wf(),
            old(sys).wf(),
            old(sys).cycles + 2 * MAX_BLOCK_LEN <= u64::MAX,
        ensures
            final(self).wf(),
            final(sys).wf(),
            !old(self)@.blocks.contains_key(start_pc) ==> !r && final(self)@ == old(self)@ && *final(sys) == *old(sys),
            r ==> old(self)@.blocks.contains_key(start_pc) && final(self)@ == old(self)@ && exists|states: Seq<Gekko>|
                #![trigger ran_cached(states, old(self)@.blocks[start_pc].instructions@, old(self)@.blocks[start_pc].instructions@.len() as int)]
                ran_cached(
                    states,
                    old(self)@.blocks[start_pc].instructions@,
                    old(self)@.blocks[start_pc].instructions@.len() as int,
                ) && states[0] == *old(sys) && states.last() == *final(sys),
            !r && old(self)@.blocks.contains_key(start_pc) ==> final(self)@ == (JitView {
                blocks: old(self)@.blocks.remove(start_pc),
                ..old(self)@
            }) && exists|states: Seq<Gekko>, k: int|
                #![trigger ran_cached(states, old(self)@.blocks[start_pc].instructions@, k)]
                0 <= k && ran_cached(states, old(self)@.blocks[start_pc].instructions@, k) && states[0] == *old(sys)
                    && states.last() == *final(sys) && (old(self)@.blocks[start_pc].instructions@.len() == 0 || (k
                    < old(self)@.blocks[start_pc].instructions@.len() && !cached_ready(
                    *final(sys),
                    old(self)@.blocks[start_pc].instructions@[k],
                ))),
    {
        let ran = match map_get(&self.blocks, &start_pc) {
            Some(block) => self.execute_cached_block(sys, block),
            None => {
                return false;
            },
        };
        if !ran {
            proof {
                let insns = old(self)@.blocks[start_pc].instructions@;
                if insns.len() == 0 {
                    assert(ran_cached(seq![*old(sys)], insns, 0));
                }
            }
            let ghost v0 = self@;
            map_remove(&mut self.blocks, &start_pc);
            proof {
                assert(self@.blocks.dom() =~= v0.blocks.dom().remove(start_pc));
            }
        }
        ran
    }

    /// The fallback: one instruction on the fast path, when `pc` is mapped,
    /// the cycle count has room and the fast path takes the instruction
    /// there; `false`, with nothing changed, otherwise.
    fn run_fallback(&self, sys: &mut Gekko) -> (stepped: bool)
        requires
            old(sys).wf(),
        ensures
            final(sys).wf(),
            stepped == (mapped(virt_to_phys_spec(old(sys).cpu.pc) as int, 4) && old(sys).cycles < u64::MAX
                && fast_steppable(*old(sys))),
            !stepped ==> *final(sys) == *old(sys),
            stepped ==> fast_steppable(*old(sys)) && exists|mid: Gekko|
                #[trigger] fast_step(at_fetch(*old(sys)), mid, fetched_word(*old(sys))) && *final(sys) == (Gekko {
                    cpu: Cpu { pc: mid.cpu.nia, ..mid.cpu },
                    cycles: (old(sys).cycles + 1) as u64,
                    ..mid
                }),
    {
        if is_mapped(virt_to_phys(sys.cpu.pc), 4) && sys.cycles < u64::MAX {
            sys.run_until_event() == StepOutcome::Done
        } else {
            false
        }
    }

    /// Runs the block cached at `pc` when it runs to its end; otherwise
    /// drops it, takes one instruction on the fallback path and counts the
    /// fallback at the starting address, caching the block there once it
    /// is hot.
    pub fn run_block(&mut self, sys: &mut Gekko)
        requires
            old(self).wf(),
            old(sys).wf(),
            old(sys).cycles + 2 * MAX_BLOCK_LEN + 1 <= u64::MAX,
        ensures
            final(self).wf(),
            final(sys).wf(),
            ({
                let pc = old(sys).cpu.pc;
                let insns = old(self)@.blocks[pc].instructions@;
                ||| (final(self)@ == old(self)@ && old(self)@.blocks.contains_key(pc) && exists|states: Seq<Gekko>|
                    #![trigger ran_cached(states, insns, insns.len() as int)]
                    ran_cached(states, insns, insns.len() as int) && states[0] == *old(sys) && states.last()
                        == *final(sys))
                ||| {
                    let dropped = JitView { blocks: old(self)@.blocks.remove(pc), ..old(self)@ };
                    &&& exists|states: Seq<Gekko>, k: int|
                        #![trigger ran_cached(states, insns, k)]
                        0 <= k && ran_cached(states, insns, k) && states[0] == *old(sys) && fallback_step(
                            states.last(),
                            *final(sys),
                        ) && (old(self)@.blocks.contains_key(pc) ==> insns.len() == 0 || (k < insns.len()
                            && !cached_ready(states.last(), insns[k])))
                    &&& final(self)@.hot == old(self)@.hot.insert(pc, hot_after(old(self)@, pc))
                    &&& final(self)@.blocks.contains_key(pc) ==> built_block(
                        final(sys).mmu,
                        pc,
                        final(self)@.blocks[pc].instructions@,
                    )
                    &&& (final(self)@.blocks == dropped.blocks && final(self)@.order == dropped.order) || exists|b: CachedBlock|
                        #![trigger insert_view(dropped, pc, b)]
                        built_block(final(sys).mmu, pc, b.instructions@) && final(self)@.blocks == insert_view(
                            dropped,
                            pc,
                            b,
                        ).blocks && final(self)@.order == insert_view(dropped, pc, b).order
                }
            }),
    {
        let start_pc = sys.cpu.pc;
        let ghost v0 = self@;
        let ghost g0 = *sys;
        let ghost insns = v0.blocks[start_pc].instructions@;
        if self.execute_cached_if_available(sys, start_pc) {
            return;
        }
        let ghost v1 = self@;
        let ghost g1 = *sys;
        let ghost (states, k) = if v0.blocks.contains_key(start_pc) {
            choose|states: Seq<Gekko>, k: int|
                #![trigger ran_cached(states, insns, k)]
                0 <= k && ran_cached(states, insns, k) && states[0] == g0 && states.last() == g1 && (insns.len()
                    == 0 || (k < insns.len() && !cached_ready(g1, insns[k])))
        } else {
            (seq![g0], 0int)
        };
        assert(0 <= k && ran_cached(states, insns, k) && states[0] == g0 && states.last() == g1);
        assert(v0.blocks.contains_key(start_pc) ==> insns.len() == 0 || (k < insns.len() && !cached_ready(
            states.last(),
            insns[k],
        )));
        assert(!v1.blocks.contains_key(start_pc));
        assert(v1 == (JitView { blocks: v0.blocks.remove(start_pc), ..v0 })) by {
            if !v0.blocks.contains_key(start_pc) {
                assert(v0.blocks.remove(start_pc) =~= v0.blocks);
            }
        }
        assert(hot_after(v1, start_pc) == hot_after(v0, start_pc));
        self.run_fallback(sys);
        assert(fallback_step(g1, *sys));
        assert(ran_cached(states, insns, k));
        self.on_fallback(start_pc, sys);
        proof {
            if hot_after(v1, start_pc) >= HOT_THRESHOLD && !v1.blocks.contains_key(start_pc) {
                let b = choose|b: CachedBlock|
                    #![trigger insert_view(v1, start_pc, b)]
                    built_block(sys.mmu, start_pc, b.instructions@) && self@.blocks == insert_view(v1, start_pc, b).blocks
                        && self@.order == insert_view(v1, start_pc, b).order;
                let order = v1.order.push(start_pc);
                let grown = v1.blocks.insert(start_pc, b);
                assert forall|q: u32| #[trigger] grown.contains_key(q) implies order.contains(q) by {
                    if q == start_pc {
                        assert(order[order.len() - 1] == start_pc);
                    } else {
                        assert(v1.order.contains(q));
                        let i = choose|i: int| 0 <= i < v1.order.len() && v1.order[i] == q;
                        assert(order[i] == q);
                    }
                }
                lemma_evict(grown, order);
            }
        }
    }
}

} // verus!
