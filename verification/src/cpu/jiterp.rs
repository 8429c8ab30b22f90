use crate::console::Gekko;
use crate::cpu::blocks::{
    classify_idle_loop, classify_terminator, extension_target, extension_target_of, idle_class_of, terminator_of,
    IdleClass, TermKind, MAX_BLOCK_INSTRS,
};
use crate::cpu::instr::Instruction;
use crate::cpu::state::Cpu;
use crate::cpu::step::{fast_steppable, StepOutcome};
use crate::jiterpreter::{cached_step, CachedInsn};
use crate::mmu::{is_mapped, mapped, virt_to_phys, virt_to_phys_spec, Mmu};
use crate::wasmjit::fxmap::{map_get, map_insert, map_keys, map_remove};
use rustc_hash::FxHashMap;
use vstd::prelude::*;

verus! {

/// Most blocks run one after another by one `run_block`.
pub const MAX_CHAIN_BLOCKS: usize = 16;

/// Farthest forward, in bytes, an unconditional branch is followed while a
/// block is decoded.
pub const EXTENSION_MAX_FORWARD_BYTES: u32 = 1024;

/// A decoded block: its words and their addresses, in the order they run,
/// and whether it only waits.
pub struct DecodedBlock {
    pub instrs: Vec<u32>,
    pub pcs: Vec<u32>,
    pub idle_class: IdleClass,
}

/// What one `run_block` did.
#[derive(Clone, Copy, Debug)]
pub struct BlockStats {
    pub instrs: u32,
    pub blocks: u32,
    pub cache_hits: u32,
    pub cache_misses: u32,
}

/// Whether an unconditional branch at `pc` with target `t` is followed
/// while decoding, rather than kept: it goes forward, not too far, to an
/// address not decoded yet.
pub open spec fn follows(pc: u32, t: u32, pcs: Seq<u32>) -> bool {
    &&& t > pc
    &&& t - pc <= EXTENSION_MAX_FORWARD_BYTES
    &&& !pcs.contains(t)
}

/// Decoding from `pc` in memory `mmu`, with `instrs` at `pcs` decoded so
/// far: the words, their addresses, and how the block ends. Each word is
/// read at its address; an unconditional branch forward (not too far, to
/// an address not decoded yet) is followed and left out; the block ends
/// after a word that ends blocks, or at its longest.
pub open spec fn decode_from(mmu: Mmu, pc: u32, instrs: Seq<u32>, pcs: Seq<u32>) -> (Seq<u32>, Seq<u32>, TermKind)
    decreases MAX_BLOCK_INSTRS - instrs.len(), u32::MAX - pc,
{
    if instrs.len() >= MAX_BLOCK_INSTRS {
        (instrs, pcs, TermKind::LengthCap)
    } else {
        let w = mmu.fetch_spec(pc);
        match extension_target_of(w, pc) {
            Some(t) if follows(pc, t, pcs) => decode_from(mmu, t, instrs, pcs),
            _ => {
                let i2 = instrs.push(w);
                let p2 = pcs.push(pc);
                match terminator_of(w) {
                    Some(k) => (i2, p2, k),
                    None => decode_from(mmu, pc.wrapping_add(4), i2, p2),
                }
            },
        }
    }
}

/// The block decoded at `start` in memory `mmu`.
pub open spec fn decoded_at(mmu: Mmu, start: u32) -> (Seq<u32>, Seq<u32>, TermKind) {
    decode_from(mmu, start, Seq::empty(), Seq::empty())
}

/// A block as the cache keeps it: as many addresses as words, and no more
/// words than a block holds.
pub open spec fn block_wf(b: DecodedBlock) -> bool {
    &&& b.instrs@.len() == b.pcs@.len()
    &&& b.instrs@.len() <= MAX_BLOCK_INSTRS
}

/// Every cached block is well formed.
pub open spec fn cache_wf(cache: Map<u32, DecodedBlock>) -> bool {
    forall|pc: u32| #[trigger] cache.contains_key(pc) ==> block_wf(cache[pc])
}

/// The word `raw` run at `cia` from `s` to `t`: `pc` moved to `cia`, then
/// the instruction there (memory still holding `raw`) run on the fast
/// path in two cycles.
pub open spec fn decoded_step(s: Gekko, cia: u32, raw: u32, t: Gekko) -> bool {
    cached_step(Gekko { cpu: Cpu { pc: cia, ..s.cpu }, ..s }, CachedInsn { pc: cia, raw, instr: Instruction(raw) }, t)
}

/// `states` runs the words `raws` at the addresses `cias`, one state after
/// each.
pub open spec fn decoded_run(states: Seq<Gekko>, cias: Seq<u32>, raws: Seq<u32>) -> bool {
    &&& states.len() == cias.len() + 1
    &&& cias.len() == raws.len()
    &&& forall|i: int| 0 <= i < cias.len() ==> #[trigger] decoded_step(states[i], cias[i], raws[i], states[i + 1])
}

/// A run of decoded words followed by one more.
proof fn lemma_decoded_run_push(
    states: Seq<Gekko>,
    cias: Seq<u32>,
    raws: Seq<u32>,
    t: Gekko,
    cia: u32,
    raw: u32,
)
    requires
        decoded_run(states, cias, raws),
        decoded_step(states.last(), cia, raw, t),
    ensures
        decoded_run(states.push(t), cias.push(cia), raws.push(raw)),
{
    let s2 = states.push(t);
    let c2 = cias.push(cia);
    let r2 = raws.push(raw);
    assert forall|i: int| 0 <= i < c2.len() implies #[trigger] decoded_step(s2[i], c2[i], r2[i], s2[i + 1]) by {
        if i < cias.len() {
            assert(s2[i] == states[i] && s2[i + 1] == states[i + 1] && c2[i] == cias[i] && r2[i] == raws[i]);
        } else {
            assert(s2[i] == states.last() && s2[i + 1] == t && c2[i] == cia && r2[i] == raw);
        }
    }
}

/// Whether `x` is one of `v`.
fn contains_u32(v: &Vec<u32>, x: u32) -> (r: bool)
    ensures
        r == v@.contains(x),
{
    let mut i: usize = 0;
    while i < v.len()
        invariant
            i <= v@.len(),
            forall|j: int| 0 <= j < i ==> v@[j] != x,
        decreases v@.len() - i,
    {
        if v[i] == x {
            assert(v@[i as int] == x);
            return true;
        }
        i = i + 1;
    }
    false
}

/// Decodes the block at `start_pc` in the memory of `sys`.
pub fn discover(sys: &Gekko, start_pc: u32) -> (r: DecodedBlock)
    requires
        sys.wf(),
    ensures
        block_wf(r),
        (r.instrs@, r.pcs@) == ((decoded_at(sys.mmu, start_pc).0, decoded_at(sys.mmu, start_pc).1)),
        r.idle_class == idle_class_of(r.instrs@, decoded_at(sys.mmu, start_pc).2, start_pc),
{
    let mut instrs: Vec<u32> = Vec::new();
    let mut pcs: Vec<u32> = Vec::new();
    let mut terminator = TermKind::LengthCap;
    let mut pc = start_pc;
    while instrs.len() < MAX_BLOCK_INSTRS
        invariant_except_break
            decode_from(sys.mmu, pc, instrs@, pcs@) == decoded_at(sys.mmu, start_pc),
            terminator == TermKind::LengthCap,
        invariant
            sys.wf(),
            instrs@.len() == pcs@.len(),
            instrs@.len() <= MAX_BLOCK_INSTRS,
        ensures
            (instrs@, pcs@, terminator) == decoded_at(sys.mmu, start_pc),
        decreases MAX_BLOCK_INSTRS - instrs@.len(), u32::MAX - pc,
    {
        let word = sys.mmu.fetch_instruction(pc);
        let cur_pc = pc;
        if let Some(target) = extension_target(Instruction(word), cur_pc) {
            if target > cur_pc && target.wrapping_sub(cur_pc) <= EXTENSION_MAX_FORWARD_BYTES && !contains_u32(
                &pcs,
                target,
            ) {
                pc = target;
                continue;
            }
        }
        instrs.push(word);
        pcs.push(cur_pc);
        if let Some(t) = classify_terminator(Instruction(word)) {
            terminator = t;
            break;
        }
        pc = pc.wrapping_add(4);
    }
    let idle_class = classify_idle_loop(instrs.as_slice(), terminator, start_pc);
    DecodedBlock { instrs, pcs, idle_class }
}

/// Whether the word `raw` can run at `cia` from `s`: memory there is
/// mapped and holds it, the cycle count has room for two more cycles, and
/// the fast path takes it with `pc` at `cia`.
#[verifier::opaque]
pub open spec fn word_runs(s: Gekko, cia: u32, raw: u32) -> bool {
    &&& mapped(virt_to_phys_spec(cia) as int, 4)
    &&& s.cycles < u64::MAX - 1
    &&& s.mmu.fetch_spec(cia) == raw
    &&& fast_steppable(Gekko { cpu: Cpu { pc: cia, ..s.cpu }, ..s })
}

/// Whether a run of block `b` that reached state `t` after `k` words
/// stopped because the next word could not run: it was due (the first
/// word, or `pc` is where it was decoded) and could not run there.
pub open spec fn stalled_at(t: Gekko, b: DecodedBlock, k: int) -> bool {
    &&& 0 <= k < b.instrs@.len()
    &&& (k == 0 || t.cpu.pc == b.pcs@[k])
    &&& !word_runs(t, b.pcs@[k], b.instrs@[k])
}

/// Block `b` ran from `s` to `t`: its first `k` words in order, each after
/// the first reached with `pc` at its decoded address; the run stopped at
/// the end of the block, where `pc` left the decoded path, or where the
/// next word could not run (`stalled`).
pub open spec fn block_ran(s: Gekko, t: Gekko, b: DecodedBlock, k: int, stalled: bool) -> bool {
    &&& 0 <= k <= b.instrs@.len()
    &&& exists|states: Seq<Gekko>|
        #[trigger] decoded_run(states, b.pcs@.take(k), b.instrs@.take(k)) && states[0] == s && states.last() == t
            && forall|i: int| #![trigger states[i]] 1 <= i < k ==> states[i].cpu.pc == b.pcs@[i]
    &&& stalled == stalled_at(t, b, k)
    &&& k == b.instrs@.len() || stalled || (k > 0 && t.cpu.pc != b.pcs@[k])
}

/// Runs the word `raw` at `cia`: when it can run there, `pc` moves to
/// `cia` and it runs in two cycles; otherwise nothing changes.
fn exec_decoded(sys: &mut Gekko, cia: u32, raw: u32) -> (ran: bool)
    requires
        old(sys).wf(),
    ensures
        final(sys).wf(),
        ran == word_runs(*old(sys), cia, raw),
        ran ==> decoded_step(*old(sys), cia, raw, *final(sys)),
        !ran ==> *final(sys) == *old(sys),
{
    reveal(word_runs);
    if !is_mapped(virt_to_phys(cia), 4) || sys.cycles >= u64::MAX - 1 {
        return false;
    }
    if sys.mmu.fetch_instruction(cia) != raw {
        return false;
    }
    let ghost g0 = *sys;
    let old_pc = sys.cpu.pc;
    sys.cpu.pc = cia;
    let ghost s = *sys;
    assert(s == (Gekko { cpu: Cpu { pc: cia, ..g0.cpu }, ..g0 }));
    if sys.run_until_event() != StepOutcome::Done {
        sys.cpu.pc = old_pc;
        assert(*sys == g0);
        return false;
    }
    let ghost after = *sys;
    sys.cycles = sys.cycles + 1;
    proof {
        let mid = choose|mid: Gekko|
            #[trigger] crate::cpu::fast::fast_step(
                crate::cpu::step::at_fetch(s),
                mid,
                crate::cpu::step::fetched_word(s),
            ) && after == (Gekko { cpu: Cpu { pc: mid.cpu.nia, ..mid.cpu }, cycles: (s.cycles + 1) as u64, ..mid });
        assert(*sys == (Gekko { cpu: Cpu { pc: mid.cpu.nia, ..mid.cpu }, cycles: (s.cycles + 2) as u64, ..mid }));
    }
    true
}

/// Runs the words of `b` in order from `sys`, going on to the next only
/// while `pc` is the address it was decoded at. Returns how many ran, and
/// whether the run stopped at a word that could not run here.
fn run_decoded(sys: &mut Gekko, b: &DecodedBlock) -> (r: (u32, bool))
    requires
        old(sys).wf(),
        block_wf(*b),
    ensures
        final(sys).wf(),
        block_ran(*old(sys), *final(sys), *b, r.0 as int, r.1),
{
    let n = b.instrs.len();
    let mut i: usize = 0;
    let mut go = true;
    let mut stalled = false;
    let ghost mut states: Seq<Gekko> = seq![*sys];
    proof {
        assert(b.pcs@.take(0) =~= Seq::<u32>::empty());
        assert(b.instrs@.take(0) =~= Seq::<u32>::empty());
        assert(decoded_run(states, b.pcs@.take(0), b.instrs@.take(0)));
    }
    while go && i < n
        invariant
            n == b.instrs@.len(),
            block_wf(*b),
            i <= n,
            sys.wf(),
            decoded_run(states, b.pcs@.take(i as int), b.instrs@.take(i as int)),
            forall|j: int| #![trigger states[j]] 1 <= j < i ==> states[j].cpu.pc == b.pcs@[j],
            states[0] == *old(sys),
            states.last() == *sys,
            go ==> !stalled,
            go && 0 < i < n ==> sys.cpu.pc == b.pcs@[i as int],
            !go ==> (stalled && stalled_at(*sys, *b, i as int)) || (!stalled && 0 < i < n && sys.cpu.pc
                != b.pcs@[i as int]),
        decreases n - i + if go { 1int } else { 0int },
    {
        let cia = b.pcs[i];
        let raw = b.instrs[i];
        if !exec_decoded(sys, cia, raw) {
            stalled = true;
            go = false;
        } else {
            proof {
                let prev = states;
                lemma_decoded_run_push(states, b.pcs@.take(i as int), b.instrs@.take(i as int), *sys, cia, raw);
                assert(b.pcs@.take(i as int).push(cia) =~= b.pcs@.take(i + 1));
                assert(b.instrs@.take(i as int).push(raw) =~= b.instrs@.take(i + 1));
                states = states.push(*sys);
                assert forall|j: int| #![trigger states[j]] 1 <= j < i + 1 implies states[j].cpu.pc == b.pcs@[j] by {
                    assert(states[j] == prev[j]);
                }
            }
            i = i + 1;
            if i < n && sys.cpu.pc != b.pcs[i] {
                go = false;
            }
        }
    }
    let r = (i as u32, stalled);
    assert(decoded_run(states, b.pcs@.take(r.0 as int), b.instrs@.take(r.0 as int)));
    assert(forall|j: int| #![trigger states[j]] 1 <= j < r.0 as int ==> states[j].cpu.pc == b.pcs@[j]);
    r
}

/// Block-at-a-time interpreter: blocks decoded once and kept by their
/// first address, then run word by word.
pub struct JiterpEngine {
    cache: FxHashMap<u32, DecodedBlock>,
}

impl View for JiterpEngine {
    type V = Map<u32, DecodedBlock>;

    closed spec fn view(&self) -> Map<u32, DecodedBlock> {
        self.cache@
    }
}

/// One block of a chain: where it starts, the console before and after it,
/// how many of its words ran, whether it stopped at a word that could not
/// run, and whether it was found in the cache.
pub struct BlockRun {
    pub start: u32,
    pub before: Gekko,
    pub after: Gekko,
    pub count: u32,
    pub stalled: bool,
    pub hit: bool,
}

/// Whether the chain goes on after block run `r`: some word ran, none
/// stalled, and `pc` did not come back to the block's start.
pub open spec fn goes_on(r: BlockRun) -> bool {
    r.count > 0 && !r.stalled && r.after.cpu.pc != r.start
}

/// `b` is the block decoded at `start` in memory `mmu`.
pub open spec fn decoded_entry(b: DecodedBlock, mmu: Mmu, start: u32) -> bool {
    let d = decoded_at(mmu, start);
    &&& b.instrs@ == d.0
    &&& b.pcs@ == d.1
    &&& b.idle_class == idle_class_of(b.instrs@, d.2, start)
}

/// Run `j` of the chain `runs`, with the cache `before_cache` at the start
/// and `cache` at the end: its block is the one cached at its start, it
/// ran as `block_ran` says, it was a hit exactly when that start was
/// cached before or started an earlier run, a miss decoded the block from
/// the memory it began with, and a run that is not the last lets the chain
/// go on to the address it left `pc` at.
pub open spec fn run_ok(before_cache: Map<u32, DecodedBlock>, cache: Map<u32, DecodedBlock>, runs: Seq<BlockRun>, j: int) -> bool {
    let r = runs[j];
    &&& cache.contains_key(r.start)
    &&& block_ran(r.before, r.after, cache[r.start], r.count as int, r.stalled)
    &&& r.hit == (before_cache.contains_key(r.start) || exists|i: int| 0 <= i < j && #[trigger] runs[i].start == r.start)
    &&& !r.hit ==> decoded_entry(cache[r.start], r.before.mmu, r.start)
    &&& j < runs.len() - 1 ==> goes_on(r) && runs[j + 1].before == r.after && runs[j + 1].start == r.after.cpu.pc
}

/// Runs of the chain that found their block in the cache.
pub open spec fn hits_of(runs: Seq<BlockRun>) -> nat
    decreases runs.len(),
{
    if runs.len() == 0 {
        0
    } else {
        hits_of(runs.drop_last()) + if runs.last().hit { 1nat } else { 0nat }
    }
}

/// Runs of the chain in which some word ran.
pub open spec fn blocks_of(runs: Seq<BlockRun>) -> nat
    decreases runs.len(),
{
    if runs.len() == 0 {
        0
    } else {
        blocks_of(runs.drop_last()) + if runs.last().count > 0 { 1nat } else { 0nat }
    }
}

/// Words run over the whole chain.
pub open spec fn instrs_of(runs: Seq<BlockRun>) -> nat
    decreases runs.len(),
{
    if runs.len() == 0 {
        0
    } else {
        instrs_of(runs.drop_last()) + runs.last().count as nat
    }
}

/// `runs` is a chain of block runs from `s` to `t`, the cache going from
/// `before_cache` to `cache`: it starts at `s.pc`, each run is as
/// `run_ok` says, it stops only after `MAX_CHAIN_BLOCKS` runs or where the
/// chain does not go on, and the cache gained only the starts of runs.
pub open spec fn chain_ok(
    before_cache: Map<u32, DecodedBlock>,
    cache: Map<u32, DecodedBlock>,
    runs: Seq<BlockRun>,
    s: Gekko,
    t: Gekko,
) -> bool {
    &&& 1 <= runs.len() <= MAX_CHAIN_BLOCKS
    &&& runs[0].start == s.cpu.pc
    &&& runs[0].before == s
    &&& runs.last().after == t
    &&& forall|j: int| 0 <= j < runs.len() ==> #[trigger] run_ok(before_cache, cache, runs, j)
    &&& runs.len() == MAX_CHAIN_BLOCKS || !goes_on(runs.last())
    &&& forall|k: u32| #[trigger]
        cache.contains_key(k) ==> before_cache.contains_key(k) || exists|j: int| 0 <= j < runs.len() && runs[j].start == k
}

impl JiterpEngine {
    pub open spec fn wf(&self) -> bool {
        cache_wf(self@)
    }

    pub fn new() -> (r: Self)
        ensures
            r@ == Map::<u32, DecodedBlock>::empty(),
            r.wf(),
    {
        let r = JiterpEngine { cache: FxHashMap::default() };
        assert(r@ =~= Map::<u32, DecodedBlock>::empty());
        r
    }

    /// Drops every cached block.
    pub fn clear_cache(&mut self)
        requires
            old(self).wf(),
        ensures
            final(self)@ == Map::<u32, DecodedBlock>::empty(),
            final(self).wf(),
    {
        let keys = map_keys(&self.cache);
        let mut i: usize = 0;
        assert(keys@.subrange(0, keys@.len() as int) =~= keys@);
        while i < keys.len()
            invariant
                i <= keys@.len(),
                self.wf(),
                forall|k: u32| #[trigger] self@.contains_key(k) ==> keys@.subrange(i as int, keys@.len() as int).contains(k),
            decreases keys@.len() - i,
        {
            let ghost c0 = self@;
            let key = keys[i];
            map_remove(&mut self.cache, &key);
            proof {
                let rest = keys@.subrange(i as int, keys@.len() as int);
                let next = keys@.subrange(i + 1, keys@.len() as int);
                assert forall|k: u32| #[trigger] self@.contains_key(k) implies next.contains(k) by {
                    assert(c0.contains_key(k) && k != key);
                    let j = choose|j: int| 0 <= j < rest.len() && rest[j] == k;
                    assert(j != 0);
                    assert(next[j - 1] == k);
                }
                assert forall|p: u32| #[trigger] self@.contains_key(p) implies block_wf(self@[p]) by {
                    assert(c0.contains_key(p));
                }
            }
            i = i + 1;
        }
        assert(self@ =~= Map::<u32, DecodedBlock>::empty()) by {
            assert forall|k: u32| !#[trigger] self@.contains_key(k) by {
                if self@.contains_key(k) {
                    let e = keys@.subrange(i as int, keys@.len() as int);
                    assert(e.len() == 0);
                }
            }
        }
    }

    /// Runs a chain of blocks from `pc`, at most `MAX_CHAIN_BLOCKS`: each
    /// is the block cached at the current `pc`, or decoded there and
    /// cached, and is run; the chain stops after a block where no word ran,
    /// where `pc` came back to the block's start, or where a word could not
    /// run here.
    pub fn run_block(&mut self, sys: &mut Gekko) -> (stats: BlockStats)
        requires
            old(self).wf(),
            old(sys).wf(),
        ensures
            final(self).wf(),
            final(sys).wf(),
            forall|pc: u32| #[trigger]
                old(self)@.contains_key(pc) ==> final(self)@.contains_key(pc) && final(self)@[pc] == old(self)@[pc],
            final(self)@.contains_key(old(sys).cpu.pc),
            stats.cache_hits + stats.cache_misses >= 1,
            exists|runs: Seq<BlockRun>|
                #[trigger] chain_ok(old(self)@, final(self)@, runs, *old(sys), *final(sys))
                    && stats.cache_hits == hits_of(runs) && stats.cache_misses == runs.len() - hits_of(runs)
                    && stats.blocks == blocks_of(runs) && stats.instrs == instrs_of(runs),
    {
        let mut stats = BlockStats { instrs: 0, blocks: 0, cache_hits: 0, cache_misses: 0 };
        let mut pc = sys.cpu.pc;
        let ghost mut runs: Seq<BlockRun> = Seq::empty();
        let mut n: usize = 0;
        let mut go = true;
        while go && n < MAX_CHAIN_BLOCKS
            invariant
                n <= MAX_CHAIN_BLOCKS,
                runs.len() == n,
                self.wf(),
                sys.wf(),
                forall|p: u32| #[trigger]
                    old(self)@.contains_key(p) ==> self@.contains_key(p) && self@[p] == old(self)@[p],
                forall|k: u32| #[trigger]
                    self@.contains_key(k) ==> old(self)@.contains_key(k) || exists|j: int| 0 <= j < runs.len() && runs[j].start == k,
                forall|j: int| 0 <= j < runs.len() ==> #[trigger] run_ok(old(self)@, self@, runs, j),
                n == 0 ==> go && *sys == *old(sys) && pc == old(sys).cpu.pc,
                n > 0 ==> runs[0].start == old(sys).cpu.pc && runs[0].before == *old(sys) && runs.last().after == *sys,
                go && n > 0 ==> goes_on(runs.last()) && pc == sys.cpu.pc,
                !go ==> n > 0 && !goes_on(runs.last()),
                stats.cache_hits == hits_of(runs),
                stats.cache_misses == n - hits_of(runs),
                stats.blocks == blocks_of(runs),
                stats.instrs == instrs_of(runs),
                stats.instrs <= n * MAX_BLOCK_INSTRS,
                hits_of(runs) <= n,
                blocks_of(runs) <= n,
            decreases MAX_CHAIN_BLOCKS - n,
        {
            let ghost c0 = self@;
            let ghost s0 = *sys;
            let ghost prev = runs;
            let hit = map_get(&self.cache, &pc).is_some();
            if hit {
                stats.cache_hits = stats.cache_hits + 1;
            } else {
                let block = discover(sys, pc);
                map_insert(&mut self.cache, pc, block);
                proof {
                    assert forall|p: u32| #[trigger] self@.contains_key(p) implies block_wf(self@[p]) by {
                        if p != pc {
                            assert(c0.contains_key(p));
                        }
                    }
                }
                stats.cache_misses = stats.cache_misses + 1;
            }
            let block = map_get(&self.cache, &pc).unwrap();
            let (executed, stalled) = run_decoded(sys, block);
            let ghost r = BlockRun { start: pc, before: s0, after: *sys, count: executed, stalled, hit };
            proof {
                runs = prev.push(r);
                assert(runs.drop_last() =~= prev);
                assert(c0.contains_key(pc) == hit);
                if !hit {
                    assert forall|i: int| 0 <= i < n implies prev[i].start != pc by {
                        assert(run_ok(old(self)@, c0, prev, i));
                    }
                }
                assert(hit == (old(self)@.contains_key(pc) || exists|i: int| 0 <= i < n && #[trigger] runs[i].start
                    == pc)) by {
                    if exists|i: int| 0 <= i < n && #[trigger] runs[i].start == pc {
                        let i = choose|i: int| 0 <= i < n && #[trigger] runs[i].start == pc;
                        assert(prev[i].start == pc);
                    }
                    if exists|i: int| 0 <= i < n && #[trigger] prev[i].start == pc {
                        let i = choose|i: int| 0 <= i < n && #[trigger] prev[i].start == pc;
                        assert(runs[i].start == pc);
                        assert(c0.contains_key(prev[i].start)) by {
                            assert(run_ok(old(self)@, c0, prev, i));
                        }
                    }
                }
                assert forall|j: int| 0 <= j < runs.len() implies #[trigger] run_ok(old(self)@, self@, runs, j) by {
                    if j < n {
                        assert(run_ok(old(self)@, c0, prev, j));
                        assert(runs[j] == prev[j]);
                        assert(c0.contains_key(prev[j].start));
                        assert(self@[prev[j].start] == c0[prev[j].start]);
                        assert forall|i: int| 0 <= i < j implies runs[i] == prev[i] by {}
                        assert((exists|i: int| 0 <= i < j && #[trigger] runs[i].start == runs[j].start) == (exists|i: int|
                            0 <= i < j && #[trigger] prev[i].start == prev[j].start)) by {
                            if exists|i: int| 0 <= i < j && #[trigger] runs[i].start == runs[j].start {
                                let i = choose|i: int| 0 <= i < j && #[trigger] runs[i].start == runs[j].start;
                                assert(prev[i].start == prev[j].start);
                            }
                            if exists|i: int| 0 <= i < j && #[trigger] prev[i].start == prev[j].start {
                                let i = choose|i: int| 0 <= i < j && #[trigger] prev[i].start == prev[j].start;
                                assert(runs[i].start == runs[j].start);
                            }
                        }
                        if j == n - 1 {
                            assert(runs[j + 1] == r);
                        } else {
                            assert(runs[j + 1] == prev[j + 1]);
                        }
                    } else {
                        assert(runs[j] == r);
                    }
                }
                assert forall|k: u32| #[trigger] self@.contains_key(k) implies old(self)@.contains_key(k) || exists|j: int|
                    0 <= j < runs.len() && runs[j].start == k by {
                    if k == pc {
                        assert(runs[n as int].start == k);
                    } else {
                        assert(c0.contains_key(k));
                        if !old(self)@.contains_key(k) {
                            let j = choose|j: int| 0 <= j < prev.len() && prev[j].start == k;
                            assert(runs[j].start == k);
                        }
                    }
                }
            }
            n = n + 1;
            if executed > 0 {
                stats.blocks = stats.blocks + 1;
            }
            stats.instrs = stats.instrs + executed;
            let next_pc = sys.cpu.pc;
            if executed == 0 || stalled || next_pc == pc {
                go = false;
            } else {
                pc = next_pc;
            }
        }
        proof {
            assert(run_ok(old(self)@, self@, runs, 0));
            assert(chain_ok(old(self)@, self@, runs, *old(sys), *sys));
        }
        stats
    }
}

} // verus!
