use crate::system::SystemId;
use crate::wasmjit::fxmap::{
    map_get, map_insert, map_keys, map_len, map_remove, set_contains, set_drain, set_first, set_insert, set_remove,
};
use crate::console::Gekko;
use crate::mmu::{virt_to_phys, virt_to_phys_spec};
use crate::wasmjit::discover::{discover_trace, discovered_trace};
use rustc_hash::{FxHashMap, FxHashSet};
use crate::wasmjit::block::{instr_total, BlockSpec, TermKind, TraceSpec, HOT_BLOCK_THRESHOLD, MIN_COMPILED_BLOCK_INSTRS};
use crate::wasmjit::classify::{block_reason, block_unsupported_reason, UnsupportedOpcode};
use crate::wasmjit::trace::{
    all_words, first_blocked, first_unsupported_block, hash_fold, hash_words, lemma_mem_total_le, mem_op_total,
    trace_memory_op_count, trace_words, FNV_OFFSET,
};
use vstd::prelude::*;

verus! {

/// Identity of compiled code: where it starts, how many instructions it
/// covers, and a hash of them.
#[derive(Clone, Copy, Debug, PartialEq, Eq, Hash, Structural)]
pub struct BlockFingerprint {
    pub pc: u32,
    pub instr_count: u16,
    pub hash: u64,
}

/// Whether a block or trace is compiled, and if not, where and why not.
#[derive(Clone, Copy, Debug, PartialEq, Eq, Structural)]
pub enum BlockCompileDecision {
    Compileable(BlockFingerprint),
    Fallback { pc: u32, reason: UnsupportedOpcode },
}

/// Counters of the wasm runtime.
#[derive(Clone, Copy, Debug, PartialEq, Eq, Structural)]
pub struct RuntimeWasmStats {
    pub compiled_executions: u64,
    pub compiled_execution_instrs: u64,
    pub compile_attempts: u64,
    pub compiled_blocks: usize,
    pub unprofitable_fallbacks: u64,
    pub unsupported_fallbacks: u64,
    pub shared_rebuilds: u64,
    pub shared_dispatch_blocks: usize,
}

/// Fingerprint of `words` starting at `pc` on console `system`: the hash
/// covers the words, then `pc`, the count and the console.
pub open spec fn fingerprint_of(pc: u32, instr_count: u16, words: Seq<u32>, system: SystemId) -> BlockFingerprint {
    BlockFingerprint {
        pc,
        instr_count,
        hash: hash_fold(FNV_OFFSET, words + seq![pc, instr_count as u32, system as u32]),
    }
}

/// What the runtime decides for the single block `b`.
pub open spec fn block_decision(b: BlockSpec, system: SystemId) -> BlockCompileDecision {
    match block_reason(b) {
        Some(r) => BlockCompileDecision::Fallback { pc: b.start_pc, reason: r },
        None => BlockCompileDecision::Compileable(
            fingerprint_of(b.start_pc, b.instrs@.len() as u16, b.instrs@, system),
        ),
    }
}

/// What the runtime decides for `trace`: too few instructions, or few
/// and mostly loads and stores, do not pay off; otherwise the first block
/// with an instruction that is not lowered keeps the trace with the
/// interpreter; otherwise the trace compiles under the fingerprint of all
/// its instructions.
pub open spec fn trace_decision(trace: TraceSpec, system: SystemId) -> BlockCompileDecision {
    let blocks = trace.blocks();
    let total = instr_total(blocks);
    let unprofitable = BlockCompileDecision::Fallback {
        pc: trace.entry.start_pc,
        reason: UnsupportedOpcode::Unprofitable { instr_count: total as u16 },
    };
    if total < MIN_COMPILED_BLOCK_INSTRS {
        unprofitable
    } else if total < 10 && mem_op_total(blocks) * 2 >= total {
        unprofitable
    } else {
        match first_blocked(blocks, 0) {
            Some((pc, reason)) => BlockCompileDecision::Fallback { pc, reason },
            None => BlockCompileDecision::Compileable(
                fingerprint_of(trace.entry.start_pc, total as u16, all_words(blocks), system),
            ),
        }
    }
}

/// A trace the runtime compiled, under its fingerprint.
#[derive(Clone)]
pub struct CompiledBlock {
    pub fingerprint: BlockFingerprint,
    pub compiled_at_cycle: u64,
    pub hit_count: u32,
    pub trace: TraceSpec,
}

/// Key under which a fingerprint is filed: its fields side by side.
pub open spec fn fp_code(fp: BlockFingerprint) -> u128 {
    (fp.pc * 0x1_0000_0000_0000_0000_0000int + fp.instr_count * 0x1_0000_0000_0000_0000int + fp.hash) as u128
}

pub fn fingerprint_code(fp: BlockFingerprint) -> (r: u128)
    ensures
        r == fp_code(fp),
{
    (fp.pc as u128) * 0x1_0000_0000_0000_0000_0000u128 + (fp.instr_count as u128) * 0x1_0000_0000_0000_0000u128
        + fp.hash as u128
}

/// Key under which a fallback reason is counted: its kind, then the
/// number it carries.
pub open spec fn reason_code(r: UnsupportedOpcode) -> u64 {
    let (kind, payload) = crate::wasmjit::classify::reason_key(r);
    (kind * 0x1_0000_0000int + payload) as u64
}

pub fn fallback_reason_code(r: UnsupportedOpcode) -> (c: u64)
    ensures
        c == reason_code(r),
{
    let (kind, payload) = crate::wasmjit::classify::fallback_reason_sort_key(r);
    (kind as u64) * 0x1_0000_0000u64 + payload as u64
}

/// `v + 1`, stopping at the largest value.
pub open spec fn bump32(v: u32) -> u32 {
    if v == u32::MAX { v } else { (v + 1) as u32 }
}

pub open spec fn bump64(v: u64) -> u64 {
    if v == u64::MAX { v } else { (v + 1) as u64 }
}

/// How often `pc` was seen: its count, or zero.
pub open spec fn count_of(m: Map<u32, u32>, pc: u32) -> u32 {
    if m.contains_key(pc) { m[pc] } else { 0 }
}

pub open spec fn count64_of(m: Map<u64, u64>, k: u64) -> u64 {
    if m.contains_key(k) { m[k] } else { 0 }
}

pub open spec fn count_pc_of(m: Map<u32, u64>, k: u32) -> u64 {
    if m.contains_key(k) { m[k] } else { 0 }
}

/// Start addresses of the first `k` blocks of `t`.
pub open spec fn prefix_starts(t: TraceSpec, k: int) -> Set<u32> {
    Set::new(|s: u32| exists|i: int| 0 <= i < k && #[trigger] t.blocks()[i].start_pc == s)
}

/// Start addresses of all blocks of `t`.
pub open spec fn trace_starts(t: TraceSpec) -> Set<u32> {
    prefix_starts(t, t.blocks().len() as int)
}

/// `m` with every address of `ss` mapped to `fp`.
pub open spec fn with_starts(m: Map<u32, BlockFingerprint>, ss: Set<u32>, fp: BlockFingerprint) -> Map<
    u32,
    BlockFingerprint,
> {
    Map::new(|s: u32| m.contains_key(s) || ss.contains(s), |s: u32| if ss.contains(s) { fp } else { m[s] })
}

/// What the runtime holds: hit counts and blocks waiting to be compiled,
/// fallbacks by address and by reason, the compiled traces and their
/// entry blocks by fingerprint code, the fingerprint covering each block
/// start, the addresses whose code changed, and the counters.
pub ghost struct RuntimeWasmView {
    pub hot: Map<u32, u32>,
    pub candidates: Set<u32>,
    pub fallbacks: Map<u32, u64>,
    pub reasons: Map<u64, u64>,
    pub specs: Map<u128, BlockSpec>,
    pub index: Map<u32, BlockFingerprint>,
    pub compiled: Map<u128, CompiledBlock>,
    pub invalidated: Set<u32>,
    pub begin_cycle: u64,
    pub begin_deadline: u64,
    pub compile_attempts: u64,
    pub compiled_executions: u64,
    pub compiled_execution_instrs: u64,
    pub unprofitable_fallbacks: u64,
    pub unsupported_fallbacks: u64,
}

/// Whether block start `s` is hit by `x`: equal to it, or, by physical
/// line, mapping to it.
pub open spec fn start_hit(s: u32, x: u32, by_phys: bool) -> bool {
    if by_phys {
        virt_to_phys_spec(s) == x
    } else {
        s == x
    }
}

/// Whether some block of `t` starts where `x` hits.
pub open spec fn trace_hits(t: TraceSpec, x: u32, by_phys: bool) -> bool {
    exists|i: int| 0 <= i < t.blocks().len() && #[trigger] start_hit(t.blocks()[i].start_pc, x, by_phys)
}

/// Keys of the compiled traces that `x` hits.
pub open spec fn retired_keys(m: Map<u128, CompiledBlock>, x: u32, by_phys: bool) -> Set<u128> {
    Set::new(|k: u128| m.contains_key(k) && trace_hits(m[k].trace, x, by_phys))
}

/// Block starts of the compiled traces under the keys `ks`.
pub open spec fn starts_under(m: Map<u128, CompiledBlock>, ks: Set<u128>) -> Set<u32> {
    Set::new(
        |s: u32| exists|k: u128| ks.contains(k) && m.contains_key(k) && #[trigger] trace_starts(m[k].trace).contains(s),
    )
}

/// `v` with the compiled traces under `ks` retired: they and their entry
/// blocks are dropped, and their block starts leave the index and are
/// invalidated.
pub open spec fn retire_view(v: RuntimeWasmView, ks: Set<u128>) -> RuntimeWasmView {
    RuntimeWasmView {
        compiled: v.compiled.remove_keys(ks),
        specs: v.specs.remove_keys(ks),
        invalidated: v.invalidated.union(starts_under(v.compiled, ks)),
        index: v.index.remove_keys(starts_under(v.compiled, ks)),
        ..v
    }
}

/// `v` after the code at `pc` changed: `pc` is invalidated and every
/// compiled trace with a block starting there is retired.
pub open spec fn invalidate_pc_view(v: RuntimeWasmView, pc: u32) -> RuntimeWasmView {
    retire_view(RuntimeWasmView { invalidated: v.invalidated.insert(pc), ..v }, retired_keys(v.compiled, pc, false))
}

/// `v` after `invalidate_pc_view` for each address of `pcs` in turn.
pub open spec fn invalidate_all_view(v: RuntimeWasmView, pcs: Seq<u32>) -> RuntimeWasmView
    decreases pcs.len(),
{
    if pcs.len() == 0 {
        v
    } else {
        invalidate_pc_view(invalidate_all_view(v, pcs.drop_last()), pcs.last())
    }
}

/// Start address of the fingerprint filed under `code`.
pub open spec fn code_pc(code: u128) -> u32 {
    (code / 0x1_0000_0000_0000_0000_0000u128) as u32
}

/// `v` after filing the compiled `trace` under `fp` (see
/// `register_compiled_block`).
pub open spec fn register_view(v: RuntimeWasmView, fp: BlockFingerprint, trace: TraceSpec) -> RuntimeWasmView {
    RuntimeWasmView {
        compile_attempts: bump64(v.compile_attempts),
        invalidated: v.invalidated.remove(fp.pc).difference(trace_starts(trace)),
        index: with_starts(v.index, trace_starts(trace), fp),
        compiled: v.compiled.insert(
            fp_code(fp),
            CompiledBlock {
                fingerprint: fp,
                compiled_at_cycle: v.begin_cycle,
                hit_count: count_of(v.hot, fp.pc),
                trace,
            },
        ),
        ..v
    }
}

/// Whether `a` holds the same block as `b`.
pub open spec fn same_block(a: BlockSpec, b: BlockSpec) -> bool {
    &&& a.start_pc == b.start_pc
    &&& a.instrs@ == b.instrs@
    &&& a.pcs@ == b.pcs@
    &&& a.terminator == b.terminator
}

/// Whether report entry `a` (reason code, count) comes before `b`: more
/// frequent first, then by kind and number (the order of the codes).
pub open spec fn ranks_before(a: (u64, u64), b: (u64, u64)) -> bool {
    a.1 > b.1 || (a.1 == b.1 && a.0 < b.0)
}

/// The terminator kind at position `i` of the declaration order.
pub open spec fn term_at(i: u64) -> TermKind {
    if i == 0 {
        TermKind::Branch
    } else if i == 1 {
        TermKind::BranchLink
    } else if i == 2 {
        TermKind::BranchCond
    } else if i == 3 {
        TermKind::BranchToReg
    } else if i == 4 {
        TermKind::SystemCall
    } else if i == 5 {
        TermKind::Rfi
    } else if i == 6 {
        TermKind::Mtmsr
    } else if i == 7 {
        TermKind::Mtspr
    } else if i == 8 {
        TermKind::Isync
    } else {
        TermKind::LengthCap
    }
}

/// The fallback reason counted under `code`.
pub open spec fn reason_of_code(code: u64) -> UnsupportedOpcode {
    let kind = code / 0x1_0000_0000;
    let payload = code % 0x1_0000_0000;
    if kind == 0 {
        UnsupportedOpcode::Primary(payload as u8)
    } else if kind == 1 {
        UnsupportedOpcode::Xo10(payload as u32)
    } else if kind == 2 {
        UnsupportedOpcode::Mtspr(payload as u16)
    } else if kind == 3 {
        UnsupportedOpcode::Terminator(term_at(payload as u64))
    } else {
        UnsupportedOpcode::Unprofitable { instr_count: payload as u16 }
    }
}

/// A reason is read back from its code.
pub proof fn lemma_reason_code_roundtrip(r: UnsupportedOpcode)
    ensures
        reason_of_code(reason_code(r)) == r,
{
}

/// `v` after a fallback at `pc` for `reason` was counted (see
/// `note_fallback`).
pub open spec fn fallback_view(v: RuntimeWasmView, pc: u32, reason: UnsupportedOpcode) -> RuntimeWasmView {
    RuntimeWasmView {
        fallbacks: v.fallbacks.insert(pc, bump64(count_pc_of(v.fallbacks, pc))),
        reasons: v.reasons.insert(reason_code(reason), bump64(count64_of(v.reasons, reason_code(reason)))),
        unprofitable_fallbacks: if reason is Unprofitable {
            bump64(v.unprofitable_fallbacks)
        } else {
            v.unprofitable_fallbacks
        },
        unsupported_fallbacks: if reason is Unprofitable {
            v.unsupported_fallbacks
        } else {
            bump64(v.unsupported_fallbacks)
        },
        ..v
    }
}

/// `w` is `v` after `compile_trace` on `trace` decided `d`: unchanged on
/// a fallback; on success the entry block is filed and the trace
/// registered under the fingerprint.
pub open spec fn compiled_view(v: RuntimeWasmView, w: RuntimeWasmView, trace: TraceSpec, d: BlockCompileDecision) -> bool {
    match d {
        BlockCompileDecision::Fallback { .. } => w == v,
        BlockCompileDecision::Compileable(fp) => exists|e: BlockSpec|
            same_block(e, trace.entry) && w == register_view(
                RuntimeWasmView { specs: v.specs.insert(fp_code(fp), e), ..v },
                fp,
                trace,
            ),
    }
}

/// Book-keeping of the wasm runtime for one console.
pub struct RuntimeWasmState<const SYSTEM: u8> {
    hot_counts: FxHashMap<u32, u32>,
    hot_candidates: FxHashSet<u32>,
    fallback_counts: FxHashMap<u32, u64>,
    fallback_reason_counts: FxHashMap<u64, u64>,
    block_specs: FxHashMap<u128, BlockSpec>,
    pc_index: FxHashMap<u32, BlockFingerprint>,
    compiled_blocks: FxHashMap<u128, CompiledBlock>,
    invalidated_pcs: FxHashSet<u32>,
    begin_cycle: u64,
    begin_deadline: u64,
    compile_attempts: u64,
    compiled_executions: u64,
    compiled_execution_instrs: u64,
    unprofitable_fallbacks: u64,
    unsupported_fallbacks: u64,
}

impl<const SYSTEM: u8> View for RuntimeWasmState<SYSTEM> {
    type V = RuntimeWasmView;

    closed spec fn view(&self) -> RuntimeWasmView {
        RuntimeWasmView {
            hot: self.hot_counts@,
            candidates: self.hot_candidates@,
            fallbacks: self.fallback_counts@,
            reasons: self.fallback_reason_counts@,
            specs: self.block_specs@,
            index: self.pc_index@,
            compiled: self.compiled_blocks@,
            invalidated: self.invalidated_pcs@,
            begin_cycle: self.begin_cycle,
            begin_deadline: self.begin_deadline,
            compile_attempts: self.compile_attempts,
            compiled_executions: self.compiled_executions,
            compiled_execution_instrs: self.compiled_execution_instrs,
            unprofitable_fallbacks: self.unprofitable_fallbacks,
            unsupported_fallbacks: self.unsupported_fallbacks,
        }
    }
}

impl<const SYSTEM: u8> RuntimeWasmState<SYSTEM> {
    pub fn new() -> (r: Self)
        ensures
            r@ == (RuntimeWasmView {
                hot: Map::empty(),
                candidates: Set::empty(),
                fallbacks: Map::empty(),
                reasons: Map::empty(),
                specs: Map::empty(),
                index: Map::empty(),
                compiled: Map::empty(),
                invalidated: Set::empty(),
                begin_cycle: 0,
                begin_deadline: 0,
                compile_attempts: 0,
                compiled_executions: 0,
                compiled_execution_instrs: 0,
                unprofitable_fallbacks: 0,
                unsupported_fallbacks: 0,
            }),
    {
        RuntimeWasmState {
            hot_counts: FxHashMap::default(),
            hot_candidates: FxHashSet::default(),
            fallback_counts: FxHashMap::default(),
            fallback_reason_counts: FxHashMap::default(),
            block_specs: FxHashMap::default(),
            pc_index: FxHashMap::default(),
            compiled_blocks: FxHashMap::default(),
            invalidated_pcs: FxHashSet::default(),
            begin_cycle: 0,
            begin_deadline: 0,
            compile_attempts: 0,
            compiled_executions: 0,
            compiled_execution_instrs: 0,
            unprofitable_fallbacks: 0,
            unsupported_fallbacks: 0,
        }
    }

    pub fn begin_slice(&mut self, cycle: u64, deadline: u64)
        ensures
            final(self)@ == (RuntimeWasmView { begin_cycle: cycle, begin_deadline: deadline, ..old(self)@ }),
    {
        self.begin_cycle = cycle;
        self.begin_deadline = deadline;
    }

    pub fn current_slice(&self) -> (r: (u64, u64))
        ensures
            r == (self@.begin_cycle, self@.begin_deadline),
    {
        (self.begin_cycle, self.begin_deadline)
    }

    pub fn compile_attempts(&self) -> (r: u64)
        ensures
            r == self@.compile_attempts,
    {
        self.compile_attempts
    }

    /// Counts one run of compiled code that executed `instr_count`
    /// instructions (both counters saturate).
    pub fn note_compiled_execution(&mut self, instr_count: u64)
        ensures
            final(self)@ == (RuntimeWasmView {
                compiled_executions: old(self)@.compiled_executions.saturating_add(1),
                compiled_execution_instrs: old(self)@.compiled_execution_instrs.saturating_add(instr_count),
                ..old(self)@
            }),
    {
        self.compiled_executions = self.compiled_executions.saturating_add(1);
        self.compiled_execution_instrs = self.compiled_execution_instrs.saturating_add(instr_count);
    }

    /// Counts one more execution of the block at `pc` and returns the new
    /// count (saturating); the block becomes a compile candidate when its
    /// count reaches `HOT_BLOCK_THRESHOLD`.
    pub fn record_block_hit(&mut self, pc: u32) -> (r: u32)
        ensures
            r == bump32(count_of(old(self)@.hot, pc)),
            final(self)@ == (RuntimeWasmView {
                hot: old(self)@.hot.insert(pc, r),
                candidates: if r == HOT_BLOCK_THRESHOLD {
                    old(self)@.candidates.insert(pc)
                } else {
                    old(self)@.candidates
                },
                ..old(self)@
            }),
    {
        let count = match map_get(&self.hot_counts, &pc) {
            Some(c) => *c,
            None => 0,
        };
        let next = count.saturating_add(1);
        map_insert(&mut self.hot_counts, pc, next);
        if next == HOT_BLOCK_THRESHOLD {
            set_insert(&mut self.hot_candidates, pc);
        }
        next
    }

    /// Whether the block at `pc` ran often enough to be compiled.
    pub fn should_compile(&self, pc: u32) -> (r: bool)
        ensures
            r == (count_of(self@.hot, pc) >= HOT_BLOCK_THRESHOLD),
    {
        let count = match map_get(&self.hot_counts, &pc) {
            Some(c) => *c,
            None => 0,
        };
        count >= HOT_BLOCK_THRESHOLD
    }

    /// Takes some compile candidate out of the waiting set; which one is
    /// left open.
    pub fn poll_hot_candidate(&mut self) -> (r: Option<u32>)
        ensures
            match r {
                Some(pc) => old(self)@.candidates.contains(pc) && final(self)@ == (RuntimeWasmView {
                    candidates: old(self)@.candidates.remove(pc),
                    ..old(self)@
                }),
                None => old(self)@.candidates == Set::<u32>::empty() && final(self)@ == old(self)@,
            },
    {
        match set_first(&self.hot_candidates) {
            Some(pc) => {
                set_remove(&mut self.hot_candidates, &pc);
                Some(pc)
            },
            None => None,
        }
    }

    pub fn clear_hot_candidate(&mut self, pc: u32)
        ensures
            final(self)@ == (RuntimeWasmView { candidates: old(self)@.candidates.remove(pc), ..old(self)@ }),
    {
        set_remove(&mut self.hot_candidates, &pc);
    }

    /// Counts a fallback to the interpreter at `pc` for `reason`, by address,
    /// by reason, and as unprofitable or unsupported (all saturating).
    pub fn note_fallback(&mut self, pc: u32, reason: UnsupportedOpcode)
        ensures
            final(self)@ == fallback_view(old(self)@, pc, reason),
    {
        let count = match map_get(&self.fallback_counts, &pc) {
            Some(c) => *c,
            None => 0,
        };
        map_insert(&mut self.fallback_counts, pc, count.saturating_add(1));
        let code = fallback_reason_code(reason);
        let by_reason = match map_get(&self.fallback_reason_counts, &code) {
            Some(c) => *c,
            None => 0,
        };
        map_insert(&mut self.fallback_reason_counts, code, by_reason.saturating_add(1));
        match reason {
            UnsupportedOpcode::Unprofitable { .. } => {
                self.unprofitable_fallbacks = self.unprofitable_fallbacks.saturating_add(1);
            },
            _ => {
                self.unsupported_fallbacks = self.unsupported_fallbacks.saturating_add(1);
            },
        }
    }

    /// The compiled trace filed under `fingerprint`, unless its start
    /// address was invalidated since.
    pub fn lookup(&self, fingerprint: &BlockFingerprint) -> (r: Option<&CompiledBlock>)
        ensures
            match r {
                Some(b) => !self@.invalidated.contains(fingerprint.pc) && self@.compiled.contains_key(
                    fp_code(*fingerprint),
                ) && *b == self@.compiled[fp_code(*fingerprint)],
                None => self@.invalidated.contains(fingerprint.pc) || !self@.compiled.contains_key(
                    fp_code(*fingerprint),
                ),
            },
    {
        if set_contains(&self.invalidated_pcs, &fingerprint.pc) {
            return None;
        }
        map_get(&self.compiled_blocks, &fingerprint_code(*fingerprint))
    }

    pub fn compiled_block_count(&self) -> (r: usize)
        ensures
            r == self@.compiled.dom().len(),
    {
        map_len(&self.compiled_blocks)
    }

    pub fn block_spec(&self, fingerprint: &BlockFingerprint) -> (r: Option<&BlockSpec>)
        ensures
            match r {
                Some(b) => self@.specs.contains_key(fp_code(*fingerprint)) && *b == self@.specs[fp_code(
                    *fingerprint,
                )],
                None => !self@.specs.contains_key(fp_code(*fingerprint)),
            },
    {
        map_get(&self.block_specs, &fingerprint_code(*fingerprint))
    }

    pub fn compiled_fingerprint_for_pc(&self, pc: u32) -> (r: Option<BlockFingerprint>)
        ensures
            r == (if self@.index.contains_key(pc) { Some(self@.index[pc]) } else { None }),
    {
        match map_get(&self.pc_index, &pc) {
            Some(fp) => Some(*fp),
            None => None,
        }
    }

    /// Hands out every invalidated address once, in an order left open,
    /// and forgets them.
    pub fn take_invalidated_pcs(&mut self) -> (r: Vec<u32>)
        ensures
            r@.no_duplicates(),
            forall|pc: u32| #[trigger] old(self)@.invalidated.contains(pc) <==> r@.contains(pc),
            final(self)@ == (RuntimeWasmView { invalidated: Set::empty(), ..old(self)@ }),
    {
        set_drain(&mut self.invalidated_pcs)
    }

    pub fn stats(&self) -> (r: RuntimeWasmStats)
        ensures
            r == (RuntimeWasmStats {
                compiled_executions: self@.compiled_executions,
                compiled_execution_instrs: self@.compiled_execution_instrs,
                compile_attempts: self@.compile_attempts,
                compiled_blocks: self@.compiled.dom().len() as usize,
                unprofitable_fallbacks: self@.unprofitable_fallbacks,
                unsupported_fallbacks: self@.unsupported_fallbacks,
                shared_rebuilds: 0,
                shared_dispatch_blocks: 0,
            }),
    {
        RuntimeWasmStats {
            compiled_executions: self.compiled_executions,
            compiled_execution_instrs: self.compiled_execution_instrs,
            compile_attempts: self.compile_attempts,
            compiled_blocks: map_len(&self.compiled_blocks),
            unprofitable_fallbacks: self.unprofitable_fallbacks,
            unsupported_fallbacks: self.unsupported_fallbacks,
            shared_rebuilds: 0,
            shared_dispatch_blocks: 0,
        }
    }

    pub fn fingerprint(&self, pc: u32, instr_count: u16, block_words: &[u32]) -> (r: BlockFingerprint)
        ensures
            r == fingerprint_of(pc, instr_count, block_words@, SYSTEM),
    {
        let mut words: Vec<u32> = Vec::new();
        let mut k: usize = 0;
        while k < block_words.len()
            invariant
                k <= block_words@.len(),
                words@ == block_words@.subrange(0, k as int),
            decreases block_words@.len() - k,
        {
            words.push(block_words[k]);
            proof {
                assert(words@ =~= block_words@.subrange(0, k + 1));
            }
            k = k + 1;
        }
        words.push(pc);
        words.push(instr_count as u32);
        words.push(SYSTEM as u32);
        assert(words@ =~= block_words@ + seq![pc, instr_count as u32, SYSTEM as u32]);
        BlockFingerprint { pc, instr_count, hash: hash_words(words.as_slice()) }
    }

    pub fn classify_block(&self, spec: &BlockSpec) -> (r: BlockCompileDecision)
        ensures
            r == block_decision(*spec, SYSTEM),
    {
        match block_unsupported_reason(spec) {
            Some(reason) => BlockCompileDecision::Fallback { pc: spec.start_pc, reason },
            None => {
                let fp = self.fingerprint(spec.start_pc, spec.len() as u16, spec.instrs.as_slice());
                BlockCompileDecision::Compileable(fp)
            },
        }
    }

    pub fn classify_trace(&self, trace: &TraceSpec) -> (r: BlockCompileDecision)
        requires
            instr_total(trace.blocks()) <= usize::MAX,
        ensures
            r == trace_decision(*trace, SYSTEM),
    {
        let total_instrs = trace.total_instrs();
        if total_instrs < MIN_COMPILED_BLOCK_INSTRS {
            return BlockCompileDecision::Fallback {
                pc: trace.entry.start_pc,
                reason: UnsupportedOpcode::Unprofitable { instr_count: total_instrs as u16 },
            };
        }
        if total_instrs < 10 {
            let memory_instrs = trace_memory_op_count(trace);
            proof {
                lemma_mem_total_le(trace.blocks());
            }
            if memory_instrs * 2 >= total_instrs {
                return BlockCompileDecision::Fallback {
                    pc: trace.entry.start_pc,
                    reason: UnsupportedOpcode::Unprofitable { instr_count: total_instrs as u16 },
                };
            }
        }
        match first_unsupported_block(trace) {
            Some((pc, reason)) => BlockCompileDecision::Fallback { pc, reason },
            None => {
                let words = trace_words(trace);
                let fp = self.fingerprint(trace.entry.start_pc, total_instrs as u16, words.as_slice());
                BlockCompileDecision::Compileable(fp)
            },
        }
    }
    /// Files the compiled `trace` under `fingerprint`: every block start
    /// now maps to the fingerprint and is no longer invalidated, the trace
    /// records the current slice start and the entry's hit count, and one
    /// more compile attempt is counted (saturating).
    pub fn register_compiled_block(&mut self, fingerprint: BlockFingerprint, trace: TraceSpec)
        ensures
            final(self)@ == register_view(old(self)@, fingerprint, trace),
    {
        let ghost old_view = self@;
        self.compile_attempts = self.compile_attempts.saturating_add(1);
        set_remove(&mut self.invalidated_pcs, &fingerprint.pc);
        let blocks = trace.all_blocks();
        let mut k: usize = 0;
        proof {
            assert(prefix_starts(trace, 0) =~= Set::<u32>::empty());
            assert(old_view.invalidated.remove(fingerprint.pc).difference(prefix_starts(trace, 0))
                =~= old_view.invalidated.remove(fingerprint.pc));
            assert(with_starts(old_view.index, prefix_starts(trace, 0), fingerprint) =~= old_view.index);
        }
        while k < blocks.len()
            invariant
                blocks@.len() == trace.blocks().len(),
                forall|i: int| 0 <= i < blocks@.len() ==> *blocks@[i] == trace.blocks()[i],
                k <= blocks@.len(),
                self@ == (RuntimeWasmView {
                    compile_attempts: bump64(old_view.compile_attempts),
                    invalidated: old_view.invalidated.remove(fingerprint.pc).difference(
                        prefix_starts(trace, k as int),
                    ),
                    index: with_starts(old_view.index, prefix_starts(trace, k as int), fingerprint),
                    ..old_view
                }),
            decreases blocks@.len() - k,
        {
            let start = blocks[k].start_pc;
            proof {
                assert(*blocks@[k as int] == trace.blocks()[k as int]);
                assert(prefix_starts(trace, k + 1) =~= prefix_starts(trace, k as int).insert(start));
            }
            set_remove(&mut self.invalidated_pcs, &start);
            map_insert(&mut self.pc_index, start, fingerprint);
            proof {
                assert(self.invalidated_pcs@ =~= old_view.invalidated.remove(fingerprint.pc).difference(
                    prefix_starts(trace, k + 1),
                ));
                assert(self.pc_index@ =~= with_starts(old_view.index, prefix_starts(trace, k + 1), fingerprint));
            }
            k = k + 1;
        }
        let hit_count = match map_get(&self.hot_counts, &fingerprint.pc) {
            Some(c) => *c,
            None => 0,
        };
        let code = fingerprint_code(fingerprint);
        let compiled_at_cycle = self.begin_cycle;
        map_insert(&mut self.compiled_blocks, code, CompiledBlock { fingerprint, compiled_at_cycle, hit_count, trace });
    }
    /// Whether some block of `t` starts where `x` hits.
    fn trace_is_hit(t: &TraceSpec, x: u32, by_phys: bool) -> (r: bool)
        ensures
            r == trace_hits(*t, x, by_phys),
    {
        let blocks = t.all_blocks();
        let mut k: usize = 0;
        while k < blocks.len()
            invariant
                blocks@.len() == t.blocks().len(),
                forall|i: int| 0 <= i < blocks@.len() ==> *blocks@[i] == t.blocks()[i],
                k <= blocks@.len(),
                forall|i: int| 0 <= i < k ==> !#[trigger] start_hit(t.blocks()[i].start_pc, x, by_phys),
            decreases blocks@.len() - k,
        {
            let s = blocks[k].start_pc;
            proof {
                assert(*blocks@[k as int] == t.blocks()[k as int]);
            }
            let hit = if by_phys { virt_to_phys(s) == x } else { s == x };
            if hit {
                assert(start_hit(t.blocks()[k as int].start_pc, x, by_phys));
                return true;
            }
            k = k + 1;
        }
        false
    }

    /// Keys of the compiled traces that `x` hits, each once.
    fn keys_hit(&self, x: u32, by_phys: bool) -> (r: Vec<u128>)
        ensures
            r@.no_duplicates(),
            forall|k: u128| #[trigger] r@.contains(k) <==> retired_keys(self@.compiled, x, by_phys).contains(k),
    {
        let keys = map_keys(&self.compiled_blocks);
        let mut out: Vec<u128> = Vec::new();
        let mut j: usize = 0;
        while j < keys.len()
            invariant
                keys@.no_duplicates(),
                forall|k: u128| #[trigger] self@.compiled.contains_key(k) <==> keys@.contains(k),
                j <= keys@.len(),
                out@.no_duplicates(),
                forall|k: u128|
                    #[trigger] out@.contains(k) <==> (exists|i: int| 0 <= i < j && keys@[i] == k)
                        && retired_keys(self@.compiled, x, by_phys).contains(k),
            decreases keys@.len() - j,
        {
            let k = keys[j];
            assert(keys@.contains(k));
            let block = match map_get(&self.compiled_blocks, &k) {
                Some(b) => b,
                None => {
                    return out;
                },
            };
            let ghost before = out@;
            if Self::trace_is_hit(&block.trace, x, by_phys) {
                proof {
                    assert(!before.contains(k)) by {
                        if before.contains(k) {
                            let i = choose|i: int| 0 <= i < j && keys@[i] == k;
                            assert(keys@[i] == keys@[j as int]);
                        }
                    }
                }
                out.push(k);
                proof {
                    assert forall|q: u128| #[trigger] out@.contains(q) <==> (exists|i: int| 0 <= i < j + 1 && keys@[i] == q)
                        && retired_keys(self@.compiled, x, by_phys).contains(q) by {
                        if out@.contains(q) && q != k {
                            assert(before.contains(q));
                        }
                        if q == k {
                            assert(out@[out@.len() - 1] == k);
                        }
                        if (exists|i: int| 0 <= i < j + 1 && keys@[i] == q) && retired_keys(self@.compiled, x, by_phys).contains(q) && q != k {
                            assert(before.contains(q));
                            let i = choose|i: int| 0 <= i < before.len() && before[i] == q;
                            assert(out@[i] == q);
                        }
                    }
                }
            } else {
                proof {
                    assert forall|q: u128| #[trigger] out@.contains(q) <==> (exists|i: int| 0 <= i < j + 1 && keys@[i] == q)
                        && retired_keys(self@.compiled, x, by_phys).contains(q) by {
                        if (exists|i: int| 0 <= i < j + 1 && keys@[i] == q) && q != k {
                            let i = choose|i: int| 0 <= i < j + 1 && keys@[i] == q;
                            assert(i < j);
                        }
                    }
                }
            }
            j = j + 1;
        }
        proof {
            assert forall|k: u128| #[trigger] out@.contains(k) <==> retired_keys(self@.compiled, x, by_phys).contains(k) by {
                if retired_keys(self@.compiled, x, by_phys).contains(k) {
                    assert(keys@.contains(k));
                    let i = choose|i: int| 0 <= i < keys@.len() && keys@[i] == k;
                }
            }
        }
        out
    }
    /// Retires the compiled traces under `keys`, each given once.
    fn retire(&mut self, keys: Vec<u128>)
        requires
            keys@.no_duplicates(),
            forall|k: u128| #[trigger] keys@.contains(k) ==> old(self)@.compiled.contains_key(k),
        ensures
            final(self)@ == retire_view(old(self)@, Set::new(|k: u128| keys@.contains(k))),
    {
        let ghost v0 = self@;
        let mut j: usize = 0;
        proof {
            assert(Set::new(|k: u128| exists|i: int| 0 <= i < 0 && keys@[i] == k) =~= Set::<u128>::empty());
            assert(starts_under(v0.compiled, Set::<u128>::empty()) =~= Set::<u32>::empty());
            assert(v0.compiled.remove_keys(Set::<u128>::empty()) =~= v0.compiled);
            assert(v0.specs.remove_keys(Set::<u128>::empty()) =~= v0.specs);
            assert(v0.invalidated.union(Set::<u32>::empty()) =~= v0.invalidated);
            assert(v0.index.remove_keys(Set::<u32>::empty()) =~= v0.index);
            assert(retire_view(v0, Set::<u128>::empty()) == v0);
        }
        while j < keys.len()
            invariant
                keys@.no_duplicates(),
                forall|k: u128| #[trigger] keys@.contains(k) ==> v0.compiled.contains_key(k),
                j <= keys@.len(),
                self@ == retire_view(v0, Set::new(|k: u128| exists|i: int| 0 <= i < j && keys@[i] == k)),
            decreases keys@.len() - j,
        {
            let ghost done = Set::new(|k: u128| exists|i: int| 0 <= i < j && keys@[i] == k);
            let ghost next = Set::new(|k: u128| exists|i: int| 0 <= i < j + 1 && keys@[i] == k);
            let k = keys[j];
            proof {
                assert(keys@.contains(k));
                assert(!done.contains(k)) by {
                    if done.contains(k) {
                        let i = choose|i: int| 0 <= i < j && keys@[i] == k;
                        assert(keys@[i] == keys@[j as int]);
                    }
                }
                assert(next =~= done.insert(k));
            }
            let removed = map_remove(&mut self.compiled_blocks, &k);
            let block = match removed {
                Some(b) => b,
                None => {
                    return;
                },
            };
            let ghost t = block.trace;
            assert(t == v0.compiled[k].trace);
            let blocks = block.trace.all_blocks();
            let mut i: usize = 0;
            proof {
                assert(prefix_starts(t, 0) =~= Set::<u32>::empty());
                assert(starts_under(v0.compiled, done).union(prefix_starts(t, 0)) =~= starts_under(v0.compiled, done));
                assert(self.compiled_blocks@ =~= v0.compiled.remove_keys(next));
                assert(self.invalidated_pcs@ =~= v0.invalidated.union(starts_under(v0.compiled, done)).union(
                    prefix_starts(t, 0),
                ));
                assert(self.pc_index@ =~= v0.index.remove_keys(starts_under(v0.compiled, done).union(prefix_starts(t, 0))));
            }
            while i < blocks.len()
                invariant
                    blocks@.len() == t.blocks().len(),
                    forall|q: int| 0 <= q < blocks@.len() ==> *blocks@[q] == t.blocks()[q],
                    i <= blocks@.len(),
                    self@ == (RuntimeWasmView {
                        compiled: v0.compiled.remove_keys(next),
                        invalidated: v0.invalidated.union(starts_under(v0.compiled, done)).union(
                            prefix_starts(t, i as int),
                        ),
                        index: v0.index.remove_keys(starts_under(v0.compiled, done).union(prefix_starts(t, i as int))),
                        ..retire_view(v0, done)
                    }),
                decreases blocks@.len() - i,
            {
                let s = blocks[i].start_pc;
                proof {
                    assert(*blocks@[i as int] == t.blocks()[i as int]);
                    assert(prefix_starts(t, i + 1) =~= prefix_starts(t, i as int).insert(s));
                }
                set_insert(&mut self.invalidated_pcs, s);
                map_remove(&mut self.pc_index, &s);
                proof {
                    assert(self.invalidated_pcs@ =~= v0.invalidated.union(starts_under(v0.compiled, done)).union(
                        prefix_starts(t, i + 1),
                    ));
                    assert(self.pc_index@ =~= v0.index.remove_keys(
                        starts_under(v0.compiled, done).union(prefix_starts(t, i + 1)),
                    ));
                }
                i = i + 1;
            }
            map_remove(&mut self.block_specs, &k);
            proof {
                assert(prefix_starts(t, t.blocks().len() as int) == trace_starts(t));
                assert(starts_under(v0.compiled, next) =~= starts_under(v0.compiled, done).union(trace_starts(t))) by {
                    assert forall|s: u32| #[trigger] starts_under(v0.compiled, next).contains(s) implies starts_under(
                        v0.compiled,
                        done,
                    ).union(trace_starts(t)).contains(s) by {
                        let q = choose|q: u128| next.contains(q) && v0.compiled.contains_key(q) && trace_starts(
                            v0.compiled[q].trace,
                        ).contains(s);
                        if q != k {
                            assert(done.contains(q));
                        }
                    }
                    assert forall|s: u32| #[trigger] starts_under(v0.compiled, done).union(trace_starts(t)).contains(s) implies starts_under(
                        v0.compiled,
                        next,
                    ).contains(s) by {
                        if trace_starts(t).contains(s) {
                            assert(next.contains(k));
                        } else {
                            let q = choose|q: u128| done.contains(q) && v0.compiled.contains_key(q) && trace_starts(
                                v0.compiled[q].trace,
                            ).contains(s);
                            assert(next.contains(q));
                        }
                    }
                }
                assert(self.block_specs@ =~= v0.specs.remove_keys(next));
                assert(self.invalidated_pcs@ =~= v0.invalidated.union(starts_under(v0.compiled, next)));
                assert(self.pc_index@ =~= v0.index.remove_keys(starts_under(v0.compiled, next)));
                assert(self.compiled_blocks@ =~= v0.compiled.remove_keys(next));
            }
            j = j + 1;
        }
        proof {
            assert(Set::new(|k: u128| exists|i: int| 0 <= i < j && keys@[i] == k) =~= Set::new(|k: u128| keys@.contains(k)));
        }
    }
    /// Forgets the compiled code at `pc`: `pc` is invalidated and every
    /// compiled trace with a block starting there is retired.
    pub fn invalidate_pc(&mut self, pc: u32)
        ensures
            final(self)@ == invalidate_pc_view(old(self)@, pc),
    {
        set_insert(&mut self.invalidated_pcs, pc);
        let keys = self.keys_hit(pc, false);
        self.retire(keys);
        proof {
            assert(Set::new(|k: u128| keys@.contains(k)) =~= retired_keys(old(self)@.compiled, pc, false));
        }
    }

    /// Forgets the compiled code on the physical code line `phys_line`:
    /// every compiled trace with a block starting on it is retired, and
    /// the line is invalidated.
    pub fn invalidate_phys_line(&mut self, phys_line: u32)
        ensures
            final(self)@ == ({
                let v = retire_view(old(self)@, retired_keys(old(self)@.compiled, phys_line, true));
                RuntimeWasmView { invalidated: v.invalidated.insert(phys_line), ..v }
            }),
    {
        let keys = self.keys_hit(phys_line, true);
        self.retire(keys);
        proof {
            assert(Set::new(|k: u128| keys@.contains(k)) =~= retired_keys(old(self)@.compiled, phys_line, true));
        }
        set_insert(&mut self.invalidated_pcs, phys_line);
    }

    /// Forgets the compiled code of every fingerprint starting in
    /// `start_pc..end_pc`, by `invalidate_pc` on each start address, in the
    /// map's own order.
    pub fn invalidate_range(&mut self, start_pc: u32, end_pc: u32)
        ensures
            exists|pcs: Seq<u32>|
                (forall|p: u32|
                    #[trigger] pcs.contains(p) <==> exists|k: u128|
                        old(self)@.compiled.contains_key(k) && start_pc <= code_pc(k) < end_pc && code_pc(k) == p)
                    && final(self)@ == invalidate_all_view(old(self)@, pcs),
    {
        let ghost v0 = self@;
        let keys = map_keys(&self.compiled_blocks);
        let mut pcs: Vec<u32> = Vec::new();
        let mut j: usize = 0;
        while j < keys.len()
            invariant
                self@ == v0,
                forall|k: u128| #[trigger] v0.compiled.contains_key(k) <==> keys@.contains(k),
                j <= keys@.len(),
                forall|p: u32|
                    #[trigger] pcs@.contains(p) <==> exists|i: int|
                        0 <= i < j && start_pc <= code_pc(keys@[i]) < end_pc && code_pc(keys@[i]) == p,
            decreases keys@.len() - j,
        {
            let pc = (keys[j] / 0x1_0000_0000_0000_0000_0000u128) as u32;
            let ghost before = pcs@;
            if start_pc <= pc && pc < end_pc {
                pcs.push(pc);
            }
            proof {
                assert forall|p: u32| #[trigger] pcs@.contains(p) <==> exists|i: int|
                    0 <= i < j + 1 && start_pc <= code_pc(keys@[i]) < end_pc && code_pc(keys@[i]) == p by {
                    if pcs@.contains(p) && p != pc {
                        assert(before.contains(p)) by {
                            let q = choose|q: int| 0 <= q < pcs@.len() && pcs@[q] == p;
                            assert(q < before.len());
                            assert(before[q] == p);
                        }
                    }
                    if pcs@.contains(p) && p == pc && !before.contains(p) {
                        assert(start_pc <= code_pc(keys@[j as int]) < end_pc);
                    }
                    if exists|i: int| 0 <= i < j + 1 && start_pc <= code_pc(keys@[i]) < end_pc && code_pc(keys@[i]) == p {
                        let i = choose|i: int| 0 <= i < j + 1 && start_pc <= code_pc(keys@[i]) < end_pc && code_pc(keys@[i]) == p;
                        if i < j {
                            assert(before.contains(p));
                            let q = choose|q: int| 0 <= q < before.len() && before[q] == p;
                            assert(pcs@[q] == p);
                        } else {
                            assert(pcs@[pcs@.len() - 1] == p);
                        }
                    }
                }
            }
            j = j + 1;
        }
        proof {
            assert forall|p: u32| #[trigger] pcs@.contains(p) <==> exists|k: u128|
                v0.compiled.contains_key(k) && start_pc <= code_pc(k) < end_pc && code_pc(k) == p by {
                if exists|k: u128| v0.compiled.contains_key(k) && start_pc <= code_pc(k) < end_pc && code_pc(k) == p {
                    let k = choose|k: u128| v0.compiled.contains_key(k) && start_pc <= code_pc(k) < end_pc && code_pc(k) == p;
                    assert(keys@.contains(k));
                    let i = choose|i: int| 0 <= i < keys@.len() && keys@[i] == k;
                    assert(start_pc <= code_pc(keys@[i]) < end_pc && code_pc(keys@[i]) == p);
                }
                if pcs@.contains(p) {
                    let i = choose|i: int| 0 <= i < j && start_pc <= code_pc(keys@[i]) < end_pc && code_pc(keys@[i]) == p;
                    assert(keys@.contains(keys@[i]));
                }
            }
            assert(pcs@.subrange(0, 0) =~= Seq::<u32>::empty());
        }
        let mut i: usize = 0;
        while i < pcs.len()
            invariant
                i <= pcs@.len(),
                self@ == invalidate_all_view(v0, pcs@.subrange(0, i as int)),
            decreases pcs@.len() - i,
        {
            proof {
                assert(pcs@.subrange(0, i + 1).drop_last() =~= pcs@.subrange(0, i as int));
            }
            self.invalidate_pc(pcs[i]);
            i = i + 1;
        }
        proof {
            assert(pcs@.subrange(0, i as int) =~= pcs@);
        }
    }
    /// A copy of `b` (its address vectors copied word by word).
    fn copy_block(b: &BlockSpec) -> (r: BlockSpec)
        ensures
            same_block(r, *b),
    {
        let mut instrs: Vec<u32> = Vec::new();
        let mut k: usize = 0;
        while k < b.instrs.len()
            invariant
                k <= b.instrs@.len(),
                instrs@ == b.instrs@.subrange(0, k as int),
            decreases b.instrs@.len() - k,
        {
            instrs.push(b.instrs[k]);
            proof {
                assert(instrs@ =~= b.instrs@.subrange(0, k + 1));
            }
            k = k + 1;
        }
        let mut pcs: Vec<u32> = Vec::new();
        let mut k: usize = 0;
        while k < b.pcs.len()
            invariant
                k <= b.pcs@.len(),
                pcs@ == b.pcs@.subrange(0, k as int),
            decreases b.pcs@.len() - k,
        {
            pcs.push(b.pcs[k]);
            proof {
                assert(pcs@ =~= b.pcs@.subrange(0, k + 1));
            }
            k = k + 1;
        }
        assert(instrs@ =~= b.instrs@);
        assert(pcs@ =~= b.pcs@);
        BlockSpec { start_pc: b.start_pc, instrs, pcs, terminator: b.terminator }
    }

    /// Decides on `trace` as `classify_trace` does and, when it compiles,
    /// files its entry block and the trace under the fingerprint;
    /// otherwise changes nothing.
    pub fn compile_trace(&mut self, trace: TraceSpec) -> (r: BlockCompileDecision)
        requires
            instr_total(trace.blocks()) <= usize::MAX,
        ensures
            r == trace_decision(trace, SYSTEM),
            r is Fallback ==> final(self)@ == old(self)@,
            r matches BlockCompileDecision::Compileable(fp) ==> exists|e: BlockSpec|
                same_block(e, trace.entry) && final(self)@ == register_view(
                    RuntimeWasmView { specs: old(self)@.specs.insert(fp_code(fp), e), ..old(self)@ },
                    fp,
                    trace,
                ),
    {
        let decision = self.classify_trace(&trace);
        match decision {
            BlockCompileDecision::Compileable(fingerprint) => {
                let entry = Self::copy_block(&trace.entry);
                let ghost e = entry;
                map_insert(&mut self.block_specs, fingerprint_code(fingerprint), entry);
                let ghost mid = self@;
                self.register_compiled_block(fingerprint, trace);
                assert(mid == (RuntimeWasmView { specs: old(self)@.specs.insert(fp_code(fingerprint), e), ..old(self)@ }));
                BlockCompileDecision::Compileable(fingerprint)
            },
            fallback => fallback,
        }
    }

    /// `compile_trace` on the trace made of `spec` alone.
    pub fn compile_spec(&mut self, spec: BlockSpec) -> (r: BlockCompileDecision)
        ensures
            exists|succ: Vec<BlockSpec>| #![trigger succ@] {
                let trace = TraceSpec { entry: spec, successors: succ };
                &&& succ@.len() == 0
                &&& r == trace_decision(trace, SYSTEM)
                &&& r is Fallback ==> final(self)@ == old(self)@
                &&& r matches BlockCompileDecision::Compileable(fp) ==> exists|e: BlockSpec|
                    same_block(e, spec) && final(self)@ == register_view(
                        RuntimeWasmView { specs: old(self)@.specs.insert(fp_code(fp), e), ..old(self)@ },
                        fp,
                        trace,
                    )
            },
    {
        let n = spec.instrs.len();
        let succ: Vec<BlockSpec> = Vec::new();
        let trace = TraceSpec { entry: spec, successors: succ };
        let ghost t = trace;
        proof {
            assert(t.blocks().drop_last() =~= Seq::<BlockSpec>::empty());
            assert(instr_total(Seq::<BlockSpec>::empty()) == 0);
            assert(instr_total(t.blocks()) == t.entry.instrs@.len());
            assert(n == t.entry.instrs@.len());
        }
        let r = self.compile_trace(trace);
        assert(t.successors@.len() == 0);
        assert(t == TraceSpec { entry: spec, successors: t.successors });
        r
    }
    fn reason_from_code(code: u64) -> (r: UnsupportedOpcode)
        ensures
            r == reason_of_code(code),
    {
        let kind = code / 0x1_0000_0000;
        let payload = code % 0x1_0000_0000;
        if kind == 0 {
            UnsupportedOpcode::Primary(payload as u8)
        } else if kind == 1 {
            UnsupportedOpcode::Xo10(payload as u32)
        } else if kind == 2 {
            UnsupportedOpcode::Mtspr(payload as u16)
        } else if kind == 3 {
            let t = if payload == 0 {
                TermKind::Branch
            } else if payload == 1 {
                TermKind::BranchLink
            } else if payload == 2 {
                TermKind::BranchCond
            } else if payload == 3 {
                TermKind::BranchToReg
            } else if payload == 4 {
                TermKind::SystemCall
            } else if payload == 5 {
                TermKind::Rfi
            } else if payload == 6 {
                TermKind::Mtmsr
            } else if payload == 7 {
                TermKind::Mtspr
            } else if payload == 8 {
                TermKind::Isync
            } else {
                TermKind::LengthCap
            };
            UnsupportedOpcode::Terminator(t)
        } else {
            UnsupportedOpcode::Unprofitable { instr_count: payload as u16 }
        }
    }

    /// The `limit` most frequent fallback reasons with their counts, most
    /// frequent first, ties by kind and number.
    pub fn top_fallback_reasons(&self, limit: usize) -> (r: Vec<(UnsupportedOpcode, u64)>)
        ensures
            exists|codes: Seq<u64>|
                #![trigger codes.len()]
                {
                    &&& codes.len() == r@.len()
                    &&& r@.len() == (if limit < self@.reasons.dom().len() { limit as int } else { self@.reasons.dom().len() as int })
                    &&& forall|i: int|
                        0 <= i < codes.len() ==> self@.reasons.contains_key(#[trigger] codes[i]) && r@[i] == (
                            reason_of_code(codes[i]),
                            self@.reasons[codes[i]],
                        )
                    &&& forall|i: int, j: int|
                        0 <= i < j < codes.len() ==> ranks_before(
                            (#[trigger] codes[i], self@.reasons[codes[i]]),
                            (#[trigger] codes[j], self@.reasons[codes[j]]),
                        )
                    &&& forall|c: u64, i: int|
                        #![trigger self@.reasons[c], codes[i]]
                        self@.reasons.contains_key(c) && !codes.contains(c) && 0 <= i < codes.len() ==> ranks_before(
                            (codes[i], self@.reasons[codes[i]]),
                            (c, self@.reasons[c]),
                        )
                },
    {
        let m = &self.fallback_reason_counts;
        let ghost rs = self@.reasons;
        let keys = map_keys(m);
        let n = map_len(m);
        let mut entries: Vec<(u64, u64)> = Vec::new();
        let mut j: usize = 0;
        while j < keys.len()
            invariant
                rs == m@,
                keys@.no_duplicates(),
                forall|k: u64| #[trigger] rs.contains_key(k) <==> keys@.contains(k),
                j <= keys@.len(),
                entries@.len() == j,
                forall|i: int| 0 <= i < j ==> #[trigger] entries@[i] == (keys@[i], rs[keys@[i]]),
            decreases keys@.len() - j,
        {
            let k = keys[j];
            assert(keys@.contains(k));
            let c = match map_get(m, &k) {
                Some(c) => *c,
                None => 0,
            };
            entries.push((k, c));
            j = j + 1;
        }
        proof {
            assert(keys@.to_set() =~= rs.dom()) by {
                assert forall|k: u64| #[trigger] keys@.to_set().contains(k) <==> rs.dom().contains(k) by {}
            }
            keys@.unique_seq_to_set();
            assert forall|c: u64| #[trigger] rs.contains_key(c) implies exists|i: int| 0 <= i < entries@.len() && entries@[i].0 == c by {
                assert(keys@.contains(c));
                let i = choose|i: int| 0 <= i < keys@.len() && keys@[i] == c;
                assert(entries@[i].0 == c);
            }
        }
        let total = entries.len();
        assert(total == n);
        let count = if limit < total { limit } else { total };
        let mut t: usize = 0;
        while t < count
            invariant
                rs == m@,
                count <= total,
                total == entries@.len(),
                t <= count,
                forall|i: int| 0 <= i < total ==> rs.contains_key(#[trigger] entries@[i].0) && entries@[i].1 == rs[entries@[i].0],
                forall|c: u64| #[trigger] rs.contains_key(c) ==> exists|i: int| 0 <= i < total && entries@[i].0 == c,
                forall|i: int, q: int| 0 <= i < q < total ==> #[trigger] entries@[i].0 != #[trigger] entries@[q].0,
                forall|i: int, q: int|
                    0 <= i < t && i < q < total ==> ranks_before(#[trigger] entries@[i], #[trigger] entries@[q]),
            decreases count - t,
        {
            let mut best = t;
            let mut q = t + 1;
            while q < total
                invariant
                    total == entries@.len(),
                    t <= best < total,
                    t < q <= total,
                    best < q,
                    forall|i: int, p: int| 0 <= i < p < total ==> #[trigger] entries@[i].0 != #[trigger] entries@[p].0,
                    forall|p: int| t <= p < q && p != best ==> ranks_before(entries@[best as int], #[trigger] entries@[p]),
                decreases total - q,
            {
                let a = entries[q];
                let b = entries[best];
                if a.1 > b.1 || (a.1 == b.1 && a.0 < b.0) {
                    best = q;
                }
                q = q + 1;
            }
            let ghost before = entries@;
            let x = entries[t];
            let y = entries[best];
            entries.set(t, y);
            entries.set(best, x);
            proof {
                assert forall|i: int| 0 <= i < total implies #[trigger] entries@[i] == (if i == t {
                    before[best as int]
                } else if i == best {
                    before[t as int]
                } else {
                    before[i]
                }) by {}
                assert forall|c: u64| #[trigger] rs.contains_key(c) implies exists|i: int| 0 <= i < total && entries@[i].0 == c by {
                    let i = choose|i: int| 0 <= i < total && before[i].0 == c;
                    if i == t {
                        assert(entries@[best as int].0 == c);
                    } else if i == best {
                        assert(entries@[t as int].0 == c);
                    } else {
                        assert(entries@[i].0 == c);
                    }
                }
            }
            t = t + 1;
        }
        let mut out: Vec<(UnsupportedOpcode, u64)> = Vec::new();
        let mut i: usize = 0;
        while i < count
            invariant
                count <= entries@.len(),
                i <= count,
                out@.len() == i,
                forall|p: int| 0 <= p < i ==> #[trigger] out@[p] == (reason_of_code(entries@[p].0), entries@[p].1),
            decreases count - i,
        {
            let e = entries[i];
            out.push((Self::reason_from_code(e.0), e.1));
            i = i + 1;
        }
        let ghost codes = entries@.subrange(0, count as int).map_values(|e: (u64, u64)| e.0);
        proof {
            assert forall|c: u64, p: int|
                #![trigger rs[c], codes[p]]
                rs.contains_key(c) && !codes.contains(c) && 0 <= p < codes.len() implies ranks_before(
                    (codes[p], rs[codes[p]]),
                    (c, rs[c]),
                ) by {
                let w = choose|w: int| 0 <= w < total && entries@[w].0 == c;
                if w < count {
                    assert(codes[w] == c);
                }
                assert(entries@[p] == (codes[p], rs[codes[p]]));
                assert(entries@[w] == (c, rs[c]));
            }
            assert forall|a: int, b: int| 0 <= a < b < codes.len() implies ranks_before(
                (#[trigger] codes[a], rs[codes[a]]),
                (#[trigger] codes[b], rs[codes[b]]),
            ) by {
                assert(entries@[a] == (codes[a], rs[codes[a]]));
                assert(entries@[b] == (codes[b], rs[codes[b]]));
            }
        }
        out
    }
    /// Discovers the trace at `start_pc` and decides on it.
    pub fn discover_and_classify(&self, sys: &Gekko, start_pc: u32) -> (r: BlockCompileDecision)
        requires
            sys.wf(),
        ensures
            exists|t: TraceSpec| discovered_trace(sys.mmu, start_pc, t) && r == trace_decision(t, SYSTEM),
    {
        let trace = discover_trace(sys, start_pc);
        self.classify_trace(&trace)
    }

    /// Discovers the trace at `start_pc` and compiles it if it qualifies.
    pub fn compile_candidate(&mut self, sys: &Gekko, start_pc: u32) -> (r: BlockCompileDecision)
        requires
            sys.wf(),
        ensures
            exists|t: TraceSpec|
                discovered_trace(sys.mmu, start_pc, t) && r == trace_decision(t, SYSTEM) && compiled_view(
                    old(self)@,
                    final(self)@,
                    t,
                    r,
                ),
    {
        let trace = discover_trace(sys, start_pc);
        let ghost t = trace;
        let r = self.compile_trace(trace);
        assert(compiled_view(old(self)@, self@, t, r));
        r
    }

    /// Takes some compile candidate and compiles its trace, counting the
    /// fallback when it does not qualify; nothing when no block waits.
    pub fn drive_hot_candidate(&mut self, sys: &Gekko) -> (r: Option<BlockCompileDecision>)
        requires
            sys.wf(),
        ensures
            match r {
                None => old(self)@.candidates == Set::<u32>::empty() && final(self)@ == old(self)@,
                Some(d) => exists|pc: u32, t: TraceSpec, w: RuntimeWasmView|
                    #![trigger discovered_trace(sys.mmu, pc, t), old(self)@.candidates.remove(pc), w.compiled]
                    old(self)@.candidates.contains(pc) && discovered_trace(sys.mmu, pc, t) && d == trace_decision(
                        t,
                        SYSTEM,
                    ) && compiled_view(
                        RuntimeWasmView { candidates: old(self)@.candidates.remove(pc), ..old(self)@ },
                        w,
                        t,
                        d,
                    ) && final(self)@ == match d {
                        BlockCompileDecision::Fallback { pc: at, reason } => fallback_view(w, at, reason),
                        BlockCompileDecision::Compileable(_) => w,
                    },
            },
    {
        let pc = match self.poll_hot_candidate() {
            Some(pc) => pc,
            None => {
                return None;
            },
        };
        let ghost polled = self@;
        let decision = self.compile_candidate(sys, pc);
        let ghost w = self@;
        match decision {
            BlockCompileDecision::Fallback { pc: at, reason } => {
                self.note_fallback(at, reason);
            },
            _ => {},
        }
        proof {
            assert(polled == (RuntimeWasmView { candidates: old(self)@.candidates.remove(pc), ..old(self)@ }));
            let t = choose|t: TraceSpec|
                discovered_trace(sys.mmu, pc, t) && decision == trace_decision(t, SYSTEM) && compiled_view(
                    polled,
                    w,
                    t,
                    decision,
                );
            assert(old(self)@.candidates.contains(pc) && discovered_trace(sys.mmu, pc, t) && decision
                == trace_decision(t, SYSTEM) && compiled_view(
                RuntimeWasmView { candidates: old(self)@.candidates.remove(pc), ..old(self)@ },
                w,
                t,
                decision,
            ) && self@ == match decision {
                BlockCompileDecision::Fallback { pc: at, reason } => fallback_view(w, at, reason),
                BlockCompileDecision::Compileable(_) => w,
            });
            assert(w.compiled == w.compiled);
        }
        Some(decision)
    }
}

/// `v` after `n` executions of the block at `pc` were recorded.
pub open spec fn hits_view(v: RuntimeWasmView, pc: u32, n: nat) -> RuntimeWasmView
    decreases n,
{
    if n == 0 {
        v
    } else {
        let w = hits_view(v, pc, (n - 1) as nat);
        let r = bump32(count_of(w.hot, pc));
        RuntimeWasmView {
            hot: w.hot.insert(pc, r),
            candidates: if r == HOT_BLOCK_THRESHOLD { w.candidates.insert(pc) } else { w.candidates },
            ..w
        }
    }
}

/// Counting executions: `n` recorded executions of a block never seen
/// before give it the count `n`; it is a compile candidate, and worth
/// compiling, from the `HOT_BLOCK_THRESHOLD`-th on, and not before.
pub proof fn lemma_hits_reach_threshold(v: RuntimeWasmView, pc: u32, n: nat)
    requires
        !v.hot.contains_key(pc),
        !v.candidates.contains(pc),
        n <= u32::MAX,
    ensures
        count_of(hits_view(v, pc, n).hot, pc) == n,
        hits_view(v, pc, n).candidates.contains(pc) <==> n >= HOT_BLOCK_THRESHOLD,
        (count_of(hits_view(v, pc, n).hot, pc) >= HOT_BLOCK_THRESHOLD) <==> n >= HOT_BLOCK_THRESHOLD,
    decreases n,
{
    if n > 0 {
        lemma_hits_reach_threshold(v, pc, (n - 1) as nat);
    }
}

/// Changed code is not run compiled: after `pc` is invalidated, `pc`
/// stays invalidated (so no fingerprint starting there is looked up) and
/// no compiled trace left has a block starting at `pc`.
pub proof fn lemma_invalidated_pc_not_compiled(v: RuntimeWasmView, pc: u32)
    ensures
        invalidate_pc_view(v, pc).invalidated.contains(pc),
        forall|k: u128|
            #[trigger] invalidate_pc_view(v, pc).compiled.contains_key(k) ==> !trace_hits(
                invalidate_pc_view(v, pc).compiled[k].trace,
                pc,
                false,
            ),
{
}

/// A trace filed under `fp` is found under `fp` again: its start is not
/// invalidated, the trace is filed under the fingerprint's code, and each
/// of its block starts leads to `fp`.
pub proof fn lemma_registered_trace_found(v: RuntimeWasmView, fp: BlockFingerprint, trace: TraceSpec)
    ensures
        !register_view(v, fp, trace).invalidated.contains(fp.pc),
        register_view(v, fp, trace).compiled.contains_key(fp_code(fp)),
        register_view(v, fp, trace).compiled[fp_code(fp)].fingerprint == fp,
        register_view(v, fp, trace).compiled[fp_code(fp)].trace == trace,
        forall|s: u32|
            #[trigger] trace_starts(trace).contains(s) ==> register_view(v, fp, trace).index.contains_key(s)
                && register_view(v, fp, trace).index[s] == fp,
{
}

/// Blocks in strictly increasing order of their start addresses.
pub open spec fn sorted_by_start(bs: Seq<&BlockSpec>) -> bool {
    forall|i: int, j: int| 0 <= i < j < bs.len() ==> #[trigger] bs[i].start_pc < #[trigger] bs[j].start_pc
}

/// Whether `b` is a block of one of the compiled traces.
pub open spec fn compiled_trace_block(compiled: Map<u128, CompiledBlock>, b: BlockSpec) -> bool {
    exists|k: u128, i: int|
        #![trigger compiled[k].trace.blocks()[i]]
        compiled.contains_key(k) && 0 <= i < compiled[k].trace.blocks().len() && compiled[k].trace.blocks()[i] == b
}

/// Whether some block of `bs` starts at `pc`.
pub open spec fn starts_at(bs: Seq<&BlockSpec>, pc: u32) -> bool {
    exists|j: int| 0 <= j < bs.len() && #[trigger] bs[j].start_pc == pc
}

/// Puts `b` in its place by start address, unless a block starting where
/// it does is there already.
fn insert_by_start<'a>(out: &mut Vec<&'a BlockSpec>, b: &'a BlockSpec)
    requires
        sorted_by_start(old(out)@),
    ensures
        sorted_by_start(final(out)@),
        starts_at(final(out)@, b.start_pc),
        forall|i: int| 0 <= i < final(out)@.len() ==> #[trigger] final(out)@[i] == b || old(out)@.contains(final(out)@[i]),
        forall|pc: u32| starts_at(old(out)@, pc) ==> #[trigger] starts_at(final(out)@, pc),
{
    let ghost before = out@;
    let mut i: usize = 0;
    while i < out.len() && out[i].start_pc < b.start_pc
        invariant
            out@ == before,
            i <= out@.len(),
            forall|k: int| 0 <= k < i ==> #[trigger] out@[k].start_pc < b.start_pc,
        decreases out@.len() - i,
    {
        i = i + 1;
    }
    if i < out.len() && out[i].start_pc == b.start_pc {
        assert(out@[i as int].start_pc == b.start_pc);
        assert forall|k: int| 0 <= k < out@.len() implies #[trigger] out@[k] == b || before.contains(out@[k]) by {
            assert(before[k] == out@[k]);
        }
        return;
    }
    out.insert(i, b);
    proof {
        let after = out@;
        assert(after =~= before.insert(i as int, b));
        assert forall|x: int, y: int| 0 <= x < y < after.len() implies #[trigger] after[x].start_pc
            < #[trigger] after[y].start_pc by {
            if y < i {
            } else if y == i {
            } else if x < i {
                assert(after[y] == before[y - 1]);
                if i < before.len() {
                    assert(before[i as int].start_pc > b.start_pc);
                    if y - 1 > i {
                        assert(before[i as int].start_pc < before[y - 1].start_pc);
                    }
                }
            } else if x == i {
                assert(after[y] == before[y - 1]);
                assert(before[i as int].start_pc > b.start_pc);
                if y - 1 > i {
                    assert(before[i as int].start_pc < before[y - 1].start_pc);
                }
            } else {
                assert(after[x] == before[x - 1]);
                assert(after[y] == before[y - 1]);
            }
        }
        assert(after[i as int].start_pc == b.start_pc);
        assert forall|k: int| 0 <= k < after.len() implies #[trigger] after[k] == b || before.contains(after[k]) by {
            if k < i {
                assert(after[k] == before[k]);
            } else if k > i {
                assert(after[k] == before[k - 1]);
            }
        }
        assert forall|pc: u32| starts_at(before, pc) implies #[trigger] starts_at(after, pc) by {
            let j = choose|j: int| 0 <= j < before.len() && #[trigger] before[j].start_pc == pc;
            if j < i {
                assert(after[j] == before[j]);
            } else {
                assert(after[j + 1] == before[j]);
            }
        }
    }
}

impl<const SYSTEM: u8> RuntimeWasmState<SYSTEM> {
    /// The blocks of all compiled traces, one for each start address, in
    /// increasing order of it. Where traces share a start address, which
    /// of their blocks is kept follows the order the map is walked in.
    pub fn unique_trace_blocks(&self) -> (r: Vec<&BlockSpec>)
        ensures
            sorted_by_start(r@),
            forall|i: int| 0 <= i < r@.len() ==> compiled_trace_block(self@.compiled, *#[trigger] r@[i]),
            forall|k: u128, i: int|
                self@.compiled.contains_key(k) && 0 <= i < self@.compiled[k].trace.blocks().len() ==> starts_at(
                    r@,
                    #[trigger] self@.compiled[k].trace.blocks()[i].start_pc,
                ),
    {
        let keys = map_keys(&self.compiled_blocks);
        let mut out: Vec<&BlockSpec> = Vec::new();
        let mut j: usize = 0;
        while j < keys.len()
            invariant
                forall|k: u128| #[trigger] self@.compiled.contains_key(k) <==> keys@.contains(k),
                j <= keys@.len(),
                sorted_by_start(out@),
                forall|i: int| 0 <= i < out@.len() ==> compiled_trace_block(self@.compiled, *#[trigger] out@[i]),
                forall|q: int, i: int|
                    0 <= q < j && 0 <= i < self@.compiled[keys@[q]].trace.blocks().len() ==> starts_at(
                        out@,
                        #[trigger] self@.compiled[keys@[q]].trace.blocks()[i].start_pc,
                    ),
            decreases keys@.len() - j,
        {
            let key = keys[j];
            assert(keys@.contains(key));
            let compiled = match map_get(&self.compiled_blocks, &key) {
                Some(c) => c,
                None => {
                    return out;
                },
            };
            let blocks = compiled.trace.all_blocks();
            let ghost tb = self@.compiled[key].trace.blocks();
            let mut n: usize = 0;
            while n < blocks.len()
                invariant
                    forall|k: u128| #[trigger] self@.compiled.contains_key(k) <==> keys@.contains(k),
                    j < keys@.len(),
                    key == keys@[j as int],
                    self@.compiled.contains_key(key),
                    tb == self@.compiled[key].trace.blocks(),
                    blocks@.len() == tb.len(),
                    forall|i: int| 0 <= i < blocks@.len() ==> *#[trigger] blocks@[i] == tb[i],
                    n <= blocks@.len(),
                    sorted_by_start(out@),
                    forall|i: int| 0 <= i < out@.len() ==> compiled_trace_block(self@.compiled, *#[trigger] out@[i]),
                    forall|q: int, i: int|
                        0 <= q < j && 0 <= i < self@.compiled[keys@[q]].trace.blocks().len() ==> starts_at(
                            out@,
                            #[trigger] self@.compiled[keys@[q]].trace.blocks()[i].start_pc,
                        ),
                    forall|i: int| 0 <= i < n ==> starts_at(out@, #[trigger] tb[i].start_pc),
                decreases blocks@.len() - n,
            {
                let ghost before = out@;
                let b = blocks[n];
                assert(*b == tb[n as int]);
                insert_by_start(&mut out, b);
                proof {
                    assert forall|i: int| 0 <= i < out@.len() implies compiled_trace_block(
                        self@.compiled,
                        *#[trigger] out@[i],
                    ) by {
                        if out@[i] == b {
                            assert(self@.compiled[key].trace.blocks()[n as int] == *b);
                        } else {
                            let m = choose|m: int| 0 <= m < before.len() && before[m] == out@[i];
                            assert(compiled_trace_block(self@.compiled, *before[m]));
                        }
                    }
                }
                n = n + 1;
            }
            proof {
                assert forall|q: int, i: int|
                    0 <= q < j + 1 && 0 <= i < self@.compiled[keys@[q]].trace.blocks().len() implies starts_at(
                    out@,
                    #[trigger] self@.compiled[keys@[q]].trace.blocks()[i].start_pc,
                ) by {
                    if q == j {
                        assert(tb[i].start_pc == self@.compiled[keys@[q]].trace.blocks()[i].start_pc);
                    }
                }
            }
            j = j + 1;
        }
        proof {
            assert forall|k: u128, i: int|
                self@.compiled.contains_key(k) && 0 <= i < self@.compiled[k].trace.blocks().len() implies starts_at(
                out@,
                #[trigger] self@.compiled[k].trace.blocks()[i].start_pc,
            ) by {
                assert(keys@.contains(k));
                let q = choose|q: int| 0 <= q < keys@.len() && keys@[q] == k;
                assert(self@.compiled[keys@[q]].trace.blocks()[i].start_pc == self@.compiled[k].trace.blocks()[i].start_pc);
            }
        }
        out
    }
}

} // verus!
