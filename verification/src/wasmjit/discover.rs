use crate::console::Gekko;
use crate::cpu::blocks::{extension_target, extension_target_of};
use crate::cpu::instr::Instruction;
use crate::mmu::Mmu;
use crate::wasmjit::block::{
    block_successors, classify_terminator, instr_total, successors_of, wasm_terminator_of, BlockSpec, TermKind,
    TraceSpec, MAX_TRACE_BLOCKS, MAX_TRACE_INSTRS,
};
use crate::wasmjit::fxmap::set_insert;
use rustc_hash::FxHashSet;
use std::collections::VecDeque;
use vstd::prelude::*;

verus! {

/// Most instructions one discovered block holds.
pub const MAX_BLOCK_INSTRS: usize = 256;
/// How far forward an unconditional branch may reach and still be
/// followed inside one block.
pub const EXTENSION_MAX_FORWARD_BYTES: u32 = 1024;

/// Where discovery continues from `pc`: an unconditional branch without
/// link that jumps forward at most `EXTENSION_MAX_FORWARD_BYTES`, to code
/// not yet in the block (`pcs`), is followed instead of recorded.
pub open spec fn resolve(m: Mmu, pc: u32, pcs: Seq<u32>) -> u32
    decreases 0x1_0000_0000 - pc,
{
    match extension_target_of(m.fetch_spec(pc), pc) {
        Some(t) => if t > pc && t - pc <= EXTENSION_MAX_FORWARD_BYTES && !pcs.contains(t) {
            resolve(m, t, pcs)
        } else {
            pc
        },
        None => pc,
    }
}

/// `b` is the block discovered at `start` in memory `m`: each recorded
/// address is where discovery lands after the previous one (the first
/// from `start`), each word is fetched from its address, the block stops
/// at the first terminator, which gives its kind, or else at
/// `MAX_BLOCK_INSTRS` instructions, cut at the length cap.
pub open spec fn discovered(m: Mmu, start: u32, b: BlockSpec) -> bool {
    let n = b.instrs@.len();
    &&& b.start_pc == start
    &&& b.pcs@.len() == n
    &&& 0 < n <= MAX_BLOCK_INSTRS
    &&& b.pcs@[0] == resolve(m, start, Seq::empty())
    &&& forall|i: int|
        0 <= i < n - 1 ==> #[trigger] b.pcs@[i + 1] == resolve(m, b.pcs@[i].wrapping_add(4), b.pcs@.subrange(0, i + 1))
    &&& forall|i: int| 0 <= i < n ==> #[trigger] b.instrs@[i] == m.fetch_spec(b.pcs@[i])
    &&& forall|i: int| 0 <= i < n - 1 ==> #[trigger] wasm_terminator_of(b.instrs@[i]) is None
    &&& match wasm_terminator_of(b.instrs@[n - 1]) {
        Some(t) => b.terminator == t,
        None => b.terminator == TermKind::LengthCap && n == MAX_BLOCK_INSTRS,
    }
}

fn contains_pc(pcs: &Vec<u32>, x: u32) -> (r: bool)
    ensures
        r == pcs@.contains(x),
{
    let mut k: usize = 0;
    while k < pcs.len()
        invariant
            k <= pcs@.len(),
            forall|i: int| 0 <= i < k ==> pcs@[i] != x,
        decreases pcs@.len() - k,
    {
        if pcs[k] == x {
            assert(pcs@[k as int] == x);
            return true;
        }
        k = k + 1;
    }
    false
}

/// Reads the block at `start_pc` from memory, following short forward
/// branches, up to its terminator or the length cap.
pub fn discover_block(sys: &Gekko, start_pc: u32) -> (r: BlockSpec)
    requires
        sys.wf(),
    ensures
        discovered(sys.mmu, start_pc, r),
{
    let m = &sys.mmu;
    let mut instrs: Vec<u32> = Vec::new();
    let mut pcs: Vec<u32> = Vec::new();
    let mut pc = start_pc;
    loop
        invariant
            m.wf(),
            *m == sys.mmu,
            instrs@.len() == pcs@.len(),
            instrs@.len() <= MAX_BLOCK_INSTRS,
            resolve(*m, pc, pcs@) == (if pcs@.len() == 0 {
                resolve(*m, start_pc, Seq::empty())
            } else {
                resolve(*m, pcs@.last().wrapping_add(4), pcs@)
            }),
            pcs@.len() > 0 ==> pcs@[0] == resolve(*m, start_pc, Seq::empty()),
            forall|i: int|
                0 <= i < pcs@.len() - 1 ==> #[trigger] pcs@[i + 1] == resolve(
                    *m,
                    pcs@[i].wrapping_add(4),
                    pcs@.subrange(0, i + 1),
                ),
            forall|i: int| 0 <= i < instrs@.len() ==> #[trigger] instrs@[i] == m.fetch_spec(pcs@[i]),
            forall|i: int| 0 <= i < instrs@.len() ==> #[trigger] wasm_terminator_of(instrs@[i]) is None,
        decreases MAX_BLOCK_INSTRS - instrs@.len(), 0x1_0000_0000 - pc,
    {
        if instrs.len() >= MAX_BLOCK_INSTRS {
            let r = BlockSpec { start_pc, instrs, pcs, terminator: TermKind::LengthCap };
            return r;
        }
        let word = m.fetch_instruction(pc);
        let cur = pc;
        match extension_target(Instruction(word), cur) {
            Some(target) => {
                if target > cur && target - cur <= EXTENSION_MAX_FORWARD_BYTES && !contains_pc(&pcs, target) {
                    pc = target;
                    continue;
                }
            },
            None => {},
        }
        assert(resolve(*m, cur, pcs@) == cur);
        let ghost before = pcs@;
        instrs.push(word);
        pcs.push(cur);
        proof {
            assert(pcs@.subrange(0, before.len() as int) =~= before);
            assert forall|i: int|
                0 <= i < pcs@.len() - 1 implies #[trigger] pcs@[i + 1] == resolve(
                *m,
                pcs@[i].wrapping_add(4),
                pcs@.subrange(0, i + 1),
            ) by {
                if i + 1 < before.len() {
                    assert(pcs@.subrange(0, i + 1) =~= before.subrange(0, i + 1));
                } else {
                    assert(i + 1 == before.len());
                    assert(pcs@.subrange(0, i + 1) =~= before);
                }
            }
        }
        match classify_terminator(Instruction(word)) {
            Some(t) => {
                return BlockSpec { start_pc, instrs, pcs, terminator: t };
            },
            None => {},
        }
        pc = cur.wrapping_add(4);
    }
}

/// Discovery is determined by memory and the start: two blocks
/// discovered at one address hold the same addresses, words and ending.
pub proof fn lemma_discovered_unique(m: Mmu, start: u32, a: BlockSpec, b: BlockSpec)
    requires
        discovered(m, start, a),
        discovered(m, start, b),
    ensures
        a.pcs@ == b.pcs@,
        a.instrs@ == b.instrs@,
        a.terminator == b.terminator,
{
    let na = a.instrs@.len() as int;
    let nb = b.instrs@.len() as int;
    let n = if na < nb { na } else { nb };
    assert forall|i: int| 0 <= i < n implies a.pcs@[i] == b.pcs@[i] && a.instrs@[i] == b.instrs@[i] by {
        lemma_prefix_agree(m, start, a, b, i);
    }
    if na < nb {
        assert(wasm_terminator_of(b.instrs@[na - 1]) is None);
        assert(a.instrs@[na - 1] == b.instrs@[na - 1]);
    } else if nb < na {
        assert(wasm_terminator_of(a.instrs@[nb - 1]) is None);
        assert(a.instrs@[nb - 1] == b.instrs@[nb - 1]);
    }
    assert(na == nb);
    assert(a.pcs@ =~= b.pcs@);
    assert(a.instrs@ =~= b.instrs@);
    assert(a.instrs@[na - 1] == b.instrs@[na - 1]);
}

proof fn lemma_prefix_agree(m: Mmu, start: u32, a: BlockSpec, b: BlockSpec, i: int)
    requires
        discovered(m, start, a),
        discovered(m, start, b),
        0 <= i < a.instrs@.len(),
        i < b.instrs@.len(),
    ensures
        a.pcs@.subrange(0, i + 1) == b.pcs@.subrange(0, i + 1),
        a.pcs@[i] == b.pcs@[i],
        a.instrs@[i] == b.instrs@[i],
    decreases i,
{
    if i > 0 {
        lemma_prefix_agree(m, start, a, b, i - 1);
        assert(a.pcs@[i] == resolve(m, a.pcs@[i - 1].wrapping_add(4), a.pcs@.subrange(0, i)));
        assert(b.pcs@[i] == resolve(m, b.pcs@[i - 1].wrapping_add(4), b.pcs@.subrange(0, i)));
        assert(a.pcs@[i - 1] == a.pcs@.subrange(0, i)[i - 1]);
        assert(b.pcs@[i - 1] == b.pcs@.subrange(0, i)[i - 1]);
    }
    assert(a.pcs@.subrange(0, i + 1) =~= a.pcs@.subrange(0, i).push(a.pcs@[i]));
    assert(b.pcs@.subrange(0, i + 1) =~= b.pcs@.subrange(0, i).push(b.pcs@[i]));
}

/// The block discovered at `start` in memory `m`.
pub open spec fn block_at(m: Mmu, start: u32) -> BlockSpec {
    choose|b: BlockSpec| discovered(m, start, b)
}

/// `queue` and `seen` after each address of `addrs` not seen yet is
/// queued and marked seen, in order.
pub open spec fn enqueue(queue: Seq<u32>, seen: Set<u32>, addrs: Seq<u32>) -> (Seq<u32>, Set<u32>)
    decreases addrs.len(),
{
    if addrs.len() == 0 {
        (queue, seen)
    } else {
        let (q, s) = enqueue(queue, seen, addrs.drop_last());
        let a = addrs.last();
        if s.contains(a) {
            (q, s)
        } else {
            (q.push(a), s.insert(a))
        }
    }
}

pub proof fn lemma_enqueue_len(queue: Seq<u32>, seen: Set<u32>, addrs: Seq<u32>)
    ensures
        queue.len() <= enqueue(queue, seen, addrs).0.len() <= queue.len() + addrs.len(),
    decreases addrs.len(),
{
    if addrs.len() > 0 {
        lemma_enqueue_len(queue, seen, addrs.drop_last());
    }
}

pub proof fn lemma_successors_len(b: BlockSpec)
    ensures
        successors_of(b).len() <= 2,
{
}

/// Start addresses of the successor blocks a trace search gathers: it
/// takes addresses from the front of `queue` until it is empty or
/// `MAX_TRACE_BLOCKS - 1` successors are taken; a block that would push
/// the trace past `MAX_TRACE_INSTRS` instructions is passed over, any
/// other is taken and its own successors are queued.
pub open spec fn search_starts(m: Mmu, queue: Seq<u32>, seen: Set<u32>, taken: Seq<u32>, total: int) -> Seq<u32>
    decreases 3 * (MAX_TRACE_BLOCKS - 1 - taken.len()) + queue.len(),
{
    if queue.len() == 0 || taken.len() >= MAX_TRACE_BLOCKS - 1 {
        taken
    } else {
        let p = queue[0];
        let b = block_at(m, p);
        let rest = queue.drop_first();
        if total + b.instrs@.len() > MAX_TRACE_INSTRS {
            search_starts(m, rest, seen, taken, total)
        } else {
            proof {
                lemma_enqueue_len(rest, seen, successors_of(b));
                lemma_successors_len(b);
            }
            let (q, s) = enqueue(rest, seen, successors_of(b));
            search_starts(m, q, s, taken.push(p), total + b.instrs@.len())
        }
    }
}

/// The successor start addresses of the trace discovered at `start`.
pub open spec fn trace_starts_from(m: Mmu, start: u32) -> Seq<u32> {
    let e = block_at(m, start);
    let (q, s) = enqueue(Seq::empty(), Set::empty().insert(start), successors_of(e));
    search_starts(m, q, s, Seq::empty(), e.instrs@.len() as int)
}

/// Queues the addresses of `addrs` not seen yet.
fn enqueue_new(queue: &mut VecDeque<u32>, seen: &mut FxHashSet<u32>, addrs: &Vec<u32>)
    ensures
        (final(queue)@, final(seen)@) == enqueue(old(queue)@, old(seen)@, addrs@),
{
    let ghost q0 = queue@;
    let ghost s0 = seen@;
    let mut k: usize = 0;
    proof {
        assert(addrs@.subrange(0, 0) =~= Seq::<u32>::empty());
    }
    while k < addrs.len()
        invariant
            k <= addrs@.len(),
            (queue@, seen@) == enqueue(q0, s0, addrs@.subrange(0, k as int)),
        decreases addrs@.len() - k,
    {
        let a = addrs[k];
        proof {
            assert(addrs@.subrange(0, k + 1).drop_last() =~= addrs@.subrange(0, k as int));
        }
        if set_insert(seen, a) {
            queue.push_back(a);
        }
        k = k + 1;
    }
    assert(addrs@.subrange(0, k as int) =~= addrs@);
}

/// `t` is the trace discovered at `start` in memory `m`: its entry is the
/// block there, its successors the blocks at the addresses the search
/// takes, in order; it holds at most `MAX_BLOCK_INSTRS` instructions.
pub open spec fn discovered_trace(m: Mmu, start: u32, t: TraceSpec) -> bool {
    &&& discovered(m, start, t.entry)
    &&& t.successors@.len() == trace_starts_from(m, start).len()
    &&& forall|i: int|
        0 <= i < t.successors@.len() ==> discovered(m, #[trigger] trace_starts_from(m, start)[i], t.successors@[i])
    &&& instr_total(t.blocks()) <= MAX_BLOCK_INSTRS
}

/// Discovers the block at `start_pc` and, breadth first, blocks it may
/// continue into (see `search_starts`).
pub fn discover_trace(sys: &Gekko, start_pc: u32) -> (r: TraceSpec)
    requires
        sys.wf(),
    ensures
        discovered_trace(sys.mmu, start_pc, r),
{
    let ghost m = sys.mmu;
    let entry = discover_block(sys, start_pc);
    proof {
        lemma_discovered_unique(m, start_pc, entry, block_at(m, start_pc));
    }
    let mut successors: Vec<BlockSpec> = Vec::new();
    let mut seen: FxHashSet<u32> = FxHashSet::default();
    let mut queue: VecDeque<u32> = VecDeque::new();
    let mut total = entry.len();
    set_insert(&mut seen, entry.start_pc);
    let first = block_successors(&entry);
    enqueue_new(&mut queue, &mut seen, &first);
    let ghost taken: Seq<u32> = Seq::empty();
    assert(successors_of(entry) == successors_of(block_at(m, start_pc)));
    proof {
        assert((seq![entry] + successors@).drop_last() =~= Seq::<BlockSpec>::empty());
        assert(instr_total(Seq::<BlockSpec>::empty()) == 0);
    }
    loop
        invariant
            sys.wf(),
            m == sys.mmu,
            total <= 256,
            instr_total(seq![entry] + successors@) == total,
            taken.len() == successors@.len(),
            taken.len() <= MAX_TRACE_BLOCKS - 1,
            forall|i: int| 0 <= i < successors@.len() ==> discovered(m, #[trigger] taken[i], successors@[i]),
            search_starts(m, queue@, seen@, taken, total as int) == trace_starts_from(m, start_pc),
        ensures
            taken == trace_starts_from(m, start_pc),
            instr_total(seq![entry] + successors@) <= 256,
            taken.len() == successors@.len(),
            forall|i: int| 0 <= i < successors@.len() ==> discovered(m, #[trigger] taken[i], successors@[i]),
        decreases 3 * (MAX_TRACE_BLOCKS - 1 - taken.len()) + queue@.len(),
    {
        if queue.len() == 0 || successors.len() >= MAX_TRACE_BLOCKS - 1 {
            break;
        }
        let succ_pc = match queue.pop_front() {
            Some(p) => p,
            None => {
                break;
            },
        };
        let succ = discover_block(sys, succ_pc);
        proof {
            lemma_discovered_unique(m, succ_pc, succ, block_at(m, succ_pc));
        }
        if total + succ.len() > MAX_TRACE_INSTRS {
            continue;
        }
        let ghost rest = queue@;
        let ghost seen_before = seen@;
        total = total + succ.len();
        let next = block_successors(&succ);
        assert(successors_of(succ) == successors_of(block_at(m, succ_pc)));
        enqueue_new(&mut queue, &mut seen, &next);
        let ghost prev = successors@;
        successors.push(succ);
        proof {
            assert((seq![entry] + successors@).drop_last() =~= seq![entry] + prev);
            lemma_enqueue_len(rest, seen_before, successors_of(succ));
            lemma_successors_len(succ);
            taken = taken.push(succ_pc);
        }
    }
    let r = TraceSpec { entry, successors };
    assert(r.blocks() =~= seq![entry] + successors@);
    r
}

} // verus!
