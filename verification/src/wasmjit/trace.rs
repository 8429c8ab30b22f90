use crate::wasmjit::block::{instr_total, BlockSpec, TraceSpec};
use crate::wasmjit::classify::{block_semantic_unsupported_reason, semantic_reason, UnsupportedOpcode};
use vstd::prelude::*;

verus! {

/// FNV-1a parameters of the block hash, taken a word at a time.
pub const FNV_OFFSET: u64 = 0xcbf2_9ce4_8422_2325;
pub const FNV_PRIME: u64 = 0x0000_0100_0000_01b3;

/// One FNV-1a step: fold `w` into `h`.
pub open spec fn fnv_step(h: u64, w: u32) -> u64 {
    (((h ^ (w as u64)) as nat * FNV_PRIME as nat) % 0x1_0000_0000_0000_0000nat) as u64
}

/// `h` with the words of `words` folded in, first to last.
pub open spec fn hash_fold(h: u64, words: Seq<u32>) -> u64
    decreases words.len(),
{
    if words.len() == 0 {
        h
    } else {
        hash_fold(fnv_step(h, words[0]), words.drop_first())
    }
}

/// Hash of a run of guest words.
pub fn hash_words(words: &[u32]) -> (r: u64)
    ensures
        r == hash_fold(FNV_OFFSET, words@),
{
    let mut h = FNV_OFFSET;
    let mut k: usize = 0;
    assert(words@.subrange(0, words@.len() as int) =~= words@);
    while k < words.len()
        invariant
            k <= words@.len(),
            hash_fold(h, words@.subrange(k as int, words@.len() as int)) == hash_fold(FNV_OFFSET, words@),
        decreases words@.len() - k,
    {
        proof {
            let rest = words@.subrange(k as int, words@.len() as int);
            assert(rest.drop_first() =~= words@.subrange(k + 1, words@.len() as int));
            assert(rest[0] == words@[k as int]);
        }
        h = (h ^ (words[k] as u64)).wrapping_mul(FNV_PRIME);
        k = k + 1;
    }
    assert(words@.subrange(k as int, words@.len() as int) =~= Seq::<u32>::empty());
    h
}

/// Number of D-form loads and stores (primary 32..=45) among `instrs`.
pub open spec fn mem_ops(instrs: Seq<u32>) -> int
    decreases instrs.len(),
{
    if instrs.len() == 0 {
        0
    } else {
        mem_ops(instrs.drop_last()) + if 32 <= instrs.last() >> 26u32 <= 45 { 1int } else { 0int }
    }
}

/// D-form loads and stores in all of `blocks`.
pub open spec fn mem_op_total(blocks: Seq<BlockSpec>) -> int
    decreases blocks.len(),
{
    if blocks.len() == 0 {
        0
    } else {
        mem_op_total(blocks.drop_last()) + mem_ops(blocks.last().instrs@)
    }
}

/// The instructions of `blocks`, one block after the other.
pub open spec fn all_words(blocks: Seq<BlockSpec>) -> Seq<u32>
    decreases blocks.len(),
{
    if blocks.len() == 0 {
        Seq::empty()
    } else {
        all_words(blocks.drop_last()) + blocks.last().instrs@
    }
}

/// The first block of `blocks`, from `i` on, that cannot be compiled:
/// its start address and the reason.
pub open spec fn first_blocked(blocks: Seq<BlockSpec>, i: int) -> Option<(u32, UnsupportedOpcode)>
    decreases blocks.len() - i,
{
    if i < 0 || i >= blocks.len() {
        None
    } else {
        match semantic_reason(blocks[i]) {
            Some(r) => Some((blocks[i].start_pc, r)),
            None => first_blocked(blocks, i + 1),
        }
    }
}

pub proof fn lemma_mem_ops_le(instrs: Seq<u32>)
    ensures
        0 <= mem_ops(instrs) <= instrs.len(),
    decreases instrs.len(),
{
    if instrs.len() > 0 {
        lemma_mem_ops_le(instrs.drop_last());
    }
}

pub proof fn lemma_mem_total_le(blocks: Seq<BlockSpec>)
    ensures
        0 <= mem_op_total(blocks) <= instr_total(blocks),
    decreases blocks.len(),
{
    if blocks.len() > 0 {
        lemma_mem_total_le(blocks.drop_last());
        lemma_mem_ops_le(blocks.last().instrs@);
    }
}

/// Loads and stores in block `b`.
fn block_mem_ops(b: &BlockSpec) -> (r: usize)
    ensures
        r == mem_ops(b.instrs@),
{
    let mut count: usize = 0;
    let mut k: usize = 0;
    while k < b.instrs.len()
        invariant
            k <= b.instrs@.len(),
            count == mem_ops(b.instrs@.subrange(0, k as int)),
        decreases b.instrs@.len() - k,
    {
        proof {
            let next = b.instrs@.subrange(0, k + 1);
            assert(next.drop_last() =~= b.instrs@.subrange(0, k as int));
            lemma_mem_ops_le(b.instrs@.subrange(0, k as int));
        }
        let op = b.instrs[k] >> 26;
        if 32 <= op && op <= 45 {
            count = count + 1;
        }
        k = k + 1;
    }
    assert(b.instrs@.subrange(0, k as int) =~= b.instrs@);
    count
}

/// Loads and stores in all blocks of `trace`.
pub fn trace_memory_op_count(trace: &TraceSpec) -> (r: usize)
    requires
        instr_total(trace.blocks()) <= usize::MAX,
    ensures
        r == mem_op_total(trace.blocks()),
{
    let blocks = trace.all_blocks();
    let ghost bs = trace.blocks();
    let mut count: usize = 0;
    let mut k: usize = 0;
    while k < blocks.len()
        invariant
            bs == trace.blocks(),
            blocks@.len() == bs.len(),
            forall|i: int| 0 <= i < blocks@.len() ==> *blocks@[i] == bs[i],
            instr_total(bs) <= usize::MAX,
            k <= bs.len(),
            count == mem_op_total(bs.subrange(0, k as int)),
        decreases bs.len() - k,
    {
        proof {
            let next = bs.subrange(0, k + 1);
            assert(next.drop_last() =~= bs.subrange(0, k as int));
            lemma_mem_total_le(next);
            crate::wasmjit::block::lemma_total_prefix(bs, k + 1);
        }
        count = count + block_mem_ops(blocks[k]);
        k = k + 1;
    }
    assert(bs.subrange(0, k as int) =~= bs);
    count
}

/// The instructions of all blocks of `trace`, in order.
pub fn trace_words(trace: &TraceSpec) -> (r: Vec<u32>)
    ensures
        r@ == all_words(trace.blocks()),
{
    let blocks = trace.all_blocks();
    let ghost bs = trace.blocks();
    let mut words: Vec<u32> = Vec::new();
    let mut k: usize = 0;
    while k < blocks.len()
        invariant
            bs == trace.blocks(),
            blocks@.len() == bs.len(),
            forall|i: int| 0 <= i < blocks@.len() ==> *blocks@[i] == bs[i],
            k <= bs.len(),
            words@ == all_words(bs.subrange(0, k as int)),
        decreases bs.len() - k,
    {
        proof {
            let next = bs.subrange(0, k + 1);
            assert(next.drop_last() =~= bs.subrange(0, k as int));
        }
        let b = blocks[k];
        let ghost before = words@;
        let mut j: usize = 0;
        while j < b.instrs.len()
            invariant
                j <= b.instrs@.len(),
                words@ == before + b.instrs@.subrange(0, j as int),
            decreases b.instrs@.len() - j,
        {
            words.push(b.instrs[j]);
            proof {
                assert(words@ =~= before + b.instrs@.subrange(0, j + 1));
            }
            j = j + 1;
        }
        assert(b.instrs@.subrange(0, j as int) =~= b.instrs@);
        k = k + 1;
    }
    assert(bs.subrange(0, k as int) =~= bs);
    words
}

/// The first block of `trace` that cannot be compiled, entry first.
pub fn first_unsupported_block(trace: &TraceSpec) -> (r: Option<(u32, UnsupportedOpcode)>)
    ensures
        r == first_blocked(trace.blocks(), 0),
{
    let blocks = trace.all_blocks();
    let ghost bs = trace.blocks();
    let mut k: usize = 0;
    while k < blocks.len()
        invariant
            bs == trace.blocks(),
            blocks@.len() == bs.len(),
            forall|i: int| 0 <= i < blocks@.len() ==> *blocks@[i] == bs[i],
            k <= bs.len(),
            first_blocked(bs, 0) == first_blocked(bs, k as int),
        decreases bs.len() - k,
    {
        match block_semantic_unsupported_reason(blocks[k]) {
            Some(reason) => {
                assert(*blocks@[k as int] == bs[k as int]);
                assert(first_blocked(bs, k as int) == Some((bs[k as int].start_pc, reason)));
                return Some((blocks[k].start_pc, reason));
            },
            None => {},
        }
        k = k + 1;
    }
    None
}

} // verus!
