use crate::cpu::blocks::{block_safe_spr, mtspr_is_block_safe, spr_number};
use crate::cpu::instr::Instruction;
use vstd::prelude::*;

verus! {

/// Blocks the wasm runtime sees execute this often before they are compiled.
pub const HOT_BLOCK_THRESHOLD: u32 = 32;
/// Fewer instructions than this are not worth compiling.
pub const MIN_COMPILED_BLOCK_INSTRS: usize = 6;
/// Most blocks, and most instructions, one trace gathers.
pub const MAX_TRACE_BLOCKS: usize = 8;
pub const MAX_TRACE_INSTRS: usize = 64;

/// How a block discovered for the wasm runtime ends.
#[derive(Debug, Clone, Copy, PartialEq, Eq, Structural)]
pub enum TermKind {
    Branch,
    BranchLink,
    BranchCond,
    BranchToReg,
    SystemCall,
    Rfi,
    Mtmsr,
    Mtspr,
    Isync,
    LengthCap,
}

/// Position of a terminator kind in declaration order.
pub open spec fn term_index(t: TermKind) -> u32 {
    match t {
        TermKind::Branch => 0,
        TermKind::BranchLink => 1,
        TermKind::BranchCond => 2,
        TermKind::BranchToReg => 3,
        TermKind::SystemCall => 4,
        TermKind::Rfi => 5,
        TermKind::Mtmsr => 6,
        TermKind::Mtspr => 7,
        TermKind::Isync => 8,
        TermKind::LengthCap => 9,
    }
}

pub fn term_number(t: TermKind) -> (r: u32)
    ensures
        r == term_index(t),
{
    match t {
        TermKind::Branch => 0,
        TermKind::BranchLink => 1,
        TermKind::BranchCond => 2,
        TermKind::BranchToReg => 3,
        TermKind::SystemCall => 4,
        TermKind::Rfi => 5,
        TermKind::Mtmsr => 6,
        TermKind::Mtspr => 7,
        TermKind::Isync => 8,
        TermKind::LengthCap => 9,
    }
}

/// How `word` ends a block for the wasm runtime: as for the block
/// interpreter, with `bl` told apart from `b`.
pub open spec fn wasm_terminator_of(word: u32) -> Option<TermKind> {
    let primary = word >> 26u32;
    let xo = Instruction(word).spec_xo();
    if primary == 16 {
        Some(TermKind::BranchCond)
    } else if primary == 17 {
        Some(TermKind::SystemCall)
    } else if primary == 18 {
        Some(if Instruction(word).spec_lk() { TermKind::BranchLink } else { TermKind::Branch })
    } else if primary == 19 {
        if xo == 16 || xo == 528 {
            Some(TermKind::BranchToReg)
        } else if xo == 50 {
            Some(TermKind::Rfi)
        } else {
            None
        }
    } else if primary == 31 {
        if xo == 146 {
            Some(TermKind::Mtmsr)
        } else if xo == 467 && !block_safe_spr(spr_number(word) as u16) {
            Some(TermKind::Mtspr)
        } else {
            None
        }
    } else {
        None
    }
}

pub fn classify_terminator(instr: Instruction) -> (r: Option<TermKind>)
    ensures
        r == wasm_terminator_of(instr.0),
{
    let word = instr.0;
    let primary = word >> 26;
    if primary == 16 {
        Some(TermKind::BranchCond)
    } else if primary == 17 {
        Some(TermKind::SystemCall)
    } else if primary == 18 {
        Some(if instr.lk() { TermKind::BranchLink } else { TermKind::Branch })
    } else if primary == 19 {
        let xo = instr.xo();
        if xo == 16 || xo == 528 {
            Some(TermKind::BranchToReg)
        } else if xo == 50 {
            Some(TermKind::Rfi)
        } else {
            None
        }
    } else if primary == 31 {
        let xo = instr.xo();
        if xo == 146 {
            Some(TermKind::Mtmsr)
        } else if xo == 467 {
            let spr_num = instr.spr_swapped() as u16;
            proof {
                crate::dsp::instr::lemma_and_le_u32(word >> 11u32, 0x3FF);
                assert(instr.spec_spr() as u32 == (word >> 11u32) & 0x3FF);
            }
            assert(spr_num == spr_number(word) as u16);
            if mtspr_is_block_safe(spr_num) {
                None
            } else {
                Some(TermKind::Mtspr)
            }
        } else {
            None
        }
    } else {
        None
    }
}

/// A straight run of guest instructions, with the address of each and
/// how the run ends.
#[derive(Debug, Clone)]
pub struct BlockSpec {
    pub start_pc: u32,
    pub instrs: Vec<u32>,
    pub pcs: Vec<u32>,
    pub terminator: TermKind,
}

/// A block and the blocks gathered after it.
#[derive(Debug, Clone)]
pub struct TraceSpec {
    pub entry: BlockSpec,
    pub successors: Vec<BlockSpec>,
}

/// Address after the last instruction of `b`: the word after the last
/// address, or the start when there is none.
pub open spec fn end_pc_of(b: BlockSpec) -> u32 {
    if b.pcs@.len() == 0 {
        b.start_pc
    } else {
        b.pcs@.last().wrapping_add(4)
    }
}

/// Number of instructions in `blocks` together.
pub open spec fn instr_total(blocks: Seq<BlockSpec>) -> int
    decreases blocks.len(),
{
    if blocks.len() == 0 {
        0
    } else {
        instr_total(blocks.drop_last()) + blocks.last().instrs@.len()
    }
}

pub proof fn lemma_instr_total_nonneg(blocks: Seq<BlockSpec>)
    ensures
        instr_total(blocks) >= 0,
    decreases blocks.len(),
{
    if blocks.len() > 0 {
        lemma_instr_total_nonneg(blocks.drop_last());
    }
}

impl BlockSpec {
    pub fn len(&self) -> (r: usize)
        ensures
            r == self.instrs@.len(),
    {
        self.instrs.len()
    }

    pub fn end_pc(&self) -> (r: u32)
        ensures
            r == end_pc_of(*self),
    {
        let n = self.pcs.len();
        if n == 0 {
            self.start_pc
        } else {
            self.pcs[n - 1].wrapping_add(4)
        }
    }
}

impl TraceSpec {
    /// The entry block, then its successors.
    pub open spec fn blocks(&self) -> Seq<BlockSpec> {
        seq![self.entry] + self.successors@
    }

    /// Instructions of all blocks together.
    pub fn total_instrs(&self) -> (r: usize)
        requires
            instr_total(self.blocks()) <= usize::MAX,
        ensures
            r == instr_total(self.blocks()),
    {
        let mut total = self.entry.len();
        let mut k: usize = 0;
        proof {
            assert(self.blocks().subrange(0, 1).drop_last() =~= Seq::<BlockSpec>::empty());
            assert(self.blocks().subrange(0, 1).last() == self.entry);
            assert(instr_total(Seq::<BlockSpec>::empty()) == 0);
            assert(instr_total(self.blocks().subrange(0, 1)) == self.entry.instrs@.len());
        }
        while k < self.successors.len()
            invariant
                k <= self.successors@.len(),
                instr_total(self.blocks()) <= usize::MAX,
                total == instr_total(self.blocks().subrange(0, k + 1)),
            decreases self.successors@.len() - k,
        {
            proof {
                let next = self.blocks().subrange(0, k + 2);
                assert(next.drop_last() =~= self.blocks().subrange(0, k + 1));
                assert(next.last() == self.successors@[k as int]);
                lemma_total_prefix(self.blocks(), k + 2);
                lemma_instr_total_nonneg(self.blocks().subrange(0, k + 1));
            }
            total = total + self.successors[k].len();
            k = k + 1;
        }
        assert(self.blocks().subrange(0, k + 1) =~= self.blocks());
        total
    }

    /// References to the entry block, then to each successor.
    pub fn all_blocks(&self) -> (r: Vec<&BlockSpec>)
        ensures
            r@.len() == self.blocks().len(),
            forall|i: int| 0 <= i < r@.len() ==> *r@[i] == self.blocks()[i],
    {
        let mut out: Vec<&BlockSpec> = Vec::new();
        out.push(&self.entry);
        let mut k: usize = 0;
        while k < self.successors.len()
            invariant
                k <= self.successors@.len(),
                out@.len() == k + 1,
                forall|i: int| 0 <= i < out@.len() ==> *out@[i] == self.blocks()[i],
            decreases self.successors@.len() - k,
        {
            out.push(&self.successors[k]);
            k = k + 1;
        }
        out
    }
}

/// A prefix of blocks holds no more instructions than all of them.
pub proof fn lemma_total_prefix(blocks: Seq<BlockSpec>, n: int)
    requires
        0 <= n <= blocks.len(),
    ensures
        instr_total(blocks.subrange(0, n)) <= instr_total(blocks),
    decreases blocks.len(),
{
    if n < blocks.len() {
        assert(blocks.drop_last().subrange(0, n) =~= blocks.subrange(0, n));
        lemma_total_prefix(blocks.drop_last(), n);
    } else {
        assert(blocks.subrange(0, n) =~= blocks);
    }
}

/// Addresses execution may continue at after `b`: the fall-through of a
/// block cut at the length cap, the target of `b`, both ways of a
/// conditional branch; none for the other endings.
pub open spec fn successors_of(b: BlockSpec) -> Seq<u32> {
    if b.instrs@.len() == 0 || b.pcs@.len() == 0 {
        Seq::empty()
    } else {
        let i = Instruction(b.instrs@.last());
        let pc = b.pcs@.last();
        match b.terminator {
            TermKind::LengthCap => seq![end_pc_of(b)],
            TermKind::Branch => seq![if i.spec_aa() { i.spec_li() as u32 } else { pc.wrapping_add_signed(i.spec_li()) }],
            TermKind::BranchCond => seq![
                pc.wrapping_add(4),
                if i.spec_aa() { i.spec_bd() as u32 } else { pc.wrapping_add_signed(i.spec_bd()) },
            ],
            _ => Seq::empty(),
        }
    }
}

pub fn block_successors(spec: &BlockSpec) -> (r: Vec<u32>)
    ensures
        r@ == successors_of(*spec),
{
    let n = spec.instrs.len();
    let m = spec.pcs.len();
    if n == 0 || m == 0 {
        return Vec::new();
    }
    let instr = Instruction(spec.instrs[n - 1]);
    let pc = spec.pcs[m - 1];
    match spec.terminator {
        TermKind::LengthCap => vec![spec.end_pc()],
        TermKind::Branch => {
            let target = if instr.aa() { instr.li() as u32 } else { pc.wrapping_add_signed(instr.li()) };
            vec![target]
        },
        TermKind::BranchCond => {
            let target = if instr.aa() { instr.bd() as u32 } else { pc.wrapping_add_signed(instr.bd()) };
            vec![pc.wrapping_add(4), target]
        },
        _ => Vec::new(),
    }
}

} // verus!
