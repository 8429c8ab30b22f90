use crate::bits::bit32;
use crate::cpu::instr::Instruction;
use crate::cpu::state::{with_nibble, Cpu};
use vstd::prelude::*;

verus! {

/// Rotate-and-mask instructions.
#[derive(Clone, Copy, Debug, PartialEq, Eq, Structural)]
pub enum RotateOp {
    Rlwinm,
    Rlwimi,
    Rlwnm,
}

/// `x` rotated left by `n` (below 32) bits.
pub open spec fn rotl32(x: u32, n: u32) -> u32 {
    if n == 0 {
        x
    } else {
        (x << n) | (x >> (32 - n) as u32)
    }
}

/// Rotation moves bit `j` to bit `j + n` (mod 32).
pub proof fn lemma_rotl32_bit(x: u32, n: u32, j: u32)
    requires
        n < 32,
        j < 32,
    ensures
        bit32(rotl32(x, n), j) == bit32(x, ((j + 32 - n) % 32) as u32),
{
    if n == 0 {
        assert((j + 32 - 0) % 32 == j);
    } else {
        assert(((((x << n) | (x >> (32 - n) as u32)) >> j) & 1u32 == 1u32) == (((x >> ((j + 32 - n)
            % 32) as u32) & 1u32) == 1u32)) by (bit_vector)
            requires
                0 < n < 32,
                j < 32,
        ;
    }
}

fn rotate_left(x: u32, n: u32) -> (r: u32)
    requires
        n < 32,
    ensures
        r == rotl32(x, n),
{
    if n == 0 {
        x
    } else {
        (x << n) | (x >> (32 - n))
    }
}

/// The rotate mask from `mb` to `me`: bits `mb..=me` in msb0 numbering,
/// wrapping around when `mb > me`.
pub open spec fn ppc_mask(mb: u32, me: u32) -> u32 {
    let begin = 0xFFFF_FFFFu32 >> mb;
    let end = if me >= 31 { 0u32 } else { 0xFFFF_FFFFu32 >> (me + 1) as u32 };
    if mb <= me { begin & !end } else { begin | !end }
}

/// Whether msb0 position `p` is inside the mask from `mb` to `me`.
pub open spec fn in_mask(mb: u32, me: u32, p: u32) -> bool {
    if mb <= me {
        mb <= p <= me
    } else {
        p >= mb || p <= me
    }
}

/// The mask sets exactly the positions from `mb` to `me`.
pub proof fn lemma_ppc_mask_bits(mb: u32, me: u32, p: u32)
    requires
        mb < 32,
        me < 32,
        p < 32,
    ensures
        bit32(ppc_mask(mb, me), (31 - p) as u32) == in_mask(mb, me, p),
{
    let j = (31 - p) as u32;
    if me >= 31 {
        assert((((0xFFFF_FFFFu32 >> mb) & !0u32) >> j) & 1u32 == 1u32 <==> mb <= p) by (bit_vector)
            requires
                mb < 32,
                p < 32,
                j == 31 - p,
        ;
    } else if mb <= me {
        assert((((0xFFFF_FFFFu32 >> mb) & !(0xFFFF_FFFFu32 >> (me + 1) as u32)) >> j) & 1u32 == 1u32
            <==> (mb <= p && p <= me)) by (bit_vector)
            requires
                mb < 32,
                me < 31,
                p < 32,
                j == 31 - p,
        ;
    } else {
        assert((((0xFFFF_FFFFu32 >> mb) | !(0xFFFF_FFFFu32 >> (me + 1) as u32)) >> j) & 1u32 == 1u32
            <==> (p >= mb || p <= me)) by (bit_vector)
            requires
                mb < 32,
                me < 31,
                p < 32,
                j == 31 - p,
        ;
    }
}

fn mask(mb: u32, me: u32) -> (r: u32)
    requires
        mb < 32,
        me < 32,
    ensures
        r == ppc_mask(mb, me),
{
    let begin = 0xFFFF_FFFFu32 >> mb;
    let end = if me >= 31 { 0 } else { 0xFFFF_FFFFu32 >> (me + 1) };
    if mb <= me { begin & !end } else { begin | !end }
}

/// Value a rotate instruction writes to `rA`.
pub open spec fn rotate_result(cpu: Cpu, op: RotateOp, instr: Instruction) -> u32 {
    let rs = cpu.gpr[instr.spec_rs() as int];
    let m = ppc_mask(instr.spec_mb() as u32, instr.spec_me() as u32);
    match op {
        RotateOp::Rlwinm => rotl32(rs, instr.spec_sh() as u32) & m,
        RotateOp::Rlwimi => (rotl32(rs, instr.spec_sh() as u32) & m) | (cpu.gpr[instr.spec_ra() as int]
            & !m),
        RotateOp::Rlwnm => rotl32(rs, cpu.gpr[instr.spec_rb() as int] & 0x1F) & m,
    }
}

/// State after a rotate instruction.
pub open spec fn rotate_cpu(cpu: Cpu, op: RotateOp, instr: Instruction) -> Cpu {
    let res = rotate_result(cpu, op, instr);
    let c = cpu.with_gpr(instr.spec_ra() as int, res);
    if instr.spec_rc() {
        c.with_cr0(res)
    } else {
        c
    }
}

/// Executes a rotate-and-mask instruction, recording the result in CR0
/// when the record bit is set.
pub fn rotate(cpu: &mut Cpu, op: RotateOp, instr: Instruction)
    ensures
        *final(cpu) == rotate_cpu(*old(cpu), op, instr),
        ({
            let res = rotate_result(*old(cpu), op, instr);
            &&& final(cpu).gpr@ == old(cpu).gpr@.update(instr.spec_ra() as int, res)
            &&& final(cpu).cr == if instr.spec_rc() {
                with_nibble(old(cpu).cr, 7, old(cpu).cr0_for(res))
            } else {
                old(cpu).cr
            }
            &&& *final(cpu) == (Cpu { gpr: final(cpu).gpr, cr: final(cpu).cr, ..*old(cpu) })
        }),
{
    let rs = cpu.read_gpr(instr.rs());
    let mb = instr.mb() as u32;
    let me = instr.me() as u32;
    let res = match op {
        RotateOp::Rlwinm => rotate_left(rs, instr.sh() as u32) & mask(mb, me),
        RotateOp::Rlwimi => {
            let m = mask(mb, me);
            let r = rotate_left(rs, instr.sh() as u32);
            (r & m) | (cpu.read_gpr(instr.ra()) & !m)
        },
        RotateOp::Rlwnm => {
            let sh = cpu.read_gpr(instr.rb()) & 0x1F;
            proof { crate::dsp::instr::lemma_and_le_u32(cpu.gpr[instr.spec_rb() as int], 0x1F); }
            rotate_left(rs, sh) & mask(mb, me)
        },
    };
    cpu.write_gpr(instr.ra(), res);
    if instr.rc() {
        cpu.update_cr0(res);
    }
}


/// Merging under a mask: the masked value's bits inside the mask, the
/// other value's outside.
proof fn lemma_mask_merge(r: u32, y: u32, m: u32)
    ensures
        ((r & m) | (y & !m)) & m == r & m,
        ((r & m) | (y & !m)) & !m == y & !m,
        (r & m) & m == r & m,
        (r & m) & !m == 0,
{
    assert(((r & m) | (y & !m)) & m == r & m && ((r & m) | (y & !m)) & !m == y & !m && (r & m) & m == r & m
        && (r & m) & !m == 0) by (bit_vector);
}

/// What a rotate-and-mask instruction leaves in `rA`: inside the mask
/// from `mb` to `me`, the bits of `rS` rotated left (by `sh`, or for
/// `rlwnm` by the low five bits of `rB`); outside it, the old bits of `rA`
/// for `rlwimi` and zeros otherwise. No other register changes, and CR
/// changes only where the record bit asks for CR0.
pub proof fn lemma_rotate_under_mask(cpu: Cpu, op: RotateOp, instr: Instruction)
    ensures
        ({
            let c2 = rotate_cpu(cpu, op, instr);
            let ra = instr.spec_ra() as int;
            let m = ppc_mask(instr.spec_mb() as u32, instr.spec_me() as u32);
            let rs = cpu.gpr[instr.spec_rs() as int];
            let n: u32 = if op == RotateOp::Rlwnm {
                cpu.gpr[instr.spec_rb() as int] & 0x1F
            } else {
                instr.spec_sh() as u32
            };
            &&& c2.gpr[ra] & m == rotl32(rs, n) & m
            &&& c2.gpr[ra] & !m == if op == RotateOp::Rlwimi { cpu.gpr[ra] & !m } else { 0u32 }
            &&& forall|k: int| 0 <= k < 32 && k != ra ==> #[trigger] c2.gpr[k] == cpu.gpr[k]
            &&& c2 == (Cpu { gpr: c2.gpr, cr: c2.cr, ..cpu })
            &&& !instr.spec_rc() ==> c2.cr == cpu.cr
        }),
{
    let ra = instr.spec_ra() as int;
    let m = ppc_mask(instr.spec_mb() as u32, instr.spec_me() as u32);
    let rs = cpu.gpr[instr.spec_rs() as int];
    let n: u32 = if op == RotateOp::Rlwnm {
        cpu.gpr[instr.spec_rb() as int] & 0x1F
    } else {
        instr.spec_sh() as u32
    };
    let res = rotate_result(cpu, op, instr);
    crate::dsp::instr::lemma_and_le_u32(instr.0 >> 16u32, 0x1F);
    lemma_mask_merge(rotl32(rs, n), cpu.gpr[ra], m);
    let c = cpu.with_gpr(ra, res);
    assert(c.gpr@ == cpu.gpr@.update(ra, res));
    assert(c.gpr[ra] == res);
}

} // verus!
