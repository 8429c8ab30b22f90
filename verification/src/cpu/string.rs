use crate::console::Gekko;
use crate::cpu::instr::Instruction;
use crate::cpu::state::Cpu;
use crate::dsp::instr::lemma_and_le_u32;
use crate::mmu::{be32_byte, be32_of, lemma_be32_bytes, mapped, virt_to_phys_spec};
use vstd::prelude::*;

verus! {

/// Address of byte `k` of a string access starting at `ea` (wrapping).
pub open spec fn string_addr(ea: u32, k: int) -> u32 {
    ((ea + k) % 0x1_0000_0000) as u32
}

/// Effective address of `lswx`/`stswx`: `(rA|0) + rB`, wrapping.
pub open spec fn string_ea(cpu: Cpu, instr: Instruction) -> u32 {
    cpu.gpr_or_zero(instr.spec_ra()).wrapping_add(cpu.gpr[instr.spec_rb() as int])
}

/// Byte count of `lswx`/`stswx`: the low seven bits of XER.
pub open spec fn string_count(cpu: Cpu) -> int {
    (cpu.xer & 0x7F) as int
}

/// Every byte of the access that falls to memory is mapped.
pub open spec fn string_access_ok(g: Gekko, ea: u32, n: int) -> bool {
    forall|k: int| 0 <= k < n ==> #[trigger] g.access_ok(string_addr(ea, k), 1)
}

/// The `n` bytes a string load reads from `ea`.
pub open spec fn loaded_bytes(g: Gekko, ea: u32, n: int) -> Seq<u8> {
    Seq::new(n as nat, |k: int| g.bus_value(string_addr(ea, k), 1) as u8)
}

/// Byte `k` of `bytes`, or zero past its end.
pub open spec fn padded_byte(bytes: Seq<u8>, k: int) -> u8 {
    if 0 <= k < bytes.len() {
        bytes[k]
    } else {
        0
    }
}

/// Register `j` of a string load: four bytes big-endian, zero-padded.
pub open spec fn packed_word(bytes: Seq<u8>, j: int) -> u32 {
    be32_of(
        padded_byte(bytes, 4 * j),
        padded_byte(bytes, 4 * j + 1),
        padded_byte(bytes, 4 * j + 2),
        padded_byte(bytes, 4 * j + 3),
    )
}

/// Byte `k` a string store writes: from register `rS + k / 4`, most
/// significant byte first.
pub open spec fn stored_byte(cpu: Cpu, rs: u8, k: int) -> u8 {
    be32_byte(cpu.gpr[(rs + k / 4) % 32], k % 4)
}

/// Physical address of byte `k` of a string access, when it falls to memory.
pub open spec fn string_mem_target(ea: u32, k: int) -> Option<u32> {
    Gekko::mem_target(string_addr(ea, k))
}

proof fn lemma_pack_step(c0: u8, c1: u8, c2: u8, b: u8)
    by (bit_vector)
    ensures
        0u32 | ((b as u32) << 24u32) == be32_of(b, 0, 0, 0),
        be32_of(c0, 0, 0, 0) | ((b as u32) << 16u32) == be32_of(c0, b, 0, 0),
        be32_of(c0, c1, 0, 0) | ((b as u32) << 8u32) == be32_of(c0, c1, b, 0),
        be32_of(c0, c1, c2, 0) | ((b as u32) << 0u32) == be32_of(c0, c1, c2, b),
        (0x1FFF_FFFFu32 & 0u32) == 0u32,
{
}

/// Masking keeps the value modulo a power of two.
proof fn lemma_mask_mod(x: u32)
    by (bit_vector)
    ensures
        x & 0x1FFF_FFFF == x % 0x2000_0000,
        x & 31 == x % 32,
{
}

/// The bytes of one string access hit distinct physical addresses.
proof fn lemma_string_phys_distinct(ea: u32, k1: int, k2: int)
    requires
        0 <= k1 < k2 < 128,
    ensures
        virt_to_phys_spec(string_addr(ea, k1)) != virt_to_phys_spec(string_addr(ea, k2)),
{
    let a1 = string_addr(ea, k1);
    let a2 = string_addr(ea, k2);
    lemma_mask_mod(a1);
    lemma_mask_mod(a2);
    vstd::arithmetic::div_mod::lemma_mod_mod(ea + k1, 0x2000_0000, 8);
    vstd::arithmetic::div_mod::lemma_mod_mod(ea + k2, 0x2000_0000, 8);
}

proof fn lemma_string_addr_step(ea: u32, k: int, addr: u32)
    requires
        0 <= k,
        addr == string_addr(ea, k),
    ensures
        addr.wrapping_add(1) == string_addr(ea, k + 1),
{
}

/// Appending byte `k` of a string load to its register.
proof fn lemma_pack_byte(bytes: Seq<u8>, k: int, prev: u32)
    requires
        0 <= k < bytes.len(),
        prev == if k % 4 == 0 { 0u32 } else { packed_word(bytes.take(k), k / 4) },
    ensures
        prev | ((bytes[k] as u32) << (24 - 8 * (k % 4)) as u32) == packed_word(bytes.take(k + 1), k / 4),
        forall|j: int| j != k / 4 ==> #[trigger] packed_word(bytes.take(k + 1), j) == packed_word(bytes.take(k), j),
{
    let prev_s = bytes.take(k);
    let next = bytes.take(k + 1);
    assert forall|m: int| m != k implies #[trigger] padded_byte(next, m) == padded_byte(prev_s, m) by {}
    assert(padded_byte(next, k) == bytes[k]);
    let w = k / 4;
    let c0 = padded_byte(prev_s, 4 * w);
    let c1 = padded_byte(prev_s, 4 * w + 1);
    let c2 = padded_byte(prev_s, 4 * w + 2);
    lemma_pack_step(c0, c1, c2, bytes[k]);
    assert forall|j: int| j != k / 4 implies #[trigger] packed_word(next, j) == packed_word(prev_s, j) by {
        assert(padded_byte(next, 4 * j) == padded_byte(prev_s, 4 * j));
        assert(padded_byte(next, 4 * j + 1) == padded_byte(prev_s, 4 * j + 1));
        assert(padded_byte(next, 4 * j + 2) == padded_byte(prev_s, 4 * j + 2));
        assert(padded_byte(next, 4 * j + 3) == padded_byte(prev_s, 4 * j + 3));
    }
}

/// `lswx`: loads `XER[25:31]` bytes from `(rA|0) + rB` into consecutive
/// registers from `rD` (wrapping after r31), four bytes per register,
/// most significant first, the last register zero-padded.
#[verifier::spinoff_prover]
#[verifier::rlimit(80)]
pub fn lswx(g: &mut Gekko, instr: Instruction)
    requires
        old(g).wf(),
        string_access_ok(*old(g), string_ea(old(g).cpu, instr), string_count(old(g).cpu)),
    ensures
        final(g).wf(),
        *final(g) == (Gekko { cpu: Cpu { gpr: final(g).cpu.gpr, ..old(g).cpu }, ..*old(g) }),
        ({
            let n = string_count(old(g).cpu);
            let bytes = loaded_bytes(*old(g), string_ea(old(g).cpu, instr), n);
            forall|j: int|
                0 <= j < 32 ==> #[trigger] final(g).cpu.gpr[(instr.spec_rd() + j) % 32] == if j < (n
                    + 3) / 4 {
                    packed_word(bytes, j)
                } else {
                    old(g).cpu.gpr[(instr.spec_rd() + j) % 32]
                }
        }),
{
    let ghost g0 = *g;
    let ea = g.cpu.read_gpr_or_zero(instr.ra()).wrapping_add(g.cpu.read_gpr(instr.rb()));
    let mut n = g.cpu.xer & 0x7F;
    proof { lemma_and_le_u32(g.cpu.xer, 0x7F); }
    let ghost total = n as int;
    let ghost bytes = loaded_bytes(g0, ea, total);
    let rd = instr.rd();
    if n == 0 {
        assert forall|j: int| 0 <= j < 32 implies #[trigger] g.cpu.gpr[(rd + j) % 32] == if j < (total + 3) / 4 {
            packed_word(bytes, j)
        } else {
            g0.cpu.gpr[(rd + j) % 32]
        } by {}
        return;
    }
    let mut r: u32 = (rd as u32).wrapping_sub(1) & 31;
    proof { lemma_mask_mod((rd as u32).wrapping_sub(1)); }
    let mut i: u32 = 0;
    let mut addr = ea;
    while n > 0
        invariant
            g.wf(),
            *g == (Gekko { cpu: Cpu { gpr: g.cpu.gpr, ..g0.cpu }, ..g0 }),
            0 <= n <= total <= 127,
            rd < 32,
            bytes == loaded_bytes(g0, ea, total),
            string_access_ok(g0, ea, total),
            i == 8 * ((total - n) % 4),
            addr == string_addr(ea, total - n),
            r == (rd + 31 + (total - n + 3) / 4) % 32,
            forall|j: int|
                0 <= j < 32 ==> #[trigger] g.cpu.gpr[(rd + j) % 32] == if j < (total - n + 3) / 4 {
                    packed_word(bytes.take(total - n), j)
                } else {
                    g0.cpu.gpr[(rd + j) % 32]
                },
        decreases n,
    {
        let ghost k = total - n;
        let ghost w = k / 4;
        if i == 0 {
            proof { lemma_mask_mod((r + 1) as u32); }
            r = (r + 1) & 31;
            g.cpu.write_gpr(r as u8, 0);
        }
        assert(r == (rd + w) % 32);
        assert(g0.access_ok(string_addr(ea, k), 1));
        let byte = g.read_u8(addr) as u32;
        assert(byte == bytes[k]);
        let shift = 24 - i;
        let ghost prev = g.cpu.gpr[r as int];
        let val = g.cpu.read_gpr(r as u8) | (byte << shift);
        proof {
            assert((rd + w) % 32 == r);
            if k % 4 != 0 {
                assert(w < (k + 3) / 4);
            }
            lemma_pack_byte(bytes, k, prev);
        }
        g.cpu.write_gpr(r as u8, val);
        proof {
            let next = bytes.take(k + 1);
            assert forall|j: int|
                0 <= j < 32 implies #[trigger] g.cpu.gpr[(rd + j) % 32] == if j < (k + 1 + 3) / 4 {
                packed_word(next, j)
            } else {
                g0.cpu.gpr[(rd + j) % 32]
            } by {
                if j != w {
                    assert((rd + j) % 32 != (rd + w) % 32);
                }
            }
        }
        i = i + 8;
        if i == 32 {
            i = 0;
        }
        proof { lemma_string_addr_step(ea, k, addr); }
        addr = addr.wrapping_add(1);
        n = n - 1;
    }
    assert(bytes.take(total) == bytes);
}

/// Whether byte `b` of memory is one a string store of `n` bytes from
/// `ea` writes.
pub open spec fn string_touches(ea: u32, n: int, b: int) -> bool {
    exists|k: int| 0 <= k < n && #[trigger] string_mem_target(ea, k) == Some(b as u32)
}

/// What memory holds after the first `k` bytes of a string store.
pub open spec fn stored_prefix(g0: Gekko, now: Gekko, ea: u32, rs: u8, k: int) -> bool {
    &&& forall|k2: int|
        0 <= k2 < k && #[trigger] string_mem_target(ea, k2) is Some ==> now.mmu.mem(
            string_mem_target(ea, k2)->0 as int,
        ) == stored_byte(g0.cpu, rs, k2)
    &&& forall|b: int|
        mapped(b, 1) && !string_touches(ea, k, b) ==> #[trigger] now.mmu.mem(b) == g0.mmu.mem(b)
}

proof fn lemma_store_step(g0: Gekko, before: Gekko, after: Gekko, ea: u32, rs: u8, k: int)
    requires
        0 <= k < 127,
        string_access_ok(g0, ea, k + 1),
        g0 == (Gekko { mmu: g0.mmu, ..before }),
        stored_prefix(g0, before, ea, rs, k),
        forall|b: int|
            mapped(b, 1) ==> #[trigger] after.mmu.mem(b) == if string_mem_target(ea, k) == Some(b as u32) {
                stored_byte(g0.cpu, rs, k)
            } else {
                before.mmu.mem(b)
            },
    ensures
        stored_prefix(g0, after, ea, rs, k + 1),
{
    assert forall|k2: int| 0 <= k2 < k + 1 && #[trigger] string_mem_target(ea, k2) is Some implies after.mmu.mem(
        string_mem_target(ea, k2)->0 as int,
    ) == stored_byte(g0.cpu, rs, k2) by {
        assert(g0.access_ok(string_addr(ea, k2), 1));
        if k2 < k {
            lemma_string_phys_distinct(ea, k2, k);
        }
    }
    assert forall|b: int| mapped(b, 1) && !string_touches(ea, k + 1, b) implies #[trigger] after.mmu.mem(b)
        == g0.mmu.mem(b) by {
        if string_touches(ea, k, b) {
            let kk = choose|kk: int| 0 <= kk < k && #[trigger] string_mem_target(ea, kk) == Some(b as u32);
            assert(0 <= kk < k + 1 && string_mem_target(ea, kk) == Some(b as u32));
        }
        if string_mem_target(ea, k) == Some(b as u32) {
            assert(0 <= k < k + 1 && string_mem_target(ea, k) == Some(b as u32));
        }
    }
}

/// Byte `i / 8` (most significant first) of `word`.
fn word_byte(word: u32, i: u32) -> (b: u8)
    requires
        i == 0 || i == 8 || i == 16 || i == 24,
    ensures
        b == be32_byte(word, (i / 8) as int),
{
    proof { lemma_be32_bytes(word); }
    if i == 0 {
        (word >> 24u32) as u8
    } else if i == 8 {
        (word >> 16u32) as u8
    } else if i == 16 {
        (word >> 8u32) as u8
    } else {
        word as u8
    }
}

/// `stswx`: stores `XER[25:31]` bytes to `(rA|0) + rB` from consecutive
/// registers from `rS` (wrapping after r31), most significant byte first.
/// Byte writes reach memory only: device registers take no single bytes.
#[verifier::spinoff_prover]
#[verifier::rlimit(40)]
pub fn stswx(g: &mut Gekko, instr: Instruction)
    requires
        old(g).wf(),
        string_access_ok(*old(g), string_ea(old(g).cpu, instr), string_count(old(g).cpu)),
    ensures
        final(g).wf(),
        *final(g) == (Gekko { mmu: final(g).mmu, ..*old(g) }),
        stored_prefix(
            *old(g),
            *final(g),
            string_ea(old(g).cpu, instr),
            instr.spec_rs(),
            string_count(old(g).cpu),
        ),
{
    let ghost g0 = *g;
    let ea = g.cpu.read_gpr_or_zero(instr.ra()).wrapping_add(g.cpu.read_gpr(instr.rb()));
    let mut n = g.cpu.xer & 0x7F;
    proof { lemma_and_le_u32(g.cpu.xer, 0x7F); }
    let ghost total = n as int;
    let rs = instr.rs();
    let mut r: u32 = (rs as u32).wrapping_sub(1) & 31;
    proof { lemma_mask_mod((rs as u32).wrapping_sub(1)); }
    let mut i: u32 = 0;
    let mut addr = ea;
    while n > 0
        invariant
            g.wf(),
            *g == (Gekko { mmu: g.mmu, ..g0 }),
            0 <= n <= total <= 127,
            rs < 32,
            string_access_ok(g0, ea, total),
            i == 8 * ((total - n) % 4),
            addr == string_addr(ea, total - n),
            r == (rs + 31 + (total - n + 3) / 4) % 32,
            stored_prefix(g0, *g, ea, rs, total - n),
        decreases n,
    {
        let ghost k = total - n;
        let ghost before = *g;
        if i == 0 {
            proof { lemma_mask_mod((r + 1) as u32); }
            r = (r + 1) & 31;
        }
        let byte = word_byte(g.cpu.read_gpr(r as u8), i);
        proof {
            assert(r == (rs + k / 4) % 32);
            assert(byte == stored_byte(g0.cpu, rs, k));
            assert(g0.access_ok(string_addr(ea, k), 1));
        }
        g.write_u8(addr, byte);
        proof {
            Gekko::lemma_byte_write(before, *g, addr, byte);
            lemma_store_step(g0, before, *g, ea, rs, k);
        }
        i = i + 8;
        if i == 32 {
            i = 0;
        }
        proof { lemma_string_addr_step(ea, k, addr); }
        addr = addr.wrapping_add(1);
        n = n - 1;
    }
}

/// Bytes a string store put in memory read back unchanged with a string
/// load of the same count and address: each byte is the stored one, and
/// each complete word equals the register it came from.
pub proof fn lemma_string_store_load(g0: Gekko, g1: Gekko, ea: u32, rs: u8, n: int)
    requires
        0 <= n <= 127,
        rs < 32,
        forall|k: int| 0 <= k < n ==> #[trigger] string_mem_target(ea, k) is Some,
        string_access_ok(g0, ea, n),
        stored_prefix(g0, g1, ea, rs, n),
    ensures
        forall|k: int| 0 <= k < n ==> #[trigger] loaded_bytes(g1, ea, n)[k] == stored_byte(g0.cpu, rs, k),
        forall|j: int|
            0 <= j < n / 4 ==> #[trigger] packed_word(loaded_bytes(g1, ea, n), j) == g0.cpu.gpr[(rs + j)
                % 32],
{
    let bytes = loaded_bytes(g1, ea, n);
    assert forall|k: int| 0 <= k < n implies #[trigger] bytes[k] == stored_byte(g0.cpu, rs, k) by {
        assert(string_mem_target(ea, k) is Some);
        assert(g0.access_ok(string_addr(ea, k), 1));
    }
    assert forall|j: int| 0 <= j < n / 4 implies #[trigger] packed_word(bytes, j) == g0.cpu.gpr[(rs + j)
        % 32] by {
        let v = g0.cpu.gpr[(rs + j) % 32];
        lemma_be32_bytes(v);
        assert(bytes[4 * j] == stored_byte(g0.cpu, rs, 4 * j));
        assert(bytes[4 * j + 1] == stored_byte(g0.cpu, rs, 4 * j + 1));
        assert(bytes[4 * j + 2] == stored_byte(g0.cpu, rs, 4 * j + 2));
        assert(bytes[4 * j + 3] == stored_byte(g0.cpu, rs, 4 * j + 3));
        assert((4 * j + 1) / 4 == j && (4 * j + 1) % 4 == 1);
        assert((4 * j + 2) / 4 == j && (4 * j + 2) % 4 == 2);
        assert((4 * j + 3) / 4 == j && (4 * j + 3) % 4 == 3);
        assert((4 * j) / 4 == j && (4 * j) % 4 == 0);
    }
}

} // verus!
