use vstd::prelude::*;

verus! {

/// Main memory (24 MiB) at physical address 0.
pub const RAM_SIZE: u32 = 0x0180_0000;
/// Embedded framebuffer window.
pub const EFB_BASE: u32 = 0x0800_0000;
pub const EFB_SIZE: u32 = 0x0020_0000;
/// Start of the hardware register window.
pub const HW_BASE: u32 = 0x0C00_0000;

/// Physical address of a cached (0x8...) or uncached (0xC...) virtual address.
pub open spec fn virt_to_phys_spec(addr: u32) -> u32 {
    addr & 0x1FFF_FFFF
}

pub fn virt_to_phys(addr: u32) -> (r: u32)
    ensures
        r == virt_to_phys_spec(addr),
{
    addr & 0x1FFF_FFFF
}

/// `len` bytes from `phys` lie in RAM.
pub open spec fn in_ram(phys: int, len: int) -> bool {
    0 <= phys && phys + len <= RAM_SIZE
}

/// `len` bytes from `phys` lie in the EFB window.
pub open spec fn in_efb(phys: int, len: int) -> bool {
    EFB_BASE <= phys && phys + len <= EFB_BASE + EFB_SIZE
}

/// `len` bytes from `phys` are backed by one memory region.
pub open spec fn mapped(phys: int, len: int) -> bool {
    in_ram(phys, len) || in_efb(phys, len)
}

/// Whether `len` bytes from `phys` are backed by one memory region.
pub fn is_mapped(phys: u32, len: u32) -> (r: bool)
    ensures
        r == mapped(phys as int, len as int),
{
    let end = phys as u64 + len as u64;
    end <= RAM_SIZE as u64 || (EFB_BASE <= phys && end <= EFB_BASE as u64 + EFB_SIZE as u64)
}

/// Big-endian value of bytes `b0..` (most significant first).
pub open spec fn be16_of(b0: u8, b1: u8) -> u16 {
    (b0 * 0x100 + b1) as u16
}

pub open spec fn be32_of(b0: u8, b1: u8, b2: u8, b3: u8) -> u32 {
    (b0 * 0x100_0000 + b1 * 0x1_0000 + b2 * 0x100 + b3) as u32
}

/// Byte `i` (0 = most significant) of the big-endian encoding of `v`.
pub open spec fn be32_byte(v: u32, i: int) -> u8 {
    if i == 0 {
        (v / 0x100_0000) as u8
    } else if i == 1 {
        ((v / 0x1_0000) % 0x100) as u8
    } else if i == 2 {
        ((v / 0x100) % 0x100) as u8
    } else {
        (v % 0x100) as u8
    }
}

/// Byte decomposition of a big-endian word.
pub proof fn lemma_be32_bytes(v: u32)
    ensures
        (v >> 24u32) as u8 == be32_byte(v, 0),
        (v >> 16u32) as u8 == be32_byte(v, 1),
        (v >> 8u32) as u8 == be32_byte(v, 2),
        v as u8 == be32_byte(v, 3),
        be32_of(be32_byte(v, 0), be32_byte(v, 1), be32_byte(v, 2), be32_byte(v, 3)) == v,
        be16_of(be32_byte(v, 2), be32_byte(v, 3)) == v % 0x10000,
{
    assert((v >> 24u32) as u8 == (v / 0x100_0000) as u8 && (v >> 16u32) as u8 == ((v / 0x1_0000)
        % 0x100) as u8 && (v >> 8u32) as u8 == ((v / 0x100) % 0x100) as u8 && v as u8 == (v
        % 0x100) as u8 && ((v / 0x100_0000) as u8) * 0x100_0000 + (((v / 0x1_0000) % 0x100) as u8)
        * 0x1_0000 + (((v / 0x100) % 0x100) as u8) * 0x100 + ((v % 0x100) as u8) == v && (((v
        / 0x100) % 0x100) as u8) * 0x100 + ((v % 0x100) as u8) == v % 0x10000) by (bit_vector);
}

/// Physical memory: RAM and the EFB window.
pub struct Mmu {
    ram: Vec<u8>,
    efb: Vec<u8>,
}

impl Mmu {
    pub closed spec fn wf(&self) -> bool {
        &&& self.ram@.len() == RAM_SIZE
        &&& self.efb@.len() == EFB_SIZE
    }

    /// Byte at mapped physical address `phys`.
    pub closed spec fn mem(&self, phys: int) -> u8 {
        if in_ram(phys, 1) {
            self.ram@[phys]
        } else {
            self.efb@[phys - EFB_BASE]
        }
    }

    /// All mapped bytes other than `phys..phys + len` are as in `old`.
    pub open spec fn same_outside(&self, old: &Mmu, phys: int, len: int) -> bool {
        forall|b: int| mapped(b, 1) && !(phys <= b < phys + len) ==> #[trigger] self.mem(b) == old.mem(b)
    }

    pub fn new() -> (r: Mmu)
        ensures
            r.wf(),
            forall|b: int| mapped(b, 1) ==> #[trigger] r.mem(b) == 0,
    {
        Mmu { ram: vec![0u8; RAM_SIZE as usize], efb: vec![0u8; EFB_SIZE as usize] }
    }

    /// Copies `data` to the start of RAM.
    pub fn load_ram(&mut self, data: &[u8])
        requires
            old(self).wf(),
            data@.len() <= RAM_SIZE,
        ensures
            final(self).wf(),
            forall|b: int| 0 <= b < data@.len() ==> #[trigger] final(self).mem(b) == data@[b],
            final(self).same_outside(old(self), 0, data@.len() as int),
    {
        let mut i: usize = 0;
        while i < data.len()
            invariant
                self.wf(),
                i <= data@.len() <= RAM_SIZE,
                forall|b: int| 0 <= b < i ==> #[trigger] self.mem(b) == data@[b],
                self.same_outside(old(self), 0, i as int),
            decreases data@.len() - i,
        {
            self.write_byte(i as u32, data[i]);
            i = i + 1;
        }
    }

    fn read_byte(&self, phys: u32) -> (r: u8)
        requires
            self.wf(),
            mapped(phys as int, 1),
        ensures
            r == self.mem(phys as int),
    {
        if phys < RAM_SIZE {
            self.ram[phys as usize]
        } else {
            self.efb[(phys - EFB_BASE) as usize]
        }
    }

    fn write_byte(&mut self, phys: u32, val: u8)
        requires
            old(self).wf(),
            mapped(phys as int, 1),
        ensures
            final(self).wf(),
            final(self).mem(phys as int) == val,
            final(self).same_outside(old(self), phys as int, 1),
    {
        if phys < RAM_SIZE {
            self.ram.set(phys as usize, val);
        } else {
            self.efb.set((phys - EFB_BASE) as usize, val);
        }
    }

    pub fn phys_read_u8(&self, phys: u32) -> (r: u8)
        requires
            self.wf(),
            mapped(phys as int, 1),
        ensures
            r == self.mem(phys as int),
    {
        self.read_byte(phys)
    }

    pub fn phys_read_u16(&self, phys: u32) -> (r: u16)
        requires
            self.wf(),
            mapped(phys as int, 2),
        ensures
            r == be16_of(self.mem(phys as int), self.mem(phys + 1)),
    {
        let b0 = self.read_byte(phys) as u16;
        let b1 = self.read_byte(phys + 1) as u16;
        b0 * 0x100 + b1
    }

    pub fn phys_read_u32(&self, phys: u32) -> (r: u32)
        requires
            self.wf(),
            mapped(phys as int, 4),
        ensures
            r == be32_of(
                self.mem(phys as int),
                self.mem(phys + 1),
                self.mem(phys + 2),
                self.mem(phys + 3),
            ),
    {
        let b0 = self.read_byte(phys) as u32;
        let b1 = self.read_byte(phys + 1) as u32;
        let b2 = self.read_byte(phys + 2) as u32;
        let b3 = self.read_byte(phys + 3) as u32;
        b0 * 0x100_0000 + b1 * 0x1_0000 + b2 * 0x100 + b3
    }

    pub fn phys_write_u8(&mut self, phys: u32, val: u8)
        requires
            old(self).wf(),
            mapped(phys as int, 1),
        ensures
            final(self).wf(),
            final(self).mem(phys as int) == val,
            final(self).same_outside(old(self), phys as int, 1),
    {
        self.write_byte(phys, val);
    }

    pub fn phys_write_u16(&mut self, phys: u32, val: u16)
        requires
            old(self).wf(),
            mapped(phys as int, 2),
        ensures
            final(self).wf(),
            final(self).mem(phys as int) == be32_byte(val as u32, 2),
            final(self).mem(phys + 1) == be32_byte(val as u32, 3),
            final(self).same_outside(old(self), phys as int, 2),
    {
        proof {
            lemma_be32_bytes(val as u32);
        }
        let v = val as u32;
        self.write_byte(phys, (v >> 8u32) as u8);
        self.write_byte(phys + 1, v as u8);
    }

    pub fn phys_write_u32(&mut self, phys: u32, val: u32)
        requires
            old(self).wf(),
            mapped(phys as int, 4),
        ensures
            final(self).wf(),
            forall|i: int| 0 <= i < 4 ==> #[trigger] final(self).mem(phys + i) == be32_byte(val, i),
            final(self).same_outside(old(self), phys as int, 4),
    {
        proof {
            lemma_be32_bytes(val);
        }
        self.write_byte(phys, (val >> 24u32) as u8);
        self.write_byte(phys + 1, (val >> 16u32) as u8);
        self.write_byte(phys + 2, (val >> 8u32) as u8);
        self.write_byte(phys + 3, val as u8);
        assert(forall|i: int| 0 <= i < 4 ==> #[trigger] self.mem(phys + i) == be32_byte(val, i)) by {
            assert(self.mem(phys + 0) == be32_byte(val, 0));
        }
    }

    pub fn virt_read_u8(&self, addr: u32) -> (r: u8)
        requires
            self.wf(),
            mapped(virt_to_phys_spec(addr) as int, 1),
        ensures
            r == self.mem(virt_to_phys_spec(addr) as int),
    {
        self.phys_read_u8(virt_to_phys(addr))
    }

    pub fn virt_read_u16(&self, addr: u32) -> (r: u16)
        requires
            self.wf(),
            mapped(virt_to_phys_spec(addr) as int, 2),
        ensures
            r == be16_of(
                self.mem(virt_to_phys_spec(addr) as int),
                self.mem(virt_to_phys_spec(addr) + 1),
            ),
    {
        self.phys_read_u16(virt_to_phys(addr))
    }

    pub fn virt_read_u32(&self, addr: u32) -> (r: u32)
        requires
            self.wf(),
            mapped(virt_to_phys_spec(addr) as int, 4),
        ensures
            r == be32_of(
                self.mem(virt_to_phys_spec(addr) as int),
                self.mem(virt_to_phys_spec(addr) + 1),
                self.mem(virt_to_phys_spec(addr) + 2),
                self.mem(virt_to_phys_spec(addr) + 3),
            ),
    {
        self.phys_read_u32(virt_to_phys(addr))
    }

    /// Instruction word at virtual address `pc`: the big-endian word in
    /// memory, or zero (no valid instruction) outside mapped memory.
    pub open spec fn fetch_spec(&self, pc: u32) -> u32 {
        let p = virt_to_phys_spec(pc) as int;
        if mapped(p, 4) {
            be32_of(self.mem(p), self.mem(p + 1), self.mem(p + 2), self.mem(p + 3))
        } else {
            0
        }
    }

    pub fn fetch_instruction(&self, pc: u32) -> (r: u32)
        requires
            self.wf(),
        ensures
            r == self.fetch_spec(pc),
    {
        let phys = virt_to_phys(pc);
        if is_mapped(phys, 4) {
            self.phys_read_u32(phys)
        } else {
            0
        }
    }

    pub fn virt_write_u8(&mut self, addr: u32, val: u8)
        requires
            old(self).wf(),
            mapped(virt_to_phys_spec(addr) as int, 1),
        ensures
            final(self).wf(),
            final(self).mem(virt_to_phys_spec(addr) as int) == val,
            final(self).same_outside(old(self), virt_to_phys_spec(addr) as int, 1),
    {
        self.phys_write_u8(virt_to_phys(addr), val)
    }

    pub fn virt_write_u32(&mut self, addr: u32, val: u32)
        requires
            old(self).wf(),
            mapped(virt_to_phys_spec(addr) as int, 4),
        ensures
            final(self).wf(),
            forall|i: int|
                0 <= i < 4 ==> #[trigger] final(self).mem(virt_to_phys_spec(addr) + i) == be32_byte(
                    val,
                    i,
                ),
            final(self).same_outside(old(self), virt_to_phys_spec(addr) as int, 4),
    {
        self.phys_write_u32(virt_to_phys(addr), val)
    }

    /// The `len` bytes at `phys`.
    pub fn phys_slice(&self, phys: u32, len: u32) -> (r: &[u8])
        requires
            self.wf(),
            mapped(phys as int, len as int),
        ensures
            r@.len() == len,
            forall|i: int| 0 <= i < len ==> r@[i] == #[trigger] self.mem(phys + i),
    {
        if in_ram_exec(phys, len) {
            let r = vstd::slice::slice_subrange(
                self.ram.as_slice(),
                phys as usize,
                (phys + len) as usize,
            );
            assert forall|i: int| 0 <= i < len implies r@[i] == #[trigger] self.mem(phys + i) by {
                assert(in_ram(phys + i, 1));
            }
            r
        } else {
            let off = (phys - EFB_BASE) as usize;
            let r = vstd::slice::slice_subrange(self.efb.as_slice(), off, off + len as usize);
            assert forall|i: int| 0 <= i < len implies r@[i] == #[trigger] self.mem(phys + i) by {
                assert(!in_ram(phys + i, 1));
            }
            r
        }
    }
}

fn in_ram_exec(phys: u32, len: u32) -> (r: bool)
    requires
        mapped(phys as int, len as int),
    ensures
        r == in_ram(phys as int, len as int),
{
    phys <= RAM_SIZE && len <= RAM_SIZE - phys
}

/// A 32-bit write followed by a 32-bit read of the same mapped address
/// returns the written value.
pub proof fn lemma_write_read_u32(before: Mmu, after: Mmu, phys: u32, val: u32)
    requires
        mapped(phys as int, 4),
        forall|i: int| 0 <= i < 4 ==> #[trigger] after.mem(phys + i) == be32_byte(val, i),
    ensures
        be32_of(after.mem(phys as int), after.mem(phys + 1), after.mem(phys + 2), after.mem(phys + 3))
            == val,
{
    lemma_be32_bytes(val);
    assert(after.mem(phys + 0) == be32_byte(val, 0));
    assert(after.mem(phys + 1) == be32_byte(val, 1));
    assert(after.mem(phys + 2) == be32_byte(val, 2));
    assert(after.mem(phys + 3) == be32_byte(val, 3));
}

/// RAM and the EFB window never overlap: an address is in at most one.
pub proof fn lemma_regions_disjoint(phys: int)
    ensures
        !(in_ram(phys, 1) && in_efb(phys, 1)),
{
}

} // verus!
