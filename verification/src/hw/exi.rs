use crate::hw::mmio::{read16_of, read32_of, read8_of, unwrap_read16, unwrap_read32, unwrap_read8};
use vstd::prelude::*;

verus! {

broadcast use vstd::array::group_array_axioms;

/// Number of 32-bit EXI registers: status, DMA address, DMA length,
/// control and immediate data for each of the three channels.
pub const EXI_REG_COUNT: u32 = 15;

/// Register index of an aligned word offset inside the EXI block.
pub open spec fn exi_reg_index(offset: u32, size: u32) -> Option<int> {
    if size == 4 && offset % 4 == 0 && offset < EXI_REG_COUNT * 4 {
        Some((offset / 4) as int)
    } else {
        None
    }
}

/// External interface: three channels of five registers each, at offsets
/// `0x14 * channel + 4 * register`.
pub struct Exi {
    pub regs: [u32; 15],
}

impl Exi {
    pub fn new() -> (r: Self)
        ensures
            forall|i: int| 0 <= i < EXI_REG_COUNT ==> r.regs[i] == 0,
    {
        Exi { regs: [0; 15] }
    }

    pub open spec fn read_raw_spec(&self, offset: u32, size: u32) -> Option<u32> {
        match exi_reg_index(offset, size) {
            Some(i) => Some(self.regs[i]),
            None => None,
        }
    }

    pub open spec fn write_raw_spec(&self, offset: u32, size: u32, val: u32) -> (Exi, bool) {
        match exi_reg_index(offset, size) {
            Some(i) => (Exi { regs: vstd::array::spec_array_update(self.regs, i, val) }, true),
            None => (*self, false),
        }
    }

    fn read_raw(&self, offset: u32, size: u32) -> (r: Option<u32>)
        ensures
            r == self.read_raw_spec(offset, size),
    {
        if size == 4 && offset % 4 == 0 && offset < EXI_REG_COUNT * 4 {
            Some(self.regs[(offset / 4) as usize])
        } else {
            None
        }
    }

    fn write_raw(&mut self, offset: u32, size: u32, val: u32) -> (hit: bool)
        ensures
            (*final(self), hit) == old(self).write_raw_spec(offset, size, val),
    {
        if size == 4 && offset % 4 == 0 && offset < EXI_REG_COUNT * 4 {
            let i = (offset / 4) as usize;
            self.regs[i] = val;
            assert(self.regs =~= vstd::array::spec_array_update(old(self).regs, i as int, val));
            true
        } else {
            false
        }
    }

    pub fn mmio_read_u8(&self, offset: u32) -> (r: u8)
        ensures
            r == read8_of(self.read_raw_spec(offset, 1)),
    {
        unwrap_read8(self.read_raw(offset, 1))
    }

    pub fn mmio_write_u8(&mut self, offset: u32, val: u8)
        ensures
            *final(self) == old(self).write_raw_spec(offset, 1, val as u32).0,
    {
        self.write_raw(offset, 1, val as u32);
    }

    pub fn mmio_read_u16(&self, offset: u32) -> (r: u16)
        ensures
            r == read16_of(self.read_raw_spec(offset, 2)),
    {
        unwrap_read16(self.read_raw(offset, 2))
    }

    pub fn mmio_write_u16(&mut self, offset: u32, val: u16)
        ensures
            *final(self) == old(self).write_raw_spec(offset, 2, val as u32).0,
    {
        self.write_raw(offset, 2, val as u32);
    }

    pub fn mmio_read_u32(&self, offset: u32) -> (r: u32)
        ensures
            r == read32_of(self.read_raw_spec(offset, 4)),
    {
        unwrap_read32(self.read_raw(offset, 4))
    }

    pub fn mmio_write_u32(&mut self, offset: u32, val: u32)
        ensures
            *final(self) == old(self).write_raw_spec(offset, 4, val).0,
    {
        self.write_raw(offset, 4, val);
    }
}

/// Writing an EXI register and reading it back gives the written word.
pub proof fn lemma_exi_write_read(exi: Exi, offset: u32, val: u32)
    requires
        exi_reg_index(offset, 4) is Some,
    ensures
        exi.write_raw_spec(offset, 4, val).0.read_raw_spec(offset, 4) == Some(val),
{
}

} // verus!
