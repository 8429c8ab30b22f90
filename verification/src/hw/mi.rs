use crate::hw::mmio::{read16_of, read32_of, read8_of, unwrap_read16, unwrap_read32, unwrap_read8};
use vstd::prelude::*;

verus! {

/// Offset of the memory-interface interrupt mask register.
pub const MI_INTERRUPT_MASK: u32 = 0x1C;

/// Memory interface: one interrupt mask register.
pub struct Mi {
    pub interrupt_mask: u32,
}

impl Mi {
    pub fn new() -> (r: Self)
        ensures
            r.interrupt_mask == 0,
    {
        Self { interrupt_mask: 0 }
    }

    /// Register value seen by a `size`-byte read at `offset`.
    pub open spec fn read_raw_spec(&self, offset: u32, size: u32) -> Option<u32> {
        if offset == MI_INTERRUPT_MASK && size == 4 {
            Some(self.interrupt_mask)
        } else {
            None
        }
    }

    /// State after a `size`-byte write of `val` at `offset`, and whether a
    /// register took it.
    pub open spec fn write_raw_spec(&self, offset: u32, size: u32, val: u32) -> (Mi, bool) {
        if offset == MI_INTERRUPT_MASK && size == 4 {
            (Mi { interrupt_mask: val }, true)
        } else {
            (*self, false)
        }
    }

    fn read_raw(&self, offset: u32, size: u32) -> (r: Option<u32>)
        ensures
            r == self.read_raw_spec(offset, size),
    {
        if offset == MI_INTERRUPT_MASK && size == 4 {
            Some(self.interrupt_mask)
        } else {
            None
        }
    }

    fn write_raw(&mut self, offset: u32, size: u32, val: u32) -> (hit: bool)
        ensures
            (*final(self), hit) == old(self).write_raw_spec(offset, size, val),
    {
        if offset == MI_INTERRUPT_MASK && size == 4 {
            self.interrupt_mask = val;
            true
        } else {
            false
        }
    }

    pub fn mmio_read_u8(&mut self, offset: u32) -> (r: u8)
        ensures
            r == read8_of(old(self).read_raw_spec(offset, 1)),
            *final(self) == *old(self),
    {
        unwrap_read8(self.read_raw(offset, 1))
    }

    pub fn mmio_write_u8(&mut self, offset: u32, val: u8)
        ensures
            *final(self) == old(self).write_raw_spec(offset, 1, val as u32).0,
    {
        self.write_raw(offset, 1, val as u32);
    }

    pub fn mmio_read_u16(&mut self, offset: u32) -> (r: u16)
        ensures
            r == read16_of(old(self).read_raw_spec(offset, 2)),
            *final(self) == *old(self),
    {
        unwrap_read16(self.read_raw(offset, 2))
    }

    pub fn mmio_write_u16(&mut self, offset: u32, val: u16)
        ensures
            *final(self) == old(self).write_raw_spec(offset, 2, val as u32).0,
    {
        self.write_raw(offset, 2, val as u32);
    }

    pub fn mmio_read_u32(&mut self, offset: u32) -> (r: u32)
        ensures
            r == read32_of(old(self).read_raw_spec(offset, 4)),
            *final(self) == *old(self),
    {
        unwrap_read32(self.read_raw(offset, 4))
    }

    pub fn mmio_write_u32(&mut self, offset: u32, val: u32)
        ensures
            *final(self) == old(self).write_raw_spec(offset, 4, val).0,
    {
        self.write_raw(offset, 4, val);
    }
}

} // verus!
