use crate::bits::{bit16, get_bit16};
use crate::hw::mmio::{read16_of, read32_of, read8_of, unwrap_read16, unwrap_read32, unwrap_read8};
use vstd::prelude::*;

verus! {

broadcast use vstd::array::group_array_axioms;

pub const CP_STATUS: u32 = 0x00;
pub const CP_CONTROL: u32 = 0x02;
pub const CP_CLEAR: u32 = 0x04;
/// First FIFO pointer register (base lo); fourteen halfwords follow.
pub const CP_FIFO_BASE: u32 = 0x20;
pub const CP_FIFO_REGS: u32 = 14;

/// Status bits.
pub const CP_SR_FIFO_OVERFLOW: u16 = 0;
pub const CP_SR_FIFO_UNDERFLOW: u16 = 1;
pub const CP_SR_READ_IDLE: u16 = 2;
pub const CP_SR_CMD_IDLE: u16 = 3;
pub const CP_SR_BP_INTERRUPT: u16 = 4;
/// Control bits.
pub const CP_CR_GP_FIFO_READ_ENABLE: u16 = 0;
pub const CP_CR_CP_INTERRUPT_ENABLE: u16 = 1;
pub const CP_CR_FIFO_OVERFLOW_INTERRUPT_ENABLE: u16 = 2;
pub const CP_CR_FIFO_UNDERFLOW_INTERRUPT_ENABLE: u16 = 3;
pub const CP_CR_GP_LINK_ENABLE: u16 = 4;
pub const CP_CR_BP_INTERRUPT_ENABLE: u16 = 5;

/// Index of a FIFO pointer register at `offset`.
pub open spec fn cp_fifo_index(offset: u32) -> Option<int> {
    if CP_FIFO_BASE <= offset < CP_FIFO_BASE + CP_FIFO_REGS * 2 && offset % 2 == 0 {
        Some(((offset - CP_FIFO_BASE) / 2) as int)
    } else {
        None
    }
}

/// Command processor registers (halfword wide).
pub struct Cp {
    pub status: u16,
    pub control: u16,
    pub fifo: [u16; 14],
}

impl Cp {
    pub fn new() -> (r: Self)
        ensures
            r.status == 0,
            r.control == 0,
            forall|i: int| 0 <= i < CP_FIFO_REGS ==> r.fifo[i] == 0,
    {
        Self { status: 0, control: 0, fifo: [0; 14] }
    }

    pub open spec fn interrupt_active_spec(&self) -> bool {
        (bit16(self.status, CP_SR_BP_INTERRUPT) && bit16(self.control, CP_CR_BP_INTERRUPT_ENABLE))
            || (bit16(self.status, CP_SR_FIFO_OVERFLOW) && bit16(
            self.control,
            CP_CR_FIFO_OVERFLOW_INTERRUPT_ENABLE,
        )) || (bit16(self.status, CP_SR_FIFO_UNDERFLOW) && bit16(
            self.control,
            CP_CR_FIFO_UNDERFLOW_INTERRUPT_ENABLE,
        ))
    }

    /// A breakpoint, overflow or underflow condition is raised and enabled.
    pub fn interrupt_active(&self) -> (r: bool)
        ensures
            r == self.interrupt_active_spec(),
    {
        (get_bit16(self.status, CP_SR_BP_INTERRUPT) && get_bit16(self.control, CP_CR_BP_INTERRUPT_ENABLE))
            || (get_bit16(self.status, CP_SR_FIFO_OVERFLOW) && get_bit16(
            self.control,
            CP_CR_FIFO_OVERFLOW_INTERRUPT_ENABLE,
        )) || (get_bit16(self.status, CP_SR_FIFO_UNDERFLOW) && get_bit16(
            self.control,
            CP_CR_FIFO_UNDERFLOW_INTERRUPT_ENABLE,
        ))
    }

    /// Halfword registers answer 2-byte accesses; the write-only clear
    /// register reads as 0.
    pub open spec fn read_raw_spec(&self, offset: u32, size: u32) -> Option<u32> {
        if size != 2 {
            None
        } else if offset == CP_STATUS {
            Some(self.status as u32)
        } else if offset == CP_CONTROL {
            Some(self.control as u32)
        } else if offset == CP_CLEAR {
            Some(0)
        } else {
            match cp_fifo_index(offset) {
                Some(i) => Some(self.fifo[i] as u32),
                None => None,
            }
        }
    }

    /// Writing the clear register with bit 0 / bit 1 set clears the
    /// overflow / underflow status; other registers store the halfword.
    pub open spec fn write_raw_spec(&self, offset: u32, size: u32, val: u32) -> (Cp, bool) {
        let v = val as u16;
        if size != 2 {
            (*self, false)
        } else if offset == CP_STATUS {
            (Cp { status: v, ..*self }, true)
        } else if offset == CP_CONTROL {
            (Cp { control: v, ..*self }, true)
        } else if offset == CP_CLEAR {
            let s1 = if bit16(v, 0) {
                crate::bits::with_bit16(self.status, CP_SR_FIFO_OVERFLOW, false)
            } else {
                self.status
            };
            let s2 = if bit16(v, 1) {
                crate::bits::with_bit16(s1, CP_SR_FIFO_UNDERFLOW, false)
            } else {
                s1
            };
            (Cp { status: s2, ..*self }, true)
        } else {
            match cp_fifo_index(offset) {
                Some(i) => (Cp { fifo: vstd::array::spec_array_update(self.fifo, i, v), ..*self }, true),
                None => (*self, false),
            }
        }
    }

    fn read_raw(&self, offset: u32, size: u32) -> (r: Option<u32>)
        ensures
            r == self.read_raw_spec(offset, size),
    {
        if size != 2 {
            None
        } else if offset == CP_STATUS {
            Some(self.status as u32)
        } else if offset == CP_CONTROL {
            Some(self.control as u32)
        } else if offset == CP_CLEAR {
            Some(0)
        } else if CP_FIFO_BASE <= offset && offset < CP_FIFO_BASE + CP_FIFO_REGS * 2 && offset % 2 == 0 {
            Some(self.fifo[((offset - CP_FIFO_BASE) / 2) as usize] as u32)
        } else {
            None
        }
    }

    fn write_raw(&mut self, offset: u32, size: u32, val: u32) -> (hit: bool)
        ensures
            (*final(self), hit) == old(self).write_raw_spec(offset, size, val),
    {
        let v = val as u16;
        if size != 2 {
            false
        } else if offset == CP_STATUS {
            self.status = v;
            true
        } else if offset == CP_CONTROL {
            self.control = v;
            true
        } else if offset == CP_CLEAR {
            if get_bit16(v, 0) {
                self.status = crate::bits::set_bit16(self.status, CP_SR_FIFO_OVERFLOW, false);
            }
            if get_bit16(v, 1) {
                self.status = crate::bits::set_bit16(self.status, CP_SR_FIFO_UNDERFLOW, false);
            }
            true
        } else if CP_FIFO_BASE <= offset && offset < CP_FIFO_BASE + CP_FIFO_REGS * 2 && offset % 2 == 0 {
            let i = ((offset - CP_FIFO_BASE) / 2) as usize;
            self.fifo[i] = v;
            assert(self.fifo =~= vstd::array::spec_array_update(old(self).fifo, i as int, v));
            true
        } else {
            false
        }
    }

    pub fn mmio_read_u8(&mut self, offset: u32) -> (r: u8)
        ensures
            r == read8_of(old(self).read_raw_spec(offset, 1)),
            *final(self) == *old(self),
    {
        unwrap_read8(self.read_raw(offset, 1))
    }

    pub fn mmio_write_u8(&mut self, offset: u32, val: u8)
        ensures
            *final(self) == old(self).write_raw_spec(offset, 1, val as u32).0,
    {
        self.write_raw(offset, 1, val as u32);
    }

    pub fn mmio_read_u16(&mut self, offset: u32) -> (r: u16)
        ensures
            r == read16_of(old(self).read_raw_spec(offset, 2)),
            *final(self) == *old(self),
    {
        unwrap_read16(self.read_raw(offset, 2))
    }

    pub fn mmio_write_u16(&mut self, offset: u32, val: u16)
        ensures
            *final(self) == old(self).write_raw_spec(offset, 2, val as u32).0,
    {
        self.write_raw(offset, 2, val as u32);
    }

    pub fn mmio_read_u32(&mut self, offset: u32) -> (r: u32)
        ensures
            r == read32_of(old(self).read_raw_spec(offset, 4)),
            *final(self) == *old(self),
    {
        unwrap_read32(self.read_raw(offset, 4))
    }

    pub fn mmio_write_u32(&mut self, offset: u32, val: u32)
        ensures
            *final(self) == old(self).write_raw_spec(offset, 4, val).0,
    {
        self.write_raw(offset, 4, val);
    }
}

} // verus!
