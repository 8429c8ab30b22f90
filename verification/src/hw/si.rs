use crate::bits::{bit32, get_bit32};
use crate::hw::mmio::{read16_of, read32_of, read8_of, unwrap_read16, unwrap_read32, unwrap_read8};
use vstd::prelude::*;

verus! {

pub const SI_POLL: u32 = 0x30;
pub const SI_COMCSR: u32 = 0x34;
pub const SI_STATUS: u32 = 0x38;
pub const SI_CH0_IN_BUF_HI: u32 = 0x3C;
pub const SI_IO_BUF: u32 = 0x80;

/// COMCSR bits.
pub const SI_TSTART: u32 = 0;
pub const SI_RDST_INTERRUPT_MASK: u32 = 27;
pub const SI_RDST_INTERRUPT: u32 = 28;
pub const SI_COM_ERROR: u32 = 29;
pub const SI_TC_INTERRUPT_MASK: u32 = 30;
pub const SI_TC_INTERRUPT: u32 = 31;

/// COMCSR fields a write copies: transfer start, channel, callback and
/// command enables, in/out lengths, channel enable and number, and the two
/// interrupt masks.
pub const SI_COMCSR_WRITABLE: u32 = 0x4F7F_7FC7;
/// COMCSR interrupt flags, cleared by writing 1.
pub const SI_COMCSR_ACK: u32 = 0x9000_0000;

/// Serial-interface channel selected in COMCSR.
#[derive(Debug, PartialEq, Eq, Structural, Clone, Copy)]
pub enum Channel {
    Channel0,
    Channel1,
    Channel2,
    Channel3,
}

/// COMCSR after a write of `val`: writable fields copied, set interrupt
/// flags acknowledged (cleared), error and reserved bits kept.
pub open spec fn comcsr_after_write(old: u32, val: u32) -> u32 {
    (old & !SI_COMCSR_WRITABLE & !SI_COMCSR_ACK) | (val & SI_COMCSR_WRITABLE) | (old & !val
        & SI_COMCSR_ACK)
}

/// Serial interface registers.
pub struct Si {
    pub poll: u32,
    pub comcsr: u32,
    pub status: u32,
    pub ch0_in_buf_hi: u32,
    pub io_buf: u32,
}

impl Si {
    pub fn new() -> (r: Self)
        ensures
            r.poll == 0 && r.comcsr == 0 && r.status == 0 && r.ch0_in_buf_hi == 0 && r.io_buf == 0,
    {
        Self { poll: 0, comcsr: 0, status: 0, ch0_in_buf_hi: 0, io_buf: 0 }
    }

    pub open spec fn interrupt_active_spec(&self) -> bool {
        (bit32(self.comcsr, SI_TC_INTERRUPT) && bit32(self.comcsr, SI_TC_INTERRUPT_MASK)) || (bit32(
            self.comcsr,
            SI_RDST_INTERRUPT,
        ) && bit32(self.comcsr, SI_RDST_INTERRUPT_MASK))
    }

    /// Transfer-complete or read-status interrupt raised and unmasked.
    pub fn interrupt_active(&self) -> (r: bool)
        ensures
            r == self.interrupt_active_spec(),
    {
        (get_bit32(self.comcsr, SI_TC_INTERRUPT) && get_bit32(self.comcsr, SI_TC_INTERRUPT_MASK))
            || (get_bit32(self.comcsr, SI_RDST_INTERRUPT) && get_bit32(
            self.comcsr,
            SI_RDST_INTERRUPT_MASK,
        ))
    }

    /// Channel selected by COMCSR bits 1..=2.
    pub fn channel(&self) -> (r: Channel)
        ensures
            r == (if (self.comcsr >> 1u32) & 3 == 0 {
                Channel::Channel0
            } else if (self.comcsr >> 1u32) & 3 == 1 {
                Channel::Channel1
            } else if (self.comcsr >> 1u32) & 3 == 2 {
                Channel::Channel2
            } else {
                Channel::Channel3
            }),
    {
        let c = (self.comcsr >> 1u32) & 3;
        if c == 0 {
            Channel::Channel0
        } else if c == 1 {
            Channel::Channel1
        } else if c == 2 {
            Channel::Channel2
        } else {
            Channel::Channel3
        }
    }

    pub open spec fn read_raw_spec(&self, offset: u32, size: u32) -> Option<u32> {
        if size != 4 {
            None
        } else if offset == SI_POLL {
            Some(self.poll)
        } else if offset == SI_COMCSR {
            Some(self.comcsr)
        } else if offset == SI_STATUS {
            Some(self.status)
        } else if offset == SI_CH0_IN_BUF_HI {
            Some(self.ch0_in_buf_hi)
        } else if offset == SI_IO_BUF {
            Some(self.io_buf)
        } else {
            None
        }
    }

    pub open spec fn write_raw_spec(&self, offset: u32, size: u32, val: u32) -> (Si, bool) {
        if size != 4 {
            (*self, false)
        } else if offset == SI_POLL {
            (Si { poll: val, ..*self }, true)
        } else if offset == SI_COMCSR {
            (Si { comcsr: comcsr_after_write(self.comcsr, val), ..*self }, true)
        } else if offset == SI_STATUS {
            (Si { status: val, ..*self }, true)
        } else if offset == SI_CH0_IN_BUF_HI {
            (Si { ch0_in_buf_hi: val, ..*self }, true)
        } else if offset == SI_IO_BUF {
            (Si { io_buf: val, ..*self }, true)
        } else {
            (*self, false)
        }
    }

    fn read_raw(&self, offset: u32, size: u32) -> (r: Option<u32>)
        ensures
            r == self.read_raw_spec(offset, size),
    {
        if size != 4 {
            None
        } else if offset == SI_POLL {
            Some(self.poll)
        } else if offset == SI_COMCSR {
            Some(self.comcsr)
        } else if offset == SI_STATUS {
            Some(self.status)
        } else if offset == SI_CH0_IN_BUF_HI {
            Some(self.ch0_in_buf_hi)
        } else if offset == SI_IO_BUF {
            Some(self.io_buf)
        } else {
            None
        }
    }

    fn write_raw(&mut self, offset: u32, size: u32, val: u32) -> (hit: bool)
        ensures
            (*final(self), hit) == old(self).write_raw_spec(offset, size, val),
    {
        if size != 4 {
            false
        } else if offset == SI_POLL {
            self.poll = val;
            true
        } else if offset == SI_COMCSR {
            let csr = self.comcsr;
            self.comcsr = (csr & !SI_COMCSR_WRITABLE & !SI_COMCSR_ACK) | (val & SI_COMCSR_WRITABLE) | (
            csr & !val & SI_COMCSR_ACK);
            true
        } else if offset == SI_STATUS {
            self.status = val;
            true
        } else if offset == SI_CH0_IN_BUF_HI {
            self.ch0_in_buf_hi = val;
            true
        } else if offset == SI_IO_BUF {
            self.io_buf = val;
            true
        } else {
            false
        }
    }

    pub fn mmio_read_u8(&mut self, offset: u32) -> (r: u8)
        ensures
            r == read8_of(old(self).read_raw_spec(offset, 1)),
            *final(self) == *old(self),
    {
        unwrap_read8(self.read_raw(offset, 1))
    }

    pub fn mmio_write_u8(&mut self, offset: u32, val: u8)
        ensures
            *final(self) == old(self).write_raw_spec(offset, 1, val as u32).0,
    {
        self.write_raw(offset, 1, val as u32);
    }

    pub fn mmio_read_u16(&mut self, offset: u32) -> (r: u16)
        ensures
            r == read16_of(old(self).read_raw_spec(offset, 2)),
            *final(self) == *old(self),
    {
        unwrap_read16(self.read_raw(offset, 2))
    }

    pub fn mmio_write_u16(&mut self, offset: u32, val: u16)
        ensures
            *final(self) == old(self).write_raw_spec(offset, 2, val as u32).0,
    {
        self.write_raw(offset, 2, val as u32);
    }

    pub fn mmio_read_u32(&mut self, offset: u32) -> (r: u32)
        ensures
            r == read32_of(old(self).read_raw_spec(offset, 4)),
            *final(self) == *old(self),
    {
        unwrap_read32(self.read_raw(offset, 4))
    }

    pub fn mmio_write_u32(&mut self, offset: u32, val: u32)
        ensures
            *final(self) == old(self).write_raw_spec(offset, 4, val).0,
    {
        self.write_raw(offset, 4, val);
    }
}

/// Writing 1 to a COMCSR interrupt flag acknowledges it: afterwards the
/// flag is clear, whatever it was.
pub proof fn lemma_comcsr_ack_clears(old: u32, val: u32)
    requires
        bit32(val, SI_TC_INTERRUPT),
    ensures
        !bit32(comcsr_after_write(old, val), SI_TC_INTERRUPT),
{
    assert(((((old & !0x4F7F_7FC7u32 & !0x9000_0000u32) | (val & 0x4F7F_7FC7u32)) | (old & !val
        & 0x9000_0000u32)) >> 31u32) & 1u32 != 1u32) by (bit_vector)
        requires
            (val >> 31u32) & 1u32 == 1u32,
    ;
}

} // verus!
