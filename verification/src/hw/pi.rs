use crate::bits::{bit32, set_bit32, with_bit32};
use crate::hw::mmio::{read16_of, read32_of, read8_of, unwrap_read16, unwrap_read32, unwrap_read8};
use vstd::prelude::*;

verus! {

/// Register offsets inside the processor-interface block.
pub const PI_INTERRUPT_CAUSE: u32 = 0x00;
pub const PI_INTERRUPT_MASK: u32 = 0x04;
pub const PI_CONSOLE_TYPE: u32 = 0x2C;

/// Interrupt sources collected by the processor interface, in the order
/// of their bits in the cause register.
#[derive(Clone, Copy, Debug, PartialEq, Eq, Structural)]
pub enum InterruptFlag {
    Error,
    ResetSwitch,
    Di,
    Si,
    Exi,
    Ai,
    Dsp,
    Mi,
    Vi,
    PeToken,
    PeFinish,
    Cp,
    Debug,
    Hsp,
}

/// Bit of `flag` in the cause and mask registers.
pub open spec fn flag_bit(flag: InterruptFlag) -> u32 {
    match flag {
        InterruptFlag::Error => 0,
        InterruptFlag::ResetSwitch => 1,
        InterruptFlag::Di => 2,
        InterruptFlag::Si => 3,
        InterruptFlag::Exi => 4,
        InterruptFlag::Ai => 5,
        InterruptFlag::Dsp => 6,
        InterruptFlag::Mi => 7,
        InterruptFlag::Vi => 8,
        InterruptFlag::PeToken => 9,
        InterruptFlag::PeFinish => 10,
        InterruptFlag::Cp => 11,
        InterruptFlag::Debug => 12,
        InterruptFlag::Hsp => 13,
    }
}

impl InterruptFlag {
    pub fn bit(self) -> (r: u32)
        ensures
            r == flag_bit(self),
            r < 14,
    {
        match self {
            InterruptFlag::Error => 0,
            InterruptFlag::ResetSwitch => 1,
            InterruptFlag::Di => 2,
            InterruptFlag::Si => 3,
            InterruptFlag::Exi => 4,
            InterruptFlag::Ai => 5,
            InterruptFlag::Dsp => 6,
            InterruptFlag::Mi => 7,
            InterruptFlag::Vi => 8,
            InterruptFlag::PeToken => 9,
            InterruptFlag::PeFinish => 10,
            InterruptFlag::Cp => 11,
            InterruptFlag::Debug => 12,
            InterruptFlag::Hsp => 13,
        }
    }
}

/// Processor interface: pending interrupt causes, their mask, and the
/// console type.
#[derive(Clone, Copy)]
pub struct Pi {
    pub cause: u32,
    pub mask: u32,
    pub console_type: u32,
}

impl Pi {
    pub fn new() -> (r: Self)
        ensures
            r.cause == 0,
            r.mask == 0,
            r.console_type == 0,
    {
        Pi { cause: 0, mask: 0, console_type: 0 }
    }

    /// Whether an interrupt is raised that the mask lets through.
    pub fn interrupt_pending(&self) -> (r: bool)
        ensures
            r == (self.cause & self.mask != 0),
    {
        self.cause & self.mask != 0
    }

    /// Marks `flag` pending.
    pub fn assert_interrupt(&mut self, flag: InterruptFlag)
        ensures
            *final(self) == (Pi { cause: with_bit32(old(self).cause, flag_bit(flag), true), ..*old(self) }),
    {
        self.cause = set_bit32(self.cause, flag.bit(), true);
    }

    /// Clears `flag`.
    pub fn clear_interrupt(&mut self, flag: InterruptFlag)
        ensures
            *final(self) == (Pi { cause: with_bit32(old(self).cause, flag_bit(flag), false), ..*old(self) }),
    {
        self.cause = set_bit32(self.cause, flag.bit(), false);
    }

    /// Whether `flag` is pending.
    pub open spec fn pending(&self, flag: InterruptFlag) -> bool {
        bit32(self.cause, flag_bit(flag))
    }

    pub open spec fn read_raw_spec(&self, offset: u32, size: u32) -> Option<u32> {
        if size != 4 {
            None
        } else if offset == PI_INTERRUPT_CAUSE {
            Some(self.cause)
        } else if offset == PI_INTERRUPT_MASK {
            Some(self.mask)
        } else if offset == PI_CONSOLE_TYPE {
            Some(self.console_type)
        } else {
            None
        }
    }

    /// Only the mask register takes writes.
    pub open spec fn write_raw_spec(&self, offset: u32, size: u32, val: u32) -> (Pi, bool) {
        if size == 4 && offset == PI_INTERRUPT_MASK {
            (Pi { mask: val, ..*self }, true)
        } else {
            (*self, false)
        }
    }

    fn read_raw(&self, offset: u32, size: u32) -> (r: Option<u32>)
        ensures
            r == self.read_raw_spec(offset, size),
    {
        if size != 4 {
            None
        } else if offset == PI_INTERRUPT_CAUSE {
            Some(self.cause)
        } else if offset == PI_INTERRUPT_MASK {
            Some(self.mask)
        } else if offset == PI_CONSOLE_TYPE {
            Some(self.console_type)
        } else {
            None
        }
    }

    fn write_raw(&mut self, offset: u32, size: u32, val: u32) -> (hit: bool)
        ensures
            (*final(self), hit) == old(self).write_raw_spec(offset, size, val),
    {
        if size == 4 && offset == PI_INTERRUPT_MASK {
            self.mask = val;
            true
        } else {
            false
        }
    }

    pub fn mmio_read_u8(&mut self, offset: u32) -> (r: u8)
        ensures
            r == read8_of(old(self).read_raw_spec(offset, 1)),
            *final(self) == *old(self),
    {
        unwrap_read8(self.read_raw(offset, 1))
    }

    pub fn mmio_write_u8(&mut self, offset: u32, val: u8)
        ensures
            *final(self) == old(self).write_raw_spec(offset, 1, val as u32).0,
    {
        self.write_raw(offset, 1, val as u32);
    }

    pub fn mmio_read_u16(&mut self, offset: u32) -> (r: u16)
        ensures
            r == read16_of(old(self).read_raw_spec(offset, 2)),
            *final(self) == *old(self),
    {
        unwrap_read16(self.read_raw(offset, 2))
    }

    pub fn mmio_write_u16(&mut self, offset: u32, val: u16)
        ensures
            *final(self) == old(self).write_raw_spec(offset, 2, val as u32).0,
    {
        self.write_raw(offset, 2, val as u32);
    }

    pub fn mmio_read_u32(&mut self, offset: u32) -> (r: u32)
        ensures
            r == read32_of(old(self).read_raw_spec(offset, 4)),
            *final(self) == *old(self),
    {
        unwrap_read32(self.read_raw(offset, 4))
    }

    pub fn mmio_write_u32(&mut self, offset: u32, val: u32)
        ensures
            *final(self) == old(self).write_raw_spec(offset, 4, val).0,
    {
        self.write_raw(offset, 4, val);
    }
}

/// Raising a flag makes it pending and clearing it makes it idle; the other
/// flags keep their state either way.
pub proof fn lemma_flag_set_clear(pi: Pi, flag: InterruptFlag, other: InterruptFlag, b: bool)
    requires
        other != flag,
    ensures
        (Pi { cause: with_bit32(pi.cause, flag_bit(flag), b), ..pi }).pending(flag) == b,
        (Pi { cause: with_bit32(pi.cause, flag_bit(flag), b), ..pi }).pending(other) == pi.pending(other),
{
    crate::bits::lemma_with_bit32(pi.cause, flag_bit(flag), b, flag_bit(flag));
    crate::bits::lemma_with_bit32(pi.cause, flag_bit(flag), b, flag_bit(other));
}

} // verus!
