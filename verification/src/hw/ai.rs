use crate::bits::{bit32, get_bit32, set_bit32, with_bit32};
use crate::hw::mmio::{read16_of, read32_of, read8_of, unwrap_read16, unwrap_read32, unwrap_read8};
use vstd::prelude::*;

verus! {

/// Register offsets inside the audio-interface block.
pub const AI_CONTROL: u32 = 0x00;
pub const AI_VOLUME: u32 = 0x04;
pub const AI_SAMPLE_COUNTER: u32 = 0x08;
pub const AI_INTERRUPT_TIMING: u32 = 0x0C;

/// Control register bits (lsb0): playback running, 48 kHz rate,
/// interrupt mask, interrupt status, and sample-counter reset.
pub const AICR_PLAY_BIT: u32 = 0;
pub const AICR_RATE_BIT: u32 = 1;
pub const AICR_INT_MASK_BIT: u32 = 2;
pub const AICR_INT_BIT: u32 = 3;
pub const AICR_RESET_BIT: u32 = 5;

/// CPU cycles per AI sample at 32 kHz: 486 MHz / 32000.
pub const CYCLES_PER_SAMPLE_32K: u64 = 15187;
/// CPU cycles per AI sample at 48 kHz: 486 MHz / 48000.
pub const CYCLES_PER_SAMPLE_48K: u64 = 10125;

/// Cycles per sample at the rate selected by `control`.
pub open spec fn cycles_per_sample(control: u32) -> u64 {
    if bit32(control, AICR_RATE_BIT) {
        CYCLES_PER_SAMPLE_48K
    } else {
        CYCLES_PER_SAMPLE_32K
    }
}

/// Control value after a write of `val`: writing 1 to the interrupt bit
/// acknowledges it, writing 0 keeps it; the reset bit never reads back.
pub open spec fn control_after_write(old: u32, val: u32) -> u32 {
    let keep_int = bit32(old, AICR_INT_BIT) && !bit32(val, AICR_INT_BIT);
    with_bit32(with_bit32(val, AICR_RESET_BIT, false), AICR_INT_BIT, keep_int)
}

/// Audio interface: control, volume, sample counter and interrupt timing.
#[derive(Clone, Copy)]
pub struct Ai {
    pub control: u32,
    pub volume: u32,
    pub sample_counter: u32,
    pub interrupt_timing: u32,
    pub sample_counter_base_cycle: u64,
    pub sample_counter_reset_pending: bool,
}

impl Ai {
    pub fn new() -> (r: Self)
        ensures
            r.control == 0,
            r.volume == 0,
            r.sample_counter == 0,
            r.interrupt_timing == 0,
            r.sample_counter_base_cycle == 0,
            !r.sample_counter_reset_pending,
    {
        Self {
            control: 0,
            volume: 0,
            sample_counter: 0,
            interrupt_timing: 0,
            sample_counter_base_cycle: 0,
            sample_counter_reset_pending: false,
        }
    }

    pub open spec fn interrupt_active_spec(&self) -> bool {
        bit32(self.control, AICR_INT_BIT) && bit32(self.control, AICR_INT_MASK_BIT)
    }

    /// Whether the AI raises its interrupt: status and mask bits both set.
    pub fn interrupt_active(&self) -> (r: bool)
        ensures
            r == self.interrupt_active_spec(),
    {
        get_bit32(self.control, AICR_INT_BIT) && get_bit32(self.control, AICR_INT_MASK_BIT)
    }

    /// Samples played since the counter base, or 0 while stopped.
    pub open spec fn sample_count_spec(&self, current_cycles: u64) -> u32 {
        if !bit32(self.control, AICR_PLAY_BIT) {
            0
        } else {
            let elapsed: u64 = if current_cycles >= self.sample_counter_base_cycle {
                (current_cycles - self.sample_counter_base_cycle) as u64
            } else {
                0
            };
            (elapsed / cycles_per_sample(self.control)) as u32
        }
    }

    /// Current sample counter computed from the elapsed cycles.
    pub fn sample_count(&self, current_cycles: u64) -> (r: u32)
        ensures
            r == self.sample_count_spec(current_cycles),
    {
        if !get_bit32(self.control, AICR_PLAY_BIT) {
            return 0;
        }
        let elapsed = current_cycles.saturating_sub(self.sample_counter_base_cycle);
        let cycles_per_sample = if get_bit32(self.control, AICR_RATE_BIT) {
            CYCLES_PER_SAMPLE_48K
        } else {
            CYCLES_PER_SAMPLE_32K
        };
        (elapsed / cycles_per_sample) as u32
    }

    /// State after the sample-counter check at `current_cycles`.
    pub open spec fn after_sample_check(self, current_cycles: u64) -> Ai {
        if self.interrupt_timing == 0 {
            self
        } else {
            let count = self.sample_count_spec(current_cycles);
            Ai {
                sample_counter: count,
                control: if count >= self.interrupt_timing {
                    with_bit32(self.control, AICR_INT_BIT, true)
                } else {
                    self.control
                },
                ..self
            }
        }
    }

    /// Latches the sample counter and raises the interrupt status once it
    /// reaches the interrupt timing; a zero timing disables the check.
    pub fn check_sample_counter_interrupt(&mut self, current_cycles: u64)
        ensures
            *final(self) == old(self).after_sample_check(current_cycles),
    {
        let threshold = self.interrupt_timing;
        if threshold == 0 {
            return;
        }
        let count = self.sample_count(current_cycles);
        self.sample_counter = count;
        if count >= threshold {
            self.control = set_bit32(self.control, AICR_INT_BIT, true);
        }
    }

    pub open spec fn read_raw_spec(&self, offset: u32, size: u32) -> Option<u32> {
        if size != 4 {
            None
        } else if offset == AI_CONTROL {
            Some(self.control)
        } else if offset == AI_VOLUME {
            Some(self.volume)
        } else if offset == AI_SAMPLE_COUNTER {
            Some(self.sample_counter)
        } else if offset == AI_INTERRUPT_TIMING {
            Some(self.interrupt_timing)
        } else {
            None
        }
    }

    /// A control write with the reset bit set zeroes the counter and asks
    /// for a new counter base.
    pub open spec fn write_raw_spec(&self, offset: u32, size: u32, val: u32) -> (Ai, bool) {
        if size != 4 {
            (*self, false)
        } else if offset == AI_CONTROL {
            let reset = bit32(val, AICR_RESET_BIT);
            (
                Ai {
                    control: control_after_write(self.control, val),
                    sample_counter: if reset { 0 } else { self.sample_counter },
                    sample_counter_reset_pending: reset || self.sample_counter_reset_pending,
                    ..*self
                },
                true,
            )
        } else if offset == AI_VOLUME {
            (Ai { volume: val, ..*self }, true)
        } else if offset == AI_SAMPLE_COUNTER {
            (Ai { sample_counter: val, ..*self }, true)
        } else if offset == AI_INTERRUPT_TIMING {
            (Ai { interrupt_timing: val, ..*self }, true)
        } else {
            (*self, false)
        }
    }

    fn read_raw(&self, offset: u32, size: u32) -> (r: Option<u32>)
        ensures
            r == self.read_raw_spec(offset, size),
    {
        if size != 4 {
            None
        } else if offset == AI_CONTROL {
            Some(self.control)
        } else if offset == AI_VOLUME {
            Some(self.volume)
        } else if offset == AI_SAMPLE_COUNTER {
            Some(self.sample_counter)
        } else if offset == AI_INTERRUPT_TIMING {
            Some(self.interrupt_timing)
        } else {
            None
        }
    }

    fn write_raw(&mut self, offset: u32, size: u32, val: u32) -> (hit: bool)
        ensures
            (*final(self), hit) == old(self).write_raw_spec(offset, size, val),
    {
        if size != 4 {
            false
        } else if offset == AI_CONTROL {
            let reset = get_bit32(val, AICR_RESET_BIT);
            let keep_int = get_bit32(self.control, AICR_INT_BIT) && !get_bit32(val, AICR_INT_BIT);
            self.control = set_bit32(set_bit32(val, AICR_RESET_BIT, false), AICR_INT_BIT, keep_int);
            if reset {
                self.sample_counter = 0;
                self.sample_counter_reset_pending = true;
            }
            true
        } else if offset == AI_VOLUME {
            self.volume = val;
            true
        } else if offset == AI_SAMPLE_COUNTER {
            self.sample_counter = val;
            true
        } else if offset == AI_INTERRUPT_TIMING {
            self.interrupt_timing = val;
            true
        } else {
            false
        }
    }

    pub fn mmio_read_u8(&mut self, offset: u32) -> (r: u8)
        ensures
            r == read8_of(old(self).read_raw_spec(offset, 1)),
            *final(self) == *old(self),
    {
        unwrap_read8(self.read_raw(offset, 1))
    }

    pub fn mmio_write_u8(&mut self, offset: u32, val: u8)
        ensures
            *final(self) == old(self).write_raw_spec(offset, 1, val as u32).0,
    {
        self.write_raw(offset, 1, val as u32);
    }

    pub fn mmio_read_u16(&mut self, offset: u32) -> (r: u16)
        ensures
            r == read16_of(old(self).read_raw_spec(offset, 2)),
            *final(self) == *old(self),
    {
        unwrap_read16(self.read_raw(offset, 2))
    }

    pub fn mmio_write_u16(&mut self, offset: u32, val: u16)
        ensures
            *final(self) == old(self).write_raw_spec(offset, 2, val as u32).0,
    {
        self.write_raw(offset, 2, val as u32);
    }

    pub fn mmio_read_u32(&mut self, offset: u32) -> (r: u32)
        ensures
            r == read32_of(old(self).read_raw_spec(offset, 4)),
            *final(self) == *old(self),
    {
        unwrap_read32(self.read_raw(offset, 4))
    }

    pub fn mmio_write_u32(&mut self, offset: u32, val: u32)
        ensures
            *final(self) == old(self).write_raw_spec(offset, 4, val).0,
    {
        self.write_raw(offset, 4, val);
    }
}

/// A control write with the interrupt bit set acknowledges the AI
/// interrupt; one with it clear leaves the status as it was.
pub proof fn lemma_ai_interrupt_ack(ai: Ai, val: u32)
    ensures
        bit32(val, AICR_INT_BIT) ==> !ai.write_raw_spec(AI_CONTROL, 4, val).0.interrupt_active_spec(),
        !bit32(val, AICR_INT_BIT) ==> bit32(ai.write_raw_spec(AI_CONTROL, 4, val).0.control, AICR_INT_BIT)
            == bit32(ai.control, AICR_INT_BIT),
{
    let keep = bit32(ai.control, AICR_INT_BIT) && !bit32(val, AICR_INT_BIT);
    crate::bits::lemma_with_bit32(with_bit32(val, AICR_RESET_BIT, false), AICR_INT_BIT, keep, AICR_INT_BIT);
}

} // verus!
