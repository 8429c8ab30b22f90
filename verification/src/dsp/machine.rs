use crate::dsp::regs::Registers;
use crate::dsp::stack::DspStack;
use crate::dsp::status::StatusRegister;
use crate::hw::mmio::{read16_of, read32_of, read8_of, unwrap_read16, unwrap_read32, unwrap_read8};
use vstd::prelude::*;

verus! {

/// Number of 16-bit words in each DSP address space.
pub const DSP_MEM_WORDS: usize = 0x10000;

/// Halt bit of the DSP control/status register.
pub const CSR_HALT: u16 = 2;

/// The DSP: registers, control/status register and its two word-addressed
/// memories (data and instruction).
pub struct Dsp {
    pub registers: Registers,
    pub csr: u16,
    pub dmem: Vec<u16>,
    pub imem: Vec<u16>,
}

impl Dsp {
    pub open spec fn wf(&self) -> bool {
        &&& self.dmem@.len() == DSP_MEM_WORDS
        &&& self.imem@.len() == DSP_MEM_WORDS
        &&& self.registers.stacks_wf()
    }

    pub open spec fn with_registers(self, r: Registers) -> Dsp {
        Dsp { registers: r, ..self }
    }

    pub fn new() -> (r: Dsp)
        ensures
            r.wf(),
            r.csr == 0,
            forall|i: int| 0 <= i < DSP_MEM_WORDS ==> r.dmem@[i] == 0 && r.imem@[i] == 0,
    {
        Dsp {
            registers: Registers::default(),
            csr: 0,
            dmem: vec![0u16; DSP_MEM_WORDS],
            imem: vec![0u16; DSP_MEM_WORDS],
        }
    }

    /// Reads data memory.
    pub fn read_dmem(&self, addr: u16) -> (r: u16)
        requires
            self.wf(),
        ensures
            r == self.dmem@[addr as int],
    {
        self.dmem[addr as usize]
    }

    /// Writes data memory.
    pub fn write_dmem(&mut self, addr: u16, value: u16)
        requires
            old(self).wf(),
        ensures
            final(self).wf(),
            final(self).dmem@ == old(self).dmem@.update(addr as int, value),
            final(self).imem == old(self).imem,
            final(self).registers == old(self).registers,
            final(self).csr == old(self).csr,
    {
        self.dmem.set(addr as usize, value);
    }

    /// Reads instruction memory.
    pub fn read_imem(&self, addr: u16) -> (r: u16)
        requires
            self.wf(),
        ensures
            r == self.imem@[addr as int],
    {
        self.imem[addr as usize]
    }
}

impl Default for Registers {
    fn default() -> (r: Registers)
        ensures
            r.stacks_wf(),
            r.call_stack.depth() == 0,
            r.data_stack.depth() == 0,
            r.loop_addr.depth() == 0,
            r.loop_counter.depth() == 0,
            r.status.raw == 0,
            r.ac_spec(0) == 0,
            r.ac_spec(1) == 0,
    {
        Registers {
            pc: 0,
            nia: 0,
            cia: 0,
            ar: [0; 4],
            ix: [0; 4],
            wr: [0; 4],
            call_stack: DspStack::default(),
            data_stack: DspStack::default(),
            loop_addr: DspStack::default(),
            loop_counter: DspStack::default(),
            ac0_high: 0,
            ac1_high: 0,
            config: 0,
            status: StatusRegister::default(),
            product_low: 0,
            product_mid1: 0,
            product_high: 0,
            product_mid2: 0,
            ax: [0; 2],
            axh: [0; 2],
            ac0_low: 0,
            ac1_low: 0,
            ac0_mid: 0,
            ac1_mid: 0,
        }
    }
}

/// Offset of the DSP control/status register inside the DSP interface block.
pub const DSP_CSR: u32 = 0x0A;

impl Dsp {
    pub open spec fn read_raw_spec(&self, offset: u32, size: u32) -> Option<u32> {
        if size == 2 && offset == DSP_CSR {
            Some(self.csr as u32)
        } else {
            None
        }
    }

    pub open spec fn write_raw_spec(&self, offset: u32, size: u32, val: u32) -> (Dsp, bool) {
        if size == 2 && offset == DSP_CSR {
            (Dsp { csr: val as u16, ..*self }, true)
        } else {
            (*self, false)
        }
    }

    fn read_raw(&self, offset: u32, size: u32) -> (r: Option<u32>)
        ensures
            r == self.read_raw_spec(offset, size),
    {
        if size == 2 && offset == DSP_CSR {
            Some(self.csr as u32)
        } else {
            None
        }
    }

    fn write_raw(&mut self, offset: u32, size: u32, val: u32) -> (hit: bool)
        ensures
            (*final(self), hit) == old(self).write_raw_spec(offset, size, val),
    {
        if size == 2 && offset == DSP_CSR {
            self.csr = val as u16;
            true
        } else {
            false
        }
    }

    pub fn mmio_read_u8(&mut self, offset: u32) -> (r: u8)
        ensures
            r == read8_of(old(self).read_raw_spec(offset, 1)),
            *final(self) == *old(self),
    {
        unwrap_read8(self.read_raw(offset, 1))
    }

    pub fn mmio_write_u8(&mut self, offset: u32, val: u8)
        ensures
            *final(self) == old(self).write_raw_spec(offset, 1, val as u32).0,
    {
        self.write_raw(offset, 1, val as u32);
    }

    pub fn mmio_read_u16(&mut self, offset: u32) -> (r: u16)
        ensures
            r == read16_of(old(self).read_raw_spec(offset, 2)),
            *final(self) == *old(self),
    {
        unwrap_read16(self.read_raw(offset, 2))
    }

    pub fn mmio_write_u16(&mut self, offset: u32, val: u16)
        ensures
            *final(self) == old(self).write_raw_spec(offset, 2, val as u32).0,
    {
        self.write_raw(offset, 2, val as u32);
    }

    pub fn mmio_read_u32(&mut self, offset: u32) -> (r: u32)
        ensures
            r == read32_of(old(self).read_raw_spec(offset, 4)),
            *final(self) == *old(self),
    {
        unwrap_read32(self.read_raw(offset, 4))
    }

    pub fn mmio_write_u32(&mut self, offset: u32, val: u32)
        ensures
            *final(self) == old(self).write_raw_spec(offset, 4, val).0,
    {
        self.write_raw(offset, 4, val);
    }
}

} // verus!
