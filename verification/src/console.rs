use crate::bits::with_bit32;
use crate::cpu::state::Cpu;
use crate::cpu::fpbits::FpRegs;
use crate::cpu::sysregs::SysRegs;
use crate::dsp::machine::Dsp;
use crate::hw::ai::Ai;
use crate::hw::cp::Cp;
use crate::hw::exi::Exi;
use crate::hw::gx::{Gx, GxView};
use crate::hw::mi::Mi;
use crate::hw::mmio::read32_of;
use crate::hw::pi::{flag_bit, InterruptFlag, Pi};
use crate::hw::si::Si;
use crate::hw::vi::{xfb_addr_of, Vi, XFB_HEIGHT, XFB_WIDTH};
use crate::mmu::{be16_of, be32_byte, be32_of, is_mapped, mapped, virt_to_phys, virt_to_phys_spec, Mmu, RAM_SIZE};
use vstd::prelude::*;

verus! {

/// Physical register windows of the memory-mapped devices (inclusive).
pub const VI_BASE: u32 = 0x0C00_2000;
pub const VI_END: u32 = 0x0C00_20FF;
pub const PI_BASE: u32 = 0x0C00_3000;
pub const PI_END: u32 = 0x0C00_30FF;
pub const MI_BASE: u32 = 0x0C00_4000;
pub const MI_END: u32 = 0x0C00_40FF;
pub const DSP_BASE: u32 = 0x0C00_5000;
pub const DSP_END: u32 = 0x0C00_51FF;
pub const EXI_BASE: u32 = 0x0C00_6800;
pub const EXI_END: u32 = 0x0C00_683F;
pub const AI_BASE: u32 = 0x0C00_6C00;
pub const AI_END: u32 = 0x0C00_6C1F;

/// Which device a physical address belongs to.
#[derive(Clone, Copy, PartialEq, Eq, Structural)]
pub enum BusTarget {
    Vi,
    Pi,
    Mi,
    Dsp,
    Exi,
    Ai,
    Fallback,
}

/// Device and offset of physical address `phys`; memory keeps the
/// address itself.
pub open spec fn route_spec(phys: u32) -> (BusTarget, u32) {
    if VI_BASE <= phys <= VI_END {
        (BusTarget::Vi, (phys - VI_BASE) as u32)
    } else if PI_BASE <= phys <= PI_END {
        (BusTarget::Pi, (phys - PI_BASE) as u32)
    } else if MI_BASE <= phys <= MI_END {
        (BusTarget::Mi, (phys - MI_BASE) as u32)
    } else if DSP_BASE <= phys <= DSP_END {
        (BusTarget::Dsp, (phys - DSP_BASE) as u32)
    } else if EXI_BASE <= phys <= EXI_END {
        (BusTarget::Exi, (phys - EXI_BASE) as u32)
    } else if AI_BASE <= phys <= AI_END {
        (BusTarget::Ai, (phys - AI_BASE) as u32)
    } else {
        (BusTarget::Fallback, phys)
    }
}

fn route(phys: u32) -> (r: (BusTarget, u32))
    ensures
        r == route_spec(phys),
{
    if VI_BASE <= phys && phys <= VI_END {
        (BusTarget::Vi, phys - VI_BASE)
    } else if PI_BASE <= phys && phys <= PI_END {
        (BusTarget::Pi, phys - PI_BASE)
    } else if MI_BASE <= phys && phys <= MI_END {
        (BusTarget::Mi, phys - MI_BASE)
    } else if DSP_BASE <= phys && phys <= DSP_END {
        (BusTarget::Dsp, phys - DSP_BASE)
    } else if EXI_BASE <= phys && phys <= EXI_END {
        (BusTarget::Exi, phys - EXI_BASE)
    } else if AI_BASE <= phys && phys <= AI_END {
        (BusTarget::Ai, phys - AI_BASE)
    } else {
        (BusTarget::Fallback, phys)
    }
}

/// The console: the processor, the cycle counter, memory, and the
/// memory-mapped devices.
pub struct Gekko {
    pub cpu: Cpu,
    pub sys: SysRegs,
    pub fp: FpRegs,
    pub cycles: u64,
    pub mmu: Mmu,
    pub vi: Vi,
    pub pi: Pi,
    pub mi: Mi,
    pub dsp: Dsp,
    pub exi: Exi,
    pub ai: Ai,
    pub cp: Cp,
    pub si: Si,
    pub gx: Gx,
}

impl Gekko {
    pub open spec fn wf(&self) -> bool {
        &&& self.mmu.wf()
        &&& self.sys.wf()
        &&& self.dsp.wf()
        &&& self.gx@.wf()
    }

    /// Register value a `size`-byte read at `off` of device `target` sees.
    pub open spec fn device_read(&self, target: BusTarget, off: u32, size: u32) -> Option<u32> {
        match target {
            BusTarget::Vi => self.vi.read_raw_spec(off, size),
            BusTarget::Pi => self.pi.read_raw_spec(off, size),
            BusTarget::Mi => self.mi.read_raw_spec(off, size),
            BusTarget::Dsp => self.dsp.read_raw_spec(off, size),
            BusTarget::Exi => self.exi.read_raw_spec(off, size),
            BusTarget::Ai => self.ai.read_raw_spec(off, size),
            BusTarget::Fallback => None,
        }
    }

    /// Console after a `size`-byte write of `val` at `off` of device `target`.
    pub open spec fn device_write(self, target: BusTarget, off: u32, size: u32, val: u32) -> Gekko {
        match target {
            BusTarget::Vi => Gekko { vi: self.vi.write_raw_spec(off, size, val).0, ..self },
            BusTarget::Pi => Gekko { pi: self.pi.write_raw_spec(off, size, val).0, ..self },
            BusTarget::Mi => Gekko { mi: self.mi.write_raw_spec(off, size, val).0, ..self },
            BusTarget::Dsp => Gekko { dsp: self.dsp.write_raw_spec(off, size, val).0, ..self },
            BusTarget::Exi => Gekko { exi: self.exi.write_raw_spec(off, size, val).0, ..self },
            BusTarget::Ai => Gekko { ai: self.ai.write_raw_spec(off, size, val).0, ..self },
            BusTarget::Fallback => self,
        }
    }

    /// Value a `size`-byte bus read of virtual address `addr` returns.
    pub open spec fn bus_value(&self, addr: u32, size: u32) -> u32 {
        let (target, off) = route_spec(virt_to_phys_spec(addr));
        if target == BusTarget::Fallback {
            if size == 1 {
                self.mmu.mem(off as int) as u32
            } else if size == 2 {
                be16_of(self.mmu.mem(off as int), self.mmu.mem(off + 1)) as u32
            } else {
                be32_of(
                    self.mmu.mem(off as int),
                    self.mmu.mem(off + 1),
                    self.mmu.mem(off + 2),
                    self.mmu.mem(off + 3),
                )
            }
        } else {
            read32_of(self.device_read(target, off, size))
        }
    }

    /// A bus access of `size` bytes at `addr` that falls to memory lands in
    /// mapped memory.
    pub open spec fn access_ok(&self, addr: u32, size: u32) -> bool {
        let (target, off) = route_spec(virt_to_phys_spec(addr));
        target == BusTarget::Fallback ==> mapped(off as int, size as int)
    }

    /// Effect of a `size`-byte bus write of `val` at `addr`: a device write,
    /// or the big-endian bytes of `val` stored in memory.
    #[verifier::opaque]
    pub open spec fn bus_write_ok(old: Gekko, new: Gekko, addr: u32, size: u32, val: u32) -> bool {
        let (target, off) = route_spec(virt_to_phys_spec(addr));
        if target == BusTarget::Fallback {
            &&& new == Gekko { mmu: new.mmu, ..old }
            &&& new.mmu.wf()
            &&& forall|i: int| 0 <= i < size ==> #[trigger] new.mmu.mem(off + i) == be32_byte(val, 4 - size + i)
            &&& new.mmu.same_outside(&old.mmu, off as int, size as int)
        } else {
            new == old.device_write(target, off, size, val)
        }
    }

    /// Physical memory address a bus access at `addr` lands on, if it is
    /// not a device register.
    pub open spec fn mem_target(addr: u32) -> Option<u32> {
        let (target, off) = route_spec(virt_to_phys_spec(addr));
        if target == BusTarget::Fallback {
            Some(off)
        } else {
            None
        }
    }

    /// A single-byte bus write changes at most the memory byte it lands on:
    /// device registers take no single bytes.
    pub proof fn lemma_byte_write(old: Gekko, new: Gekko, addr: u32, val: u8)
        requires
            old.access_ok(addr, 1),
            Gekko::bus_write_ok(old, new, addr, 1, val as u32),
        ensures
            new == (Gekko { mmu: new.mmu, ..old }),
            forall|b: int|
                mapped(b, 1) ==> #[trigger] new.mmu.mem(b) == if Gekko::mem_target(addr) == Some(b as u32) {
                    val
                } else {
                    old.mmu.mem(b)
                },
            Gekko::mem_target(addr) is Some ==> mapped(Gekko::mem_target(addr)->0 as int, 1),
    {
        reveal(Gekko::bus_write_ok);
        let (target, off) = route_spec(virt_to_phys_spec(addr));
        if target == BusTarget::Fallback {
            assert(new.mmu.mem(off + 0) == be32_byte(val as u32, 3));
            crate::mmu::lemma_be32_bytes(val as u32);
            assert((val as u32) as u8 == val);
        }
    }

    /// A 32-bit bus write to memory followed by a 32-bit bus read of the
    /// same address returns the written word.
    pub proof fn lemma_bus_memory_roundtrip(before: Gekko, after: Gekko, addr: u32, val: u32)
        requires
            Gekko::mem_target(addr) is Some,
            before.access_ok(addr, 4),
            Gekko::bus_write_ok(before, after, addr, 4, val),
        ensures
            after.bus_value(addr, 4) == val,
    {
        reveal(Gekko::bus_write_ok);
        let (target, off) = route_spec(virt_to_phys_spec(addr));
        assert(after.mmu.mem(off + 0) == be32_byte(val, 0));
        assert(after.mmu.mem(off + 1) == be32_byte(val, 1));
        assert(after.mmu.mem(off + 2) == be32_byte(val, 2));
        assert(after.mmu.mem(off + 3) == be32_byte(val, 3));
        crate::mmu::lemma_be32_bytes(val);
    }

    /// A console with `data` at the start of RAM and every device reset.
    pub fn with_rom(data: &[u8]) -> (r: Gekko)
        requires
            data@.len() <= RAM_SIZE,
        ensures
            r.wf(),
            r.cycles == 0,
            forall|b: int| 0 <= b < data@.len() ==> #[trigger] r.mmu.mem(b) == data@[b],
            forall|b: int| mapped(b, 1) && !(0 <= b < data@.len()) ==> #[trigger] r.mmu.mem(b) == 0,
    {
        let mut mmu = Mmu::new();
        mmu.load_ram(data);
        Gekko {
            cpu: Cpu::new(),
            sys: SysRegs::new(),
            fp: FpRegs::new(),
            cycles: 0,
            mmu,
            vi: Vi::new(),
            pi: Pi::new(),
            mi: Mi::new(),
            dsp: Dsp::new(),
            exi: Exi::new(),
            ai: Ai::new(),
            cp: Cp::new(),
            si: Si::new(),
            gx: Gx::new(),
        }
    }

    /// Whether a `size`-byte bus access at `addr` is allowed: device
    /// registers always are, memory only where it is mapped.
    pub fn access_allowed(&self, addr: u32, size: u32) -> (r: bool)
        ensures
            r == self.access_ok(addr, size),
    {
        let (target, offset) = route(virt_to_phys(addr));
        match target {
            BusTarget::Fallback => is_mapped(offset, size),
            _ => true,
        }
    }

    pub fn read_u8(&mut self, addr: u32) -> (r: u8)
        requires
            old(self).wf(),
            old(self).access_ok(addr, 1),
        ensures
            *final(self) == *old(self),
            r == old(self).bus_value(addr, 1) as u8,
    {
        let (target, offset) = route(virt_to_phys(addr));
        match target {
            BusTarget::Vi => self.vi.mmio_read_u8(offset),
            BusTarget::Pi => self.pi.mmio_read_u8(offset),
            BusTarget::Mi => self.mi.mmio_read_u8(offset),
            BusTarget::Dsp => self.dsp.mmio_read_u8(offset),
            BusTarget::Exi => self.exi.mmio_read_u8(offset),
            BusTarget::Ai => self.ai.mmio_read_u8(offset),
            BusTarget::Fallback => self.mmu.phys_read_u8(offset),
        }
    }

    pub fn write_u8(&mut self, addr: u32, val: u8)
        requires
            old(self).wf(),
            old(self).access_ok(addr, 1),
        ensures
            final(self).wf(),
            final(self).cpu == old(self).cpu,
            Gekko::bus_write_ok(*old(self), *final(self), addr, 1, val as u32),
    {
        reveal(Gekko::bus_write_ok);
        let (target, offset) = route(virt_to_phys(addr));
        match target {
            BusTarget::Vi => self.vi.mmio_write_u8(offset, val),
            BusTarget::Pi => self.pi.mmio_write_u8(offset, val),
            BusTarget::Mi => self.mi.mmio_write_u8(offset, val),
            BusTarget::Dsp => self.dsp.mmio_write_u8(offset, val),
            BusTarget::Exi => self.exi.mmio_write_u8(offset, val),
            BusTarget::Ai => self.ai.mmio_write_u8(offset, val),
            BusTarget::Fallback => self.mmu.phys_write_u8(offset, val),
        }
    }

    pub fn read_u16(&mut self, addr: u32) -> (r: u16)
        requires
            old(self).wf(),
            old(self).access_ok(addr, 2),
        ensures
            *final(self) == *old(self),
            r == old(self).bus_value(addr, 2) as u16,
    {
        let (target, offset) = route(virt_to_phys(addr));
        match target {
            BusTarget::Vi => self.vi.mmio_read_u16(offset),
            BusTarget::Pi => self.pi.mmio_read_u16(offset),
            BusTarget::Mi => self.mi.mmio_read_u16(offset),
            BusTarget::Dsp => self.dsp.mmio_read_u16(offset),
            BusTarget::Exi => self.exi.mmio_read_u16(offset),
            BusTarget::Ai => self.ai.mmio_read_u16(offset),
            BusTarget::Fallback => self.mmu.phys_read_u16(offset),
        }
    }

    pub fn write_u16(&mut self, addr: u32, val: u16)
        requires
            old(self).wf(),
            old(self).access_ok(addr, 2),
        ensures
            final(self).wf(),
            final(self).cpu == old(self).cpu,
            Gekko::bus_write_ok(*old(self), *final(self), addr, 2, val as u32),
    {
        reveal(Gekko::bus_write_ok);
        let (target, offset) = route(virt_to_phys(addr));
        match target {
            BusTarget::Vi => self.vi.mmio_write_u16(offset, val),
            BusTarget::Pi => self.pi.mmio_write_u16(offset, val),
            BusTarget::Mi => self.mi.mmio_write_u16(offset, val),
            BusTarget::Dsp => self.dsp.mmio_write_u16(offset, val),
            BusTarget::Exi => self.exi.mmio_write_u16(offset, val),
            BusTarget::Ai => self.ai.mmio_write_u16(offset, val),
            BusTarget::Fallback => self.mmu.phys_write_u16(offset, val),
        }
    }

    pub fn read_u32(&mut self, addr: u32) -> (r: u32)
        requires
            old(self).wf(),
            old(self).access_ok(addr, 4),
        ensures
            *final(self) == *old(self),
            r == old(self).bus_value(addr, 4) as u32,
    {
        let (target, offset) = route(virt_to_phys(addr));
        match target {
            BusTarget::Vi => self.vi.mmio_read_u32(offset),
            BusTarget::Pi => self.pi.mmio_read_u32(offset),
            BusTarget::Mi => self.mi.mmio_read_u32(offset),
            BusTarget::Dsp => self.dsp.mmio_read_u32(offset),
            BusTarget::Exi => self.exi.mmio_read_u32(offset),
            BusTarget::Ai => self.ai.mmio_read_u32(offset),
            BusTarget::Fallback => self.mmu.phys_read_u32(offset),
        }
    }

    pub fn write_u32(&mut self, addr: u32, val: u32)
        requires
            old(self).wf(),
            old(self).access_ok(addr, 4),
        ensures
            final(self).wf(),
            final(self).cpu == old(self).cpu,
            Gekko::bus_write_ok(*old(self), *final(self), addr, 4, val),
    {
        reveal(Gekko::bus_write_ok);
        let (target, offset) = route(virt_to_phys(addr));
        match target {
            BusTarget::Vi => self.vi.mmio_write_u32(offset, val),
            BusTarget::Pi => self.pi.mmio_write_u32(offset, val),
            BusTarget::Mi => self.mi.mmio_write_u32(offset, val),
            BusTarget::Dsp => self.dsp.mmio_write_u32(offset, val),
            BusTarget::Exi => self.exi.mmio_write_u32(offset, val),
            BusTarget::Ai => self.ai.mmio_write_u32(offset, val),
            BusTarget::Fallback => self.mmu.phys_write_u32(offset, val),
        }
    }

    /// Updates the AI sample counter, then mirrors the AI interrupt line
    /// into the PI cause register.
    pub fn check_ai_interrupts(&mut self)
        ensures
            final(self).ai == old(self).ai.after_sample_check(old(self).cycles),
            final(self).pi == (Pi {
                cause: with_bit32(
                    old(self).pi.cause,
                    flag_bit(InterruptFlag::Ai),
                    final(self).ai.interrupt_active_spec(),
                ),
                ..old(self).pi
            }),
            *final(self) == (Gekko { ai: final(self).ai, pi: final(self).pi, ..*old(self) }),
    {
        let cycles = self.cycles;
        self.ai.check_sample_counter_interrupt(cycles);
        if self.ai.interrupt_active() {
            self.pi.assert_interrupt(InterruptFlag::Ai);
        } else {
            self.pi.clear_interrupt(InterruptFlag::Ai);
        }
    }

    /// Rebases the AI sample counter at the current cycle when a reset was
    /// requested.
    pub fn check_sample_counter_reset(&mut self)
        ensures
            *final(self) == (if old(self).ai.sample_counter_reset_pending {
                Gekko {
                    ai: Ai {
                        sample_counter_base_cycle: old(self).cycles,
                        sample_counter_reset_pending: false,
                        ..old(self).ai
                    },
                    ..*old(self)
                }
            } else {
                *old(self)
            }),
    {
        if self.ai.sample_counter_reset_pending {
            self.ai.sample_counter_base_cycle = self.cycles;
            self.ai.sample_counter_reset_pending = false;
        }
    }

    /// Mirrors the CP interrupt line into the PI cause register.
    pub fn check_cp_interrupts(&mut self)
        ensures
            *final(self) == (Gekko {
                pi: Pi {
                    cause: with_bit32(
                        old(self).pi.cause,
                        flag_bit(InterruptFlag::Cp),
                        old(self).cp.interrupt_active_spec(),
                    ),
                    ..old(self).pi
                },
                ..*old(self)
            }),
    {
        if self.cp.interrupt_active() {
            self.pi.assert_interrupt(InterruptFlag::Cp);
        } else {
            self.pi.clear_interrupt(InterruptFlag::Cp);
        }
    }

    /// Mirrors the SI interrupt line into the PI cause register.
    pub fn check_si_interrupts(&mut self)
        ensures
            *final(self) == (Gekko {
                pi: Pi {
                    cause: with_bit32(
                        old(self).pi.cause,
                        flag_bit(InterruptFlag::Si),
                        old(self).si.interrupt_active_spec(),
                    ),
                    ..old(self).pi
                },
                ..*old(self)
            }),
    {
        if self.si.interrupt_active() {
            self.pi.assert_interrupt(InterruptFlag::Si);
        } else {
            self.pi.clear_interrupt(InterruptFlag::Si);
        }
    }

    /// Turns a pending PE-finish request from the GX front end into a PI
    /// interrupt.
    pub fn check_gx_pe_finish(&mut self)
        ensures
            old(self).gx@.raise_interrupt ==> {
                &&& final(self).gx@ == (GxView { raise_interrupt: false, ..old(self).gx@ })
                &&& final(self).pi == (Pi {
                    cause: with_bit32(old(self).pi.cause, flag_bit(InterruptFlag::PeFinish), true),
                    ..old(self).pi
                })
                &&& *final(self) == (Gekko { gx: final(self).gx, pi: final(self).pi, ..*old(self) })
            },
            !old(self).gx@.raise_interrupt ==> *final(self) == *old(self),
    {
        if self.gx.interrupt_pending() {
            self.gx.clear_interrupt();
            self.pi.assert_interrupt(InterruptFlag::PeFinish);
        }
    }

    /// Big-endian word `i` of the external framebuffer at `addr`.
    pub open spec fn xfb_word(&self, addr: u32, i: int) -> u32 {
        let p = addr + 4 * i;
        be32_of(self.mmu.mem(p), self.mmu.mem(p + 1), self.mmu.mem(p + 2), self.mmu.mem(p + 3))
    }

    /// The words of the external framebuffer, in memory order: each holds
    /// two pixels as `Y0 Cb Y1 Cr` (YUY2), so there are half as many words
    /// as pixels.
    pub fn xfb_words(&self) -> (r: Vec<u32>)
        requires
            self.wf(),
            mapped(xfb_addr_of(self.vi.top_field_base) as int, (XFB_WIDTH * XFB_HEIGHT * 2) as int),
        ensures
            r@.len() == XFB_WIDTH * XFB_HEIGHT / 2,
            forall|i: int|
                0 <= i < r@.len() ==> #[trigger] r@[i] == self.xfb_word(xfb_addr_of(self.vi.top_field_base), i),
    {
        let addr = self.vi.xfb_addr();
        let n: usize = XFB_WIDTH * XFB_HEIGHT / 2;
        let mut words: Vec<u32> = Vec::with_capacity(n);
        let mut i: usize = 0;
        while i < n
            invariant
                self.wf(),
                n == XFB_WIDTH * XFB_HEIGHT / 2,
                addr == xfb_addr_of(self.vi.top_field_base),
                mapped(addr as int, (XFB_WIDTH * XFB_HEIGHT * 2) as int),
                i <= n,
                words@.len() == i,
                forall|j: int| 0 <= j < i ==> #[trigger] words@[j] == self.xfb_word(addr, j),
            decreases n - i,
        {
            let w = self.mmu.phys_read_u32(addr + (i as u32) * 4);
            words.push(w);
            i = i + 1;
        }
        words
    }
}

} // verus!
