use crate::cpu::instr::Instruction;
use crate::cpu::state::Cpu;
use vstd::prelude::*;

verus! {

/// Number of special-purpose register slots.
pub const SPR_COUNT: usize = 1024;

/// SPR numbers the system forms treat on their own.
pub const SPR_XER: u32 = 1;
pub const SPR_LR: u32 = 8;
pub const SPR_CTR: u32 = 9;
pub const SPR_DEC: u32 = 22;
pub const SPR_SRR0: u32 = 26;
pub const SPR_SRR1: u32 = 27;
pub const TBR_TBL: u32 = 268;
pub const TBR_TBU: u32 = 269;
pub const SPR_TBL_WRITE: u32 = 284;
pub const SPR_TBU_WRITE: u32 = 285;

/// MSR bits `rfi` takes from SRR1 (and `sc` saves into it).
pub const RFI_MSR_MASK: u32 = 0x87C0_FFFF;
/// MSR[POW], cleared by `rfi`.
pub const MSR_POW: u32 = 0x0004_0000;
/// MSR bits an exception clears: POW, EE, PR, FP, FE0, SE, BE, FE1, IR,
/// DR, RI and LE (LE then takes ILE).
pub const EXCEPTION_MSR_CLEAR: u32 = 0x0004_EF33;
/// MSR[IP]: exception vectors at 0xFFF0_0000.
pub const MSR_IP: u32 = 0x0000_0040;

/// The machine state register, the save/restore registers, the
/// decrementer and time base (both counting one per cycle from the value
/// last written), and the other special-purpose registers by number.
pub struct SysRegs {
    pub msr: u32,
    pub srr0: u32,
    pub srr1: u32,
    pub dec: u32,
    pub dec_cycle: u64,
    pub tb_offset: u64,
    pub spr: Vec<u32>,
}

/// The system registers as values.
pub ghost struct SysView {
    pub msr: u32,
    pub srr0: u32,
    pub srr1: u32,
    pub dec: u32,
    pub dec_cycle: u64,
    pub tb_offset: u64,
    pub spr: Seq<u32>,
}

impl View for SysRegs {
    type V = SysView;

    open spec fn view(&self) -> SysView {
        SysView {
            msr: self.msr,
            srr0: self.srr0,
            srr1: self.srr1,
            dec: self.dec,
            dec_cycle: self.dec_cycle,
            tb_offset: self.tb_offset,
            spr: self.spr@,
        }
    }
}

impl SysRegs {
    pub open spec fn wf(&self) -> bool {
        self.spr@.len() == SPR_COUNT
    }

    pub fn new() -> (r: SysRegs)
        ensures
            r.wf(),
            r.msr == 0 && r.srr0 == 0 && r.srr1 == 0 && r.dec == 0 && r.dec_cycle == 0 && r.tb_offset == 0,
            forall|i: int| 0 <= i < SPR_COUNT ==> r.spr@[i] == 0,
    {
        SysRegs { msr: 0, srr0: 0, srr1: 0, dec: 0, dec_cycle: 0, tb_offset: 0, spr: vec![0u32; SPR_COUNT] }
    }
}

/// SPR number of the `mfspr`/`mtspr`/`mftb` word `word` (its two halves
/// swapped).
pub open spec fn spr_index(word: u32) -> u32 {
    ((Instruction(word).spec_spr() as u32 / 32) + (Instruction(word).spec_spr() as u32 % 32) * 32) as u32
}

/// The time base at `cycles`.
pub open spec fn time_base(s: SysView, cycles: u64) -> u64 {
    cycles.wrapping_add(s.tb_offset)
}

/// The decrementer at `cycles`: the value written, less the cycles since.
pub open spec fn dec_value(s: SysView, cycles: u64) -> u32 {
    s.dec.wrapping_sub(cycles.wrapping_sub(s.dec_cycle) as u32)
}

/// What `mfspr` reads from SPR `n`.
pub open spec fn spr_read(cpu: Cpu, s: SysView, cycles: u64, n: u32) -> u32 {
    if n == SPR_XER {
        cpu.xer
    } else if n == SPR_LR {
        cpu.lr
    } else if n == SPR_CTR {
        cpu.ctr
    } else if n == SPR_DEC {
        dec_value(s, cycles)
    } else if n == SPR_SRR0 {
        s.srr0
    } else if n == SPR_SRR1 {
        s.srr1
    } else if n == TBR_TBL {
        time_base(s, cycles) as u32
    } else if n == TBR_TBU {
        (time_base(s, cycles) >> 32u64) as u32
    } else {
        s.spr[n as int]
    }
}

/// The time-base offset that makes the time base `tb` at `cycles`.
pub open spec fn tb_offset_for(tb: u64, cycles: u64) -> u64 {
    tb.wrapping_sub(cycles)
}

/// `mtspr` of `v` into SPR `n`: the CPU registers and the system
/// registers after it.
pub open spec fn spr_write(cpu: Cpu, s: SysView, cycles: u64, n: u32, v: u32) -> (Cpu, SysView) {
    if n == SPR_XER {
        (Cpu { xer: v, ..cpu }, s)
    } else if n == SPR_LR {
        (Cpu { lr: v, ..cpu }, s)
    } else if n == SPR_CTR {
        (Cpu { ctr: v, ..cpu }, s)
    } else if n == SPR_DEC {
        (cpu, SysView { dec: v, dec_cycle: cycles, ..s })
    } else if n == SPR_SRR0 {
        (cpu, SysView { srr0: v, ..s })
    } else if n == SPR_SRR1 {
        (cpu, SysView { srr1: v, ..s })
    } else if n == SPR_TBL_WRITE {
        let tb = time_base(s, cycles);
        (cpu, SysView { tb_offset: tb_offset_for((tb & 0xFFFF_FFFF_0000_0000u64) | v as u64, cycles), ..s })
    } else if n == SPR_TBU_WRITE {
        let tb = time_base(s, cycles);
        (cpu, SysView { tb_offset: tb_offset_for((tb & 0xFFFF_FFFFu64) | ((v as u64) << 32u64), cycles), ..s })
    } else {
        (cpu, SysView { spr: s.spr.update(n as int, v), ..s })
    }
}

/// The system forms: `sc`, `rfi`, `mfmsr`, `mtmsr`, `mfspr`, `mtspr`, and
/// `mftb` of the lower or upper time base.
pub open spec fn system_form(word: u32) -> bool {
    let op = word >> 26u32;
    let xo = Instruction(word).spec_xo();
    ||| op == 17
    ||| op == 19 && xo == 50
    ||| op == 31 && (xo == 83 || xo == 146 || xo == 339 || xo == 467)
    ||| op == 31 && xo == 371 && (spr_index(word) == TBR_TBL || spr_index(word) == TBR_TBU)
}

/// The CPU and system registers after the system form `word`, run as the
/// instruction at `cpu.cia` with `cpu.nia` the word after it. `sc` saves
/// the next address and the MSR, clears the exception bits (LE takes ILE)
/// and goes to the system-call vector; `rfi` restores the MSR bits of
/// SRR1, clears POW and returns to SRR0.
pub open spec fn system_spec(cpu: Cpu, s: SysView, cycles: u64, word: u32) -> (Cpu, SysView) {
    let op = word >> 26u32;
    let xo = Instruction(word).spec_xo();
    let rd = Instruction(word).spec_rd() as int;
    if op == 17 {
        let msr = (s.msr & !EXCEPTION_MSR_CLEAR) | ((s.msr >> 16u32) & 1);
        let vector: u32 = if s.msr & MSR_IP != 0 {
            0xFFF0_0C00
        } else {
            0x0000_0C00
        };
        (Cpu { nia: vector, ..cpu }, SysView { srr0: cpu.nia, srr1: s.msr & RFI_MSR_MASK, msr, ..s })
    } else if op == 19 {
        let msr = ((s.msr & !RFI_MSR_MASK) | (s.srr1 & RFI_MSR_MASK)) & !MSR_POW;
        (Cpu { nia: s.srr0 & !3u32, ..cpu }, SysView { msr, ..s })
    } else if xo == 83 {
        (cpu.with_gpr(rd, s.msr), s)
    } else if xo == 146 {
        (cpu, SysView { msr: cpu.gpr[Instruction(word).spec_rs() as int], ..s })
    } else if xo == 339 || xo == 371 {
        (cpu.with_gpr(rd, spr_read(cpu, s, cycles, spr_index(word))), s)
    } else {
        spr_write(cpu, s, cycles, spr_index(word), cpu.gpr[Instruction(word).spec_rs() as int])
    }
}

fn read_spr(cpu: &Cpu, s: &SysRegs, cycles: u64, n: u32) -> (r: u32)
    requires
        s.wf(),
        n < 1024,
    ensures
        r == spr_read(*cpu, s@, cycles, n),
{
    if n == SPR_XER {
        cpu.xer
    } else if n == SPR_LR {
        cpu.lr
    } else if n == SPR_CTR {
        cpu.ctr
    } else if n == SPR_DEC {
        s.dec.wrapping_sub(cycles.wrapping_sub(s.dec_cycle) as u32)
    } else if n == SPR_SRR0 {
        s.srr0
    } else if n == SPR_SRR1 {
        s.srr1
    } else if n == TBR_TBL {
        cycles.wrapping_add(s.tb_offset) as u32
    } else if n == TBR_TBU {
        (cycles.wrapping_add(s.tb_offset) >> 32) as u32
    } else {
        s.spr[n as usize]
    }
}

fn write_spr(cpu: &mut Cpu, s: &mut SysRegs, cycles: u64, n: u32, v: u32)
    requires
        old(s).wf(),
        n < 1024,
    ensures
        final(s).wf(),
        (*final(cpu), final(s)@) == spr_write(*old(cpu), old(s)@, cycles, n, v),
{
    if n == SPR_XER {
        cpu.xer = v;
    } else if n == SPR_LR {
        cpu.lr = v;
    } else if n == SPR_CTR {
        cpu.ctr = v;
    } else if n == SPR_DEC {
        s.dec = v;
        s.dec_cycle = cycles;
    } else if n == SPR_SRR0 {
        s.srr0 = v;
    } else if n == SPR_SRR1 {
        s.srr1 = v;
    } else if n == SPR_TBL_WRITE {
        let tb = cycles.wrapping_add(s.tb_offset);
        s.tb_offset = ((tb & 0xFFFF_FFFF_0000_0000u64) | v as u64).wrapping_sub(cycles);
    } else if n == SPR_TBU_WRITE {
        let tb = cycles.wrapping_add(s.tb_offset);
        s.tb_offset = ((tb & 0xFFFF_FFFFu64) | ((v as u64) << 32)).wrapping_sub(cycles);
    } else {
        s.spr.set(n as usize, v);
    }
}

/// Runs `word` when it is a system form, as the instruction at
/// `cpu.cia`, and reports whether it was; otherwise nothing changes.
pub fn exec_system(cpu: &mut Cpu, s: &mut SysRegs, cycles: u64, word: u32) -> (handled: bool)
    requires
        old(s).wf(),
    ensures
        final(s).wf(),
        handled == system_form(word),
        handled ==> (*final(cpu), final(s)@) == system_spec(*old(cpu), old(s)@, cycles, word),
        !handled ==> *final(cpu) == *old(cpu) && *final(s) == *old(s),
{
    let instr = Instruction(word);
    let op = word >> 26;
    let xo = instr.xo();
    if op == 17 {
        let msr = s.msr;
        let vector: u32 = if msr & MSR_IP != 0 {
            0xFFF0_0C00
        } else {
            0x0000_0C00
        };
        s.srr0 = cpu.nia;
        s.srr1 = msr & RFI_MSR_MASK;
        s.msr = (msr & !EXCEPTION_MSR_CLEAR) | ((msr >> 16) & 1);
        cpu.nia = vector;
        true
    } else if op == 19 && xo == 50 {
        s.msr = ((s.msr & !RFI_MSR_MASK) | (s.srr1 & RFI_MSR_MASK)) & !MSR_POW;
        cpu.nia = s.srr0 & !3u32;
        true
    } else if op == 31 && xo == 83 {
        cpu.write_gpr(instr.rd(), s.msr);
        true
    } else if op == 31 && xo == 146 {
        s.msr = cpu.read_gpr(instr.rs());
        true
    } else if op == 31 && (xo == 339 || xo == 371) {
        let n = instr.spr_swapped();
        if xo == 371 && n != TBR_TBL && n != TBR_TBU {
            return false;
        }
        let v = read_spr(cpu, s, cycles, n);
        cpu.write_gpr(instr.rd(), v);
        true
    } else if op == 31 && xo == 467 {
        let n = instr.spr_swapped();
        let v = cpu.read_gpr(instr.rs());
        write_spr(cpu, s, cycles, n, v);
        true
    } else {
        false
    }
}

/// MSR[FP]: floating-point instructions are available.
pub const MSR_FP: u32 = 0x0000_2000;

/// Whether the MSR lets floating-point instructions run.
pub open spec fn fp_enabled(s: SysView) -> bool {
    s.msr & MSR_FP != 0
}

/// The floating-point-unavailable exception taken by the instruction at
/// `cpu.cia`: SRR0 takes that address, SRR1 the saved MSR bits, the
/// exception bits of the MSR are cleared (LE takes ILE) and execution goes
/// on at the vector 0x800.
pub open spec fn fp_unavailable_spec(cpu: Cpu, s: SysView) -> (Cpu, SysView) {
    let msr = (s.msr & !EXCEPTION_MSR_CLEAR) | ((s.msr >> 16u32) & 1);
    let vector: u32 = if s.msr & MSR_IP != 0 {
        0xFFF0_0800
    } else {
        0x0000_0800
    };
    (Cpu { nia: vector, ..cpu }, SysView { srr0: cpu.cia, srr1: s.msr & RFI_MSR_MASK, msr, ..s })
}

/// Takes the floating-point-unavailable exception.
pub fn raise_fp_unavailable(cpu: &mut Cpu, s: &mut SysRegs)
    requires
        old(s).wf(),
    ensures
        final(s).wf(),
        (*final(cpu), final(s)@) == fp_unavailable_spec(*old(cpu), old(s)@),
{
    let msr = s.msr;
    let vector: u32 = if msr & MSR_IP != 0 {
        0xFFF0_0800
    } else {
        0x0000_0800
    };
    s.srr0 = cpu.cia;
    s.srr1 = msr & RFI_MSR_MASK;
    s.msr = (msr & !EXCEPTION_MSR_CLEAR) | ((msr >> 16) & 1);
    cpu.nia = vector;
}

/// MSR[EE]: external interrupts are enabled.
pub const MSR_EE: u32 = 0x0000_8000;

/// The external interrupt taken before the instruction at `cpu.pc`: SRR0
/// takes that address, SRR1 the saved MSR bits, the exception bits of the
/// MSR are cleared (LE takes ILE) and execution goes on at the vector
/// 0x500.
pub open spec fn external_interrupt_spec(cpu: Cpu, s: SysView) -> (Cpu, SysView) {
    let msr = (s.msr & !EXCEPTION_MSR_CLEAR) | ((s.msr >> 16u32) & 1);
    let vector: u32 = if s.msr & MSR_IP != 0 {
        0xFFF0_0500
    } else {
        0x0000_0500
    };
    (Cpu { pc: vector, ..cpu }, SysView { srr0: cpu.pc, srr1: s.msr & RFI_MSR_MASK, msr, ..s })
}

/// Takes the external interrupt.
pub fn raise_external_interrupt(cpu: &mut Cpu, s: &mut SysRegs)
    requires
        old(s).wf(),
    ensures
        final(s).wf(),
        (*final(cpu), final(s)@) == external_interrupt_spec(*old(cpu), old(s)@),
{
    let msr = s.msr;
    let vector: u32 = if msr & MSR_IP != 0 {
        0xFFF0_0500
    } else {
        0x0000_0500
    };
    s.srr0 = cpu.pc;
    s.srr1 = msr & RFI_MSR_MASK;
    s.msr = (msr & !EXCEPTION_MSR_CLEAR) | ((msr >> 16) & 1);
    cpu.pc = vector;
}


/// Whether the decrementer has counted down past zero since it was last
/// written or last taken: more cycles have gone by than the value it
/// counted down from.
pub open spec fn dec_pending(s: SysView, cycles: u64) -> bool {
    cycles.wrapping_sub(s.dec_cycle) > s.dec as u64
}

/// The decrementer interrupt taken before the instruction at `cpu.pc`:
/// saved as for the external interrupt, execution goes on at the vector
/// 0x900, and the decrementer counts on from the value it has now, so
/// that it is no longer pending.
pub open spec fn decrementer_interrupt_spec(cpu: Cpu, s: SysView, cycles: u64) -> (Cpu, SysView) {
    let msr = (s.msr & !EXCEPTION_MSR_CLEAR) | ((s.msr >> 16u32) & 1);
    let vector: u32 = if s.msr & MSR_IP != 0 {
        0xFFF0_0900
    } else {
        0x0000_0900
    };
    (
        Cpu { pc: vector, ..cpu },
        SysView {
            srr0: cpu.pc,
            srr1: s.msr & RFI_MSR_MASK,
            msr,
            dec: dec_value(s, cycles),
            dec_cycle: cycles,
            ..s
        },
    )
}

impl SysRegs {
    /// Whether the decrementer interrupt is pending at `cycles`.
    pub fn dec_pending(&self, cycles: u64) -> (r: bool)
        ensures
            r == dec_pending(self@, cycles),
    {
        cycles.wrapping_sub(self.dec_cycle) > self.dec as u64
    }
}

/// Takes the decrementer interrupt at `cycles`.
pub fn raise_decrementer_interrupt(cpu: &mut Cpu, s: &mut SysRegs, cycles: u64)
    requires
        old(s).wf(),
    ensures
        final(s).wf(),
        (*final(cpu), final(s)@) == decrementer_interrupt_spec(*old(cpu), old(s)@, cycles),
{
    let msr = s.msr;
    let vector: u32 = if msr & MSR_IP != 0 {
        0xFFF0_0900
    } else {
        0x0000_0900
    };
    let dec = s.dec.wrapping_sub(cycles.wrapping_sub(s.dec_cycle) as u32);
    s.srr0 = cpu.pc;
    s.srr1 = msr & RFI_MSR_MASK;
    s.msr = (msr & !EXCEPTION_MSR_CLEAR) | ((msr >> 16) & 1);
    s.dec = dec;
    s.dec_cycle = cycles;
    cpu.pc = vector;
}

/// Taking the decrementer interrupt leaves the value the decrementer reads
/// as it was, at that cycle and at every later one up to a wrap of the
/// cycle count, and it is no longer pending then.
pub proof fn lemma_decrementer_taken(cpu: Cpu, s: SysView, cycles: u64, later: u64)
    requires
        cycles <= later,
    ensures
        dec_value(decrementer_interrupt_spec(cpu, s, cycles).1, later) == dec_value(s, later),
        !dec_pending(decrementer_interrupt_spec(cpu, s, cycles).1, cycles),
{
    let d = s.dec;
    let c0 = s.dec_cycle;
    assert(d.wrapping_sub(cycles.wrapping_sub(c0) as u32).wrapping_sub(later.wrapping_sub(cycles) as u32)
        == d.wrapping_sub(later.wrapping_sub(c0) as u32)) by (bit_vector)
        requires
            cycles <= later,
    ;
}

} // verus!
