use crate::console::Gekko;
use crate::cpu::fast::{fast_access_allowed, fast_access_ok, fast_handles, fast_step, try_execute_fast_instruction};
use crate::cpu::fpbits::{float_form, is_float_form};
use crate::cpu::state::Cpu;
use crate::cpu::sysregs::{
    dec_pending, decrementer_interrupt_spec, external_interrupt_spec, raise_decrementer_interrupt,
    raise_external_interrupt, MSR_EE,
};
use crate::mmu::{be32_of, is_mapped, mapped, virt_to_phys, virt_to_phys_spec};
use vstd::prelude::*;

verus! {

/// The console as the instruction at `pc` starts: `cia` is `pc` and `nia`
/// the word after it.
pub open spec fn at_fetch(g: Gekko) -> Gekko {
    Gekko { cpu: Cpu { cia: g.cpu.pc, nia: g.cpu.pc.wrapping_add(4), ..g.cpu }, ..g }
}

/// The instruction word at `pc`, read from memory.
pub open spec fn fetched_word(g: Gekko) -> u32 {
    let p = virt_to_phys_spec(g.cpu.pc) as int;
    be32_of(g.mmu.mem(p), g.mmu.mem(p + 1), g.mmu.mem(p + 2), g.mmu.mem(p + 3))
}

/// Whether the fast path runs the instruction at `pc`: it handles the
/// form, and every access it makes is allowed.
pub open spec fn fast_steppable(g: Gekko) -> bool {
    fast_handles(at_fetch(g).cpu, fetched_word(g)) && fast_access_ok(at_fetch(g), fetched_word(g))
}

/// What became of the instruction at `pc`.
#[derive(Clone, Copy, Debug, PartialEq, Eq, Structural)]
pub enum StepOutcome {
    /// It ran: one cycle passed and `pc` took `nia`.
    Done,
    /// A floating-point form this library does not compute: nothing has
    /// changed; the caller runs it between `begin_step` and `finish_step`.
    Float,
    /// An access outside mapped memory, or a word that is no instruction:
    /// nothing has changed.
    Fault,
}

/// The outcome `run_until_event` reports for the console `g`.
pub open spec fn step_outcome(g: Gekko) -> StepOutcome {
    if fast_steppable(g) {
        StepOutcome::Done
    } else if float_form(fetched_word(g)) {
        StepOutcome::Float
    } else {
        StepOutcome::Fault
    }
}

impl Gekko {
    /// Runs the instruction at `pc`: `cia` takes `pc`, `nia` the next word,
    /// the instruction executes, one cycle passes and `pc` takes `nia`.
    /// Every integer, branch, condition-register, load/store and system
    /// form runs, and the floating-point forms that only move bits. The
    /// other floating-point forms are reported as `Float` for the caller
    /// to run (see `begin_step` and `finish_step`); accesses outside mapped
    /// memory and words that are no instruction as `Fault`. Both change
    /// nothing.
    pub fn run_until_event(&mut self) -> (outcome: StepOutcome)
        requires
            old(self).wf(),
            mapped(virt_to_phys_spec(old(self).cpu.pc) as int, 4),
            old(self).cycles < u64::MAX,
        ensures
            final(self).wf(),
            outcome == step_outcome(*old(self)),
            outcome == StepOutcome::Done ==> exists|mid: Gekko|
                #[trigger] fast_step(at_fetch(*old(self)), mid, fetched_word(*old(self)))
                    && *final(self) == (Gekko {
                    cpu: Cpu { pc: mid.cpu.nia, ..mid.cpu },
                    cycles: (old(self).cycles + 1) as u64,
                    ..mid
                }),
            outcome != StepOutcome::Done ==> *final(self) == *old(self),
    {
        let ghost g0 = *self;
        let saved_cia = self.cpu.cia;
        let saved_nia = self.cpu.nia;
        let cycles = self.cycles;
        self.cpu.cia = self.cpu.pc;
        self.cpu.nia = self.cpu.cia.wrapping_add(4);
        assert(*self == at_fetch(g0));
        let word = self.mmu.virt_read_u32(self.cpu.cia);
        let handled = if fast_access_allowed(self, word) {
            try_execute_fast_instruction(self, word)
        } else {
            false
        };
        if !handled {
            self.cpu.cia = saved_cia;
            self.cpu.nia = saved_nia;
            assert(*self == g0);
            if is_float_form(word) {
                return StepOutcome::Float;
            } else {
                return StepOutcome::Fault;
            }
        }
        let ghost mid = *self;
        assert(fast_step(at_fetch(g0), mid, fetched_word(g0)));
        self.cycles = cycles + 1;
        self.cpu.pc = self.cpu.nia;
        assert(*self == (Gekko {
            cpu: Cpu { pc: mid.cpu.nia, ..mid.cpu },
            cycles: (g0.cycles + 1) as u64,
            ..mid
        }));
        StepOutcome::Done
    }

    /// Starts an instruction run by the caller: `cia` takes `pc` and `nia`
    /// the word after it.
    pub fn begin_step(&mut self)
        ensures
            *final(self) == at_fetch(*old(self)),
    {
        self.cpu.cia = self.cpu.pc;
        self.cpu.nia = self.cpu.cia.wrapping_add(4);
    }

    /// Ends an instruction run by the caller: one cycle passes and `pc`
    /// takes the `nia` the instruction left.
    pub fn finish_step(&mut self)
        requires
            old(self).cycles < u64::MAX,
        ensures
            *final(self) == (Gekko {
                cpu: Cpu { pc: old(self).cpu.nia, ..old(self).cpu },
                cycles: (old(self).cycles + 1) as u64,
                ..*old(self)
            }),
    {
        self.cycles = self.cycles + 1;
        self.cpu.pc = self.cpu.nia;
    }
}

/// Whether an external interrupt is taken before the next instruction:
/// the MSR enables them and the processor interface has one pending that
/// its mask lets through.
pub open spec fn external_pending(g: Gekko) -> bool {
    g.sys.msr & MSR_EE != 0 && g.pi.cause & g.pi.mask != 0
}

/// Whether the decrementer interrupt is taken before the next instruction:
/// the MSR enables it, no external interrupt comes first, and the
/// decrementer has counted past zero.
pub open spec fn decrementer_due(g: Gekko) -> bool {
    g.sys.msr & MSR_EE != 0 && g.pi.cause & g.pi.mask == 0 && dec_pending(g.sys@, g.cycles)
}

/// Whether an interrupt is taken before the next instruction.
pub open spec fn interrupt_due(g: Gekko) -> bool {
    external_pending(g) || decrementer_due(g)
}

/// `g2` is `g` after one processor step that went through: an interrupt
/// taken, or the instruction at `pc` run, in two cycles.
pub open spec fn cpu_stepped(g: Gekko, g2: Gekko) -> bool {
    if external_pending(g) {
        let r = external_interrupt_spec(g.cpu, g.sys@);
        &&& g2 == (Gekko { cpu: r.0, sys: g2.sys, cycles: (g.cycles + 2) as u64, ..g })
        &&& g2.sys@ == r.1
    } else if decrementer_due(g) {
        let r = decrementer_interrupt_spec(g.cpu, g.sys@, g.cycles);
        &&& g2 == (Gekko { cpu: r.0, sys: g2.sys, cycles: (g.cycles + 2) as u64, ..g })
        &&& g2.sys@ == r.1
    } else {
        &&& step_outcome(g) == StepOutcome::Done
        &&& exists|mid: Gekko|
            #[trigger] fast_step(at_fetch(g), mid, fetched_word(g)) && g2 == (Gekko {
                cpu: Cpu { pc: mid.cpu.nia, ..mid.cpu },
                cycles: (g.cycles + 2) as u64,
                ..mid
            })
    }
}

/// `states` is a run of processor steps, each state the one before it after
/// one step.
pub open spec fn cpu_run(states: Seq<Gekko>) -> bool {
    forall|i: int| 0 <= i < states.len() - 1 ==> #[trigger] cpu_stepped(states[i], states[i + 1])
}

/// How a run of processor steps ended.
#[derive(Clone, Copy, Debug, PartialEq, Eq, Structural)]
pub enum RunEnd {
    /// The stop condition held.
    Stopped,
    /// The next instruction is a floating-point form left to the caller.
    Float,
    /// The next instruction reads or runs outside mapped memory, or is no
    /// instruction.
    Fault,
    /// Another step would run the cycle count past its range.
    CycleLimit,
}

impl Gekko {
    /// One processor step: a pending external interrupt, else a due
    /// decrementer interrupt, is taken (two cycles); otherwise the
    /// instruction at `pc` runs as in `run_until_event`, taking two cycles.
    pub fn step_cpu(&mut self) -> (outcome: StepOutcome)
        requires
            old(self).wf(),
            !interrupt_due(*old(self)) ==> mapped(virt_to_phys_spec(old(self).cpu.pc) as int, 4),
            old(self).cycles < u64::MAX - 1,
        ensures
            final(self).wf(),
            external_pending(*old(self)) ==> outcome == StepOutcome::Done && ({
                let r = external_interrupt_spec(old(self).cpu, old(self).sys@);
                &&& *final(self) == (Gekko {
                    cpu: r.0,
                    sys: final(self).sys,
                    cycles: (old(self).cycles + 2) as u64,
                    ..*old(self)
                })
                &&& final(self).sys@ == r.1
            }),
            decrementer_due(*old(self)) ==> outcome == StepOutcome::Done && ({
                let r = decrementer_interrupt_spec(old(self).cpu, old(self).sys@, old(self).cycles);
                &&& *final(self) == (Gekko {
                    cpu: r.0,
                    sys: final(self).sys,
                    cycles: (old(self).cycles + 2) as u64,
                    ..*old(self)
                })
                &&& final(self).sys@ == r.1
            }),
            !interrupt_due(*old(self)) ==> outcome == step_outcome(*old(self)),
            !interrupt_due(*old(self)) && outcome == StepOutcome::Done ==> exists|mid: Gekko|
                #[trigger] fast_step(at_fetch(*old(self)), mid, fetched_word(*old(self)))
                    && *final(self) == (Gekko {
                    cpu: Cpu { pc: mid.cpu.nia, ..mid.cpu },
                    cycles: (old(self).cycles + 2) as u64,
                    ..mid
                }),
            !interrupt_due(*old(self)) && outcome != StepOutcome::Done ==> *final(self) == *old(self),
            outcome == StepOutcome::Done ==> cpu_stepped(*old(self), *final(self)),
    {
        if self.sys.msr & MSR_EE != 0 {
            if self.pi.interrupt_pending() {
                raise_external_interrupt(&mut self.cpu, &mut self.sys);
                self.cycles = self.cycles + 2;
                return StepOutcome::Done;
            }
            if self.sys.dec_pending(self.cycles) {
                raise_decrementer_interrupt(&mut self.cpu, &mut self.sys, self.cycles);
                self.cycles = self.cycles + 2;
                return StepOutcome::Done;
            }
        }
        let outcome = self.run_until_event();
        if outcome == StepOutcome::Done {
            self.cycles = self.cycles + 1;
        }
        outcome
    }

    /// Sets `pc`, then steps the processor until `stop` holds of the
    /// console. The run ends early, with nothing changed by that last try,
    /// at a floating-point form, at an instruction outside mapped memory or
    /// no instruction, or where another step would run the cycle count out.
    pub fn run_until(&mut self, pc: u32, stop: impl Fn(&Gekko) -> bool) -> (end: RunEnd)
        requires
            old(self).wf(),
            forall|g: &Gekko| #[trigger] stop.requires((g,)),
        ensures
            final(self).wf(),
            exists|states: Seq<Gekko>|
                #[trigger] cpu_run(states) && states.len() >= 1 && states[0] == (Gekko {
                    cpu: Cpu { pc, ..old(self).cpu },
                    ..*old(self)
                }) && states.last() == *final(self),
            end == RunEnd::Stopped ==> stop.ensures((&*final(self),), true),
            end != RunEnd::Stopped ==> stop.ensures((&*final(self),), false),
            end == RunEnd::CycleLimit ==> final(self).cycles >= u64::MAX - 1,
            end == RunEnd::Float ==> !interrupt_due(*final(self)) && step_outcome(*final(self)) == StepOutcome::Float,
            end == RunEnd::Fault ==> !interrupt_due(*final(self)) && (step_outcome(*final(self))
                == StepOutcome::Fault || !mapped(virt_to_phys_spec(final(self).cpu.pc) as int, 4)),
    {
        self.cpu.pc = pc;
        let ghost mut states: Seq<Gekko> = seq![*self];
        loop
            invariant
                self.wf(),
                forall|g: &Gekko| #[trigger] stop.requires((g,)),
                cpu_run(states),
                states.len() >= 1,
                states[0] == (Gekko { cpu: Cpu { pc, ..old(self).cpu }, ..*old(self) }),
                states.last() == *self,
            ensures
                self.wf(),
            decreases u64::MAX - self.cycles,
        {
            if stop(&*self) {
                assert(cpu_run(states));
                return RunEnd::Stopped;
            }
            if self.cycles >= u64::MAX - 1 {
                return RunEnd::CycleLimit;
            }
            let due = self.sys.msr & MSR_EE != 0 && (self.pi.interrupt_pending() || self.sys.dec_pending(self.cycles));
            if !due && !is_mapped(virt_to_phys(self.cpu.pc), 4) {
                return RunEnd::Fault;
            }
            let ghost before = *self;
            let outcome = self.step_cpu();
            if outcome == StepOutcome::Float {
                return RunEnd::Float;
            }
            if outcome == StepOutcome::Fault {
                return RunEnd::Fault;
            }
            proof {
                let next = states.push(*self);
                assert forall|i: int| 0 <= i < next.len() - 1 implies #[trigger] cpu_stepped(next[i], next[i + 1]) by {
                    if i < states.len() - 1 {
                        assert(next[i] == states[i] && next[i + 1] == states[i + 1]);
                    } else {
                        assert(next[i] == before && next[i + 1] == *self);
                    }
                }
                states = next;
            }
        }
    }
}

/// A step the caller completes: `begin_step`, any change the instruction
/// makes, then `finish_step` leave `cia` at the old `pc`, one more cycle,
/// and `pc` at the `nia` the instruction left.
pub proof fn lemma_caller_step(g: Gekko, mid: Gekko, end: Gekko)
    requires
        mid.cpu.cia == at_fetch(g).cpu.cia,
        mid.cycles == g.cycles,
        g.cycles < u64::MAX,
        end == (Gekko { cpu: Cpu { pc: mid.cpu.nia, ..mid.cpu }, cycles: (mid.cycles + 1) as u64, ..mid }),
    ensures
        end.cpu.cia == g.cpu.pc,
        end.cycles == g.cycles + 1,
        end.cpu.pc == mid.cpu.nia,
{
}

} // verus!
