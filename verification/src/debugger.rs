use vstd::prelude::*;

verus! {

/// What the emulator does between debugger frames.
#[derive(PartialEq, Eq, Clone, Copy, Structural)]
pub enum EmulatorState {
    Running,
    Paused,
    StepOne,
    RunUntilVsync,
}

/// Debugger window settings.
pub struct DebuggerUi {
    pub emulator_state: EmulatorState,
    pub show_cpu: bool,
    pub show_gx_state: bool,
    pub show_mmio: bool,
    pub memory_base: u32,
    pub memory_addr_input: String,
}

impl Default for DebuggerUi {
    /// Paused, CPU view open, memory view at the start of cached RAM.
    fn default() -> (r: Self)
        ensures
            r.emulator_state == EmulatorState::Paused,
            r.show_cpu,
            !r.show_gx_state,
            !r.show_mmio,
            r.memory_base == 0x8000_0000,
            r.memory_addr_input@ == "80000000"@,
    {
        DebuggerUi {
            emulator_state: EmulatorState::Paused,
            show_cpu: true,
            show_gx_state: false,
            show_mmio: false,
            memory_base: 0x8000_0000,
            memory_addr_input: String::from_str("80000000"),
        }
    }
}

} // verus!
