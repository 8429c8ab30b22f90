use vstd::prelude::*;

verus! {

/// Which console a system emulates.
pub type SystemId = u8;

pub const GC: SystemId = 0;
pub const WII: SystemId = 1;

/// How guest code is executed.
#[derive(Debug, Clone, Copy, PartialEq, Eq, Structural)]
pub enum ExecutionMode {
    Jit,
    Jiterpreter,
    Interpreter,
}

impl Default for ExecutionMode {
    /// Without a native code generator the block interpreter is the default.
    fn default() -> (r: Self)
        ensures
            r == ExecutionMode::Jiterpreter,
    {
        ExecutionMode::Jiterpreter
    }
}

/// Counters of one run of the block interpreter.
#[derive(Debug, Clone, Copy)]
pub struct BlockStats {
    pub instrs: u32,
    pub blocks: u32,
    pub cache_hits: u32,
    pub cache_misses: u32,
}

impl Default for BlockStats {
    fn default() -> (r: Self)
        ensures
            r.instrs == 0 && r.blocks == 0 && r.cache_hits == 0 && r.cache_misses == 0,
    {
        BlockStats { instrs: 0, blocks: 0, cache_hits: 0, cache_misses: 0 }
    }
}

} // verus!
