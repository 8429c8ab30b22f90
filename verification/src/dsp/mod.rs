pub mod alu;
pub mod condition;
pub mod flow;
pub mod instr;
pub mod machine;
pub mod memory;
pub mod multiply;
pub mod regs;
pub mod shift;
pub mod stack;
pub mod status;
