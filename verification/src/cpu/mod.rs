pub mod blocks;
pub mod branch;
pub mod compare;
pub mod cr_ops;
pub mod fast;
pub mod fpbits;
pub mod fpscr;
pub mod instr;
pub mod jiterp;
pub mod rotate;
pub mod state;
pub mod step;
pub mod string;
pub mod sysregs;
