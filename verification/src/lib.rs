pub mod bits;
pub mod console;
pub mod cpu;
pub mod debugger;
pub mod dsp;
pub mod hw;
pub mod idle;
pub mod input;
pub mod ipc;
pub mod iso;
pub mod jiterpreter;
pub mod kitty;
pub mod loader;
pub mod mmu;
pub mod system;
pub mod tracefmt;
pub mod wasmjit;
pub mod wiimote;
