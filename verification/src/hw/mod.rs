pub mod ai;
pub mod cp;
pub mod exi;
pub mod gx;
pub mod mi;
pub mod mmio;
pub mod pi;
pub mod si;
pub mod vi;
