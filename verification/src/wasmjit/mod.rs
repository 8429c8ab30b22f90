pub mod block;
pub mod fxmap;
pub mod classify;
pub mod trace;
pub mod state;
pub mod discover;
pub mod wasm;
pub mod lower;
pub mod module;
