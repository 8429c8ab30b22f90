use crate::bits::bit32;
use vstd::prelude::*;

verus! {

/// Floating-point status and control register. Bits are numbered msb0:
/// bit 0 is FX, bits 15..=19 FPRF, bits 30..=31 the rounding mode.
#[derive(Clone, Copy)]
pub struct Fpscr {
    pub raw: u32,
}

impl Default for Fpscr {
    fn default() -> (r: Self)
        ensures
            r.raw == 0,
    {
        Fpscr { raw: 0 }
    }
}

impl Fpscr {
    pub fn from_raw(raw: u32) -> (r: Self)
        ensures
            r.raw == raw,
    {
        Fpscr { raw }
    }

    /// Flag at msb0 position `bit`.
    pub open spec fn flag(self, bit: u32) -> bool {
        bit32(self.raw, (31 - bit) as u32)
    }
}

} // verus!
