use crate::bits::bit32;
use crate::hw::mmio::{read16_of, read32_of, read8_of, unwrap_read16, unwrap_read32, unwrap_read8};
use vstd::prelude::*;

verus! {

/// Register offsets inside the video-interface block.
pub const VI_DISPLAY_CONFIGURATION: u32 = 0x02;
pub const VI_TOP_FIELD_BASE: u32 = 0x1C;
pub const VI_BOTTOM_FIELD_BASE: u32 = 0x24;

/// External framebuffer dimensions, in pixels.
pub const XFB_WIDTH: usize = 640;
pub const XFB_HEIGHT: usize = 574;

/// Physical XFB address named by a top-field base register: the address
/// bits 9..=23, plus bit 24 when the page-offset bit (28) is set.
pub open spec fn xfb_addr_of(top: u32) -> u32 {
    (top & 0x00FF_FE00) | (if bit32(top, 28) { 0x0100_0000u32 } else { 0u32 })
}

/// Video interface: display configuration and the two field bases.
#[derive(Clone, Copy)]
pub struct Vi {
    pub dcr: u16,
    pub top_field_base: u32,
    pub bottom_field_base: u32,
}

impl Vi {
    pub fn new() -> (r: Self)
        ensures
            r.dcr == 0,
            r.top_field_base == 0,
            r.bottom_field_base == 0,
    {
        Vi { dcr: 0, top_field_base: 0, bottom_field_base: 0 }
    }

    /// Physical address of the external framebuffer.
    pub fn xfb_addr(&self) -> (r: u32)
        ensures
            r == xfb_addr_of(self.top_field_base),
    {
        let top = self.top_field_base;
        let r = (((top >> 9u32) & 0x7FFF) << 9u32) | (((top >> 28u32) & 1) << 24u32);
        assert(r == (top & 0x00FF_FE00) | (if (top >> 28u32) & 1u32 == 1u32 { 0x0100_0000u32 } else { 0u32 })) by (bit_vector)
            requires
                r == (((top >> 9u32) & 0x7FFF) << 9u32) | (((top >> 28u32) & 1) << 24u32),
        ;
        r
    }

    pub open spec fn read_raw_spec(&self, offset: u32, size: u32) -> Option<u32> {
        if size == 2 && offset == VI_DISPLAY_CONFIGURATION {
            Some(self.dcr as u32)
        } else if size == 4 && offset == VI_TOP_FIELD_BASE {
            Some(self.top_field_base)
        } else if size == 4 && offset == VI_BOTTOM_FIELD_BASE {
            Some(self.bottom_field_base)
        } else {
            None
        }
    }

    pub open spec fn write_raw_spec(&self, offset: u32, size: u32, val: u32) -> (Vi, bool) {
        if size == 2 && offset == VI_DISPLAY_CONFIGURATION {
            (Vi { dcr: val as u16, ..*self }, true)
        } else if size == 4 && offset == VI_TOP_FIELD_BASE {
            (Vi { top_field_base: val, ..*self }, true)
        } else if size == 4 && offset == VI_BOTTOM_FIELD_BASE {
            (Vi { bottom_field_base: val, ..*self }, true)
        } else {
            (*self, false)
        }
    }

    fn read_raw(&self, offset: u32, size: u32) -> (r: Option<u32>)
        ensures
            r == self.read_raw_spec(offset, size),
    {
        if size == 2 && offset == VI_DISPLAY_CONFIGURATION {
            Some(self.dcr as u32)
        } else if size == 4 && offset == VI_TOP_FIELD_BASE {
            Some(self.top_field_base)
        } else if size == 4 && offset == VI_BOTTOM_FIELD_BASE {
            Some(self.bottom_field_base)
        } else {
            None
        }
    }

    fn write_raw(&mut self, offset: u32, size: u32, val: u32) -> (hit: bool)
        ensures
            (*final(self), hit) == old(self).write_raw_spec(offset, size, val),
    {
        if size == 2 && offset == VI_DISPLAY_CONFIGURATION {
            self.dcr = val as u16;
            true
        } else if size == 4 && offset == VI_TOP_FIELD_BASE {
            self.top_field_base = val;
            true
        } else if size == 4 && offset == VI_BOTTOM_FIELD_BASE {
            self.bottom_field_base = val;
            true
        } else {
            false
        }
    }

    pub fn mmio_read_u8(&self, offset: u32) -> (r: u8)
        ensures
            r == read8_of(self.read_raw_spec(offset, 1)),
    {
        unwrap_read8(self.read_raw(offset, 1))
    }

    pub fn mmio_write_u8(&mut self, offset: u32, val: u8)
        ensures
            *final(self) == old(self).write_raw_spec(offset, 1, val as u32).0,
    {
        self.write_raw(offset, 1, val as u32);
    }

    pub fn mmio_read_u16(&self, offset: u32) -> (r: u16)
        ensures
            r == read16_of(self.read_raw_spec(offset, 2)),
    {
        unwrap_read16(self.read_raw(offset, 2))
    }

    pub fn mmio_write_u16(&mut self, offset: u32, val: u16)
        ensures
            *final(self) == old(self).write_raw_spec(offset, 2, val as u32).0,
    {
        self.write_raw(offset, 2, val as u32);
    }

    pub fn mmio_read_u32(&self, offset: u32) -> (r: u32)
        ensures
            r == read32_of(self.read_raw_spec(offset, 4)),
    {
        unwrap_read32(self.read_raw(offset, 4))
    }

    pub fn mmio_write_u32(&mut self, offset: u32, val: u32)
        ensures
            *final(self) == old(self).write_raw_spec(offset, 4, val).0,
    {
        self.write_raw(offset, 4, val);
    }
}

} // verus!
