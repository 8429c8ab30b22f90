use vstd::prelude::*;

verus! {

/// Value a byte read returns for an access that may hit a register.
pub open spec fn read8_of(r: Option<u32>) -> u8 {
    match r {
        Some(v) => v as u8,
        None => 0,
    }
}

/// Value a halfword read returns for an access that may hit a register.
pub open spec fn read16_of(r: Option<u32>) -> u16 {
    match r {
        Some(v) => v as u16,
        None => 0,
    }
}

/// Value a word read returns for an access that may hit a register.
pub open spec fn read32_of(r: Option<u32>) -> u32 {
    match r {
        Some(v) => v,
        None => 0,
    }
}

pub fn unwrap_read8(r: Option<u32>) -> (v: u8)
    ensures
        v == read8_of(r),
{
    match r {
        Some(v) => v as u8,
        None => 0,
    }
}

pub fn unwrap_read16(r: Option<u32>) -> (v: u16)
    ensures
        v == read16_of(r),
{
    match r {
        Some(v) => v as u16,
        None => 0,
    }
}

pub fn unwrap_read32(r: Option<u32>) -> (v: u32)
    ensures
        v == read32_of(r),
{
    match r {
        Some(v) => v,
        None => 0,
    }
}

} // verus!
