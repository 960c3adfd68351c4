//! Little-endian 16-bit fields.

use vstd::prelude::*;

verus! {

/// The unsigned 16-bit number whose low byte is `lo` and whose high byte is `hi`.
pub open spec fn le_u16(lo: u8, hi: u8) -> int {
    lo as int + 256 * (hi as int)
}

/// The two's-complement 16-bit number whose low byte is `lo` and whose high
/// byte is `hi`.
pub open spec fn le_i16(lo: u8, hi: u8) -> int {
    if hi >= 128 {
        le_u16(lo, hi) - 65536
    } else {
        le_u16(lo, hi)
    }
}

/// Reads two bytes as an unsigned little-endian number.
pub fn read_u16_le(lo: u8, hi: u8) -> (value: u16)
    ensures
        value == le_u16(lo, hi),
{
    (hi as u16) * 256 + (lo as u16)
}

/// Reads two bytes as a signed little-endian number.
pub fn read_i16_le(lo: u8, hi: u8) -> (value: i16)
    ensures
        value == le_i16(lo, hi),
{
    if hi >= 128 {
        ((hi as i16) - 256) * 256 + (lo as i16)
    } else {
        (hi as i16) * 256 + (lo as i16)
    }
}

} // verus!
