//! Bus-independent driver logic for the Waveshare 2.13" (B, V3) e-ink display.
//!
//! The driver never touches a pin or a bus. Every lifecycle operation returns
//! the ordered list of bus operations that carries it out; the caller performs
//! them in order on its transport and stops at the first one that fails.
use vstd::prelude::*;

pub mod color;
pub mod epd2in13b_v3;
pub mod interface;
pub mod traits;

verus! {

/// Number of bytes of a row-packed, one-bit-per-pixel bitmap of `width` by
/// `height` pixels, as a mathematical integer.
pub open spec fn spec_buffer_len(width: int, height: int) -> int {
    (width + 7) / 8 * height
}

/// Number of bytes of a row-packed, one-bit-per-pixel bitmap: each row takes
/// `width / 8` bytes, rounded up.
pub fn buffer_len(width: usize, height: usize) -> (len: usize)
    requires
        width + 7 <= usize::MAX,
        spec_buffer_len(width as int, height as int) <= usize::MAX,
    ensures
        len == spec_buffer_len(width as int, height as int),
{
    (width + 7) / 8 * height
}

} // verus!
