use vstd::prelude::*;

verus! {

/// Width of the visible picture in pixels.
pub const SCREEN_WIDTH_PX: u16 = 256;

/// Height of the visible picture in pixels.
pub const SCREEN_HEIGHT_PX: u16 = 240;

/// Number of pixels in the visible picture.
pub const SCREEN_TOTAL_PX: u32 = 61440;

} // verus!
