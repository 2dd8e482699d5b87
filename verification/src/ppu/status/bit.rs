use vstd::prelude::*;

verus! {

pub const VBLANK: u8 = 7;
pub const SPRITE_ZERO_HIT: u8 = 6;

} // verus!
