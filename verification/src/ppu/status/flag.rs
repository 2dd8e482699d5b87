use vstd::prelude::*;

verus! {

pub const VBLANK: u8 = 0x80;
pub const SPRITE_ZERO_HIT: u8 = 0x40;

} // verus!
