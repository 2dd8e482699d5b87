use vstd::prelude::*;

verus! {

pub const EMPTY: u8 = 0;
pub const UNIVERSAL_BACKGROUND: u8 = 1;
pub const SPRITE_BACK: u8 = 2;
pub const BACKGROUND: u8 = 3;
pub const SPRITE_FRONT: u8 = 4;

} // verus!
