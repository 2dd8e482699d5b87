use vstd::prelude::*;

verus! {

pub const FLIP_SPRITE_VERTICALLY: u8 = 7;
pub const FLIP_SPRITE_HORIZONTALLY: u8 = 6;
pub const PRIORITY: u8 = 5;

} // verus!
