use vstd::prelude::*;

verus! {

pub const FLIP_SPRITE_VERTICALLY: u8 = 0x80;
pub const FLIP_SPRITE_HORIZONTALLY: u8 = 0x40;
pub const PRIORITY: u8 = 0x20;

} // verus!
