use vstd::prelude::*;

verus! {

pub const VBLANK_NMI: u8 = 7;
pub const ADDRESS_INCREMENT: u8 = 2;
pub const SPRITE_PATTERN_TABLE: u8 = 3;
pub const BACKGROUND_PATTERN_TABLE: u8 = 4;

} // verus!
