use vstd::prelude::*;

verus! {

pub const VBLANK_NMI: u8 = 0x80;
pub const ADDRESS_INCREMENT: u8 = 0x04;
pub const SPRITE_PATTERN_TABLE: u8 = 0x08;
pub const BACKGROUND_PATTERN_TABLE: u8 = 0x10;

} // verus!
