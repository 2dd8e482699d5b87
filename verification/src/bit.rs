use vstd::prelude::*;

verus! {

pub const CARRY: u8 = 0;
pub const ZERO: u8 = 1;
pub const INTERRUPT_DISABLE: u8 = 2;
pub const DECIMAL: u8 = 3;
pub const BRK: u8 = 4;
pub const EXPANSION: u8 = 5;
pub const OVERFLOW: u8 = 6;
pub const NEGATIVE: u8 = 7;

} // verus!
