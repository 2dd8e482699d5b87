use vstd::prelude::*;

verus! {

pub const A: u8 = 0;
pub const B: u8 = 1;
pub const SELECT: u8 = 2;
pub const START: u8 = 3;
pub const UP: u8 = 4;
pub const DOWN: u8 = 5;
pub const LEFT: u8 = 6;
pub const RIGHT: u8 = 7;

} // verus!
