//! Bits of the PPU control register (0x2000).
use vstd::prelude::*;

pub mod bit;
pub mod flag;

verus! {
} // verus!
