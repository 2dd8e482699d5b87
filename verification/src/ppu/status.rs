//! Bits of the PPU status register (0x2002).
use vstd::prelude::*;

pub mod bit;
pub mod flag;

verus! {
} // verus!
