//! Bits of the attribute byte of a sprite in OAM.
use vstd::prelude::*;

pub mod bit;
pub mod flag;

verus! {
} // verus!
