//! Pressing and releasing the buttons of the first controller of a NES.
use vstd::prelude::*;

pub mod press;
pub mod release;

verus! {
} // verus!
