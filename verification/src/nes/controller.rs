//! The buttons of a standard controller, in the order the shift register reports them.
use vstd::prelude::*;

pub mod bit;
pub mod flag;

verus! {
} // verus!
