//! NTSC timing, in CPU cycles.
use vstd::prelude::*;

pub mod ntsc;

verus! {
} // verus!
