use vstd::prelude::*;

pub mod physical_base_address;
pub mod physical_offset;

verus! {
} // verus!
