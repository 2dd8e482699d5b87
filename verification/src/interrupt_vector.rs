use vstd::prelude::*;
use crate::Address;

verus! {

pub const NMI_LO: Address = 0xFFFA;
pub const NMI_HI: Address = 0xFFFB;
pub const START_LO: Address = 0xFFFC;
pub const START_HI: Address = 0xFFFD;
pub const IRQ_LO: Address = 0xFFFE;
pub const IRQ_HI: Address = 0xFFFF;

} // verus!
