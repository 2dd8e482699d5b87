use vstd::prelude::*;
use crate::addressing_mode;

verus! {

/// An instruction as an assembler sees it: an addressing mode and the opcode byte that
/// selects the instruction in that mode.
pub trait Trait {
    type AddressingMode: addressing_mode::Trait;

    spec fn spec_opcode() -> u8;

    fn opcode() -> (r: u8)
        ensures
            r == Self::spec_opcode(),
    ;
}

} // verus!
