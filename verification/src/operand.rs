use vstd::prelude::*;

verus! {

/// The operand that follows an opcode in memory.
pub trait Trait {
    /// The length of the instruction: the opcode byte and the operand.
    spec fn spec_instruction_bytes() -> u16;

    fn instruction_bytes() -> (r: u16)
        ensures
            r == Self::spec_instruction_bytes(),
    ;
}

/// No operand: the instruction is its opcode alone.
pub struct NoOperand;

impl Trait for NoOperand {
    open spec fn spec_instruction_bytes() -> u16 {
        1
    }

    fn instruction_bytes() -> (r: u16) {
        1
    }
}

/// A one-byte operand.
pub struct Byte;

impl Trait for Byte {
    open spec fn spec_instruction_bytes() -> u16 {
        2
    }

    fn instruction_bytes() -> (r: u16) {
        2
    }
}

/// A two-byte (address) operand.
pub struct Address;

impl Trait for Address {
    open spec fn spec_instruction_bytes() -> u16 {
        3
    }

    fn instruction_bytes() -> (r: u16) {
        3
    }
}

} // verus!
