use vstd::prelude::*;
use crate::addressing_mode::{self, spec_instruction_bytes, spec_read_data, spec_write_data, spec_jump_target, Trait, ReadData, WriteData, ReadJumpTarget, Absolute, XIndexedIndirect, ZeroPage, ZeroPageYIndexed};
use crate::assembler_instruction::Trait as AssemblerInstruction;
use crate::machine::{Cpu, Memory};
use crate::flag;
use crate::status::{lemma_negative_then_zero, spec_carry_value, spec_is_negative_value, spec_with_flag};
use super::{adc_common, branch_next_pc_with_cycles, compare, spec_adc, spec_advance, spec_branch, spec_compare, spec_with_carry, spec_with_status, spec_zn, DataWithCycles};

verus! {

pub const UNOFFICIAL0_X_INDEXED_INDIRECT: u8 = 0x83;
pub const UNOFFICIAL0_ZERO_PAGE: u8 = 0x87;
pub const UNOFFICIAL0_ABSOLUTE: u8 = 0x8F;
pub const UNOFFICIAL0_ZERO_PAGE_Y_INDEXED: u8 = 0x97;

pub trait AddressingMode: WriteData {
    spec fn spec_num_cycles() -> u8;

    fn num_cycles() -> (r: u8)
        ensures
            r == Self::spec_num_cycles(),
    ;
}

impl AddressingMode for XIndexedIndirect {
    open spec fn spec_num_cycles() -> u8 {
        6
    }

    fn num_cycles() -> (r: u8) {
        6
    }
}

impl AddressingMode for ZeroPage {
    open spec fn spec_num_cycles() -> u8 {
        3
    }

    fn num_cycles() -> (r: u8) {
        3
    }
}

impl AddressingMode for Absolute {
    open spec fn spec_num_cycles() -> u8 {
        4
    }

    fn num_cycles() -> (r: u8) {
        4
    }
}

impl AddressingMode for ZeroPageYIndexed {
    open spec fn spec_num_cycles() -> u8 {
        4
    }

    fn num_cycles() -> (r: u8) {
        4
    }
}

pub struct Inst<A: AddressingMode>(pub A);

impl AssemblerInstruction for Inst<XIndexedIndirect> {
    type AddressingMode = XIndexedIndirect;

    open spec fn spec_opcode() -> u8 {
        UNOFFICIAL0_X_INDEXED_INDIRECT
    }

    fn opcode() -> (r: u8) {
        UNOFFICIAL0_X_INDEXED_INDIRECT
    }
}

impl AssemblerInstruction for Inst<ZeroPage> {
    type AddressingMode = ZeroPage;

    open spec fn spec_opcode() -> u8 {
        UNOFFICIAL0_ZERO_PAGE
    }

    fn opcode() -> (r: u8) {
        UNOFFICIAL0_ZERO_PAGE
    }
}

impl AssemblerInstruction for Inst<Absolute> {
    type AddressingMode = Absolute;

    open spec fn spec_opcode() -> u8 {
        UNOFFICIAL0_ABSOLUTE
    }

    fn opcode() -> (r: u8) {
        UNOFFICIAL0_ABSOLUTE
    }
}

impl AssemblerInstruction for Inst<ZeroPageYIndexed> {
    type AddressingMode = ZeroPageYIndexed;

    open spec fn spec_opcode() -> u8 {
        UNOFFICIAL0_ZERO_PAGE_Y_INDEXED
    }

    fn opcode() -> (r: u8) {
        UNOFFICIAL0_ZERO_PAGE_Y_INDEXED
    }
}

/// The cpu, the memory and the cycle count after the instruction in mode `A`.
pub open spec fn spec_interpret<A: AddressingMode, M: Memory>(cpu: Cpu, state: M::V) -> (Cpu, M::V, u8) {
    (spec_advance(cpu, spec_instruction_bytes::<A>()), spec_write_data::<M>(A::kind(), cpu, state, cpu.acc & cpu.x), A::spec_num_cycles())
}

/// Stores the accumulator and-ed with the X register.
pub fn interpret<A: AddressingMode, M: Memory>(_mode: A, cpu: &mut Cpu, memory: &mut M) -> (r: u8)
    ensures
        (*final(cpu), final(memory)@, r) == spec_interpret::<A, M>(*old(cpu), old(memory)@),
{
    A::write_data(cpu, memory, cpu.acc & cpu.x);
    cpu.pc = cpu.pc.wrapping_add(A::instruction_bytes());
    A::num_cycles()
}

} // verus!
