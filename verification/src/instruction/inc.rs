use vstd::prelude::*;
use crate::addressing_mode::{self, spec_instruction_bytes, spec_read_data, spec_write_data, spec_jump_target, Trait, ReadData, WriteData, ReadJumpTarget, Absolute, AbsoluteXIndexed, ZeroPage, ZeroPageXIndexed};
use crate::assembler_instruction::Trait as AssemblerInstruction;
use crate::machine::{Cpu, Memory};
use crate::flag;
use crate::status::{lemma_negative_then_zero, spec_carry_value, spec_is_negative_value, spec_with_flag};
use super::{adc_common, branch_next_pc_with_cycles, compare, spec_adc, spec_advance, spec_branch, spec_compare, spec_with_carry, spec_with_status, spec_zn, DataWithCycles};

verus! {

pub const ABSOLUTE: u8 = 0xEE;
pub const ABSOLUTE_X_INDEXED: u8 = 0xFE;
pub const ZERO_PAGE: u8 = 0xE6;
pub const ZERO_PAGE_X_INDEXED: u8 = 0xF6;

pub trait AddressingMode: ReadData + WriteData {
    spec fn spec_num_cycles() -> u8;

    fn num_cycles() -> (r: u8)
        ensures
            r == Self::spec_num_cycles(),
    ;
}

impl AddressingMode for Absolute {
    open spec fn spec_num_cycles() -> u8 {
        6
    }

    fn num_cycles() -> (r: u8) {
        6
    }
}

impl AddressingMode for AbsoluteXIndexed {
    open spec fn spec_num_cycles() -> u8 {
        7
    }

    fn num_cycles() -> (r: u8) {
        7
    }
}

impl AddressingMode for ZeroPage {
    open spec fn spec_num_cycles() -> u8 {
        5
    }

    fn num_cycles() -> (r: u8) {
        5
    }
}

impl AddressingMode for ZeroPageXIndexed {
    open spec fn spec_num_cycles() -> u8 {
        6
    }

    fn num_cycles() -> (r: u8) {
        6
    }
}

pub struct Inst<A: AddressingMode>(pub A);

impl AssemblerInstruction for Inst<Absolute> {
    type AddressingMode = Absolute;

    open spec fn spec_opcode() -> u8 {
        ABSOLUTE
    }

    fn opcode() -> (r: u8) {
        ABSOLUTE
    }
}

impl AssemblerInstruction for Inst<AbsoluteXIndexed> {
    type AddressingMode = AbsoluteXIndexed;

    open spec fn spec_opcode() -> u8 {
        ABSOLUTE_X_INDEXED
    }

    fn opcode() -> (r: u8) {
        ABSOLUTE_X_INDEXED
    }
}

impl AssemblerInstruction for Inst<ZeroPage> {
    type AddressingMode = ZeroPage;

    open spec fn spec_opcode() -> u8 {
        ZERO_PAGE
    }

    fn opcode() -> (r: u8) {
        ZERO_PAGE
    }
}

impl AssemblerInstruction for Inst<ZeroPageXIndexed> {
    type AddressingMode = ZeroPageXIndexed;

    open spec fn spec_opcode() -> u8 {
        ZERO_PAGE_X_INDEXED
    }

    fn opcode() -> (r: u8) {
        ZERO_PAGE_X_INDEXED
    }
}

/// The cpu, the memory and the cycle count after the instruction in mode `A`.
pub open spec fn spec_interpret<A: AddressingMode, M: Memory>(cpu: Cpu, state: M::V) -> (Cpu, M::V, u8) {
    let (data, s1) = spec_read_data::<M>(A::kind(), cpu, state);
    let data = data.wrapping_add(1);
    let s2 = spec_write_data::<M>(A::kind(), cpu, s1, data);
    (spec_advance(spec_zn(cpu, data), spec_instruction_bytes::<A>()), s2, A::spec_num_cycles())
}

/// Increments the operand in memory.
pub fn interpret<A: AddressingMode, M: Memory>(_mode: A, cpu: &mut Cpu, memory: &mut M) -> (r: u8)
    ensures
        (*final(cpu), final(memory)@, r) == spec_interpret::<A, M>(*old(cpu), old(memory)@),
{
    let data = A::read_data(cpu, memory).wrapping_add(1);
    A::write_data(cpu, memory, data);
    proof { lemma_negative_then_zero(cpu.status.raw, data); }
    cpu.status.set_negative_from_value(data);
    cpu.status.set_zero_from_value(data);
    cpu.pc = cpu.pc.wrapping_add(A::instruction_bytes());
    A::num_cycles()
}

} // verus!
