use vstd::prelude::*;
use crate::addressing_mode::{self, spec_instruction_bytes, spec_read_data, spec_write_data, spec_jump_target, Trait, ReadData, WriteData, ReadJumpTarget, Absolute, ZeroPage};
use crate::assembler_instruction::Trait as AssemblerInstruction;
use crate::machine::{Cpu, Memory};
use crate::flag;
use crate::status::{lemma_negative_then_zero, spec_carry_value, spec_is_negative_value, spec_with_flag};
use super::{adc_common, branch_next_pc_with_cycles, compare, spec_adc, spec_advance, spec_branch, spec_compare, spec_with_carry, spec_with_status, spec_zn, DataWithCycles};

verus! {

pub const ZERO_PAGE: u8 = 0x24;
pub const ABSOLUTE: u8 = 0x2C;

pub trait AddressingMode: ReadData {
    spec fn spec_num_cycles() -> u8;

    fn num_cycles() -> (r: u8)
        ensures
            r == Self::spec_num_cycles(),
    ;
}

impl AddressingMode for ZeroPage {
    open spec fn spec_num_cycles() -> u8 {
        3
    }

    fn num_cycles() -> (r: u8) {
        3
    }
}

impl AddressingMode for Absolute {
    open spec fn spec_num_cycles() -> u8 {
        4
    }

    fn num_cycles() -> (r: u8) {
        4
    }
}

pub struct Inst<A: AddressingMode>(pub A);

impl AssemblerInstruction for Inst<Absolute> {
    type AddressingMode = Absolute;

    open spec fn spec_opcode() -> u8 {
        ABSOLUTE
    }

    fn opcode() -> (r: u8) {
        ABSOLUTE
    }
}

impl AssemblerInstruction for Inst<ZeroPage> {
    type AddressingMode = ZeroPage;

    open spec fn spec_opcode() -> u8 {
        ZERO_PAGE
    }

    fn opcode() -> (r: u8) {
        ZERO_PAGE
    }
}

/// The cpu, the memory and the cycle count after the instruction in mode `A`.
pub open spec fn spec_interpret<A: AddressingMode, M: Memory>(cpu: Cpu, state: M::V) -> (Cpu, M::V, u8) {
    let (data, s) = spec_read_data::<M>(A::kind(), cpu, state);
    let raw0 = spec_with_flag(cpu.status.raw, flag::ZERO, cpu.acc & data == 0);
    let raw1 = spec_with_flag(raw0, flag::NEGATIVE, spec_is_negative_value(data));
    let raw2 = spec_with_flag(raw1, flag::OVERFLOW, data & 0x40 != 0);
    (spec_advance(spec_with_status(cpu, raw2), spec_instruction_bytes::<A>()), s, A::spec_num_cycles())
}

/// Tests bits of the operand against the accumulator.
pub fn interpret<A: AddressingMode, M: Memory>(_mode: A, cpu: &mut Cpu, memory: &mut M) -> (r: u8)
    ensures
        (*final(cpu), final(memory)@, r) == spec_interpret::<A, M>(*old(cpu), old(memory)@),
{
    let data = A::read_data(cpu, memory);
    let value = cpu.acc & data;
    cpu.status.set_zero_from_value(value);
    cpu.status.set_negative_from_value(data);
    cpu.status.set_overflow_to(data & 0x40 != 0);
    cpu.pc = cpu.pc.wrapping_add(A::instruction_bytes());
    A::num_cycles()
}

} // verus!
