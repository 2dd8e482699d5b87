use vstd::prelude::*;
use crate::addressing_mode::{self, spec_instruction_bytes, spec_read_data, spec_address, spec_jump_target, Trait, ReadData, ReadJumpTarget, WriteData, Absolute, AbsoluteXIndexed, AbsoluteYIndexed, Accumulator, Immediate, Implied, Indirect, IndirectYIndexed, Relative};
use crate::assembler_instruction::Trait as AssemblerInstruction;
use crate::machine::{spec_pop, spec_push, spec_pushed, spec_read_u16_le, Cpu, Memory};
use crate::address;
use crate::flag;
use crate::status::{lemma_negative_then_zero, spec_carry_value, spec_has_flag, spec_is_negative_value, spec_with_flag, MASK};
use super::{adc_common, branch_next_pc_with_cycles, compare, spec_adc, spec_advance, spec_branch, spec_compare, spec_with_carry, spec_with_status, spec_zn, DataWithCycles};

verus! {

pub const ABSOLUTE: u8 = 0x20;

pub trait AddressingMode: ReadJumpTarget {}

impl AddressingMode for Absolute {}

pub struct Inst<A: AddressingMode>(pub A);

impl AssemblerInstruction for Inst<Absolute> {
    type AddressingMode = Absolute;

    open spec fn spec_opcode() -> u8 {
        ABSOLUTE
    }

    fn opcode() -> (r: u8) {
        ABSOLUTE
    }
}

/// The cpu, the memory and the cycle count after the call.
pub open spec fn spec_interpret<A: AddressingMode, M: Memory>(cpu: Cpu, state: M::V) -> (Cpu, M::V, u8) {
    let return_address = cpu.pc.wrapping_add(2);
    let (cpu1, s1) = spec_push::<M>(cpu, state, (return_address / 256) as u8);
    let (cpu2, s2) = spec_push::<M>(cpu1, s1, (return_address % 256) as u8);
    let (target, s3) = spec_jump_target::<M>(A::kind(), cpu2, s2);
    (Cpu { pc: target, ..cpu2 }, s3, 6)
}

/// Calls a subroutine: pushes the address of the last byte of the instruction and jumps.
pub fn interpret<A: AddressingMode, M: Memory>(_mode: A, cpu: &mut Cpu, memory: &mut M) -> (r: u8)
    ensures
        (*final(cpu), final(memory)@, r) == spec_interpret::<A, M>(*old(cpu), old(memory)@),
{
    let return_address = cpu.pc.wrapping_add(2);
    cpu.push_stack_u8(memory, address::hi(return_address));
    cpu.push_stack_u8(memory, address::lo(return_address));
    cpu.pc = A::read_jump_target(cpu, memory);
    6
}

} // verus!
