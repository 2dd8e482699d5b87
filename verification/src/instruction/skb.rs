use vstd::prelude::*;
use crate::addressing_mode::{self, spec_instruction_bytes, spec_read_data, spec_address, spec_jump_target, Trait, ReadData, ReadJumpTarget, WriteData, Absolute, AbsoluteXIndexed, AbsoluteYIndexed, Accumulator, Immediate, Implied, Indirect, IndirectYIndexed, Relative};
use crate::assembler_instruction::Trait as AssemblerInstruction;
use crate::machine::{spec_pop, spec_push, spec_pushed, spec_read_u16_le, Cpu, Memory};
use crate::address;
use crate::flag;
use crate::status::{lemma_negative_then_zero, spec_carry_value, spec_has_flag, spec_is_negative_value, spec_with_flag, MASK};
use super::{adc_common, branch_next_pc_with_cycles, compare, spec_adc, spec_advance, spec_branch, spec_compare, spec_with_carry, spec_with_status, spec_zn, DataWithCycles};

verus! {

pub const UNOFFICIAL0_IMMEDIATE: u8 = 0x80;
pub const UNOFFICIAL1_IMMEDIATE: u8 = 0x82;
pub const UNOFFICIAL2_IMMEDIATE: u8 = 0x89;
pub const UNOFFICIAL3_IMMEDIATE: u8 = 0xC2;
pub const UNOFFICIAL4_IMMEDIATE: u8 = 0xE2;

pub struct Inst;

impl AssemblerInstruction for Inst {
    type AddressingMode = Immediate;

    open spec fn spec_opcode() -> u8 {
        UNOFFICIAL0_IMMEDIATE
    }

    fn opcode() -> (r: u8) {
        UNOFFICIAL0_IMMEDIATE
    }
}

/// The cpu, the memory and the cycle count after the instruction.
pub open spec fn spec_interpret<M: Memory>(cpu: Cpu, state: M::V) -> (Cpu, M::V, u8) {
    let (_data, s) = spec_read_data::<M>(Immediate::kind(), cpu, state);
    (spec_advance(cpu, spec_instruction_bytes::<Immediate>()), s, 2)
}

/// Reads an immediate operand and ignores it.
pub fn interpret<M: Memory>(cpu: &mut Cpu, memory: &mut M) -> (r: u8)
    ensures
        (*final(cpu), final(memory)@, r) == spec_interpret::<M>(*old(cpu), old(memory)@),
{
    let _ = Immediate::read_data(cpu, memory);
    cpu.pc = cpu.pc.wrapping_add(Immediate::instruction_bytes());
    2
}

} // verus!
