use vstd::prelude::*;
use crate::addressing_mode::{self, spec_instruction_bytes, spec_read_data, spec_address, spec_jump_target, Trait, ReadData, ReadJumpTarget, WriteData, Absolute, AbsoluteXIndexed, AbsoluteYIndexed, Accumulator, Immediate, Implied, Indirect, IndirectYIndexed, Relative};
use crate::assembler_instruction::Trait as AssemblerInstruction;
use crate::machine::{spec_pop, spec_push, spec_pushed, spec_read_u16_le, Cpu, Memory};
use crate::address;
use crate::flag;
use crate::status::{lemma_negative_then_zero, spec_carry_value, spec_has_flag, spec_is_negative_value, spec_with_flag, MASK};
use super::{adc_common, branch_next_pc_with_cycles, compare, spec_adc, spec_advance, spec_branch, spec_compare, spec_with_carry, spec_with_status, spec_zn, DataWithCycles};

verus! {

pub const UNOFFICIAL0_ABSOLUTE_X_INDEXED: u8 = 0x9C;

pub struct Inst;

impl AssemblerInstruction for Inst {
    type AddressingMode = AbsoluteXIndexed;

    open spec fn spec_opcode() -> u8 {
        UNOFFICIAL0_ABSOLUTE_X_INDEXED
    }

    fn opcode() -> (r: u8) {
        UNOFFICIAL0_ABSOLUTE_X_INDEXED
    }
}

/// The cpu, the memory and the cycle count after the instruction.
pub open spec fn spec_interpret<M: Memory>(cpu: Cpu, state: M::V) -> (Cpu, M::V, u8) {
    let (target, _cross, s1) = spec_address::<M>(AbsoluteXIndexed::kind(), cpu, state);
    let value = cpu.y & ((target / 256) as u8).wrapping_add(1);
    let target = address::spec_from_lo_hi((target % 256) as u8, value);
    (spec_advance(cpu, spec_instruction_bytes::<AbsoluteXIndexed>()), M::write_spec(s1, target, value), 5)
}

/// Stores the Y register and-ed with one more than the high byte of the target address; that value also replaces the high byte of the address.
pub fn interpret<M: Memory>(cpu: &mut Cpu, memory: &mut M) -> (r: u8)
    ensures
        (*final(cpu), final(memory)@, r) == spec_interpret::<M>(*old(cpu), old(memory)@),
{
    let target_address = AbsoluteXIndexed::address(cpu, memory);
    let value = cpu.y & address::hi(target_address).wrapping_add(1);
    let target_address = address::from_u8_lo_hi(address::lo(target_address), value);
    memory.write_u8(target_address, value);
    cpu.pc = cpu.pc.wrapping_add(AbsoluteXIndexed::instruction_bytes());
    5
}

} // verus!
