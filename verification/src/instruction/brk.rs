use vstd::prelude::*;
use crate::addressing_mode::{self, spec_instruction_bytes, spec_read_data, spec_address, spec_jump_target, Trait, ReadData, ReadJumpTarget, WriteData, Absolute, AbsoluteXIndexed, AbsoluteYIndexed, Accumulator, Immediate, Implied, Indirect, IndirectYIndexed, Relative};
use crate::assembler_instruction::Trait as AssemblerInstruction;
use crate::machine::{spec_pop, spec_push, spec_pushed, spec_read_u16_le, Cpu, Memory};
use crate::address;
use crate::flag;
use crate::status::{lemma_negative_then_zero, spec_carry_value, spec_has_flag, spec_is_negative_value, spec_with_flag, MASK};
use super::{adc_common, branch_next_pc_with_cycles, compare, spec_adc, spec_advance, spec_branch, spec_compare, spec_with_carry, spec_with_status, spec_zn, DataWithCycles};

verus! {

pub const IMPLIED: u8 = 0x00;

pub struct Inst;

impl AssemblerInstruction for Inst {
    type AddressingMode = Implied;

    open spec fn spec_opcode() -> u8 {
        IMPLIED
    }

    fn opcode() -> (r: u8) {
        IMPLIED
    }
}

/// The cpu, the memory and the cycle count after the instruction.
pub open spec fn spec_interpret<M: Memory>(cpu: Cpu, state: M::V) -> (Cpu, M::V, u8) {
    let pc_to_save = cpu.pc.wrapping_add(2);
    let (cpu1, s1) = spec_push::<M>(cpu, state, (pc_to_save / 256) as u8);
    let (cpu2, s2) = spec_push::<M>(cpu1, s1, (pc_to_save % 256) as u8);
    let (cpu3, s3) = spec_push::<M>(cpu2, s2, cpu.status.raw | flag::BRK | flag::EXPANSION);
    let (pc, s4) = spec_read_u16_le::<M>(s3, crate::interrupt_vector::IRQ_LO);
    (Cpu { pc: pc, ..spec_with_status(cpu3, spec_with_flag(cpu3.status.raw, flag::INTERRUPT_DISABLE, true)) }, s4, 7)
}

/// Software interrupt: pushes the return address and the status, sets the interrupt disable flag and jumps through the IRQ vector.
pub fn interpret<M: Memory>(cpu: &mut Cpu, memory: &mut M) -> (r: u8)
    ensures
        (*final(cpu), final(memory)@, r) == spec_interpret::<M>(*old(cpu), old(memory)@),
{
    let pc_to_save = cpu.pc.wrapping_add(2);
    cpu.push_stack_u8(memory, address::hi(pc_to_save));
    cpu.push_stack_u8(memory, address::lo(pc_to_save));
    let status = cpu.status.masked_with_brk_and_expansion();
    cpu.push_stack_u8(memory, status);
    cpu.status.set_interrupt_disable();
    cpu.pc = memory.read_u16_le(crate::interrupt_vector::IRQ_LO);
    7
}

} // verus!
