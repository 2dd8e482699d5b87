use vstd::prelude::*;
use crate::addressing_mode::{self, spec_instruction_bytes, spec_read_data, spec_address, spec_jump_target, Trait, ReadData, ReadJumpTarget, WriteData, Absolute, AbsoluteXIndexed, AbsoluteYIndexed, Accumulator, Immediate, Implied, Indirect, IndirectYIndexed, Relative};
use crate::assembler_instruction::Trait as AssemblerInstruction;
use crate::machine::{spec_pop, spec_push, spec_pushed, spec_read_u16_le, Cpu, Memory};
use crate::address;
use crate::flag;
use crate::status::{lemma_negative_then_zero, spec_carry_value, spec_has_flag, spec_is_negative_value, spec_with_flag, MASK};
use super::{adc_common, branch_next_pc_with_cycles, compare, spec_adc, spec_advance, spec_branch, spec_compare, spec_with_carry, spec_with_status, spec_zn, DataWithCycles};

verus! {

pub const IMPLIED: u8 = 0x40;

pub struct Inst;

impl AssemblerInstruction for Inst {
    type AddressingMode = Implied;

    open spec fn spec_opcode() -> u8 {
        IMPLIED
    }

    fn opcode() -> (r: u8) {
        IMPLIED
    }
}

/// The cpu, the memory and the cycle count after the instruction.
pub open spec fn spec_interpret<M: Memory>(cpu: Cpu, state: M::V) -> (Cpu, M::V, u8) {
    let (status, cpu1, s1) = spec_pop::<M>(cpu, state);
    let (lo, cpu2, s2) = spec_pop::<M>(cpu1, s1);
    let (hi, cpu3, s3) = spec_pop::<M>(cpu2, s2);
    (Cpu { pc: address::spec_from_lo_hi(lo, hi), ..spec_with_status(cpu3, status & MASK) }, s3, 6)
}

/// Returns from an interrupt: pops the status register, then the program counter.
pub fn interpret<M: Memory>(cpu: &mut Cpu, memory: &mut M) -> (r: u8)
    ensures
        (*final(cpu), final(memory)@, r) == spec_interpret::<M>(*old(cpu), old(memory)@),
{
    let status = cpu.pop_stack_u8(memory);
    let return_address_lo = cpu.pop_stack_u8(memory);
    let return_address_hi = cpu.pop_stack_u8(memory);
    cpu.status.set(status);
    cpu.pc = address::from_u8_lo_hi(return_address_lo, return_address_hi);
    6
}

} // verus!
