use vstd::prelude::*;
use crate::addressing_mode::{self, spec_instruction_bytes, spec_read_data, spec_address, spec_jump_target, Trait, ReadData, ReadJumpTarget, WriteData, Absolute, AbsoluteXIndexed, AbsoluteYIndexed, Accumulator, Immediate, Implied, Indirect, IndirectYIndexed, Relative};
use crate::assembler_instruction::Trait as AssemblerInstruction;
use crate::machine::{spec_pop, spec_push, spec_pushed, spec_read_u16_le, Cpu, Memory};
use crate::address;
use crate::flag;
use crate::status::{lemma_negative_then_zero, spec_carry_value, spec_has_flag, spec_is_negative_value, spec_with_flag, MASK};
use super::{adc_common, branch_next_pc_with_cycles, compare, spec_adc, spec_advance, spec_branch, spec_compare, spec_with_carry, spec_with_status, spec_zn, DataWithCycles};

verus! {

pub const RELATIVE: u8 = 0xD0;

pub struct Inst;

impl AssemblerInstruction for Inst {
    type AddressingMode = Relative;

    open spec fn spec_opcode() -> u8 {
        RELATIVE
    }

    fn opcode() -> (r: u8) {
        RELATIVE
    }
}

/// The cpu, the memory and the cycle count after the branch: when the zero flag is clear the
/// offset is read and the branch taken.
pub open spec fn spec_interpret<M: Memory>(cpu: Cpu, state: M::V) -> (Cpu, M::V, u8) {
    let cpu = spec_advance(cpu, spec_instruction_bytes::<Relative>());
    if !spec_has_flag(cpu.status.raw, flag::ZERO) {
        let (offset, s) = M::read_spec(state, cpu.pc.wrapping_sub(1));
        let (pc, cycles) = spec_branch(cpu.pc, offset as i8);
        (Cpu { pc: pc, ..cpu }, s, cycles)
    } else {
        (cpu, state, 2)
    }
}

/// Branches when the zero flag is clear.
pub fn interpret<M: Memory>(cpu: &mut Cpu, memory: &mut M) -> (r: u8)
    ensures
        (*final(cpu), final(memory)@, r) == spec_interpret::<M>(*old(cpu), old(memory)@),
{
    cpu.pc = cpu.pc.wrapping_add(Relative::instruction_bytes());
    if !cpu.status.is_zero() {
        let offset = Relative::read_offset(cpu, memory);
        let (pc, cycles) = branch_next_pc_with_cycles(cpu.pc, offset);
        cpu.pc = pc;
        cycles
    } else {
        2
    }
}

} // verus!
