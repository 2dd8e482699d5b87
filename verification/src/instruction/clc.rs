use vstd::prelude::*;
use crate::addressing_mode::{self, spec_instruction_bytes, spec_read_data, spec_address, spec_jump_target, Trait, ReadData, ReadJumpTarget, WriteData, Absolute, AbsoluteXIndexed, AbsoluteYIndexed, Accumulator, Immediate, Implied, Indirect, IndirectYIndexed, Relative};
use crate::assembler_instruction::Trait as AssemblerInstruction;
use crate::machine::{spec_pop, spec_push, spec_pushed, spec_read_u16_le, Cpu, Memory};
use crate::address;
use crate::flag;
use crate::status::{lemma_negative_then_zero, spec_carry_value, spec_has_flag, spec_is_negative_value, spec_with_flag, MASK};
use super::{adc_common, branch_next_pc_with_cycles, compare, spec_adc, spec_advance, spec_branch, spec_compare, spec_with_carry, spec_with_status, spec_zn, DataWithCycles};

verus! {

pub const IMPLIED: u8 = 0x18;

pub struct Inst;

impl AssemblerInstruction for Inst {
    type AddressingMode = Implied;

    open spec fn spec_opcode() -> u8 {
        IMPLIED
    }

    fn opcode() -> (r: u8) {
        IMPLIED
    }
}

/// The cpu and the cycle count after the instruction.
pub open spec fn spec_interpret(cpu: Cpu) -> (Cpu, u8) {
    (spec_advance(spec_with_status(cpu, spec_with_flag(cpu.status.raw, flag::CARRY, false)), spec_instruction_bytes::<Implied>()), 2)
}

/// Clears the carry flag.
pub fn interpret(cpu: &mut Cpu) -> (r: u8)
    ensures
        (*final(cpu), r) == spec_interpret(*old(cpu)),
{
    cpu.status.clear_carry();
    cpu.pc = cpu.pc.wrapping_add(Implied::instruction_bytes());
    2
}

} // verus!
