use vstd::prelude::*;
use crate::addressing_mode::{self, spec_instruction_bytes, spec_read_data, spec_address, spec_jump_target, Trait, ReadData, ReadJumpTarget, WriteData, Absolute, AbsoluteXIndexed, AbsoluteYIndexed, Accumulator, Immediate, Implied, Indirect, IndirectYIndexed, Relative};
use crate::assembler_instruction::Trait as AssemblerInstruction;
use crate::machine::{spec_pop, spec_push, spec_pushed, spec_read_u16_le, Cpu, Memory};
use crate::address;
use crate::flag;
use crate::status::{lemma_negative_then_zero, spec_carry_value, spec_has_flag, spec_is_negative_value, spec_with_flag, MASK};
use super::{adc_common, branch_next_pc_with_cycles, compare, spec_adc, spec_advance, spec_branch, spec_compare, spec_with_carry, spec_with_status, spec_zn, DataWithCycles};
use crate::status::{spec_with_zero_negative, Register};

verus! {

pub const UNOFFICIAL0_IMMEDIATE: u8 = 0x0B;
pub const UNOFFICIAL1_IMMEDIATE: u8 = 0x2B;

pub trait AddressingMode: addressing_mode::Trait {}

impl AddressingMode for Immediate {}

pub struct Inst;

impl AssemblerInstruction for Inst {
    type AddressingMode = Immediate;

    open spec fn spec_opcode() -> u8 {
        UNOFFICIAL0_IMMEDIATE
    }

    fn opcode() -> (r: u8) {
        UNOFFICIAL0_IMMEDIATE
    }
}

/// The cpu, the memory and the cycle count after the instruction.
pub open spec fn spec_interpret<M: Memory>(cpu: Cpu, state: M::V) -> (Cpu, M::V, u8) {
    let (data, s) = spec_read_data::<M>(Immediate::kind(), cpu, state);
    let acc = cpu.acc & data;
    let raw0 = spec_with_zero_negative(cpu.status.raw, acc);
    let cpu = Cpu { acc: acc, status: Register { raw: spec_with_flag(raw0, flag::CARRY, spec_has_flag(raw0, flag::NEGATIVE)) }, ..cpu };
    (spec_advance(cpu, spec_instruction_bytes::<Immediate>()), s, 2)
}

/// Ands the operand into the accumulator; the carry flag copies the negative flag.
pub fn interpret<M: Memory>(cpu: &mut Cpu, memory: &mut M) -> (r: u8)
    ensures
        (*final(cpu), final(memory)@, r) == spec_interpret::<M>(*old(cpu), old(memory)@),
{
    let data = Immediate::read_data(cpu, memory);
    cpu.acc &= data;
    cpu.status.set_zero_from_value(cpu.acc);
    cpu.status.set_negative_from_value(cpu.acc);
    let negative = cpu.status.is_negative();
    cpu.status.set_carry_to(negative);
    cpu.pc = cpu.pc.wrapping_add(Immediate::instruction_bytes());
    2
}

} // verus!
