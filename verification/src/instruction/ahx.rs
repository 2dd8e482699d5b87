use vstd::prelude::*;
use crate::addressing_mode::{self, spec_instruction_bytes, spec_read_data, spec_address, spec_jump_target, Trait, ReadData, ReadJumpTarget, WriteData, Absolute, AbsoluteXIndexed, AbsoluteYIndexed, Accumulator, Immediate, Implied, Indirect, IndirectYIndexed, Relative};
use crate::assembler_instruction::Trait as AssemblerInstruction;
use crate::machine::{spec_pop, spec_push, spec_pushed, spec_read_u16_le, Cpu, Memory};
use crate::address;
use crate::flag;
use crate::status::{lemma_negative_then_zero, spec_carry_value, spec_has_flag, spec_is_negative_value, spec_with_flag, MASK};
use super::{adc_common, branch_next_pc_with_cycles, compare, spec_adc, spec_advance, spec_branch, spec_compare, spec_with_carry, spec_with_status, spec_zn, DataWithCycles};
use crate::Address;

verus! {

pub const UNOFFICIAL0_INDIRECT_Y_INDEXED: u8 = 0x93;
pub const UNOFFICIAL0_ABSOLUTE_Y_INDEXED: u8 = 0x9F;

pub trait AddressingMode: addressing_mode::Trait {
    /// The cycles the instruction takes, given whether indexing crossed a page.
    spec fn spec_cycles(page_crossed: bool) -> u8;

    fn address_and_num_cycles<M: Memory>(cpu: &Cpu, memory: &mut M) -> (r: (Address, u8))
        ensures
            ({
                let (a, page_crossed, s) = spec_address::<M>(Self::kind(), *cpu, old(memory)@);
                r.0 == a && r.1 == Self::spec_cycles(page_crossed) && final(memory)@ == s
            }),
    ;
}

impl AddressingMode for IndirectYIndexed {
    open spec fn spec_cycles(page_crossed: bool) -> u8 {
        if page_crossed { 6 } else { 5 }
    }

    fn address_and_num_cycles<M: Memory>(cpu: &Cpu, memory: &mut M) -> (r: (Address, u8)) {
        let (address, cross_page_boundary) = Self::address_check_cross_page_boundary(cpu, memory);
        (address, 5u8 + if cross_page_boundary { 1 } else { 0 })
    }
}

impl AddressingMode for AbsoluteYIndexed {
    open spec fn spec_cycles(page_crossed: bool) -> u8 {
        if page_crossed { 5 } else { 4 }
    }

    fn address_and_num_cycles<M: Memory>(cpu: &Cpu, memory: &mut M) -> (r: (Address, u8)) {
        let (address, cross_page_boundary) = Self::address_check_cross_page_boundary(cpu, memory);
        (address, 4u8 + if cross_page_boundary { 1 } else { 0 })
    }
}

pub struct Inst<A: AddressingMode>(pub A);

impl AssemblerInstruction for Inst<IndirectYIndexed> {
    type AddressingMode = IndirectYIndexed;

    open spec fn spec_opcode() -> u8 {
        UNOFFICIAL0_INDIRECT_Y_INDEXED
    }

    fn opcode() -> (r: u8) {
        UNOFFICIAL0_INDIRECT_Y_INDEXED
    }
}

impl AssemblerInstruction for Inst<AbsoluteYIndexed> {
    type AddressingMode = AbsoluteYIndexed;

    open spec fn spec_opcode() -> u8 {
        UNOFFICIAL0_ABSOLUTE_Y_INDEXED
    }

    fn opcode() -> (r: u8) {
        UNOFFICIAL0_ABSOLUTE_Y_INDEXED
    }
}

/// The cpu, the memory and the cycle count after the instruction in mode `A`.
pub open spec fn spec_interpret<A: AddressingMode, M: Memory>(cpu: Cpu, state: M::V) -> (Cpu, M::V, u8) {
    let (target, page_crossed, s1) = spec_address::<M>(A::kind(), cpu, state);
    let value = cpu.x & cpu.acc & ((target / 256) as u8).wrapping_add(1);
    let target = address::spec_from_lo_hi((target % 256) as u8, value);
    (spec_advance(cpu, spec_instruction_bytes::<A>()), M::write_spec(s1, target, value), A::spec_cycles(page_crossed))
}

/// Stores the accumulator and-ed with X and with one more than the high byte of the
/// target address; that value also replaces the high byte of the address.
pub fn interpret<A: AddressingMode, M: Memory>(_mode: A, cpu: &mut Cpu, memory: &mut M) -> (r: u8)
    ensures
        (*final(cpu), final(memory)@, r) == spec_interpret::<A, M>(*old(cpu), old(memory)@),
{
    let (target_address, num_cycles) = A::address_and_num_cycles(cpu, memory);
    let value = cpu.x & cpu.acc & address::hi(target_address).wrapping_add(1);
    let target_address = address::from_u8_lo_hi(address::lo(target_address), value);
    memory.write_u8(target_address, value);
    cpu.pc = cpu.pc.wrapping_add(A::instruction_bytes());
    num_cycles
}

} // verus!
