use vstd::prelude::*;
use crate::addressing_mode::{self, spec_instruction_bytes, spec_read_data, spec_write_data, spec_jump_target, Trait, ReadData, WriteData, ReadJumpTarget, Absolute, Immediate, ZeroPage};
use crate::assembler_instruction::Trait as AssemblerInstruction;
use crate::machine::{Cpu, Memory};
use crate::flag;
use crate::status::{lemma_negative_then_zero, spec_carry_value, spec_is_negative_value, spec_with_flag};
use super::{adc_common, branch_next_pc_with_cycles, compare, spec_adc, spec_advance, spec_branch, spec_compare, spec_with_carry, spec_with_status, spec_zn, DataWithCycles};

verus! {

pub const ABSOLUTE: u8 = 0xEC;
pub const IMMEDIATE: u8 = 0xE0;
pub const ZERO_PAGE: u8 = 0xE4;

pub trait AddressingMode: ReadData {
    spec fn spec_num_cycles() -> u8;

    fn num_cycles() -> (r: u8)
        ensures
            r == Self::spec_num_cycles(),
    ;
}

impl AddressingMode for Absolute {
    open spec fn spec_num_cycles() -> u8 {
        4
    }

    fn num_cycles() -> (r: u8) {
        4
    }
}

impl AddressingMode for Immediate {
    open spec fn spec_num_cycles() -> u8 {
        2
    }

    fn num_cycles() -> (r: u8) {
        2
    }
}

impl AddressingMode for ZeroPage {
    open spec fn spec_num_cycles() -> u8 {
        3
    }

    fn num_cycles() -> (r: u8) {
        3
    }
}

pub struct Inst<A: AddressingMode>(pub A);

impl AssemblerInstruction for Inst<Absolute> {
    type AddressingMode = Absolute;

    open spec fn spec_opcode() -> u8 {
        ABSOLUTE
    }

    fn opcode() -> (r: u8) {
        ABSOLUTE
    }
}

impl AssemblerInstruction for Inst<Immediate> {
    type AddressingMode = Immediate;

    open spec fn spec_opcode() -> u8 {
        IMMEDIATE
    }

    fn opcode() -> (r: u8) {
        IMMEDIATE
    }
}

impl AssemblerInstruction for Inst<ZeroPage> {
    type AddressingMode = ZeroPage;

    open spec fn spec_opcode() -> u8 {
        ZERO_PAGE
    }

    fn opcode() -> (r: u8) {
        ZERO_PAGE
    }
}

/// The cpu, the memory and the cycle count after the instruction in mode `A`.
pub open spec fn spec_interpret<A: AddressingMode, M: Memory>(cpu: Cpu, state: M::V) -> (Cpu, M::V, u8) {
    let (data, s) = spec_read_data::<M>(A::kind(), cpu, state);
    (spec_advance(spec_compare(cpu, cpu.x, data), spec_instruction_bytes::<A>()), s, A::spec_num_cycles())
}

/// Compares the X register with the operand.
pub fn interpret<A: AddressingMode, M: Memory>(_mode: A, cpu: &mut Cpu, memory: &mut M) -> (r: u8)
    ensures
        (*final(cpu), final(memory)@, r) == spec_interpret::<A, M>(*old(cpu), old(memory)@),
{
    let data = A::read_data(cpu, memory);
    let x = cpu.x;
    compare(cpu, x, data);
    cpu.pc = cpu.pc.wrapping_add(A::instruction_bytes());
    A::num_cycles()
}

/// CPX compares the X register with its operand: the carry flag is set exactly when the
/// X register is at least the operand as unsigned bytes, the zero flag exactly when they are
/// equal; the X register itself is kept.
pub proof fn lemma_cpx_flags<A: AddressingMode, M: Memory>(cpu: Cpu, state: M::V)
    ensures
        ({
            let (c, _s, _n) = spec_interpret::<A, M>(cpu, state);
            let operand = crate::addressing_mode::spec_read_data::<M>(A::kind(), cpu, state).0;
            &&& (c.status.raw & crate::flag::CARRY != 0) == (cpu.x >= operand)
            &&& (c.status.raw & crate::flag::ZERO != 0) == (cpu.x == operand)
            &&& c.x == cpu.x
        }),
{
    let operand = crate::addressing_mode::spec_read_data::<M>(A::kind(), cpu, state).0;
    super::lemma_compare_flags(cpu, cpu.x, operand);
}

} // verus!
