use vstd::prelude::*;
use crate::addressing_mode::{self, spec_instruction_bytes, spec_read_data_cross, Trait, ReadData, Absolute, AbsoluteXIndexed, AbsoluteYIndexed, Immediate, IndirectYIndexed, XIndexedIndirect, ZeroPage, ZeroPageXIndexed};
use crate::assembler_instruction::Trait as AssemblerInstruction;
use crate::machine::{Cpu, Memory};
use super::{adc_common, branch_next_pc_with_cycles, compare, spec_adc, spec_advance, spec_branch, spec_compare, spec_with_carry, spec_with_status, spec_zn, DataWithCycles};

verus! {

pub const ABSOLUTE: u8 = 0xCD;
pub const ABSOLUTE_X_INDEXED: u8 = 0xDD;
pub const ABSOLUTE_Y_INDEXED: u8 = 0xD9;
pub const IMMEDIATE: u8 = 0xC9;
pub const INDIRECT_Y_INDEXED: u8 = 0xD1;
pub const X_INDEXED_INDIRECT: u8 = 0xC1;
pub const ZERO_PAGE: u8 = 0xC5;
pub const ZERO_PAGE_X_INDEXED: u8 = 0xD5;

pub trait AddressingMode: addressing_mode::Trait {
    /// The cycles the instruction takes, given whether indexing crossed a page.
    spec fn spec_cycles(page_crossed: bool) -> u8;

    fn read_data_with_cycles<M: Memory>(cpu: &Cpu, memory: &mut M) -> (r: DataWithCycles)
        ensures
            ({
                let (data, page_crossed, s) = spec_read_data_cross::<M>(Self::kind(), *cpu, old(memory)@);
                r.data == data && r.cycles == Self::spec_cycles(page_crossed) && final(memory)@ == s
            }),
    ;
}

impl AddressingMode for Absolute {
    open spec fn spec_cycles(page_crossed: bool) -> u8 {
        4
    }

    fn read_data_with_cycles<M: Memory>(cpu: &Cpu, memory: &mut M) -> (r: DataWithCycles) {
        DataWithCycles { data: Self::read_data(cpu, memory), cycles: 4 }
    }
}

impl AddressingMode for AbsoluteXIndexed {
    open spec fn spec_cycles(page_crossed: bool) -> u8 {
        if page_crossed { 5 } else { 4 }
    }

    fn read_data_with_cycles<M: Memory>(cpu: &Cpu, memory: &mut M) -> (r: DataWithCycles) {
        let (data, page_boundary_cross) = Self::read_data_check_cross_page_boundary(cpu, memory);
        DataWithCycles { data, cycles: 4u8 + if page_boundary_cross { 1 } else { 0 } }
    }
}

impl AddressingMode for AbsoluteYIndexed {
    open spec fn spec_cycles(page_crossed: bool) -> u8 {
        if page_crossed { 5 } else { 4 }
    }

    fn read_data_with_cycles<M: Memory>(cpu: &Cpu, memory: &mut M) -> (r: DataWithCycles) {
        let (data, page_boundary_cross) = Self::read_data_check_cross_page_boundary(cpu, memory);
        DataWithCycles { data, cycles: 4u8 + if page_boundary_cross { 1 } else { 0 } }
    }
}

impl AddressingMode for Immediate {
    open spec fn spec_cycles(page_crossed: bool) -> u8 {
        2
    }

    fn read_data_with_cycles<M: Memory>(cpu: &Cpu, memory: &mut M) -> (r: DataWithCycles) {
        DataWithCycles { data: Self::read_data(cpu, memory), cycles: 2 }
    }
}

impl AddressingMode for IndirectYIndexed {
    open spec fn spec_cycles(page_crossed: bool) -> u8 {
        if page_crossed { 6 } else { 5 }
    }

    fn read_data_with_cycles<M: Memory>(cpu: &Cpu, memory: &mut M) -> (r: DataWithCycles) {
        let (data, page_boundary_cross) = Self::read_data_check_cross_page_boundary(cpu, memory);
        DataWithCycles { data, cycles: 5u8 + if page_boundary_cross { 1 } else { 0 } }
    }
}

impl AddressingMode for XIndexedIndirect {
    open spec fn spec_cycles(page_crossed: bool) -> u8 {
        6
    }

    fn read_data_with_cycles<M: Memory>(cpu: &Cpu, memory: &mut M) -> (r: DataWithCycles) {
        DataWithCycles { data: Self::read_data(cpu, memory), cycles: 6 }
    }
}

impl AddressingMode for ZeroPage {
    open spec fn spec_cycles(page_crossed: bool) -> u8 {
        3
    }

    fn read_data_with_cycles<M: Memory>(cpu: &Cpu, memory: &mut M) -> (r: DataWithCycles) {
        DataWithCycles { data: Self::read_data(cpu, memory), cycles: 3 }
    }
}

impl AddressingMode for ZeroPageXIndexed {
    open spec fn spec_cycles(page_crossed: bool) -> u8 {
        4
    }

    fn read_data_with_cycles<M: Memory>(cpu: &Cpu, memory: &mut M) -> (r: DataWithCycles) {
        DataWithCycles { data: Self::read_data(cpu, memory), cycles: 4 }
    }
}

pub struct Inst<A: AddressingMode>(pub A);

impl AssemblerInstruction for Inst<Absolute> {
    type AddressingMode = Absolute;

    open spec fn spec_opcode() -> u8 {
        ABSOLUTE
    }

    fn opcode() -> (r: u8) {
        ABSOLUTE
    }
}

impl AssemblerInstruction for Inst<AbsoluteXIndexed> {
    type AddressingMode = AbsoluteXIndexed;

    open spec fn spec_opcode() -> u8 {
        ABSOLUTE_X_INDEXED
    }

    fn opcode() -> (r: u8) {
        ABSOLUTE_X_INDEXED
    }
}

impl AssemblerInstruction for Inst<AbsoluteYIndexed> {
    type AddressingMode = AbsoluteYIndexed;

    open spec fn spec_opcode() -> u8 {
        ABSOLUTE_Y_INDEXED
    }

    fn opcode() -> (r: u8) {
        ABSOLUTE_Y_INDEXED
    }
}

impl AssemblerInstruction for Inst<Immediate> {
    type AddressingMode = Immediate;

    open spec fn spec_opcode() -> u8 {
        IMMEDIATE
    }

    fn opcode() -> (r: u8) {
        IMMEDIATE
    }
}

impl AssemblerInstruction for Inst<IndirectYIndexed> {
    type AddressingMode = IndirectYIndexed;

    open spec fn spec_opcode() -> u8 {
        INDIRECT_Y_INDEXED
    }

    fn opcode() -> (r: u8) {
        INDIRECT_Y_INDEXED
    }
}

impl AssemblerInstruction for Inst<XIndexedIndirect> {
    type AddressingMode = XIndexedIndirect;

    open spec fn spec_opcode() -> u8 {
        X_INDEXED_INDIRECT
    }

    fn opcode() -> (r: u8) {
        X_INDEXED_INDIRECT
    }
}

impl AssemblerInstruction for Inst<ZeroPage> {
    type AddressingMode = ZeroPage;

    open spec fn spec_opcode() -> u8 {
        ZERO_PAGE
    }

    fn opcode() -> (r: u8) {
        ZERO_PAGE
    }
}

impl AssemblerInstruction for Inst<ZeroPageXIndexed> {
    type AddressingMode = ZeroPageXIndexed;

    open spec fn spec_opcode() -> u8 {
        ZERO_PAGE_X_INDEXED
    }

    fn opcode() -> (r: u8) {
        ZERO_PAGE_X_INDEXED
    }
}

/// The cpu, the memory and the cycle count after the instruction in mode `A`.
pub open spec fn spec_interpret<A: AddressingMode, M: Memory>(cpu: Cpu, state: M::V) -> (Cpu, M::V, u8) {
    let (data, page_crossed, s) = spec_read_data_cross::<M>(A::kind(), cpu, state);
    (spec_advance(spec_compare(cpu, cpu.acc, data), spec_instruction_bytes::<A>()), s, A::spec_cycles(page_crossed))
}

/// Compares the accumulator with the operand.
pub fn interpret<A: AddressingMode, M: Memory>(_mode: A, cpu: &mut Cpu, memory: &mut M) -> (r: u8)
    ensures
        (*final(cpu), final(memory)@, r) == spec_interpret::<A, M>(*old(cpu), old(memory)@),
{
    let DataWithCycles { data, cycles } = A::read_data_with_cycles(cpu, memory);
    let acc = cpu.acc;
    compare(cpu, acc, data);
    cpu.pc = cpu.pc.wrapping_add(A::instruction_bytes());
    cycles
}

/// CMP compares the accumulator with its operand: the carry flag is set exactly when the
/// accumulator is at least the operand as unsigned bytes, the zero flag exactly when they are
/// equal; the accumulator itself is kept.
pub proof fn lemma_cmp_flags<A: AddressingMode, M: Memory>(cpu: Cpu, state: M::V)
    ensures
        ({
            let (c, _s, _n) = spec_interpret::<A, M>(cpu, state);
            let operand = crate::addressing_mode::spec_read_data::<M>(A::kind(), cpu, state).0;
            &&& (c.status.raw & crate::flag::CARRY != 0) == (cpu.acc >= operand)
            &&& (c.status.raw & crate::flag::ZERO != 0) == (cpu.acc == operand)
            &&& c.acc == cpu.acc
        }),
{
    let operand = crate::addressing_mode::spec_read_data::<M>(A::kind(), cpu, state).0;
    super::lemma_compare_flags(cpu, cpu.acc, operand);
}

} // verus!
