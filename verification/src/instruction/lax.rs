use vstd::prelude::*;
use crate::addressing_mode::{self, spec_instruction_bytes, spec_read_data_cross, Trait, ReadData, Absolute, AbsoluteYIndexed, Immediate, IndirectYIndexed, XIndexedIndirect, ZeroPage, ZeroPageYIndexed};
use crate::assembler_instruction::Trait as AssemblerInstruction;
use crate::machine::{Cpu, Memory};
use super::{adc_common, branch_next_pc_with_cycles, compare, spec_adc, spec_advance, spec_branch, spec_compare, spec_with_carry, spec_with_status, spec_zn, DataWithCycles};

verus! {

pub const UNOFFICIAL0_ABSOLUTE: u8 = 0xAF;
pub const UNOFFICIAL0_ABSOLUTE_Y_INDEXED: u8 = 0xBF;
pub const UNOFFICIAL0_IMMEDIATE: u8 = 0xAB;
pub const UNOFFICIAL0_X_INDEXED_INDIRECT: u8 = 0xA3;
pub const UNOFFICIAL0_INDIRECT_Y_INDEXED: u8 = 0xB3;
pub const UNOFFICIAL0_ZERO_PAGE: u8 = 0xA7;
pub const UNOFFICIAL0_ZERO_PAGE_Y_INDEXED: u8 = 0xB7;

pub trait AddressingMode: addressing_mode::Trait {
    /// The cycles the instruction takes, given whether indexing crossed a page.
    spec fn spec_cycles(page_crossed: bool) -> u8;

    fn read_data_with_cycles<M: Memory>(cpu: &Cpu, memory: &mut M) -> (r: DataWithCycles)
        ensures
            ({
                let (data, page_crossed, s) = spec_read_data_cross::<M>(Self::kind(), *cpu, old(memory)@);
                r.data == data && r.cycles == Self::spec_cycles(page_crossed) && final(memory)@ == s
            }),
    ;
}

impl AddressingMode for Absolute {
    open spec fn spec_cycles(page_crossed: bool) -> u8 {
        4
    }

    fn read_data_with_cycles<M: Memory>(cpu: &Cpu, memory: &mut M) -> (r: DataWithCycles) {
        DataWithCycles { data: Self::read_data(cpu, memory), cycles: 4 }
    }
}

impl AddressingMode for AbsoluteYIndexed {
    open spec fn spec_cycles(page_crossed: bool) -> u8 {
        if page_crossed { 5 } else { 4 }
    }

    fn read_data_with_cycles<M: Memory>(cpu: &Cpu, memory: &mut M) -> (r: DataWithCycles) {
        let (data, page_boundary_cross) = Self::read_data_check_cross_page_boundary(cpu, memory);
        DataWithCycles { data, cycles: 4u8 + if page_boundary_cross { 1 } else { 0 } }
    }
}

impl AddressingMode for Immediate {
    open spec fn spec_cycles(page_crossed: bool) -> u8 {
        2
    }

    fn read_data_with_cycles<M: Memory>(cpu: &Cpu, memory: &mut M) -> (r: DataWithCycles) {
        DataWithCycles { data: Self::read_data(cpu, memory), cycles: 2 }
    }
}

impl AddressingMode for XIndexedIndirect {
    open spec fn spec_cycles(page_crossed: bool) -> u8 {
        6
    }

    fn read_data_with_cycles<M: Memory>(cpu: &Cpu, memory: &mut M) -> (r: DataWithCycles) {
        DataWithCycles { data: Self::read_data(cpu, memory), cycles: 6 }
    }
}

impl AddressingMode for IndirectYIndexed {
    open spec fn spec_cycles(page_crossed: bool) -> u8 {
        if page_crossed { 6 } else { 5 }
    }

    fn read_data_with_cycles<M: Memory>(cpu: &Cpu, memory: &mut M) -> (r: DataWithCycles) {
        let (data, page_boundary_cross) = Self::read_data_check_cross_page_boundary(cpu, memory);
        DataWithCycles { data, cycles: 5u8 + if page_boundary_cross { 1 } else { 0 } }
    }
}

impl AddressingMode for ZeroPage {
    open spec fn spec_cycles(page_crossed: bool) -> u8 {
        3
    }

    fn read_data_with_cycles<M: Memory>(cpu: &Cpu, memory: &mut M) -> (r: DataWithCycles) {
        DataWithCycles { data: Self::read_data(cpu, memory), cycles: 3 }
    }
}

impl AddressingMode for ZeroPageYIndexed {
    open spec fn spec_cycles(page_crossed: bool) -> u8 {
        4
    }

    fn read_data_with_cycles<M: Memory>(cpu: &Cpu, memory: &mut M) -> (r: DataWithCycles) {
        DataWithCycles { data: Self::read_data(cpu, memory), cycles: 4 }
    }
}

pub struct Inst<A: AddressingMode>(pub A);

impl AssemblerInstruction for Inst<Absolute> {
    type AddressingMode = Absolute;

    open spec fn spec_opcode() -> u8 {
        UNOFFICIAL0_ABSOLUTE
    }

    fn opcode() -> (r: u8) {
        UNOFFICIAL0_ABSOLUTE
    }
}

impl AssemblerInstruction for Inst<AbsoluteYIndexed> {
    type AddressingMode = AbsoluteYIndexed;

    open spec fn spec_opcode() -> u8 {
        UNOFFICIAL0_ABSOLUTE_Y_INDEXED
    }

    fn opcode() -> (r: u8) {
        UNOFFICIAL0_ABSOLUTE_Y_INDEXED
    }
}

impl AssemblerInstruction for Inst<Immediate> {
    type AddressingMode = Immediate;

    open spec fn spec_opcode() -> u8 {
        UNOFFICIAL0_IMMEDIATE
    }

    fn opcode() -> (r: u8) {
        UNOFFICIAL0_IMMEDIATE
    }
}

impl AssemblerInstruction for Inst<XIndexedIndirect> {
    type AddressingMode = XIndexedIndirect;

    open spec fn spec_opcode() -> u8 {
        UNOFFICIAL0_X_INDEXED_INDIRECT
    }

    fn opcode() -> (r: u8) {
        UNOFFICIAL0_X_INDEXED_INDIRECT
    }
}

impl AssemblerInstruction for Inst<IndirectYIndexed> {
    type AddressingMode = IndirectYIndexed;

    open spec fn spec_opcode() -> u8 {
        UNOFFICIAL0_INDIRECT_Y_INDEXED
    }

    fn opcode() -> (r: u8) {
        UNOFFICIAL0_INDIRECT_Y_INDEXED
    }
}

impl AssemblerInstruction for Inst<ZeroPage> {
    type AddressingMode = ZeroPage;

    open spec fn spec_opcode() -> u8 {
        UNOFFICIAL0_ZERO_PAGE
    }

    fn opcode() -> (r: u8) {
        UNOFFICIAL0_ZERO_PAGE
    }
}

impl AssemblerInstruction for Inst<ZeroPageYIndexed> {
    type AddressingMode = ZeroPageYIndexed;

    open spec fn spec_opcode() -> u8 {
        UNOFFICIAL0_ZERO_PAGE_Y_INDEXED
    }

    fn opcode() -> (r: u8) {
        UNOFFICIAL0_ZERO_PAGE_Y_INDEXED
    }
}

/// The cpu, the memory and the cycle count after the instruction in mode `A`.
pub open spec fn spec_interpret<A: AddressingMode, M: Memory>(cpu: Cpu, state: M::V) -> (Cpu, M::V, u8) {
    let (data, page_crossed, s) = spec_read_data_cross::<M>(A::kind(), cpu, state);
    (spec_advance(spec_zn(Cpu { acc: data, x: data, ..cpu }, data), spec_instruction_bytes::<A>()), s, A::spec_cycles(page_crossed))
}

/// Loads the accumulator and the X register with the same byte.
pub fn interpret<A: AddressingMode, M: Memory>(_mode: A, cpu: &mut Cpu, memory: &mut M) -> (r: u8)
    ensures
        (*final(cpu), final(memory)@, r) == spec_interpret::<A, M>(*old(cpu), old(memory)@),
{
    let DataWithCycles { data, cycles } = A::read_data_with_cycles(cpu, memory);
    cpu.acc = data;
    cpu.x = data;
    cpu.status.set_zero_from_value(cpu.acc);
    cpu.status.set_negative_from_value(cpu.acc);
    cpu.pc = cpu.pc.wrapping_add(A::instruction_bytes());
    cycles
}

} // verus!
