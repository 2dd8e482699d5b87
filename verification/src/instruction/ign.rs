use vstd::prelude::*;
use crate::addressing_mode::{self, spec_instruction_bytes, spec_read_data_cross, Trait, ReadData, Absolute, AbsoluteXIndexed, ZeroPage, ZeroPageXIndexed};
use crate::assembler_instruction::Trait as AssemblerInstruction;
use crate::machine::{Cpu, Memory};
use super::{adc_common, branch_next_pc_with_cycles, compare, spec_adc, spec_advance, spec_branch, spec_compare, spec_with_carry, spec_with_status, spec_zn, DataWithCycles};

verus! {

pub const UNOFFICIAL0_ABSOLUTE: u8 = 0x0C;
pub const UNOFFICIAL0_ABSOLUTE_X_INDEXED: u8 = 0x1C;
pub const UNOFFICIAL0_ZERO_PAGE: u8 = 0x04;
pub const UNOFFICIAL0_ZERO_PAGE_X_INDEXED: u8 = 0x14;
pub const UNOFFICIAL1_ABSOLUTE_X_INDEXED: u8 = 0x3C;
pub const UNOFFICIAL1_ZERO_PAGE: u8 = 0x44;
pub const UNOFFICIAL1_ZERO_PAGE_X_INDEXED: u8 = 0x34;
pub const UNOFFICIAL2_ABSOLUTE_X_INDEXED: u8 = 0x5C;
pub const UNOFFICIAL2_ZERO_PAGE: u8 = 0x64;
pub const UNOFFICIAL2_ZERO_PAGE_X_INDEXED: u8 = 0x54;
pub const UNOFFICIAL3_ABSOLUTE_X_INDEXED: u8 = 0x7C;
pub const UNOFFICIAL3_ZERO_PAGE_X_INDEXED: u8 = 0x74;
pub const UNOFFICIAL4_ABSOLUTE_X_INDEXED: u8 = 0xDC;
pub const UNOFFICIAL4_ZERO_PAGE_X_INDEXED: u8 = 0xD4;
pub const UNOFFICIAL5_ABSOLUTE_X_INDEXED: u8 = 0xFC;
pub const UNOFFICIAL5_ZERO_PAGE_X_INDEXED: u8 = 0xF4;

pub trait AddressingMode: ReadData {
    /// The cycles the instruction takes, given whether indexing crossed a page.
    spec fn spec_cycles(page_crossed: bool) -> u8;

    fn read_data_with_cycles<M: Memory>(cpu: &Cpu, memory: &mut M) -> (r: DataWithCycles)
        ensures
            ({
                let (data, page_crossed, s) = spec_read_data_cross::<M>(Self::kind(), *cpu, old(memory)@);
                r.data == data && r.cycles == Self::spec_cycles(page_crossed) && final(memory)@ == s
            }),
    ;
}

impl AddressingMode for Absolute {
    open spec fn spec_cycles(page_crossed: bool) -> u8 {
        4
    }

    fn read_data_with_cycles<M: Memory>(cpu: &Cpu, memory: &mut M) -> (r: DataWithCycles) {
        DataWithCycles { data: Self::read_data(cpu, memory), cycles: 4 }
    }
}

impl AddressingMode for AbsoluteXIndexed {
    open spec fn spec_cycles(page_crossed: bool) -> u8 {
        if page_crossed { 5 } else { 4 }
    }

    fn read_data_with_cycles<M: Memory>(cpu: &Cpu, memory: &mut M) -> (r: DataWithCycles) {
        let (data, page_boundary_cross) = Self::read_data_check_cross_page_boundary(cpu, memory);
        DataWithCycles { data, cycles: 4u8 + if page_boundary_cross { 1 } else { 0 } }
    }
}

impl AddressingMode for ZeroPage {
    open spec fn spec_cycles(page_crossed: bool) -> u8 {
        3
    }

    fn read_data_with_cycles<M: Memory>(cpu: &Cpu, memory: &mut M) -> (r: DataWithCycles) {
        DataWithCycles { data: Self::read_data(cpu, memory), cycles: 3 }
    }
}

impl AddressingMode for ZeroPageXIndexed {
    open spec fn spec_cycles(page_crossed: bool) -> u8 {
        4
    }

    fn read_data_with_cycles<M: Memory>(cpu: &Cpu, memory: &mut M) -> (r: DataWithCycles) {
        DataWithCycles { data: Self::read_data(cpu, memory), cycles: 4 }
    }
}

pub struct Inst<A: AddressingMode>(pub A);

impl AssemblerInstruction for Inst<Absolute> {
    type AddressingMode = Absolute;

    open spec fn spec_opcode() -> u8 {
        UNOFFICIAL0_ABSOLUTE
    }

    fn opcode() -> (r: u8) {
        UNOFFICIAL0_ABSOLUTE
    }
}

impl AssemblerInstruction for Inst<AbsoluteXIndexed> {
    type AddressingMode = AbsoluteXIndexed;

    open spec fn spec_opcode() -> u8 {
        UNOFFICIAL0_ABSOLUTE_X_INDEXED
    }

    fn opcode() -> (r: u8) {
        UNOFFICIAL0_ABSOLUTE_X_INDEXED
    }
}

impl AssemblerInstruction for Inst<ZeroPage> {
    type AddressingMode = ZeroPage;

    open spec fn spec_opcode() -> u8 {
        UNOFFICIAL0_ZERO_PAGE
    }

    fn opcode() -> (r: u8) {
        UNOFFICIAL0_ZERO_PAGE
    }
}

impl AssemblerInstruction for Inst<ZeroPageXIndexed> {
    type AddressingMode = ZeroPageXIndexed;

    open spec fn spec_opcode() -> u8 {
        UNOFFICIAL0_ZERO_PAGE_X_INDEXED
    }

    fn opcode() -> (r: u8) {
        UNOFFICIAL0_ZERO_PAGE_X_INDEXED
    }
}

/// The cpu, the memory and the cycle count after the instruction in mode `A`.
pub open spec fn spec_interpret<A: AddressingMode, M: Memory>(cpu: Cpu, state: M::V) -> (Cpu, M::V, u8) {
    let (data, page_crossed, s) = spec_read_data_cross::<M>(A::kind(), cpu, state);
    (spec_advance(cpu, spec_instruction_bytes::<A>()), s, A::spec_cycles(page_crossed))
}

/// Reads the operand and ignores it.
pub fn interpret<A: AddressingMode, M: Memory>(_mode: A, cpu: &mut Cpu, memory: &mut M) -> (r: u8)
    ensures
        (*final(cpu), final(memory)@, r) == spec_interpret::<A, M>(*old(cpu), old(memory)@),
{
    let DataWithCycles { data: _, cycles } = A::read_data_with_cycles(cpu, memory);
    cpu.pc = cpu.pc.wrapping_add(A::instruction_bytes());
    cycles
}

} // verus!
