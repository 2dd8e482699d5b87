use vstd::prelude::*;
use crate::address;
use crate::debug::AddressingMode as Kind;
use crate::machine::{spec_read_u16_le, spec_read_u16_le_zero_page, Cpu, Memory};
use crate::operand;
use crate::Address;

verus! {

/// An addressing mode: how an instruction finds its operand.
pub trait Trait {
    type Operand: operand::Trait;

    /// Which addressing mode this is.
    spec fn kind() -> Kind;

    fn instruction_bytes() -> (r: u16)
        ensures
            r == <Self::Operand as operand::Trait>::spec_instruction_bytes(),
    {
        <Self::Operand as operand::Trait>::instruction_bytes()
    }
}

/// The length of an instruction in addressing mode `A`.
pub open spec fn spec_instruction_bytes<A: Trait>() -> u16 {
    <A::Operand as operand::Trait>::spec_instruction_bytes()
}

/// The address an instruction at `cpu.pc` in mode `kind` works on, whether indexing
/// moved it to another page than its base, and the memory after the operand reads.
pub open spec fn spec_address<M: Memory>(kind: Kind, cpu: Cpu, state: M::V) -> (Address, bool, M::V) {
    let operand = cpu.pc.wrapping_add(1);
    match kind {
        Kind::Absolute => {
            let (a, s1) = spec_read_u16_le::<M>(state, operand);
            (a, false, s1)
        },
        Kind::AbsoluteXIndexed => {
            let (base, s1) = spec_read_u16_le::<M>(state, operand);
            let a = base.wrapping_add(cpu.x as Address);
            (a, address::spec_page(base) != address::spec_page(a), s1)
        },
        Kind::AbsoluteYIndexed => {
            let (base, s1) = spec_read_u16_le::<M>(state, operand);
            let a = base.wrapping_add(cpu.y as Address);
            (a, address::spec_page(base) != address::spec_page(a), s1)
        },
        Kind::Immediate => (operand, false, state),
        Kind::Indirect => {
            let (pointer, s1) = spec_read_u16_le::<M>(state, operand);
            let (a, s2) = spec_read_u16_le::<M>(s1, pointer);
            (a, false, s2)
        },
        Kind::IndirectYIndexed => {
            let (pointer, s1) = M::read_spec(state, operand);
            let (base, s2) = spec_read_u16_le_zero_page::<M>(s1, pointer);
            let a = base.wrapping_add(cpu.y as Address);
            (a, address::spec_page(base) != address::spec_page(a), s2)
        },
        Kind::XIndexedIndirect => {
            let (offset, s1) = M::read_spec(state, operand);
            let (a, s2) = spec_read_u16_le_zero_page::<M>(s1, offset.wrapping_add(cpu.x));
            (a, false, s2)
        },
        Kind::ZeroPage => {
            let (z, s1) = M::read_spec(state, operand);
            (z as Address, false, s1)
        },
        Kind::ZeroPageXIndexed => {
            let (z, s1) = M::read_spec(state, operand);
            (z.wrapping_add(cpu.x) as Address, false, s1)
        },
        Kind::ZeroPageYIndexed => {
            let (z, s1) = M::read_spec(state, operand);
            (z.wrapping_add(cpu.y) as Address, false, s1)
        },
        _ => (0, false, state),
    }
}

/// The byte an instruction in mode `kind` reads, whether the address crossed a page,
/// and the memory after all the reads.
pub open spec fn spec_read_data_cross<M: Memory>(kind: Kind, cpu: Cpu, state: M::V) -> (u8, bool, M::V) {
    let (a, cross, s1) = spec_address::<M>(kind, cpu, state);
    let (data, s2) = M::read_spec(s1, a);
    (data, cross, s2)
}

/// The byte an instruction in mode `kind` reads and the memory after the reads.
pub open spec fn spec_read_data<M: Memory>(kind: Kind, cpu: Cpu, state: M::V) -> (u8, M::V) {
    let (data, _cross, s) = spec_read_data_cross::<M>(kind, cpu, state);
    (data, s)
}

/// The memory after an instruction in mode `kind` writes `data`.
pub open spec fn spec_write_data<M: Memory>(kind: Kind, cpu: Cpu, state: M::V, data: u8) -> M::V {
    let (a, _cross, s1) = spec_address::<M>(kind, cpu, state);
    M::write_spec(s1, a, data)
}

/// Where a jump in mode `kind` goes, and the memory after the reads.
pub open spec fn spec_jump_target<M: Memory>(kind: Kind, cpu: Cpu, state: M::V) -> (Address, M::V) {
    let (a, _cross, s1) = spec_address::<M>(kind, cpu, state);
    (a, s1)
}

pub trait ReadJumpTarget: Trait {
    fn read_jump_target<M: Memory>(cpu: &Cpu, memory: &mut M) -> (r: Address)
        ensures
            (r, final(memory)@) == spec_jump_target::<M>(Self::kind(), *cpu, old(memory)@),
    ;
}

pub trait ReadData: Trait {
    fn read_data<M: Memory>(cpu: &Cpu, memory: &mut M) -> (r: u8)
        ensures
            (r, final(memory)@) == spec_read_data::<M>(Self::kind(), *cpu, old(memory)@),
    ;
}

pub trait WriteData: Trait {
    fn write_data<M: Memory>(cpu: &Cpu, memory: &mut M, data: u8)
        ensures
            final(memory)@ == spec_write_data::<M>(Self::kind(), *cpu, old(memory)@, data),
    ;
}

pub struct Absolute;

impl Trait for Absolute {
    type Operand = operand::Address;

    open spec fn kind() -> Kind {
        Kind::Absolute
    }
}

impl Absolute {
    pub fn address<M: Memory>(cpu: &Cpu, memory: &mut M) -> (r: Address)
        ensures
            (r, false, final(memory)@) == spec_address::<M>(Kind::Absolute, *cpu, old(memory)@),
    {
        memory.read_u16_le(cpu.pc.wrapping_add(1))
    }
}

impl ReadJumpTarget for Absolute {
    fn read_jump_target<M: Memory>(cpu: &Cpu, memory: &mut M) -> (r: Address) {
        Self::address(cpu, memory)
    }
}

impl ReadData for Absolute {
    fn read_data<M: Memory>(cpu: &Cpu, memory: &mut M) -> (r: u8) {
        let address = Self::address(cpu, memory);
        memory.read_u8(address)
    }
}

impl WriteData for Absolute {
    fn write_data<M: Memory>(cpu: &Cpu, memory: &mut M, data: u8) {
        let address = Self::address(cpu, memory);
        memory.write_u8(address, data)
    }
}

pub struct AbsoluteXIndexed;

impl Trait for AbsoluteXIndexed {
    type Operand = operand::Address;

    open spec fn kind() -> Kind {
        Kind::AbsoluteXIndexed
    }
}

impl AbsoluteXIndexed {
    pub fn address<M: Memory>(cpu: &Cpu, memory: &mut M) -> (r: Address)
        ensures
            ({
                let (a, _cross, s) = spec_address::<M>(Kind::AbsoluteXIndexed, *cpu, old(memory)@);
                r == a && final(memory)@ == s
            }),
    {
        let base_address = memory.read_u16_le(cpu.pc.wrapping_add(1));
        base_address.wrapping_add(cpu.x as Address)
    }

    pub fn address_check_cross_page_boundary<M: Memory>(cpu: &Cpu, memory: &mut M) -> (r: (Address, bool))
        ensures
            (r.0, r.1, final(memory)@) == spec_address::<M>(Kind::AbsoluteXIndexed, *cpu, old(memory)@),
    {
        let base_address = memory.read_u16_le(cpu.pc.wrapping_add(1));
        let indexed_address = base_address.wrapping_add(cpu.x as Address);
        (indexed_address, address::on_different_pages(base_address, indexed_address))
    }

    pub fn read_data_check_cross_page_boundary<M: Memory>(cpu: &Cpu, memory: &mut M) -> (r: (u8, bool))
        ensures
            (r.0, r.1, final(memory)@) == spec_read_data_cross::<M>(Kind::AbsoluteXIndexed, *cpu, old(memory)@),
    {
        let (address, cross_page_boundary) = Self::address_check_cross_page_boundary(cpu, memory);
        (memory.read_u8(address), cross_page_boundary)
    }
}

impl ReadData for AbsoluteXIndexed {
    fn read_data<M: Memory>(cpu: &Cpu, memory: &mut M) -> (r: u8) {
        let address = Self::address(cpu, memory);
        memory.read_u8(address)
    }
}

impl WriteData for AbsoluteXIndexed {
    fn write_data<M: Memory>(cpu: &Cpu, memory: &mut M, data: u8) {
        let address = Self::address(cpu, memory);
        memory.write_u8(address, data)
    }
}

pub struct AbsoluteYIndexed;

impl Trait for AbsoluteYIndexed {
    type Operand = operand::Address;

    open spec fn kind() -> Kind {
        Kind::AbsoluteYIndexed
    }
}

impl AbsoluteYIndexed {
    pub fn address<M: Memory>(cpu: &Cpu, memory: &mut M) -> (r: Address)
        ensures
            ({
                let (a, _cross, s) = spec_address::<M>(Kind::AbsoluteYIndexed, *cpu, old(memory)@);
                r == a && final(memory)@ == s
            }),
    {
        let base_address = memory.read_u16_le(cpu.pc.wrapping_add(1));
        base_address.wrapping_add(cpu.y as Address)
    }

    pub fn address_check_cross_page_boundary<M: Memory>(cpu: &Cpu, memory: &mut M) -> (r: (Address, bool))
        ensures
            (r.0, r.1, final(memory)@) == spec_address::<M>(Kind::AbsoluteYIndexed, *cpu, old(memory)@),
    {
        let base_address = memory.read_u16_le(cpu.pc.wrapping_add(1));
        let indexed_address = base_address.wrapping_add(cpu.y as Address);
        (indexed_address, address::on_different_pages(base_address, indexed_address))
    }

    pub fn read_data_check_cross_page_boundary<M: Memory>(cpu: &Cpu, memory: &mut M) -> (r: (u8, bool))
        ensures
            (r.0, r.1, final(memory)@) == spec_read_data_cross::<M>(Kind::AbsoluteYIndexed, *cpu, old(memory)@),
    {
        let (address, cross_page_boundary) = Self::address_check_cross_page_boundary(cpu, memory);
        (memory.read_u8(address), cross_page_boundary)
    }
}

impl ReadData for AbsoluteYIndexed {
    fn read_data<M: Memory>(cpu: &Cpu, memory: &mut M) -> (r: u8) {
        let address = Self::address(cpu, memory);
        memory.read_u8(address)
    }
}

impl WriteData for AbsoluteYIndexed {
    fn write_data<M: Memory>(cpu: &Cpu, memory: &mut M, data: u8) {
        let address = Self::address(cpu, memory);
        memory.write_u8(address, data)
    }
}

pub struct Accumulator;

impl Trait for Accumulator {
    type Operand = operand::NoOperand;

    open spec fn kind() -> Kind {
        Kind::Accumulator
    }
}

pub struct Immediate;

impl Trait for Immediate {
    type Operand = operand::Byte;

    open spec fn kind() -> Kind {
        Kind::Immediate
    }
}

impl ReadData for Immediate {
    fn read_data<M: Memory>(cpu: &Cpu, memory: &mut M) -> (r: u8) {
        memory.read_u8(cpu.pc.wrapping_add(1))
    }
}

pub struct Implied;

impl Trait for Implied {
    type Operand = operand::NoOperand;

    open spec fn kind() -> Kind {
        Kind::Implied
    }
}

pub struct Indirect;

impl Trait for Indirect {
    type Operand = operand::Address;

    open spec fn kind() -> Kind {
        Kind::Indirect
    }
}

impl ReadJumpTarget for Indirect {
    fn read_jump_target<M: Memory>(cpu: &Cpu, memory: &mut M) -> (r: Address) {
        let address = memory.read_u16_le(cpu.pc.wrapping_add(1));
        memory.read_u16_le(address)
    }
}

pub struct IndirectYIndexed;

impl Trait for IndirectYIndexed {
    type Operand = operand::Byte;

    open spec fn kind() -> Kind {
        Kind::IndirectYIndexed
    }
}

impl IndirectYIndexed {
    pub fn address<M: Memory>(cpu: &Cpu, memory: &mut M) -> (r: Address)
        ensures
            ({
                let (a, _cross, s) = spec_address::<M>(Kind::IndirectYIndexed, *cpu, old(memory)@);
                r == a && final(memory)@ == s
            }),
    {
        let indirect_address = memory.read_u8(cpu.pc.wrapping_add(1));
        let base_address = memory.read_u16_le_zero_page(indirect_address);
        base_address.wrapping_add(cpu.y as Address)
    }

    pub fn address_check_cross_page_boundary<M: Memory>(cpu: &Cpu, memory: &mut M) -> (r: (Address, bool))
        ensures
            (r.0, r.1, final(memory)@) == spec_address::<M>(Kind::IndirectYIndexed, *cpu, old(memory)@),
    {
        let indirect_address = memory.read_u8(cpu.pc.wrapping_add(1));
        let base_address = memory.read_u16_le_zero_page(indirect_address);
        let indexed_address = base_address.wrapping_add(cpu.y as Address);
        (indexed_address, address::on_different_pages(base_address, indexed_address))
    }

    pub fn read_data_check_cross_page_boundary<M: Memory>(cpu: &Cpu, memory: &mut M) -> (r: (u8, bool))
        ensures
            (r.0, r.1, final(memory)@) == spec_read_data_cross::<M>(Kind::IndirectYIndexed, *cpu, old(memory)@),
    {
        let (address, cross_page_boundary) = Self::address_check_cross_page_boundary(cpu, memory);
        (memory.read_u8(address), cross_page_boundary)
    }
}

impl ReadData for IndirectYIndexed {
    fn read_data<M: Memory>(cpu: &Cpu, memory: &mut M) -> (r: u8) {
        let address = Self::address(cpu, memory);
        memory.read_u8(address)
    }
}

impl WriteData for IndirectYIndexed {
    fn write_data<M: Memory>(cpu: &Cpu, memory: &mut M, data: u8) {
        let address = Self::address(cpu, memory);
        memory.write_u8(address, data)
    }
}

pub struct Relative;

impl Trait for Relative {
    type Operand = operand::Byte;

    open spec fn kind() -> Kind {
        Kind::Relative
    }
}

impl Relative {
    /// The branch offset, read from the byte before `cpu.pc`: by the time it is read the
    /// program counter has already moved past the instruction.
    pub fn read_offset<M: Memory>(cpu: &Cpu, memory: &mut M) -> (r: i8)
        ensures
            ({
                let (byte, s) = M::read_spec(old(memory)@, cpu.pc.wrapping_sub(1));
                r == byte as i8 && final(memory)@ == s
            }),
    {
        memory.read_u8(cpu.pc.wrapping_sub(1)) as i8
    }
}

pub struct XIndexedIndirect;

impl Trait for XIndexedIndirect {
    type Operand = operand::Byte;

    open spec fn kind() -> Kind {
        Kind::XIndexedIndirect
    }
}

impl XIndexedIndirect {
    pub fn address<M: Memory>(cpu: &Cpu, memory: &mut M) -> (r: Address)
        ensures
            (r, false, final(memory)@) == spec_address::<M>(Kind::XIndexedIndirect, *cpu, old(memory)@),
    {
        let offset = memory.read_u8(cpu.pc.wrapping_add(1));
        memory.read_u16_le_zero_page(offset.wrapping_add(cpu.x))
    }
}

impl ReadData for XIndexedIndirect {
    fn read_data<M: Memory>(cpu: &Cpu, memory: &mut M) -> (r: u8) {
        let address = Self::address(cpu, memory);
        memory.read_u8(address)
    }
}

impl WriteData for XIndexedIndirect {
    fn write_data<M: Memory>(cpu: &Cpu, memory: &mut M, data: u8) {
        let address = Self::address(cpu, memory);
        memory.write_u8(address, data)
    }
}

pub struct ZeroPage;

impl Trait for ZeroPage {
    type Operand = operand::Byte;

    open spec fn kind() -> Kind {
        Kind::ZeroPage
    }
}

impl ReadData for ZeroPage {
    fn read_data<M: Memory>(cpu: &Cpu, memory: &mut M) -> (r: u8) {
        let address_lo = memory.read_u8(cpu.pc.wrapping_add(1));
        memory.read_u8_zero_page(address_lo)
    }
}

impl WriteData for ZeroPage {
    fn write_data<M: Memory>(cpu: &Cpu, memory: &mut M, data: u8) {
        let address_lo = memory.read_u8(cpu.pc.wrapping_add(1));
        memory.write_u8_zero_page(address_lo, data)
    }
}

pub struct ZeroPageXIndexed;

impl Trait for ZeroPageXIndexed {
    type Operand = operand::Byte;

    open spec fn kind() -> Kind {
        Kind::ZeroPageXIndexed
    }
}

impl ReadData for ZeroPageXIndexed {
    fn read_data<M: Memory>(cpu: &Cpu, memory: &mut M) -> (r: u8) {
        let base_address_lo = memory.read_u8(cpu.pc.wrapping_add(1));
        let address_lo = base_address_lo.wrapping_add(cpu.x);
        memory.read_u8_zero_page(address_lo)
    }
}

impl WriteData for ZeroPageXIndexed {
    fn write_data<M: Memory>(cpu: &Cpu, memory: &mut M, data: u8) {
        let base_address_lo = memory.read_u8(cpu.pc.wrapping_add(1));
        let address_lo = base_address_lo.wrapping_add(cpu.x);
        memory.write_u8_zero_page(address_lo, data)
    }
}

pub struct ZeroPageYIndexed;

impl Trait for ZeroPageYIndexed {
    type Operand = operand::Byte;

    open spec fn kind() -> Kind {
        Kind::ZeroPageYIndexed
    }
}

impl ReadData for ZeroPageYIndexed {
    fn read_data<M: Memory>(cpu: &Cpu, memory: &mut M) -> (r: u8) {
        let base_address_lo = memory.read_u8(cpu.pc.wrapping_add(1));
        let address_lo = base_address_lo.wrapping_add(cpu.y);
        memory.read_u8_zero_page(address_lo)
    }
}

impl WriteData for ZeroPageYIndexed {
    fn write_data<M: Memory>(cpu: &Cpu, memory: &mut M, data: u8) {
        let base_address_lo = memory.read_u8(cpu.pc.wrapping_add(1));
        let address_lo = base_address_lo.wrapping_add(cpu.y);
        memory.write_u8_zero_page(address_lo, data)
    }
}

} // verus!
