use vstd::prelude::*;
use crate::address;
use crate::addressing_mode::{
    Absolute, AbsoluteXIndexed, AbsoluteYIndexed, Immediate, Indirect, IndirectYIndexed,
    XIndexedIndirect, ZeroPage, ZeroPageXIndexed, ZeroPageYIndexed,
};
use crate::instruction::{adc, ahx, alr, anc, and, arr, asl, axs, bcc, bcs, beq, bit, bmi, bne, bpl, brk, bvc, bvs, clc, cld, cli, clv, cmp, cpx, cpy, dcp, dec, dex, dey, eor, ign, inc, inx, iny, isc, jmp, jsr, lax, lda, ldx, ldy, lsr, nop, ora, pha, php, pla, plp, rla, rol, ror, rra, rti, rts, sax, sbc, sec, sed, sei, skb, slo, sre, sta, stx, sty, sxa, sya, tax, tay, tsx, txa, txs, tya};
use crate::UnknownOpcode;
pub use crate::Address;
pub use crate::status::Register as StatusRegister;

verus! {

/// The high byte of every stack address.
pub const STACK_ADDRESS_HI: u8 = 0x01;

/// The address of the stack slot that the stack pointer `sp` names.
pub open spec fn spec_stack_address(sp: u8) -> Address {
    address::spec_from_lo_hi(sp, STACK_ADDRESS_HI)
}

/// The CPU's view of the bus. A read may change the state of the device behind it
/// (a PPU register, a controller's shift register), so reads take `&mut self` and
/// each read is described by the value it returns and the state it leaves.
pub trait Memory: View + Sized {
    /// What a read of `address` returns from `state`, and the state after it.
    spec fn read_spec(state: Self::V, address: Address) -> (u8, Self::V);

    /// The state after writing `data` to `address`.
    spec fn write_spec(state: Self::V, address: Address, data: u8) -> Self::V;

    fn read_u8(&mut self, address: Address) -> (r: u8)
        ensures
            (r, final(self)@) == Self::read_spec(old(self)@, address),
    ;

    fn read_u16_le(&mut self, address: Address) -> (r: u16)
        ensures
            ({
                let (lo, s1) = Self::read_spec(old(self)@, address);
                let (hi, s2) = Self::read_spec(s1, address.wrapping_add(1));
                r == address::spec_from_lo_hi(lo, hi) && final(self)@ == s2
            }),
    {
        let lo = self.read_u8(address);
        let hi = self.read_u8(address.wrapping_add(1));
        address::from_u8_lo_hi(lo, hi)
    }

    fn read_u8_zero_page(&mut self, address: u8) -> (r: u8)
        ensures
            (r, final(self)@) == Self::read_spec(old(self)@, address as Address),
    {
        self.read_u8(address as Address)
    }

    fn read_u16_le_zero_page(&mut self, address: u8) -> (r: u16)
        ensures
            ({
                let (lo, s1) = Self::read_spec(old(self)@, address as Address);
                let (hi, s2) = Self::read_spec(s1, address.wrapping_add(1) as Address);
                r == address::spec_from_lo_hi(lo, hi) && final(self)@ == s2
            }),
    {
        let lo = self.read_u8_zero_page(address);
        let hi = self.read_u8_zero_page(address.wrapping_add(1));
        address::from_u8_lo_hi(lo, hi)
    }

    fn read_u8_stack(&mut self, stack_pointer: u8) -> (r: u8)
        ensures
            (r, final(self)@) == Self::read_spec(old(self)@, spec_stack_address(stack_pointer)),
    {
        self.read_u8(address::from_u8_lo_hi(stack_pointer, STACK_ADDRESS_HI))
    }

    fn write_u8(&mut self, address: Address, data: u8)
        ensures
            final(self)@ == Self::write_spec(old(self)@, address, data),
    ;

    fn write_u8_zero_page(&mut self, address: u8, data: u8)
        ensures
            final(self)@ == Self::write_spec(old(self)@, address as Address, data),
    {
        self.write_u8(address as Address, data);
    }

    fn write_u8_stack(&mut self, stack_pointer: u8, data: u8)
        ensures
            final(self)@ == Self::write_spec(old(self)@, spec_stack_address(stack_pointer), data),
    {
        self.write_u8(address::from_u8_lo_hi(stack_pointer, STACK_ADDRESS_HI), data);
    }
}

/// Two reads, of `address` and the address after it, combined little-endian.
pub open spec fn spec_read_u16_le<M: Memory>(state: M::V, address: Address) -> (u16, M::V) {
    let (lo, s1) = M::read_spec(state, address);
    let (hi, s2) = M::read_spec(s1, address.wrapping_add(1));
    (address::spec_from_lo_hi(lo, hi), s2)
}

/// Two zero-page reads, of `address` and the next zero-page address (wrapping within page 0).
pub open spec fn spec_read_u16_le_zero_page<M: Memory>(state: M::V, address: u8) -> (u16, M::V) {
    let (lo, s1) = M::read_spec(state, address as Address);
    let (hi, s2) = M::read_spec(s1, address.wrapping_add(1) as Address);
    (address::spec_from_lo_hi(lo, hi), s2)
}

/// View of memory which is never changed by reading, for use in debugging and testing.
pub trait MemoryReadOnly: View {
    /// The byte at `address`.
    spec fn spec_read_u8_read_only(&self, address: Address) -> u8;

    /// The byte a read-only look at `address` sees in memory whose state is `state`.
    spec fn spec_peek(state: Self::V, address: Address) -> u8;

    /// What a read-only look sees depends on the state of the memory alone.
    proof fn lemma_read_only_is_peek(&self, address: Address)
        ensures
            self.spec_read_u8_read_only(address) == Self::spec_peek(self@, address),
    ;

    fn read_u8_read_only(&self, address: Address) -> (r: u8)
        ensures
            r == self.spec_read_u8_read_only(address),
    ;

    fn read_u16_le_read_only(&self, address: Address) -> (r: u16)
        requires
            address < 0xFFFF,
        ensures
            r == address::spec_from_lo_hi(
                self.spec_read_u8_read_only(address),
                self.spec_read_u8_read_only((address + 1) as Address),
            ),
    {
        let lo = self.read_u8_read_only(address);
        let hi = self.read_u8_read_only(address + 1);
        address::from_u8_lo_hi(lo, hi)
    }

    fn read_u8_stack_read_only(&self, stack_pointer: u8) -> (r: u8)
        ensures
            r == self.spec_read_u8_read_only(spec_stack_address(stack_pointer)),
    {
        self.read_u8_read_only(address::from_u8_lo_hi(stack_pointer, STACK_ADDRESS_HI))
    }
}

/// The registers of the 6502.
#[derive(Clone, Copy, Debug, PartialEq, Eq, Structural)]
pub struct Cpu {
    pub pc: Address,
    pub sp: u8,
    pub acc: u8,
    pub x: u8,
    pub y: u8,
    pub status: StatusRegister,
}

/// `cpu` after pushing a byte: the stack pointer moves down by one.
pub open spec fn spec_pushed(cpu: Cpu) -> Cpu {
    Cpu { sp: cpu.sp.wrapping_sub(1), ..cpu }
}

/// Pushing `value`: the memory after the write, and the cpu after it.
pub open spec fn spec_push<M: Memory>(cpu: Cpu, state: M::V, value: u8) -> (Cpu, M::V) {
    (spec_pushed(cpu), M::write_spec(state, spec_stack_address(cpu.sp), value))
}

/// Popping a byte: the value, the cpu after it and the memory after the read.
pub open spec fn spec_pop<M: Memory>(cpu: Cpu, state: M::V) -> (u8, Cpu, M::V) {
    let sp = cpu.sp.wrapping_add(1);
    let (value, s1) = M::read_spec(state, spec_stack_address(sp));
    (value, Cpu { sp: sp, ..cpu }, s1)
}


/// What executing `opcode` does when it has been read from `cpu.pc`, leaving the
/// memory in `state`: the cpu, the memory and the cycles taken, or `None` when the
/// byte is not an opcode this model knows.
pub open spec fn spec_execute<M: Memory>(opcode: u8, cpu: Cpu, state: M::V) -> Option<(Cpu, M::V, u8)> {
    match opcode {
        adc::ABSOLUTE => Some(adc::spec_interpret::<Absolute, M>(cpu, state)),
        adc::ABSOLUTE_X_INDEXED => Some(adc::spec_interpret::<AbsoluteXIndexed, M>(cpu, state)),
        adc::ABSOLUTE_Y_INDEXED => Some(adc::spec_interpret::<AbsoluteYIndexed, M>(cpu, state)),
        adc::IMMEDIATE => Some(adc::spec_interpret::<Immediate, M>(cpu, state)),
        adc::INDIRECT_Y_INDEXED => Some(adc::spec_interpret::<IndirectYIndexed, M>(cpu, state)),
        adc::X_INDEXED_INDIRECT => Some(adc::spec_interpret::<XIndexedIndirect, M>(cpu, state)),
        adc::ZERO_PAGE => Some(adc::spec_interpret::<ZeroPage, M>(cpu, state)),
        adc::ZERO_PAGE_X_INDEXED => Some(adc::spec_interpret::<ZeroPageXIndexed, M>(cpu, state)),
        ahx::UNOFFICIAL0_ABSOLUTE_Y_INDEXED => Some(ahx::spec_interpret::<AbsoluteYIndexed, M>(cpu, state)),
        ahx::UNOFFICIAL0_INDIRECT_Y_INDEXED => Some(ahx::spec_interpret::<IndirectYIndexed, M>(cpu, state)),
        alr::UNOFFICIAL0_IMMEDIATE => Some(alr::spec_interpret::<M>(cpu, state)),
        arr::UNOFFICIAL0_IMMEDIATE => Some(arr::spec_interpret::<M>(cpu, state)),
        anc::UNOFFICIAL0_IMMEDIATE => Some(anc::spec_interpret::<M>(cpu, state)),
        anc::UNOFFICIAL1_IMMEDIATE => Some(anc::spec_interpret::<M>(cpu, state)),
        and::ABSOLUTE => Some(and::spec_interpret::<Absolute, M>(cpu, state)),
        and::ABSOLUTE_X_INDEXED => Some(and::spec_interpret::<AbsoluteXIndexed, M>(cpu, state)),
        and::ABSOLUTE_Y_INDEXED => Some(and::spec_interpret::<AbsoluteYIndexed, M>(cpu, state)),
        and::IMMEDIATE => Some(and::spec_interpret::<Immediate, M>(cpu, state)),
        and::INDIRECT_Y_INDEXED => Some(and::spec_interpret::<IndirectYIndexed, M>(cpu, state)),
        and::X_INDEXED_INDIRECT => Some(and::spec_interpret::<XIndexedIndirect, M>(cpu, state)),
        and::ZERO_PAGE => Some(and::spec_interpret::<ZeroPage, M>(cpu, state)),
        and::ZERO_PAGE_X_INDEXED => Some(and::spec_interpret::<ZeroPageXIndexed, M>(cpu, state)),
        asl::ABSOLUTE => Some(asl::spec_interpret::<Absolute, M>(cpu, state)),
        asl::ABSOLUTE_X_INDEXED => Some(asl::spec_interpret::<AbsoluteXIndexed, M>(cpu, state)),
        asl::ACCUMULATOR => { let (cpu, cycles) = asl::spec_interpret_acc(cpu); Some((cpu, state, cycles)) },
        asl::ZERO_PAGE => Some(asl::spec_interpret::<ZeroPage, M>(cpu, state)),
        asl::ZERO_PAGE_X_INDEXED => Some(asl::spec_interpret::<ZeroPageXIndexed, M>(cpu, state)),
        axs::UNOFFICIAL0_IMMEDIATE => Some(axs::spec_interpret::<M>(cpu, state)),
        bcc::RELATIVE => Some(bcc::spec_interpret::<M>(cpu, state)),
        bcs::RELATIVE => Some(bcs::spec_interpret::<M>(cpu, state)),
        beq::RELATIVE => Some(beq::spec_interpret::<M>(cpu, state)),
        bmi::RELATIVE => Some(bmi::spec_interpret::<M>(cpu, state)),
        bne::RELATIVE => Some(bne::spec_interpret::<M>(cpu, state)),
        bpl::RELATIVE => Some(bpl::spec_interpret::<M>(cpu, state)),
        bvc::RELATIVE => Some(bvc::spec_interpret::<M>(cpu, state)),
        bvs::RELATIVE => Some(bvs::spec_interpret::<M>(cpu, state)),
        bit::ABSOLUTE => Some(bit::spec_interpret::<Absolute, M>(cpu, state)),
        bit::ZERO_PAGE => Some(bit::spec_interpret::<ZeroPage, M>(cpu, state)),
        brk::IMPLIED => Some(brk::spec_interpret::<M>(cpu, state)),
        clc::IMPLIED => { let (cpu, cycles) = clc::spec_interpret(cpu); Some((cpu, state, cycles)) },
        cld::IMPLIED => { let (cpu, cycles) = cld::spec_interpret(cpu); Some((cpu, state, cycles)) },
        cli::IMPLIED => { let (cpu, cycles) = cli::spec_interpret(cpu); Some((cpu, state, cycles)) },
        clv::IMPLIED => { let (cpu, cycles) = clv::spec_interpret(cpu); Some((cpu, state, cycles)) },
        cmp::ABSOLUTE => Some(cmp::spec_interpret::<Absolute, M>(cpu, state)),
        cmp::ABSOLUTE_X_INDEXED => Some(cmp::spec_interpret::<AbsoluteXIndexed, M>(cpu, state)),
        cmp::ABSOLUTE_Y_INDEXED => Some(cmp::spec_interpret::<AbsoluteYIndexed, M>(cpu, state)),
        cmp::IMMEDIATE => Some(cmp::spec_interpret::<Immediate, M>(cpu, state)),
        cmp::INDIRECT_Y_INDEXED => Some(cmp::spec_interpret::<IndirectYIndexed, M>(cpu, state)),
        cmp::X_INDEXED_INDIRECT => Some(cmp::spec_interpret::<XIndexedIndirect, M>(cpu, state)),
        cmp::ZERO_PAGE => Some(cmp::spec_interpret::<ZeroPage, M>(cpu, state)),
        cmp::ZERO_PAGE_X_INDEXED => Some(cmp::spec_interpret::<ZeroPageXIndexed, M>(cpu, state)),
        cpx::ABSOLUTE => Some(cpx::spec_interpret::<Absolute, M>(cpu, state)),
        cpx::IMMEDIATE => Some(cpx::spec_interpret::<Immediate, M>(cpu, state)),
        cpx::ZERO_PAGE => Some(cpx::spec_interpret::<ZeroPage, M>(cpu, state)),
        cpy::ABSOLUTE => Some(cpy::spec_interpret::<Absolute, M>(cpu, state)),
        cpy::IMMEDIATE => Some(cpy::spec_interpret::<Immediate, M>(cpu, state)),
        cpy::ZERO_PAGE => Some(cpy::spec_interpret::<ZeroPage, M>(cpu, state)),
        dcp::UNOFFICIAL0_X_INDEXED_INDIRECT => Some(dcp::spec_interpret::<XIndexedIndirect, M>(cpu, state)),
        dcp::UNOFFICIAL0_ZERO_PAGE => Some(dcp::spec_interpret::<ZeroPage, M>(cpu, state)),
        dcp::UNOFFICIAL0_ABSOLUTE => Some(dcp::spec_interpret::<Absolute, M>(cpu, state)),
        dcp::UNOFFICIAL0_INDIRECT_Y_INDEXED => Some(dcp::spec_interpret::<IndirectYIndexed, M>(cpu, state)),
        dcp::UNOFFICIAL0_ZERO_PAGE_X_INDEXED => Some(dcp::spec_interpret::<ZeroPageXIndexed, M>(cpu, state)),
        dcp::UNOFFICIAL0_ABSOLUTE_X_INDEXED => Some(dcp::spec_interpret::<AbsoluteXIndexed, M>(cpu, state)),
        dcp::UNOFFICIAL0_ABSOLUTE_Y_INDEXED => Some(dcp::spec_interpret::<AbsoluteYIndexed, M>(cpu, state)),
        dec::ABSOLUTE => Some(dec::spec_interpret::<Absolute, M>(cpu, state)),
        dec::ABSOLUTE_X_INDEXED => Some(dec::spec_interpret::<AbsoluteXIndexed, M>(cpu, state)),
        dec::ZERO_PAGE => Some(dec::spec_interpret::<ZeroPage, M>(cpu, state)),
        dec::ZERO_PAGE_X_INDEXED => Some(dec::spec_interpret::<ZeroPageXIndexed, M>(cpu, state)),
        dex::IMPLIED => { let (cpu, cycles) = dex::spec_interpret(cpu); Some((cpu, state, cycles)) },
        dey::IMPLIED => { let (cpu, cycles) = dey::spec_interpret(cpu); Some((cpu, state, cycles)) },
        eor::ABSOLUTE => Some(eor::spec_interpret::<Absolute, M>(cpu, state)),
        eor::ABSOLUTE_X_INDEXED => Some(eor::spec_interpret::<AbsoluteXIndexed, M>(cpu, state)),
        eor::ABSOLUTE_Y_INDEXED => Some(eor::spec_interpret::<AbsoluteYIndexed, M>(cpu, state)),
        eor::IMMEDIATE => Some(eor::spec_interpret::<Immediate, M>(cpu, state)),
        eor::INDIRECT_Y_INDEXED => Some(eor::spec_interpret::<IndirectYIndexed, M>(cpu, state)),
        eor::X_INDEXED_INDIRECT => Some(eor::spec_interpret::<XIndexedIndirect, M>(cpu, state)),
        eor::ZERO_PAGE => Some(eor::spec_interpret::<ZeroPage, M>(cpu, state)),
        eor::ZERO_PAGE_X_INDEXED => Some(eor::spec_interpret::<ZeroPageXIndexed, M>(cpu, state)),
        ign::UNOFFICIAL0_ABSOLUTE => Some(ign::spec_interpret::<Absolute, M>(cpu, state)),
        ign::UNOFFICIAL0_ABSOLUTE_X_INDEXED => Some(ign::spec_interpret::<AbsoluteXIndexed, M>(cpu, state)),
        ign::UNOFFICIAL0_ZERO_PAGE => Some(ign::spec_interpret::<ZeroPage, M>(cpu, state)),
        ign::UNOFFICIAL0_ZERO_PAGE_X_INDEXED => Some(ign::spec_interpret::<ZeroPageXIndexed, M>(cpu, state)),
        ign::UNOFFICIAL1_ABSOLUTE_X_INDEXED => Some(ign::spec_interpret::<AbsoluteXIndexed, M>(cpu, state)),
        ign::UNOFFICIAL1_ZERO_PAGE => Some(ign::spec_interpret::<ZeroPage, M>(cpu, state)),
        ign::UNOFFICIAL1_ZERO_PAGE_X_INDEXED => Some(ign::spec_interpret::<ZeroPageXIndexed, M>(cpu, state)),
        ign::UNOFFICIAL2_ABSOLUTE_X_INDEXED => Some(ign::spec_interpret::<AbsoluteXIndexed, M>(cpu, state)),
        ign::UNOFFICIAL2_ZERO_PAGE => Some(ign::spec_interpret::<ZeroPage, M>(cpu, state)),
        ign::UNOFFICIAL2_ZERO_PAGE_X_INDEXED => Some(ign::spec_interpret::<ZeroPageXIndexed, M>(cpu, state)),
        ign::UNOFFICIAL3_ABSOLUTE_X_INDEXED => Some(ign::spec_interpret::<AbsoluteXIndexed, M>(cpu, state)),
        ign::UNOFFICIAL3_ZERO_PAGE_X_INDEXED => Some(ign::spec_interpret::<ZeroPageXIndexed, M>(cpu, state)),
        ign::UNOFFICIAL4_ABSOLUTE_X_INDEXED => Some(ign::spec_interpret::<AbsoluteXIndexed, M>(cpu, state)),
        ign::UNOFFICIAL4_ZERO_PAGE_X_INDEXED => Some(ign::spec_interpret::<ZeroPageXIndexed, M>(cpu, state)),
        ign::UNOFFICIAL5_ABSOLUTE_X_INDEXED => Some(ign::spec_interpret::<AbsoluteXIndexed, M>(cpu, state)),
        ign::UNOFFICIAL5_ZERO_PAGE_X_INDEXED => Some(ign::spec_interpret::<ZeroPageXIndexed, M>(cpu, state)),
        inc::ABSOLUTE => Some(inc::spec_interpret::<Absolute, M>(cpu, state)),
        inc::ABSOLUTE_X_INDEXED => Some(inc::spec_interpret::<AbsoluteXIndexed, M>(cpu, state)),
        inc::ZERO_PAGE => Some(inc::spec_interpret::<ZeroPage, M>(cpu, state)),
        inc::ZERO_PAGE_X_INDEXED => Some(inc::spec_interpret::<ZeroPageXIndexed, M>(cpu, state)),
        inx::IMPLIED => { let (cpu, cycles) = inx::spec_interpret(cpu); Some((cpu, state, cycles)) },
        iny::IMPLIED => { let (cpu, cycles) = iny::spec_interpret(cpu); Some((cpu, state, cycles)) },
        isc::UNOFFICIAL0_X_INDEXED_INDIRECT => Some(isc::spec_interpret::<XIndexedIndirect, M>(cpu, state)),
        isc::UNOFFICIAL0_ZERO_PAGE => Some(isc::spec_interpret::<ZeroPage, M>(cpu, state)),
        isc::UNOFFICIAL0_ABSOLUTE => Some(isc::spec_interpret::<Absolute, M>(cpu, state)),
        isc::UNOFFICIAL0_INDIRECT_Y_INDEXED => Some(isc::spec_interpret::<IndirectYIndexed, M>(cpu, state)),
        isc::UNOFFICIAL0_ZERO_PAGE_X_INDEXED => Some(isc::spec_interpret::<ZeroPageXIndexed, M>(cpu, state)),
        isc::UNOFFICIAL0_ABSOLUTE_X_INDEXED => Some(isc::spec_interpret::<AbsoluteXIndexed, M>(cpu, state)),
        isc::UNOFFICIAL0_ABSOLUTE_Y_INDEXED => Some(isc::spec_interpret::<AbsoluteYIndexed, M>(cpu, state)),
        jmp::ABSOLUTE => Some(jmp::spec_interpret::<Absolute, M>(cpu, state)),
        jmp::INDIRECT => Some(jmp::spec_interpret::<Indirect, M>(cpu, state)),
        jsr::ABSOLUTE => Some(jsr::spec_interpret::<Absolute, M>(cpu, state)),
        lax::UNOFFICIAL0_ABSOLUTE => Some(lax::spec_interpret::<Absolute, M>(cpu, state)),
        lax::UNOFFICIAL0_ABSOLUTE_Y_INDEXED => Some(lax::spec_interpret::<AbsoluteYIndexed, M>(cpu, state)),
        lax::UNOFFICIAL0_IMMEDIATE => Some(lax::spec_interpret::<Immediate, M>(cpu, state)),
        lax::UNOFFICIAL0_X_INDEXED_INDIRECT => Some(lax::spec_interpret::<XIndexedIndirect, M>(cpu, state)),
        lax::UNOFFICIAL0_INDIRECT_Y_INDEXED => Some(lax::spec_interpret::<IndirectYIndexed, M>(cpu, state)),
        lax::UNOFFICIAL0_ZERO_PAGE => Some(lax::spec_interpret::<ZeroPage, M>(cpu, state)),
        lax::UNOFFICIAL0_ZERO_PAGE_Y_INDEXED => Some(lax::spec_interpret::<ZeroPageYIndexed, M>(cpu, state)),
        lda::ABSOLUTE => Some(lda::spec_interpret::<Absolute, M>(cpu, state)),
        lda::ABSOLUTE_X_INDEXED => Some(lda::spec_interpret::<AbsoluteXIndexed, M>(cpu, state)),
        lda::ABSOLUTE_Y_INDEXED => Some(lda::spec_interpret::<AbsoluteYIndexed, M>(cpu, state)),
        lda::IMMEDIATE => Some(lda::spec_interpret::<Immediate, M>(cpu, state)),
        lda::INDIRECT_Y_INDEXED => Some(lda::spec_interpret::<IndirectYIndexed, M>(cpu, state)),
        lda::X_INDEXED_INDIRECT => Some(lda::spec_interpret::<XIndexedIndirect, M>(cpu, state)),
        lda::ZERO_PAGE => Some(lda::spec_interpret::<ZeroPage, M>(cpu, state)),
        lda::ZERO_PAGE_X_INDEXED => Some(lda::spec_interpret::<ZeroPageXIndexed, M>(cpu, state)),
        ldx::ABSOLUTE => Some(ldx::spec_interpret::<Absolute, M>(cpu, state)),
        ldx::ABSOLUTE_Y_INDEXED => Some(ldx::spec_interpret::<AbsoluteYIndexed, M>(cpu, state)),
        ldx::IMMEDIATE => Some(ldx::spec_interpret::<Immediate, M>(cpu, state)),
        ldx::ZERO_PAGE => Some(ldx::spec_interpret::<ZeroPage, M>(cpu, state)),
        ldx::ZERO_PAGE_Y_INDEXED => Some(ldx::spec_interpret::<ZeroPageYIndexed, M>(cpu, state)),
        ldy::ABSOLUTE => Some(ldy::spec_interpret::<Absolute, M>(cpu, state)),
        ldy::ABSOLUTE_X_INDEXED => Some(ldy::spec_interpret::<AbsoluteXIndexed, M>(cpu, state)),
        ldy::IMMEDIATE => Some(ldy::spec_interpret::<Immediate, M>(cpu, state)),
        ldy::ZERO_PAGE => Some(ldy::spec_interpret::<ZeroPage, M>(cpu, state)),
        ldy::ZERO_PAGE_X_INDEXED => Some(ldy::spec_interpret::<ZeroPageXIndexed, M>(cpu, state)),
        lsr::ABSOLUTE => Some(lsr::spec_interpret::<Absolute, M>(cpu, state)),
        lsr::ABSOLUTE_X_INDEXED => Some(lsr::spec_interpret::<AbsoluteXIndexed, M>(cpu, state)),
        lsr::ACCUMULATOR => { let (cpu, cycles) = lsr::spec_interpret_acc(cpu); Some((cpu, state, cycles)) },
        lsr::ZERO_PAGE => Some(lsr::spec_interpret::<ZeroPage, M>(cpu, state)),
        lsr::ZERO_PAGE_X_INDEXED => Some(lsr::spec_interpret::<ZeroPageXIndexed, M>(cpu, state)),
        nop::IMPLIED => { let (cpu, cycles) = nop::spec_interpret(cpu); Some((cpu, state, cycles)) },
        nop::UNOFFICIAL0_IMPLIED => { let (cpu, cycles) = nop::spec_interpret(cpu); Some((cpu, state, cycles)) },
        nop::UNOFFICIAL1_IMPLIED => { let (cpu, cycles) = nop::spec_interpret(cpu); Some((cpu, state, cycles)) },
        nop::UNOFFICIAL2_IMPLIED => { let (cpu, cycles) = nop::spec_interpret(cpu); Some((cpu, state, cycles)) },
        nop::UNOFFICIAL3_IMPLIED => { let (cpu, cycles) = nop::spec_interpret(cpu); Some((cpu, state, cycles)) },
        nop::UNOFFICIAL4_IMPLIED => { let (cpu, cycles) = nop::spec_interpret(cpu); Some((cpu, state, cycles)) },
        nop::UNOFFICIAL5_IMPLIED => { let (cpu, cycles) = nop::spec_interpret(cpu); Some((cpu, state, cycles)) },
        ora::ABSOLUTE => Some(ora::spec_interpret::<Absolute, M>(cpu, state)),
        ora::ABSOLUTE_X_INDEXED => Some(ora::spec_interpret::<AbsoluteXIndexed, M>(cpu, state)),
        ora::ABSOLUTE_Y_INDEXED => Some(ora::spec_interpret::<AbsoluteYIndexed, M>(cpu, state)),
        ora::IMMEDIATE => Some(ora::spec_interpret::<Immediate, M>(cpu, state)),
        ora::INDIRECT_Y_INDEXED => Some(ora::spec_interpret::<IndirectYIndexed, M>(cpu, state)),
        ora::X_INDEXED_INDIRECT => Some(ora::spec_interpret::<XIndexedIndirect, M>(cpu, state)),
        ora::ZERO_PAGE => Some(ora::spec_interpret::<ZeroPage, M>(cpu, state)),
        ora::ZERO_PAGE_X_INDEXED => Some(ora::spec_interpret::<ZeroPageXIndexed, M>(cpu, state)),
        pha::IMPLIED => Some(pha::spec_interpret::<M>(cpu, state)),
        php::IMPLIED => Some(php::spec_interpret::<M>(cpu, state)),
        pla::IMPLIED => Some(pla::spec_interpret::<M>(cpu, state)),
        plp::IMPLIED => Some(plp::spec_interpret::<M>(cpu, state)),
        rla::UNOFFICIAL0_X_INDEXED_INDIRECT => Some(rla::spec_interpret::<XIndexedIndirect, M>(cpu, state)),
        rla::UNOFFICIAL0_ZERO_PAGE => Some(rla::spec_interpret::<ZeroPage, M>(cpu, state)),
        rla::UNOFFICIAL0_ABSOLUTE => Some(rla::spec_interpret::<Absolute, M>(cpu, state)),
        rla::UNOFFICIAL0_INDIRECT_Y_INDEXED => Some(rla::spec_interpret::<IndirectYIndexed, M>(cpu, state)),
        rla::UNOFFICIAL0_ZERO_PAGE_X_INDEXED => Some(rla::spec_interpret::<ZeroPageXIndexed, M>(cpu, state)),
        rla::UNOFFICIAL0_ABSOLUTE_X_INDEXED => Some(rla::spec_interpret::<AbsoluteXIndexed, M>(cpu, state)),
        rla::UNOFFICIAL0_ABSOLUTE_Y_INDEXED => Some(rla::spec_interpret::<AbsoluteYIndexed, M>(cpu, state)),
        rol::ABSOLUTE => Some(rol::spec_interpret::<Absolute, M>(cpu, state)),
        rol::ABSOLUTE_X_INDEXED => Some(rol::spec_interpret::<AbsoluteXIndexed, M>(cpu, state)),
        rol::ACCUMULATOR => { let (cpu, cycles) = rol::spec_interpret_acc(cpu); Some((cpu, state, cycles)) },
        rol::ZERO_PAGE => Some(rol::spec_interpret::<ZeroPage, M>(cpu, state)),
        rol::ZERO_PAGE_X_INDEXED => Some(rol::spec_interpret::<ZeroPageXIndexed, M>(cpu, state)),
        ror::ABSOLUTE => Some(ror::spec_interpret::<Absolute, M>(cpu, state)),
        ror::ABSOLUTE_X_INDEXED => Some(ror::spec_interpret::<AbsoluteXIndexed, M>(cpu, state)),
        ror::ACCUMULATOR => { let (cpu, cycles) = ror::spec_interpret_acc(cpu); Some((cpu, state, cycles)) },
        ror::ZERO_PAGE => Some(ror::spec_interpret::<ZeroPage, M>(cpu, state)),
        ror::ZERO_PAGE_X_INDEXED => Some(ror::spec_interpret::<ZeroPageXIndexed, M>(cpu, state)),
        rra::UNOFFICIAL0_X_INDEXED_INDIRECT => Some(rra::spec_interpret::<XIndexedIndirect, M>(cpu, state)),
        rra::UNOFFICIAL0_ZERO_PAGE => Some(rra::spec_interpret::<ZeroPage, M>(cpu, state)),
        rra::UNOFFICIAL0_ABSOLUTE => Some(rra::spec_interpret::<Absolute, M>(cpu, state)),
        rra::UNOFFICIAL0_INDIRECT_Y_INDEXED => Some(rra::spec_interpret::<IndirectYIndexed, M>(cpu, state)),
        rra::UNOFFICIAL0_ZERO_PAGE_X_INDEXED => Some(rra::spec_interpret::<ZeroPageXIndexed, M>(cpu, state)),
        rra::UNOFFICIAL0_ABSOLUTE_X_INDEXED => Some(rra::spec_interpret::<AbsoluteXIndexed, M>(cpu, state)),
        rra::UNOFFICIAL0_ABSOLUTE_Y_INDEXED => Some(rra::spec_interpret::<AbsoluteYIndexed, M>(cpu, state)),
        rti::IMPLIED => Some(rti::spec_interpret::<M>(cpu, state)),
        rts::IMPLIED => Some(rts::spec_interpret::<M>(cpu, state)),
        sax::UNOFFICIAL0_X_INDEXED_INDIRECT => Some(sax::spec_interpret::<XIndexedIndirect, M>(cpu, state)),
        sax::UNOFFICIAL0_ZERO_PAGE => Some(sax::spec_interpret::<ZeroPage, M>(cpu, state)),
        sax::UNOFFICIAL0_ABSOLUTE => Some(sax::spec_interpret::<Absolute, M>(cpu, state)),
        sax::UNOFFICIAL0_ZERO_PAGE_Y_INDEXED => Some(sax::spec_interpret::<ZeroPageYIndexed, M>(cpu, state)),
        sbc::ABSOLUTE => Some(sbc::spec_interpret::<Absolute, M>(cpu, state)),
        sbc::ABSOLUTE_X_INDEXED => Some(sbc::spec_interpret::<AbsoluteXIndexed, M>(cpu, state)),
        sbc::ABSOLUTE_Y_INDEXED => Some(sbc::spec_interpret::<AbsoluteYIndexed, M>(cpu, state)),
        sbc::IMMEDIATE => Some(sbc::spec_interpret::<Immediate, M>(cpu, state)),
        sbc::INDIRECT_Y_INDEXED => Some(sbc::spec_interpret::<IndirectYIndexed, M>(cpu, state)),
        sbc::X_INDEXED_INDIRECT => Some(sbc::spec_interpret::<XIndexedIndirect, M>(cpu, state)),
        sbc::ZERO_PAGE => Some(sbc::spec_interpret::<ZeroPage, M>(cpu, state)),
        sbc::ZERO_PAGE_X_INDEXED => Some(sbc::spec_interpret::<ZeroPageXIndexed, M>(cpu, state)),
        sbc::UNOFFICIAL0_IMMEDIATE => Some(sbc::spec_interpret::<Immediate, M>(cpu, state)),
        sec::IMPLIED => { let (cpu, cycles) = sec::spec_interpret(cpu); Some((cpu, state, cycles)) },
        sed::IMPLIED => { let (cpu, cycles) = sed::spec_interpret(cpu); Some((cpu, state, cycles)) },
        sei::IMPLIED => { let (cpu, cycles) = sei::spec_interpret(cpu); Some((cpu, state, cycles)) },
        skb::UNOFFICIAL0_IMMEDIATE => Some(skb::spec_interpret::<M>(cpu, state)),
        skb::UNOFFICIAL1_IMMEDIATE => Some(skb::spec_interpret::<M>(cpu, state)),
        skb::UNOFFICIAL2_IMMEDIATE => Some(skb::spec_interpret::<M>(cpu, state)),
        skb::UNOFFICIAL3_IMMEDIATE => Some(skb::spec_interpret::<M>(cpu, state)),
        skb::UNOFFICIAL4_IMMEDIATE => Some(skb::spec_interpret::<M>(cpu, state)),
        slo::UNOFFICIAL0_X_INDEXED_INDIRECT => Some(slo::spec_interpret::<XIndexedIndirect, M>(cpu, state)),
        slo::UNOFFICIAL0_ZERO_PAGE => Some(slo::spec_interpret::<ZeroPage, M>(cpu, state)),
        slo::UNOFFICIAL0_ABSOLUTE => Some(slo::spec_interpret::<Absolute, M>(cpu, state)),
        slo::UNOFFICIAL0_INDIRECT_Y_INDEXED => Some(slo::spec_interpret::<IndirectYIndexed, M>(cpu, state)),
        slo::UNOFFICIAL0_ZERO_PAGE_X_INDEXED => Some(slo::spec_interpret::<ZeroPageXIndexed, M>(cpu, state)),
        slo::UNOFFICIAL0_ABSOLUTE_X_INDEXED => Some(slo::spec_interpret::<AbsoluteXIndexed, M>(cpu, state)),
        slo::UNOFFICIAL0_ABSOLUTE_Y_INDEXED => Some(slo::spec_interpret::<AbsoluteYIndexed, M>(cpu, state)),
        sre::UNOFFICIAL0_X_INDEXED_INDIRECT => Some(sre::spec_interpret::<XIndexedIndirect, M>(cpu, state)),
        sre::UNOFFICIAL0_ZERO_PAGE => Some(sre::spec_interpret::<ZeroPage, M>(cpu, state)),
        sre::UNOFFICIAL0_ABSOLUTE => Some(sre::spec_interpret::<Absolute, M>(cpu, state)),
        sre::UNOFFICIAL0_INDIRECT_Y_INDEXED => Some(sre::spec_interpret::<IndirectYIndexed, M>(cpu, state)),
        sre::UNOFFICIAL0_ZERO_PAGE_X_INDEXED => Some(sre::spec_interpret::<ZeroPageXIndexed, M>(cpu, state)),
        sre::UNOFFICIAL0_ABSOLUTE_X_INDEXED => Some(sre::spec_interpret::<AbsoluteXIndexed, M>(cpu, state)),
        sre::UNOFFICIAL0_ABSOLUTE_Y_INDEXED => Some(sre::spec_interpret::<AbsoluteYIndexed, M>(cpu, state)),
        sta::ABSOLUTE => Some(sta::spec_interpret::<Absolute, M>(cpu, state)),
        sta::ABSOLUTE_X_INDEXED => Some(sta::spec_interpret::<AbsoluteXIndexed, M>(cpu, state)),
        sta::ABSOLUTE_Y_INDEXED => Some(sta::spec_interpret::<AbsoluteYIndexed, M>(cpu, state)),
        sta::INDIRECT_Y_INDEXED => Some(sta::spec_interpret::<IndirectYIndexed, M>(cpu, state)),
        sta::X_INDEXED_INDIRECT => Some(sta::spec_interpret::<XIndexedIndirect, M>(cpu, state)),
        sta::ZERO_PAGE => Some(sta::spec_interpret::<ZeroPage, M>(cpu, state)),
        sta::ZERO_PAGE_X_INDEXED => Some(sta::spec_interpret::<ZeroPageXIndexed, M>(cpu, state)),
        stx::ABSOLUTE => Some(stx::spec_interpret::<Absolute, M>(cpu, state)),
        stx::ZERO_PAGE => Some(stx::spec_interpret::<ZeroPage, M>(cpu, state)),
        stx::ZERO_PAGE_Y_INDEXED => Some(stx::spec_interpret::<ZeroPageYIndexed, M>(cpu, state)),
        sty::ABSOLUTE => Some(sty::spec_interpret::<Absolute, M>(cpu, state)),
        sty::ZERO_PAGE => Some(sty::spec_interpret::<ZeroPage, M>(cpu, state)),
        sty::ZERO_PAGE_X_INDEXED => Some(sty::spec_interpret::<ZeroPageXIndexed, M>(cpu, state)),
        sxa::UNOFFICIAL0_ABSOLUTE_Y_INDEXED => Some(sxa::spec_interpret::<M>(cpu, state)),
        sya::UNOFFICIAL0_ABSOLUTE_X_INDEXED => Some(sya::spec_interpret::<M>(cpu, state)),
        tax::IMPLIED => { let (cpu, cycles) = tax::spec_interpret(cpu); Some((cpu, state, cycles)) },
        tay::IMPLIED => { let (cpu, cycles) = tay::spec_interpret(cpu); Some((cpu, state, cycles)) },
        tsx::IMPLIED => { let (cpu, cycles) = tsx::spec_interpret(cpu); Some((cpu, state, cycles)) },
        txa::IMPLIED => { let (cpu, cycles) = txa::spec_interpret(cpu); Some((cpu, state, cycles)) },
        txs::IMPLIED => { let (cpu, cycles) = txs::spec_interpret(cpu); Some((cpu, state, cycles)) },
        tya::IMPLIED => { let (cpu, cycles) = tya::spec_interpret(cpu); Some((cpu, state, cycles)) },
        _ => None,
    }
}

/// Non-maskable interrupt: the program counter (high byte first) and the status, with the
/// break and expansion bits set, are pushed; then the program counter is loaded from the
/// NMI vector.
pub open spec fn spec_nmi<M: Memory>(cpu: Cpu, state: M::V) -> (Cpu, M::V) {
    let (c1, s1) = spec_push::<M>(cpu, state, (cpu.pc / 256) as u8);
    let (c2, s2) = spec_push::<M>(c1, s1, (cpu.pc % 256) as u8);
    let (c3, s3) = spec_push::<M>(c2, s2, cpu.status.raw | crate::flag::BRK | crate::flag::EXPANSION);
    let (pc, s4) = spec_read_u16_le::<M>(s3, crate::interrupt_vector::NMI_LO);
    (Cpu { pc: pc, ..c3 }, s4)
}

/// Running instructions until at least `num_cycles` cycles have been spent: the cpu and
/// memory after, or the unknown opcode that stopped it with the cpu and memory at that point.
pub open spec fn spec_run<M: Memory>(cpu: Cpu, state: M::V, num_cycles: nat) -> Result<(Cpu, M::V), (UnknownOpcode, Cpu, M::V)> {
    match spec_run_for_cycles::<M>(cpu, state, 0, num_cycles) {
        Ok((c, s, _count)) => Ok((c, s)),
        Err(e) => Err(e),
    }
}

/// One instruction: the opcode read at `cpu.pc` and its execution.
pub open spec fn spec_step<M: Memory>(cpu: Cpu, state: M::V) -> Result<(Cpu, M::V, u8), (UnknownOpcode, M::V)> {
    let (opcode, s1) = M::read_spec(state, cpu.pc);
    match spec_execute::<M>(opcode, cpu, s1) {
        Some(r) => Ok(r),
        None => Err((UnknownOpcode(opcode), s1)),
    }
}

/// Every instruction takes between 2 and 8 cycles.
pub proof fn lemma_execute_cycles<M: Memory>(opcode: u8, cpu: Cpu, state: M::V)
    ensures
        spec_execute::<M>(opcode, cpu, state) is Some ==> 2 <= spec_execute::<M>(opcode, cpu, state).unwrap().2 <= 8,
{
}

/// The instructions a run from `count` cycles finds at the program counter before each step it
/// takes, in order, decoded from a read-only look at memory; a byte that is no opcode adds
/// nothing (and stops the run).
pub open spec fn spec_run_trace<M: Memory + MemoryReadOnly>(cpu: Cpu, state: <M as View>::V, count: nat, num_cycles: nat)
    -> Seq<crate::analyser::InstructionView>
    decreases num_cycles + 8 - count,
{
    if count >= num_cycles {
        Seq::empty()
    } else {
        let decoded = match crate::analyser::spec_decoded(|a: Address| M::spec_peek(state, a), cpu.pc) {
            Some(i) => seq![i],
            None => Seq::empty(),
        };
        let (opcode, s1) = M::read_spec(state, cpu.pc);
        match spec_execute::<M>(opcode, cpu, s1) {
            None => decoded,
            Some((c, s, n)) => {
                proof {
                    lemma_execute_cycles::<M>(opcode, cpu, s1);
                }
                decoded + spec_run_trace::<M>(c, s, count + n as nat, num_cycles)
            },
        }
    }
}

/// Running instructions from `count` cycles until at least `num_cycles` have been spent:
/// the cpu, the memory and the cycle count reached, or the unknown opcode that stopped it
/// with the cpu and memory at that point.
pub open spec fn spec_run_for_cycles<M: Memory>(cpu: Cpu, state: M::V, count: nat, num_cycles: nat)
    -> Result<(Cpu, M::V, nat), (UnknownOpcode, Cpu, M::V)>
    decreases num_cycles + 8 - count,
{
    if count >= num_cycles {
        Ok((cpu, state, count))
    } else {
        let (opcode, s1) = M::read_spec(state, cpu.pc);
        match spec_execute::<M>(opcode, cpu, s1) {
            None => Err((UnknownOpcode(opcode), cpu, s1)),
            Some((c, s, n)) => {
                proof {
                    lemma_execute_cycles::<M>(opcode, cpu, s1);
                }
                spec_run_for_cycles::<M>(c, s, count + n as nat, num_cycles)
            },
        }
    }
}

impl Cpu {
    pub fn new() -> (r: Self)
        ensures
            r.pc == 0,
            r.sp == 0xff,
            r.acc == 0,
            r.x == 0,
            r.y == 0,
            r.status.raw == crate::flag::INTERRUPT_DISABLE,
    {
        Self { pc: 0, sp: 0xff, acc: 0, x: 0, y: 0, status: StatusRegister::new() }
    }

    /// The address in the stack page that the stack pointer points at.
    pub fn sp_address(&self) -> (r: Address)
        ensures
            r == spec_stack_address(self.sp),
            r == 0x100 + self.sp,
    {
        address::from_u8_lo_hi(self.sp, STACK_ADDRESS_HI)
    }

    pub fn push_stack_u8<M: Memory>(&mut self, memory: &mut M, value: u8)
        ensures
            (*final(self), final(memory)@) == spec_push::<M>(*old(self), old(memory)@, value),
    {
        memory.write_u8_stack(self.sp, value);
        self.sp = self.sp.wrapping_sub(1);
    }

    pub fn pop_stack_u8<M: Memory>(&mut self, memory: &mut M) -> (r: u8)
        ensures
            (r, *final(self), final(memory)@) == spec_pop::<M>(*old(self), old(memory)@),
    {
        self.sp = self.sp.wrapping_add(1);
        memory.read_u8_stack(self.sp)
    }

    /// Returns the address an NMI handler will return to, when the program counter is at the
    /// start of the NMI handler (the return address sits above the pushed status byte).
    pub fn retrieve_nmi_return_address_during_nmi<MRO: MemoryReadOnly>(&self, memory: &MRO) -> (r: Option<Address>)
        ensures
            r == (if self.pc == address::spec_from_lo_hi(
                memory.spec_read_u8_read_only(crate::interrupt_vector::NMI_LO),
                memory.spec_read_u8_read_only(crate::interrupt_vector::NMI_HI),
            ) {
                Some(address::spec_from_lo_hi(
                    memory.spec_read_u8_read_only(spec_stack_address(self.sp.wrapping_add(2))),
                    memory.spec_read_u8_read_only(spec_stack_address(self.sp.wrapping_add(3))),
                ))
            } else {
                None
            }),
    {
        if self.pc == memory.read_u16_le_read_only(crate::interrupt_vector::NMI_LO) {
            let lo = memory.read_u8_stack_read_only(self.sp.wrapping_add(2));
            let hi = memory.read_u8_stack_read_only(self.sp.wrapping_add(3));
            Some(address::from_u8_lo_hi(lo, hi))
        } else {
            None
        }
    }

    /// Non-maskable interrupt: pushes the program counter and the status, then jumps
    /// through the NMI vector.
    pub fn nmi<M: Memory>(&mut self, memory: &mut M)
        ensures
            (*final(self), final(memory)@) == spec_nmi::<M>(*old(self), old(memory)@),
    {
        let pc = self.pc;
        self.push_stack_u8(memory, address::hi(pc));
        self.push_stack_u8(memory, address::lo(pc));
        let status = self.status.masked_with_brk_and_expansion();
        self.push_stack_u8(memory, status);
        self.pc = memory.read_u16_le(crate::interrupt_vector::NMI_LO);
    }

    /// Runs instructions until at least `num_cycles` cycles have been spent, and returns
    /// the cycles spent.
    pub fn run_for_cycles<M: Memory>(&mut self, memory: &mut M, num_cycles: usize) -> (r: Result<usize, UnknownOpcode>)
        requires
            num_cycles <= usize::MAX - 8,
        ensures
            match spec_run_for_cycles::<M>(*old(self), old(memory)@, 0, num_cycles as nat) {
                Ok((cpu, s, count)) => r is Ok && r->Ok_0 == count && *final(self) == cpu && final(memory)@ == s,
                Err((e, cpu, s)) => r == Err::<usize, UnknownOpcode>(e) && *final(self) == cpu && final(memory)@ == s,
            },
    {
        let ghost cpu0 = *self;
        let ghost state0 = memory@;
        let mut cycle_count: usize = 0;
        while cycle_count < num_cycles
            invariant
                cycle_count < num_cycles + 8,
                num_cycles <= usize::MAX - 8,
                cpu0 == *old(self),
                state0 == old(memory)@,
                spec_run_for_cycles::<M>(*self, memory@, cycle_count as nat, num_cycles as nat)
                    == spec_run_for_cycles::<M>(cpu0, state0, 0, num_cycles as nat),
            decreases num_cycles + 8 - cycle_count,
        {
            proof {
                let (opcode, s1) = M::read_spec(memory@, self.pc);
                lemma_execute_cycles::<M>(opcode, *self, s1);
            }
            let ghost before = *self;
            let ghost state_before = memory@;
            match self.step(memory) {
                Err(e) => {
                    assert(spec_run_for_cycles::<M>(before, state_before, cycle_count as nat, num_cycles as nat)
                        == Err::<(Cpu, M::V, nat), (UnknownOpcode, Cpu, M::V)>((e, *self, memory@)));
                    return Err(e);
                },
                Ok(cycles) => {
                    cycle_count += cycles as usize;
                },
            }
        }
        Ok(cycle_count)
    }

    /// Executes one instruction and returns the cycles it took.
    pub fn step<M: Memory>(&mut self, memory: &mut M) -> (r: Result<u8, UnknownOpcode>)
        ensures
            match spec_step::<M>(*old(self), old(memory)@) {
                Ok((cpu, s, cycles)) => r == Ok::<u8, UnknownOpcode>(cycles) && *final(self) == cpu && final(memory)@ == s,
                Err((e, s)) => r == Err::<u8, UnknownOpcode>(e) && *final(self) == *old(self) && final(memory)@ == s,
            },
    {
        let opcode = memory.read_u8(self.pc);
        let cycles = match opcode {
            adc::ABSOLUTE => adc::interpret(Absolute, self, memory),
            adc::ABSOLUTE_X_INDEXED => adc::interpret(AbsoluteXIndexed, self, memory),
            adc::ABSOLUTE_Y_INDEXED => adc::interpret(AbsoluteYIndexed, self, memory),
            adc::IMMEDIATE => adc::interpret(Immediate, self, memory),
            adc::INDIRECT_Y_INDEXED => adc::interpret(IndirectYIndexed, self, memory),
            adc::X_INDEXED_INDIRECT => adc::interpret(XIndexedIndirect, self, memory),
            adc::ZERO_PAGE => adc::interpret(ZeroPage, self, memory),
            adc::ZERO_PAGE_X_INDEXED => adc::interpret(ZeroPageXIndexed, self, memory),
            ahx::UNOFFICIAL0_ABSOLUTE_Y_INDEXED => ahx::interpret(AbsoluteYIndexed, self, memory),
            ahx::UNOFFICIAL0_INDIRECT_Y_INDEXED => ahx::interpret(IndirectYIndexed, self, memory),
            alr::UNOFFICIAL0_IMMEDIATE => alr::interpret(self, memory),
            arr::UNOFFICIAL0_IMMEDIATE => arr::interpret(self, memory),
            anc::UNOFFICIAL0_IMMEDIATE => anc::interpret(self, memory),
            anc::UNOFFICIAL1_IMMEDIATE => anc::interpret(self, memory),
            and::ABSOLUTE => and::interpret(Absolute, self, memory),
            and::ABSOLUTE_X_INDEXED => and::interpret(AbsoluteXIndexed, self, memory),
            and::ABSOLUTE_Y_INDEXED => and::interpret(AbsoluteYIndexed, self, memory),
            and::IMMEDIATE => and::interpret(Immediate, self, memory),
            and::INDIRECT_Y_INDEXED => and::interpret(IndirectYIndexed, self, memory),
            and::X_INDEXED_INDIRECT => and::interpret(XIndexedIndirect, self, memory),
            and::ZERO_PAGE => and::interpret(ZeroPage, self, memory),
            and::ZERO_PAGE_X_INDEXED => and::interpret(ZeroPageXIndexed, self, memory),
            asl::ABSOLUTE => asl::interpret(Absolute, self, memory),
            asl::ABSOLUTE_X_INDEXED => asl::interpret(AbsoluteXIndexed, self, memory),
            asl::ACCUMULATOR => asl::interpret_acc(self),
            asl::ZERO_PAGE => asl::interpret(ZeroPage, self, memory),
            asl::ZERO_PAGE_X_INDEXED => asl::interpret(ZeroPageXIndexed, self, memory),
            axs::UNOFFICIAL0_IMMEDIATE => axs::interpret(self, memory),
            bcc::RELATIVE => bcc::interpret(self, memory),
            bcs::RELATIVE => bcs::interpret(self, memory),
            beq::RELATIVE => beq::interpret(self, memory),
            bmi::RELATIVE => bmi::interpret(self, memory),
            bne::RELATIVE => bne::interpret(self, memory),
            bpl::RELATIVE => bpl::interpret(self, memory),
            bvc::RELATIVE => bvc::interpret(self, memory),
            bvs::RELATIVE => bvs::interpret(self, memory),
            bit::ABSOLUTE => bit::interpret(Absolute, self, memory),
            bit::ZERO_PAGE => bit::interpret(ZeroPage, self, memory),
            brk::IMPLIED => brk::interpret(self, memory),
            clc::IMPLIED => clc::interpret(self),
            cld::IMPLIED => cld::interpret(self),
            cli::IMPLIED => cli::interpret(self),
            clv::IMPLIED => clv::interpret(self),
            cmp::ABSOLUTE => cmp::interpret(Absolute, self, memory),
            cmp::ABSOLUTE_X_INDEXED => cmp::interpret(AbsoluteXIndexed, self, memory),
            cmp::ABSOLUTE_Y_INDEXED => cmp::interpret(AbsoluteYIndexed, self, memory),
            cmp::IMMEDIATE => cmp::interpret(Immediate, self, memory),
            cmp::INDIRECT_Y_INDEXED => cmp::interpret(IndirectYIndexed, self, memory),
            cmp::X_INDEXED_INDIRECT => cmp::interpret(XIndexedIndirect, self, memory),
            cmp::ZERO_PAGE => cmp::interpret(ZeroPage, self, memory),
            cmp::ZERO_PAGE_X_INDEXED => cmp::interpret(ZeroPageXIndexed, self, memory),
            cpx::ABSOLUTE => cpx::interpret(Absolute, self, memory),
            cpx::IMMEDIATE => cpx::interpret(Immediate, self, memory),
            cpx::ZERO_PAGE => cpx::interpret(ZeroPage, self, memory),
            cpy::ABSOLUTE => cpy::interpret(Absolute, self, memory),
            cpy::IMMEDIATE => cpy::interpret(Immediate, self, memory),
            cpy::ZERO_PAGE => cpy::interpret(ZeroPage, self, memory),
            dcp::UNOFFICIAL0_X_INDEXED_INDIRECT => dcp::interpret(XIndexedIndirect, self, memory),
            dcp::UNOFFICIAL0_ZERO_PAGE => dcp::interpret(ZeroPage, self, memory),
            dcp::UNOFFICIAL0_ABSOLUTE => dcp::interpret(Absolute, self, memory),
            dcp::UNOFFICIAL0_INDIRECT_Y_INDEXED => dcp::interpret(IndirectYIndexed, self, memory),
            dcp::UNOFFICIAL0_ZERO_PAGE_X_INDEXED => dcp::interpret(ZeroPageXIndexed, self, memory),
            dcp::UNOFFICIAL0_ABSOLUTE_X_INDEXED => dcp::interpret(AbsoluteXIndexed, self, memory),
            dcp::UNOFFICIAL0_ABSOLUTE_Y_INDEXED => dcp::interpret(AbsoluteYIndexed, self, memory),
            dec::ABSOLUTE => dec::interpret(Absolute, self, memory),
            dec::ABSOLUTE_X_INDEXED => dec::interpret(AbsoluteXIndexed, self, memory),
            dec::ZERO_PAGE => dec::interpret(ZeroPage, self, memory),
            dec::ZERO_PAGE_X_INDEXED => dec::interpret(ZeroPageXIndexed, self, memory),
            dex::IMPLIED => dex::interpret(self),
            dey::IMPLIED => dey::interpret(self),
            eor::ABSOLUTE => eor::interpret(Absolute, self, memory),
            eor::ABSOLUTE_X_INDEXED => eor::interpret(AbsoluteXIndexed, self, memory),
            eor::ABSOLUTE_Y_INDEXED => eor::interpret(AbsoluteYIndexed, self, memory),
            eor::IMMEDIATE => eor::interpret(Immediate, self, memory),
            eor::INDIRECT_Y_INDEXED => eor::interpret(IndirectYIndexed, self, memory),
            eor::X_INDEXED_INDIRECT => eor::interpret(XIndexedIndirect, self, memory),
            eor::ZERO_PAGE => eor::interpret(ZeroPage, self, memory),
            eor::ZERO_PAGE_X_INDEXED => eor::interpret(ZeroPageXIndexed, self, memory),
            ign::UNOFFICIAL0_ABSOLUTE => ign::interpret(Absolute, self, memory),
            ign::UNOFFICIAL0_ABSOLUTE_X_INDEXED => ign::interpret(AbsoluteXIndexed, self, memory),
            ign::UNOFFICIAL0_ZERO_PAGE => ign::interpret(ZeroPage, self, memory),
            ign::UNOFFICIAL0_ZERO_PAGE_X_INDEXED => ign::interpret(ZeroPageXIndexed, self, memory),
            ign::UNOFFICIAL1_ABSOLUTE_X_INDEXED => ign::interpret(AbsoluteXIndexed, self, memory),
            ign::UNOFFICIAL1_ZERO_PAGE => ign::interpret(ZeroPage, self, memory),
            ign::UNOFFICIAL1_ZERO_PAGE_X_INDEXED => ign::interpret(ZeroPageXIndexed, self, memory),
            ign::UNOFFICIAL2_ABSOLUTE_X_INDEXED => ign::interpret(AbsoluteXIndexed, self, memory),
            ign::UNOFFICIAL2_ZERO_PAGE => ign::interpret(ZeroPage, self, memory),
            ign::UNOFFICIAL2_ZERO_PAGE_X_INDEXED => ign::interpret(ZeroPageXIndexed, self, memory),
            ign::UNOFFICIAL3_ABSOLUTE_X_INDEXED => ign::interpret(AbsoluteXIndexed, self, memory),
            ign::UNOFFICIAL3_ZERO_PAGE_X_INDEXED => ign::interpret(ZeroPageXIndexed, self, memory),
            ign::UNOFFICIAL4_ABSOLUTE_X_INDEXED => ign::interpret(AbsoluteXIndexed, self, memory),
            ign::UNOFFICIAL4_ZERO_PAGE_X_INDEXED => ign::interpret(ZeroPageXIndexed, self, memory),
            ign::UNOFFICIAL5_ABSOLUTE_X_INDEXED => ign::interpret(AbsoluteXIndexed, self, memory),
            ign::UNOFFICIAL5_ZERO_PAGE_X_INDEXED => ign::interpret(ZeroPageXIndexed, self, memory),
            inc::ABSOLUTE => inc::interpret(Absolute, self, memory),
            inc::ABSOLUTE_X_INDEXED => inc::interpret(AbsoluteXIndexed, self, memory),
            inc::ZERO_PAGE => inc::interpret(ZeroPage, self, memory),
            inc::ZERO_PAGE_X_INDEXED => inc::interpret(ZeroPageXIndexed, self, memory),
            inx::IMPLIED => inx::interpret(self),
            iny::IMPLIED => iny::interpret(self),
            isc::UNOFFICIAL0_X_INDEXED_INDIRECT => isc::interpret(XIndexedIndirect, self, memory),
            isc::UNOFFICIAL0_ZERO_PAGE => isc::interpret(ZeroPage, self, memory),
            isc::UNOFFICIAL0_ABSOLUTE => isc::interpret(Absolute, self, memory),
            isc::UNOFFICIAL0_INDIRECT_Y_INDEXED => isc::interpret(IndirectYIndexed, self, memory),
            isc::UNOFFICIAL0_ZERO_PAGE_X_INDEXED => isc::interpret(ZeroPageXIndexed, self, memory),
            isc::UNOFFICIAL0_ABSOLUTE_X_INDEXED => isc::interpret(AbsoluteXIndexed, self, memory),
            isc::UNOFFICIAL0_ABSOLUTE_Y_INDEXED => isc::interpret(AbsoluteYIndexed, self, memory),
            jmp::ABSOLUTE => jmp::interpret(Absolute, self, memory),
            jmp::INDIRECT => jmp::interpret(Indirect, self, memory),
            jsr::ABSOLUTE => jsr::interpret(Absolute, self, memory),
            lax::UNOFFICIAL0_ABSOLUTE => lax::interpret(Absolute, self, memory),
            lax::UNOFFICIAL0_ABSOLUTE_Y_INDEXED => lax::interpret(AbsoluteYIndexed, self, memory),
            lax::UNOFFICIAL0_IMMEDIATE => lax::interpret(Immediate, self, memory),
            lax::UNOFFICIAL0_X_INDEXED_INDIRECT => lax::interpret(XIndexedIndirect, self, memory),
            lax::UNOFFICIAL0_INDIRECT_Y_INDEXED => lax::interpret(IndirectYIndexed, self, memory),
            lax::UNOFFICIAL0_ZERO_PAGE => lax::interpret(ZeroPage, self, memory),
            lax::UNOFFICIAL0_ZERO_PAGE_Y_INDEXED => lax::interpret(ZeroPageYIndexed, self, memory),
            lda::ABSOLUTE => lda::interpret(Absolute, self, memory),
            lda::ABSOLUTE_X_INDEXED => lda::interpret(AbsoluteXIndexed, self, memory),
            lda::ABSOLUTE_Y_INDEXED => lda::interpret(AbsoluteYIndexed, self, memory),
            lda::IMMEDIATE => lda::interpret(Immediate, self, memory),
            lda::INDIRECT_Y_INDEXED => lda::interpret(IndirectYIndexed, self, memory),
            lda::X_INDEXED_INDIRECT => lda::interpret(XIndexedIndirect, self, memory),
            lda::ZERO_PAGE => lda::interpret(ZeroPage, self, memory),
            lda::ZERO_PAGE_X_INDEXED => lda::interpret(ZeroPageXIndexed, self, memory),
            ldx::ABSOLUTE => ldx::interpret(Absolute, self, memory),
            ldx::ABSOLUTE_Y_INDEXED => ldx::interpret(AbsoluteYIndexed, self, memory),
            ldx::IMMEDIATE => ldx::interpret(Immediate, self, memory),
            ldx::ZERO_PAGE => ldx::interpret(ZeroPage, self, memory),
            ldx::ZERO_PAGE_Y_INDEXED => ldx::interpret(ZeroPageYIndexed, self, memory),
            ldy::ABSOLUTE => ldy::interpret(Absolute, self, memory),
            ldy::ABSOLUTE_X_INDEXED => ldy::interpret(AbsoluteXIndexed, self, memory),
            ldy::IMMEDIATE => ldy::interpret(Immediate, self, memory),
            ldy::ZERO_PAGE => ldy::interpret(ZeroPage, self, memory),
            ldy::ZERO_PAGE_X_INDEXED => ldy::interpret(ZeroPageXIndexed, self, memory),
            lsr::ABSOLUTE => lsr::interpret(Absolute, self, memory),
            lsr::ABSOLUTE_X_INDEXED => lsr::interpret(AbsoluteXIndexed, self, memory),
            lsr::ACCUMULATOR => lsr::interpret_acc(self),
            lsr::ZERO_PAGE => lsr::interpret(ZeroPage, self, memory),
            lsr::ZERO_PAGE_X_INDEXED => lsr::interpret(ZeroPageXIndexed, self, memory),
            nop::IMPLIED => nop::interpret(self),
            nop::UNOFFICIAL0_IMPLIED => nop::interpret(self),
            nop::UNOFFICIAL1_IMPLIED => nop::interpret(self),
            nop::UNOFFICIAL2_IMPLIED => nop::interpret(self),
            nop::UNOFFICIAL3_IMPLIED => nop::interpret(self),
            nop::UNOFFICIAL4_IMPLIED => nop::interpret(self),
            nop::UNOFFICIAL5_IMPLIED => nop::interpret(self),
            ora::ABSOLUTE => ora::interpret(Absolute, self, memory),
            ora::ABSOLUTE_X_INDEXED => ora::interpret(AbsoluteXIndexed, self, memory),
            ora::ABSOLUTE_Y_INDEXED => ora::interpret(AbsoluteYIndexed, self, memory),
            ora::IMMEDIATE => ora::interpret(Immediate, self, memory),
            ora::INDIRECT_Y_INDEXED => ora::interpret(IndirectYIndexed, self, memory),
            ora::X_INDEXED_INDIRECT => ora::interpret(XIndexedIndirect, self, memory),
            ora::ZERO_PAGE => ora::interpret(ZeroPage, self, memory),
            ora::ZERO_PAGE_X_INDEXED => ora::interpret(ZeroPageXIndexed, self, memory),
            pha::IMPLIED => pha::interpret(self, memory),
            php::IMPLIED => php::interpret(self, memory),
            pla::IMPLIED => pla::interpret(self, memory),
            plp::IMPLIED => plp::interpret(self, memory),
            rla::UNOFFICIAL0_X_INDEXED_INDIRECT => rla::interpret(XIndexedIndirect, self, memory),
            rla::UNOFFICIAL0_ZERO_PAGE => rla::interpret(ZeroPage, self, memory),
            rla::UNOFFICIAL0_ABSOLUTE => rla::interpret(Absolute, self, memory),
            rla::UNOFFICIAL0_INDIRECT_Y_INDEXED => rla::interpret(IndirectYIndexed, self, memory),
            rla::UNOFFICIAL0_ZERO_PAGE_X_INDEXED => rla::interpret(ZeroPageXIndexed, self, memory),
            rla::UNOFFICIAL0_ABSOLUTE_X_INDEXED => rla::interpret(AbsoluteXIndexed, self, memory),
            rla::UNOFFICIAL0_ABSOLUTE_Y_INDEXED => rla::interpret(AbsoluteYIndexed, self, memory),
            rol::ABSOLUTE => rol::interpret(Absolute, self, memory),
            rol::ABSOLUTE_X_INDEXED => rol::interpret(AbsoluteXIndexed, self, memory),
            rol::ACCUMULATOR => rol::interpret_acc(self),
            rol::ZERO_PAGE => rol::interpret(ZeroPage, self, memory),
            rol::ZERO_PAGE_X_INDEXED => rol::interpret(ZeroPageXIndexed, self, memory),
            ror::ABSOLUTE => ror::interpret(Absolute, self, memory),
            ror::ABSOLUTE_X_INDEXED => ror::interpret(AbsoluteXIndexed, self, memory),
            ror::ACCUMULATOR => ror::interpret_acc(self),
            ror::ZERO_PAGE => ror::interpret(ZeroPage, self, memory),
            ror::ZERO_PAGE_X_INDEXED => ror::interpret(ZeroPageXIndexed, self, memory),
            rra::UNOFFICIAL0_X_INDEXED_INDIRECT => rra::interpret(XIndexedIndirect, self, memory),
            rra::UNOFFICIAL0_ZERO_PAGE => rra::interpret(ZeroPage, self, memory),
            rra::UNOFFICIAL0_ABSOLUTE => rra::interpret(Absolute, self, memory),
            rra::UNOFFICIAL0_INDIRECT_Y_INDEXED => rra::interpret(IndirectYIndexed, self, memory),
            rra::UNOFFICIAL0_ZERO_PAGE_X_INDEXED => rra::interpret(ZeroPageXIndexed, self, memory),
            rra::UNOFFICIAL0_ABSOLUTE_X_INDEXED => rra::interpret(AbsoluteXIndexed, self, memory),
            rra::UNOFFICIAL0_ABSOLUTE_Y_INDEXED => rra::interpret(AbsoluteYIndexed, self, memory),
            rti::IMPLIED => rti::interpret(self, memory),
            rts::IMPLIED => rts::interpret(self, memory),
            sax::UNOFFICIAL0_X_INDEXED_INDIRECT => sax::interpret(XIndexedIndirect, self, memory),
            sax::UNOFFICIAL0_ZERO_PAGE => sax::interpret(ZeroPage, self, memory),
            sax::UNOFFICIAL0_ABSOLUTE => sax::interpret(Absolute, self, memory),
            sax::UNOFFICIAL0_ZERO_PAGE_Y_INDEXED => sax::interpret(ZeroPageYIndexed, self, memory),
            sbc::ABSOLUTE => sbc::interpret(Absolute, self, memory),
            sbc::ABSOLUTE_X_INDEXED => sbc::interpret(AbsoluteXIndexed, self, memory),
            sbc::ABSOLUTE_Y_INDEXED => sbc::interpret(AbsoluteYIndexed, self, memory),
            sbc::IMMEDIATE => sbc::interpret(Immediate, self, memory),
            sbc::INDIRECT_Y_INDEXED => sbc::interpret(IndirectYIndexed, self, memory),
            sbc::X_INDEXED_INDIRECT => sbc::interpret(XIndexedIndirect, self, memory),
            sbc::ZERO_PAGE => sbc::interpret(ZeroPage, self, memory),
            sbc::ZERO_PAGE_X_INDEXED => sbc::interpret(ZeroPageXIndexed, self, memory),
            sbc::UNOFFICIAL0_IMMEDIATE => sbc::interpret(Immediate, self, memory),
            sec::IMPLIED => sec::interpret(self),
            sed::IMPLIED => sed::interpret(self),
            sei::IMPLIED => sei::interpret(self),
            skb::UNOFFICIAL0_IMMEDIATE => skb::interpret(self, memory),
            skb::UNOFFICIAL1_IMMEDIATE => skb::interpret(self, memory),
            skb::UNOFFICIAL2_IMMEDIATE => skb::interpret(self, memory),
            skb::UNOFFICIAL3_IMMEDIATE => skb::interpret(self, memory),
            skb::UNOFFICIAL4_IMMEDIATE => skb::interpret(self, memory),
            slo::UNOFFICIAL0_X_INDEXED_INDIRECT => slo::interpret(XIndexedIndirect, self, memory),
            slo::UNOFFICIAL0_ZERO_PAGE => slo::interpret(ZeroPage, self, memory),
            slo::UNOFFICIAL0_ABSOLUTE => slo::interpret(Absolute, self, memory),
            slo::UNOFFICIAL0_INDIRECT_Y_INDEXED => slo::interpret(IndirectYIndexed, self, memory),
            slo::UNOFFICIAL0_ZERO_PAGE_X_INDEXED => slo::interpret(ZeroPageXIndexed, self, memory),
            slo::UNOFFICIAL0_ABSOLUTE_X_INDEXED => slo::interpret(AbsoluteXIndexed, self, memory),
            slo::UNOFFICIAL0_ABSOLUTE_Y_INDEXED => slo::interpret(AbsoluteYIndexed, self, memory),
            sre::UNOFFICIAL0_X_INDEXED_INDIRECT => sre::interpret(XIndexedIndirect, self, memory),
            sre::UNOFFICIAL0_ZERO_PAGE => sre::interpret(ZeroPage, self, memory),
            sre::UNOFFICIAL0_ABSOLUTE => sre::interpret(Absolute, self, memory),
            sre::UNOFFICIAL0_INDIRECT_Y_INDEXED => sre::interpret(IndirectYIndexed, self, memory),
            sre::UNOFFICIAL0_ZERO_PAGE_X_INDEXED => sre::interpret(ZeroPageXIndexed, self, memory),
            sre::UNOFFICIAL0_ABSOLUTE_X_INDEXED => sre::interpret(AbsoluteXIndexed, self, memory),
            sre::UNOFFICIAL0_ABSOLUTE_Y_INDEXED => sre::interpret(AbsoluteYIndexed, self, memory),
            sta::ABSOLUTE => sta::interpret(Absolute, self, memory),
            sta::ABSOLUTE_X_INDEXED => sta::interpret(AbsoluteXIndexed, self, memory),
            sta::ABSOLUTE_Y_INDEXED => sta::interpret(AbsoluteYIndexed, self, memory),
            sta::INDIRECT_Y_INDEXED => sta::interpret(IndirectYIndexed, self, memory),
            sta::X_INDEXED_INDIRECT => sta::interpret(XIndexedIndirect, self, memory),
            sta::ZERO_PAGE => sta::interpret(ZeroPage, self, memory),
            sta::ZERO_PAGE_X_INDEXED => sta::interpret(ZeroPageXIndexed, self, memory),
            stx::ABSOLUTE => stx::interpret(Absolute, self, memory),
            stx::ZERO_PAGE => stx::interpret(ZeroPage, self, memory),
            stx::ZERO_PAGE_Y_INDEXED => stx::interpret(ZeroPageYIndexed, self, memory),
            sty::ABSOLUTE => sty::interpret(Absolute, self, memory),
            sty::ZERO_PAGE => sty::interpret(ZeroPage, self, memory),
            sty::ZERO_PAGE_X_INDEXED => sty::interpret(ZeroPageXIndexed, self, memory),
            sxa::UNOFFICIAL0_ABSOLUTE_Y_INDEXED => sxa::interpret(self, memory),
            sya::UNOFFICIAL0_ABSOLUTE_X_INDEXED => sya::interpret(self, memory),
            tax::IMPLIED => tax::interpret(self),
            tay::IMPLIED => tay::interpret(self),
            tsx::IMPLIED => tsx::interpret(self),
            txa::IMPLIED => txa::interpret(self),
            txs::IMPLIED => txs::interpret(self),
            tya::IMPLIED => tya::interpret(self),
            _ => return Err(UnknownOpcode(opcode)),
        };
        Ok(cycles)
    }

    /// Loads the program counter from the reset vector.
    pub fn start<M: Memory>(&mut self, memory: &mut M)
        ensures
            ({
                let (pc, s) = spec_read_u16_le::<M>(old(memory)@, crate::interrupt_vector::START_LO);
                &&& *final(self) == Cpu { pc: pc, ..*old(self) }
                &&& final(memory)@ == s
            }),
    {
        self.pc = memory.read_u16_le(crate::interrupt_vector::START_LO);
    }
}

/// The opcodes the CPU executes are exactly the opcodes the decoder knows.
pub proof fn lemma_decode_execute_agree<M: Memory>(opcode: u8, cpu: Cpu, state: M::V)
    ensures
        (crate::debug::spec_decode(opcode) is Some) <==> (spec_execute::<M>(opcode, cpu, state) is Some),
{
}

} // verus!
