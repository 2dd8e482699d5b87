use vstd::prelude::*;
use crate::address;
use crate::instruction::{adc, ahx, alr, anc, and, arr, asl, axs, bcc, bcs, beq, bit, bmi, bne, bpl, brk, bvc, bvs, clc, cld, cli, clv, cmp, cpx, cpy, dcp, dec, dex, dey, eor, ign, inc, inx, iny, isc, jmp, jsr, lax, lda, ldx, ldy, lsr, nop, ora, pha, php, pla, plp, rla, rol, ror, rra, rti, rts, sax, sbc, sec, sed, sei, skb, slo, sre, sta, stx, sty, sxa, sya, tax, tay, tsx, txa, txs, tya};
use crate::machine::{Cpu, MemoryReadOnly};
use crate::{Address, UnknownOpcode};

pub mod display;

verus! {

/// The operation an opcode selects.
#[derive(Clone, Copy, Debug, PartialEq, Eq, Structural)]
pub enum InstructionType {
    Adc,
    Ahx,
    Alr,
    Anc,
    And,
    Arr,
    Asl,
    Axs,
    Bcc,
    Bcs,
    Beq,
    Bit,
    Bmi,
    Bne,
    Bpl,
    Brk,
    Bvc,
    Bvs,
    Clc,
    Cld,
    Cli,
    Clv,
    Cmp,
    Cpx,
    Cpy,
    Dcp,
    Dec,
    Dex,
    Dey,
    Eor,
    Ign,
    Inc,
    Inx,
    Iny,
    Isc,
    Jmp,
    Jsr,
    Lax,
    Lda,
    Ldx,
    Ldy,
    Lsr,
    Nop,
    Ora,
    Pha,
    Php,
    Pla,
    Plp,
    Rla,
    Rol,
    Ror,
    Rra,
    Rti,
    Rts,
    Sax,
    Sbc,
    Sec,
    Sed,
    Sei,
    Skb,
    Slo,
    Sre,
    Sta,
    Stx,
    Sty,
    Sxa,
    Sya,
    Tax,
    Tay,
    Tsx,
    Txa,
    Txs,
    Tya,
}

/// How an instruction finds its operand.
#[derive(Clone, Copy, Debug, PartialEq, Eq, Structural)]
pub enum AddressingMode {
    Absolute,
    AbsoluteXIndexed,
    AbsoluteYIndexed,
    Accumulator,
    Implied,
    Immediate,
    Indirect,
    IndirectYIndexed,
    Relative,
    XIndexedIndirect,
    ZeroPage,
    ZeroPageXIndexed,
    ZeroPageYIndexed,
}

/// The number of operand bytes that follow the opcode in each addressing mode.
pub open spec fn spec_operand_bytes(mode: AddressingMode) -> nat {
    match mode {
        AddressingMode::Absolute => 2,
        AddressingMode::AbsoluteXIndexed => 2,
        AddressingMode::AbsoluteYIndexed => 2,
        AddressingMode::Implied => 0,
        AddressingMode::Accumulator => 0,
        AddressingMode::Immediate => 1,
        AddressingMode::Indirect => 2,
        AddressingMode::IndirectYIndexed => 1,
        AddressingMode::Relative => 1,
        AddressingMode::XIndexedIndirect => 1,
        AddressingMode::ZeroPage => 1,
        AddressingMode::ZeroPageXIndexed => 1,
        AddressingMode::ZeroPageYIndexed => 1,
    }
}

impl AddressingMode {
    pub fn operand_bytes(self) -> (r: usize)
        ensures
            r == spec_operand_bytes(self),
    {
        match self {
            AddressingMode::Absolute => 2,
            AddressingMode::AbsoluteXIndexed => 2,
            AddressingMode::AbsoluteYIndexed => 2,
            AddressingMode::Implied => 0,
            AddressingMode::Accumulator => 0,
            AddressingMode::Immediate => 1,
            AddressingMode::Indirect => 2,
            AddressingMode::IndirectYIndexed => 1,
            AddressingMode::Relative => 1,
            AddressingMode::XIndexedIndirect => 1,
            AddressingMode::ZeroPage => 1,
            AddressingMode::ZeroPageXIndexed => 1,
            AddressingMode::ZeroPageYIndexed => 1,
        }
    }
}

/// The operation and addressing mode an opcode byte selects, or `None` for a byte that
/// is not an opcode.
pub open spec fn spec_decode(opcode: u8) -> Option<(InstructionType, AddressingMode)> {
    match opcode {
        adc::ABSOLUTE => Some((InstructionType::Adc, AddressingMode::Absolute)),
        adc::ABSOLUTE_X_INDEXED => Some((InstructionType::Adc, AddressingMode::AbsoluteXIndexed)),
        adc::ABSOLUTE_Y_INDEXED => Some((InstructionType::Adc, AddressingMode::AbsoluteYIndexed)),
        adc::IMMEDIATE => Some((InstructionType::Adc, AddressingMode::Immediate)),
        adc::INDIRECT_Y_INDEXED => Some((InstructionType::Adc, AddressingMode::IndirectYIndexed)),
        adc::X_INDEXED_INDIRECT => Some((InstructionType::Adc, AddressingMode::XIndexedIndirect)),
        adc::ZERO_PAGE => Some((InstructionType::Adc, AddressingMode::ZeroPage)),
        adc::ZERO_PAGE_X_INDEXED => Some((InstructionType::Adc, AddressingMode::ZeroPageXIndexed)),
        ahx::UNOFFICIAL0_ABSOLUTE_Y_INDEXED => Some((InstructionType::Ahx, AddressingMode::AbsoluteYIndexed)),
        ahx::UNOFFICIAL0_INDIRECT_Y_INDEXED => Some((InstructionType::Ahx, AddressingMode::IndirectYIndexed)),
        alr::UNOFFICIAL0_IMMEDIATE => Some((InstructionType::Alr, AddressingMode::Immediate)),
        arr::UNOFFICIAL0_IMMEDIATE => Some((InstructionType::Arr, AddressingMode::Immediate)),
        anc::UNOFFICIAL0_IMMEDIATE => Some((InstructionType::Anc, AddressingMode::Immediate)),
        anc::UNOFFICIAL1_IMMEDIATE => Some((InstructionType::Anc, AddressingMode::Immediate)),
        and::ABSOLUTE => Some((InstructionType::And, AddressingMode::Absolute)),
        and::ABSOLUTE_X_INDEXED => Some((InstructionType::And, AddressingMode::AbsoluteXIndexed)),
        and::ABSOLUTE_Y_INDEXED => Some((InstructionType::And, AddressingMode::AbsoluteYIndexed)),
        and::IMMEDIATE => Some((InstructionType::And, AddressingMode::Immediate)),
        and::INDIRECT_Y_INDEXED => Some((InstructionType::And, AddressingMode::IndirectYIndexed)),
        and::X_INDEXED_INDIRECT => Some((InstructionType::And, AddressingMode::XIndexedIndirect)),
        and::ZERO_PAGE => Some((InstructionType::And, AddressingMode::ZeroPage)),
        and::ZERO_PAGE_X_INDEXED => Some((InstructionType::And, AddressingMode::ZeroPageXIndexed)),
        asl::ABSOLUTE => Some((InstructionType::Asl, AddressingMode::Absolute)),
        asl::ABSOLUTE_X_INDEXED => Some((InstructionType::Asl, AddressingMode::AbsoluteXIndexed)),
        asl::ACCUMULATOR => Some((InstructionType::Asl, AddressingMode::Accumulator)),
        asl::ZERO_PAGE => Some((InstructionType::Asl, AddressingMode::ZeroPage)),
        asl::ZERO_PAGE_X_INDEXED => Some((InstructionType::Asl, AddressingMode::ZeroPageXIndexed)),
        axs::UNOFFICIAL0_IMMEDIATE => Some((InstructionType::Axs, AddressingMode::Immediate)),
        bcc::RELATIVE => Some((InstructionType::Bcc, AddressingMode::Relative)),
        bcs::RELATIVE => Some((InstructionType::Bcs, AddressingMode::Relative)),
        beq::RELATIVE => Some((InstructionType::Beq, AddressingMode::Relative)),
        bmi::RELATIVE => Some((InstructionType::Bmi, AddressingMode::Relative)),
        bne::RELATIVE => Some((InstructionType::Bne, AddressingMode::Relative)),
        bpl::RELATIVE => Some((InstructionType::Bpl, AddressingMode::Relative)),
        bvc::RELATIVE => Some((InstructionType::Bvc, AddressingMode::Relative)),
        bvs::RELATIVE => Some((InstructionType::Bvs, AddressingMode::Relative)),
        bit::ABSOLUTE => Some((InstructionType::Bit, AddressingMode::Absolute)),
        bit::ZERO_PAGE => Some((InstructionType::Bit, AddressingMode::ZeroPage)),
        brk::IMPLIED => Some((InstructionType::Brk, AddressingMode::Implied)),
        clc::IMPLIED => Some((InstructionType::Clc, AddressingMode::Implied)),
        cld::IMPLIED => Some((InstructionType::Cld, AddressingMode::Implied)),
        cli::IMPLIED => Some((InstructionType::Cli, AddressingMode::Implied)),
        clv::IMPLIED => Some((InstructionType::Clv, AddressingMode::Implied)),
        cmp::ABSOLUTE => Some((InstructionType::Cmp, AddressingMode::Absolute)),
        cmp::ABSOLUTE_X_INDEXED => Some((InstructionType::Cmp, AddressingMode::AbsoluteXIndexed)),
        cmp::ABSOLUTE_Y_INDEXED => Some((InstructionType::Cmp, AddressingMode::AbsoluteYIndexed)),
        cmp::IMMEDIATE => Some((InstructionType::Cmp, AddressingMode::Immediate)),
        cmp::INDIRECT_Y_INDEXED => Some((InstructionType::Cmp, AddressingMode::IndirectYIndexed)),
        cmp::X_INDEXED_INDIRECT => Some((InstructionType::Cmp, AddressingMode::XIndexedIndirect)),
        cmp::ZERO_PAGE => Some((InstructionType::Cmp, AddressingMode::ZeroPage)),
        cmp::ZERO_PAGE_X_INDEXED => Some((InstructionType::Cmp, AddressingMode::ZeroPageXIndexed)),
        cpx::ABSOLUTE => Some((InstructionType::Cpx, AddressingMode::Absolute)),
        cpx::IMMEDIATE => Some((InstructionType::Cpx, AddressingMode::Immediate)),
        cpx::ZERO_PAGE => Some((InstructionType::Cpx, AddressingMode::ZeroPage)),
        cpy::ABSOLUTE => Some((InstructionType::Cpy, AddressingMode::Absolute)),
        cpy::IMMEDIATE => Some((InstructionType::Cpy, AddressingMode::Immediate)),
        cpy::ZERO_PAGE => Some((InstructionType::Cpy, AddressingMode::ZeroPage)),
        dcp::UNOFFICIAL0_X_INDEXED_INDIRECT => Some((InstructionType::Dcp, AddressingMode::XIndexedIndirect)),
        dcp::UNOFFICIAL0_ZERO_PAGE => Some((InstructionType::Dcp, AddressingMode::ZeroPage)),
        dcp::UNOFFICIAL0_ABSOLUTE => Some((InstructionType::Dcp, AddressingMode::Absolute)),
        dcp::UNOFFICIAL0_INDIRECT_Y_INDEXED => Some((InstructionType::Dcp, AddressingMode::IndirectYIndexed)),
        dcp::UNOFFICIAL0_ZERO_PAGE_X_INDEXED => Some((InstructionType::Dcp, AddressingMode::ZeroPageXIndexed)),
        dcp::UNOFFICIAL0_ABSOLUTE_X_INDEXED => Some((InstructionType::Dcp, AddressingMode::AbsoluteXIndexed)),
        dcp::UNOFFICIAL0_ABSOLUTE_Y_INDEXED => Some((InstructionType::Dcp, AddressingMode::AbsoluteYIndexed)),
        dec::ABSOLUTE => Some((InstructionType::Dec, AddressingMode::Absolute)),
        dec::ABSOLUTE_X_INDEXED => Some((InstructionType::Dec, AddressingMode::AbsoluteXIndexed)),
        dec::ZERO_PAGE => Some((InstructionType::Dec, AddressingMode::ZeroPage)),
        dec::ZERO_PAGE_X_INDEXED => Some((InstructionType::Dec, AddressingMode::ZeroPageXIndexed)),
        dex::IMPLIED => Some((InstructionType::Dex, AddressingMode::Implied)),
        dey::IMPLIED => Some((InstructionType::Dey, AddressingMode::Implied)),
        eor::ABSOLUTE => Some((InstructionType::Eor, AddressingMode::Absolute)),
        eor::ABSOLUTE_X_INDEXED => Some((InstructionType::Eor, AddressingMode::AbsoluteXIndexed)),
        eor::ABSOLUTE_Y_INDEXED => Some((InstructionType::Eor, AddressingMode::AbsoluteYIndexed)),
        eor::IMMEDIATE => Some((InstructionType::Eor, AddressingMode::Immediate)),
        eor::INDIRECT_Y_INDEXED => Some((InstructionType::Eor, AddressingMode::IndirectYIndexed)),
        eor::X_INDEXED_INDIRECT => Some((InstructionType::Eor, AddressingMode::XIndexedIndirect)),
        eor::ZERO_PAGE => Some((InstructionType::Eor, AddressingMode::ZeroPage)),
        eor::ZERO_PAGE_X_INDEXED => Some((InstructionType::Eor, AddressingMode::ZeroPageXIndexed)),
        ign::UNOFFICIAL0_ABSOLUTE => Some((InstructionType::Ign, AddressingMode::Absolute)),
        ign::UNOFFICIAL0_ABSOLUTE_X_INDEXED => Some((InstructionType::Ign, AddressingMode::AbsoluteXIndexed)),
        ign::UNOFFICIAL0_ZERO_PAGE => Some((InstructionType::Ign, AddressingMode::ZeroPage)),
        ign::UNOFFICIAL0_ZERO_PAGE_X_INDEXED => Some((InstructionType::Ign, AddressingMode::ZeroPageXIndexed)),
        ign::UNOFFICIAL1_ABSOLUTE_X_INDEXED => Some((InstructionType::Ign, AddressingMode::AbsoluteXIndexed)),
        ign::UNOFFICIAL1_ZERO_PAGE => Some((InstructionType::Ign, AddressingMode::ZeroPage)),
        ign::UNOFFICIAL1_ZERO_PAGE_X_INDEXED => Some((InstructionType::Ign, AddressingMode::ZeroPageXIndexed)),
        ign::UNOFFICIAL2_ABSOLUTE_X_INDEXED => Some((InstructionType::Ign, AddressingMode::AbsoluteXIndexed)),
        ign::UNOFFICIAL2_ZERO_PAGE => Some((InstructionType::Ign, AddressingMode::ZeroPage)),
        ign::UNOFFICIAL2_ZERO_PAGE_X_INDEXED => Some((InstructionType::Ign, AddressingMode::ZeroPageXIndexed)),
        ign::UNOFFICIAL3_ABSOLUTE_X_INDEXED => Some((InstructionType::Ign, AddressingMode::AbsoluteXIndexed)),
        ign::UNOFFICIAL3_ZERO_PAGE_X_INDEXED => Some((InstructionType::Ign, AddressingMode::ZeroPageXIndexed)),
        ign::UNOFFICIAL4_ABSOLUTE_X_INDEXED => Some((InstructionType::Ign, AddressingMode::AbsoluteXIndexed)),
        ign::UNOFFICIAL4_ZERO_PAGE_X_INDEXED => Some((InstructionType::Ign, AddressingMode::ZeroPageXIndexed)),
        ign::UNOFFICIAL5_ABSOLUTE_X_INDEXED => Some((InstructionType::Ign, AddressingMode::AbsoluteXIndexed)),
        ign::UNOFFICIAL5_ZERO_PAGE_X_INDEXED => Some((InstructionType::Ign, AddressingMode::ZeroPageXIndexed)),
        inc::ABSOLUTE => Some((InstructionType::Inc, AddressingMode::Absolute)),
        inc::ABSOLUTE_X_INDEXED => Some((InstructionType::Inc, AddressingMode::AbsoluteXIndexed)),
        inc::ZERO_PAGE => Some((InstructionType::Inc, AddressingMode::ZeroPage)),
        inc::ZERO_PAGE_X_INDEXED => Some((InstructionType::Inc, AddressingMode::ZeroPageXIndexed)),
        inx::IMPLIED => Some((InstructionType::Inx, AddressingMode::Implied)),
        iny::IMPLIED => Some((InstructionType::Iny, AddressingMode::Implied)),
        isc::UNOFFICIAL0_X_INDEXED_INDIRECT => Some((InstructionType::Isc, AddressingMode::XIndexedIndirect)),
        isc::UNOFFICIAL0_ZERO_PAGE => Some((InstructionType::Isc, AddressingMode::ZeroPage)),
        isc::UNOFFICIAL0_ABSOLUTE => Some((InstructionType::Isc, AddressingMode::Absolute)),
        isc::UNOFFICIAL0_INDIRECT_Y_INDEXED => Some((InstructionType::Isc, AddressingMode::IndirectYIndexed)),
        isc::UNOFFICIAL0_ZERO_PAGE_X_INDEXED => Some((InstructionType::Isc, AddressingMode::ZeroPageXIndexed)),
        isc::UNOFFICIAL0_ABSOLUTE_X_INDEXED => Some((InstructionType::Isc, AddressingMode::AbsoluteXIndexed)),
        isc::UNOFFICIAL0_ABSOLUTE_Y_INDEXED => Some((InstructionType::Isc, AddressingMode::AbsoluteYIndexed)),
        jmp::ABSOLUTE => Some((InstructionType::Jmp, AddressingMode::Absolute)),
        jmp::INDIRECT => Some((InstructionType::Jmp, AddressingMode::Indirect)),
        jsr::ABSOLUTE => Some((InstructionType::Jsr, AddressingMode::Absolute)),
        lax::UNOFFICIAL0_ABSOLUTE => Some((InstructionType::Lax, AddressingMode::Absolute)),
        lax::UNOFFICIAL0_ABSOLUTE_Y_INDEXED => Some((InstructionType::Lax, AddressingMode::AbsoluteYIndexed)),
        lax::UNOFFICIAL0_IMMEDIATE => Some((InstructionType::Lax, AddressingMode::Immediate)),
        lax::UNOFFICIAL0_X_INDEXED_INDIRECT => Some((InstructionType::Lax, AddressingMode::XIndexedIndirect)),
        lax::UNOFFICIAL0_INDIRECT_Y_INDEXED => Some((InstructionType::Lax, AddressingMode::IndirectYIndexed)),
        lax::UNOFFICIAL0_ZERO_PAGE => Some((InstructionType::Lax, AddressingMode::ZeroPage)),
        lax::UNOFFICIAL0_ZERO_PAGE_Y_INDEXED => Some((InstructionType::Lax, AddressingMode::ZeroPageYIndexed)),
        lda::ABSOLUTE => Some((InstructionType::Lda, AddressingMode::Absolute)),
        lda::ABSOLUTE_X_INDEXED => Some((InstructionType::Lda, AddressingMode::AbsoluteXIndexed)),
        lda::ABSOLUTE_Y_INDEXED => Some((InstructionType::Lda, AddressingMode::AbsoluteYIndexed)),
        lda::IMMEDIATE => Some((InstructionType::Lda, AddressingMode::Immediate)),
        lda::INDIRECT_Y_INDEXED => Some((InstructionType::Lda, AddressingMode::IndirectYIndexed)),
        lda::X_INDEXED_INDIRECT => Some((InstructionType::Lda, AddressingMode::XIndexedIndirect)),
        lda::ZERO_PAGE => Some((InstructionType::Lda, AddressingMode::ZeroPage)),
        lda::ZERO_PAGE_X_INDEXED => Some((InstructionType::Lda, AddressingMode::ZeroPageXIndexed)),
        ldx::ABSOLUTE => Some((InstructionType::Ldx, AddressingMode::Absolute)),
        ldx::ABSOLUTE_Y_INDEXED => Some((InstructionType::Ldx, AddressingMode::AbsoluteYIndexed)),
        ldx::IMMEDIATE => Some((InstructionType::Ldx, AddressingMode::Immediate)),
        ldx::ZERO_PAGE => Some((InstructionType::Ldx, AddressingMode::ZeroPage)),
        ldx::ZERO_PAGE_Y_INDEXED => Some((InstructionType::Ldx, AddressingMode::ZeroPageYIndexed)),
        ldy::ABSOLUTE => Some((InstructionType::Ldy, AddressingMode::Absolute)),
        ldy::ABSOLUTE_X_INDEXED => Some((InstructionType::Ldy, AddressingMode::AbsoluteXIndexed)),
        ldy::IMMEDIATE => Some((InstructionType::Ldy, AddressingMode::Immediate)),
        ldy::ZERO_PAGE => Some((InstructionType::Ldy, AddressingMode::ZeroPage)),
        ldy::ZERO_PAGE_X_INDEXED => Some((InstructionType::Ldy, AddressingMode::ZeroPageXIndexed)),
        lsr::ABSOLUTE => Some((InstructionType::Lsr, AddressingMode::Absolute)),
        lsr::ABSOLUTE_X_INDEXED => Some((InstructionType::Lsr, AddressingMode::AbsoluteXIndexed)),
        lsr::ACCUMULATOR => Some((InstructionType::Lsr, AddressingMode::Accumulator)),
        lsr::ZERO_PAGE => Some((InstructionType::Lsr, AddressingMode::ZeroPage)),
        lsr::ZERO_PAGE_X_INDEXED => Some((InstructionType::Lsr, AddressingMode::ZeroPageXIndexed)),
        nop::IMPLIED => Some((InstructionType::Nop, AddressingMode::Implied)),
        nop::UNOFFICIAL0_IMPLIED => Some((InstructionType::Nop, AddressingMode::Implied)),
        nop::UNOFFICIAL1_IMPLIED => Some((InstructionType::Nop, AddressingMode::Implied)),
        nop::UNOFFICIAL2_IMPLIED => Some((InstructionType::Nop, AddressingMode::Implied)),
        nop::UNOFFICIAL3_IMPLIED => Some((InstructionType::Nop, AddressingMode::Implied)),
        nop::UNOFFICIAL4_IMPLIED => Some((InstructionType::Nop, AddressingMode::Implied)),
        nop::UNOFFICIAL5_IMPLIED => Some((InstructionType::Nop, AddressingMode::Implied)),
        ora::ABSOLUTE => Some((InstructionType::Ora, AddressingMode::Absolute)),
        ora::ABSOLUTE_X_INDEXED => Some((InstructionType::Ora, AddressingMode::AbsoluteXIndexed)),
        ora::ABSOLUTE_Y_INDEXED => Some((InstructionType::Ora, AddressingMode::AbsoluteYIndexed)),
        ora::IMMEDIATE => Some((InstructionType::Ora, AddressingMode::Immediate)),
        ora::INDIRECT_Y_INDEXED => Some((InstructionType::Ora, AddressingMode::IndirectYIndexed)),
        ora::X_INDEXED_INDIRECT => Some((InstructionType::Ora, AddressingMode::XIndexedIndirect)),
        ora::ZERO_PAGE => Some((InstructionType::Ora, AddressingMode::ZeroPage)),
        ora::ZERO_PAGE_X_INDEXED => Some((InstructionType::Ora, AddressingMode::ZeroPageXIndexed)),
        pha::IMPLIED => Some((InstructionType::Pha, AddressingMode::Implied)),
        php::IMPLIED => Some((InstructionType::Php, AddressingMode::Implied)),
        pla::IMPLIED => Some((InstructionType::Pla, AddressingMode::Implied)),
        plp::IMPLIED => Some((InstructionType::Plp, AddressingMode::Implied)),
        rla::UNOFFICIAL0_X_INDEXED_INDIRECT => Some((InstructionType::Rla, AddressingMode::XIndexedIndirect)),
        rla::UNOFFICIAL0_ZERO_PAGE => Some((InstructionType::Rla, AddressingMode::ZeroPage)),
        rla::UNOFFICIAL0_ABSOLUTE => Some((InstructionType::Rla, AddressingMode::Absolute)),
        rla::UNOFFICIAL0_INDIRECT_Y_INDEXED => Some((InstructionType::Rla, AddressingMode::IndirectYIndexed)),
        rla::UNOFFICIAL0_ZERO_PAGE_X_INDEXED => Some((InstructionType::Rla, AddressingMode::ZeroPageXIndexed)),
        rla::UNOFFICIAL0_ABSOLUTE_X_INDEXED => Some((InstructionType::Rla, AddressingMode::AbsoluteXIndexed)),
        rla::UNOFFICIAL0_ABSOLUTE_Y_INDEXED => Some((InstructionType::Rla, AddressingMode::AbsoluteYIndexed)),
        rol::ABSOLUTE => Some((InstructionType::Rol, AddressingMode::Absolute)),
        rol::ABSOLUTE_X_INDEXED => Some((InstructionType::Rol, AddressingMode::AbsoluteXIndexed)),
        rol::ACCUMULATOR => Some((InstructionType::Rol, AddressingMode::Accumulator)),
        rol::ZERO_PAGE => Some((InstructionType::Rol, AddressingMode::ZeroPage)),
        rol::ZERO_PAGE_X_INDEXED => Some((InstructionType::Rol, AddressingMode::ZeroPageXIndexed)),
        ror::ABSOLUTE => Some((InstructionType::Ror, AddressingMode::Absolute)),
        ror::ABSOLUTE_X_INDEXED => Some((InstructionType::Ror, AddressingMode::AbsoluteXIndexed)),
        ror::ACCUMULATOR => Some((InstructionType::Ror, AddressingMode::Accumulator)),
        ror::ZERO_PAGE => Some((InstructionType::Ror, AddressingMode::ZeroPage)),
        ror::ZERO_PAGE_X_INDEXED => Some((InstructionType::Ror, AddressingMode::ZeroPageXIndexed)),
        rra::UNOFFICIAL0_X_INDEXED_INDIRECT => Some((InstructionType::Rra, AddressingMode::XIndexedIndirect)),
        rra::UNOFFICIAL0_ZERO_PAGE => Some((InstructionType::Rra, AddressingMode::ZeroPage)),
        rra::UNOFFICIAL0_ABSOLUTE => Some((InstructionType::Rra, AddressingMode::Absolute)),
        rra::UNOFFICIAL0_INDIRECT_Y_INDEXED => Some((InstructionType::Rra, AddressingMode::IndirectYIndexed)),
        rra::UNOFFICIAL0_ZERO_PAGE_X_INDEXED => Some((InstructionType::Rra, AddressingMode::ZeroPageXIndexed)),
        rra::UNOFFICIAL0_ABSOLUTE_X_INDEXED => Some((InstructionType::Rra, AddressingMode::AbsoluteXIndexed)),
        rra::UNOFFICIAL0_ABSOLUTE_Y_INDEXED => Some((InstructionType::Rra, AddressingMode::AbsoluteYIndexed)),
        rti::IMPLIED => Some((InstructionType::Rti, AddressingMode::Implied)),
        rts::IMPLIED => Some((InstructionType::Rts, AddressingMode::Implied)),
        sax::UNOFFICIAL0_X_INDEXED_INDIRECT => Some((InstructionType::Sax, AddressingMode::XIndexedIndirect)),
        sax::UNOFFICIAL0_ZERO_PAGE => Some((InstructionType::Sax, AddressingMode::ZeroPage)),
        sax::UNOFFICIAL0_ABSOLUTE => Some((InstructionType::Sax, AddressingMode::Absolute)),
        sax::UNOFFICIAL0_ZERO_PAGE_Y_INDEXED => Some((InstructionType::Sax, AddressingMode::ZeroPageYIndexed)),
        sbc::ABSOLUTE => Some((InstructionType::Sbc, AddressingMode::Absolute)),
        sbc::ABSOLUTE_X_INDEXED => Some((InstructionType::Sbc, AddressingMode::AbsoluteXIndexed)),
        sbc::ABSOLUTE_Y_INDEXED => Some((InstructionType::Sbc, AddressingMode::AbsoluteYIndexed)),
        sbc::IMMEDIATE => Some((InstructionType::Sbc, AddressingMode::Immediate)),
        sbc::INDIRECT_Y_INDEXED => Some((InstructionType::Sbc, AddressingMode::IndirectYIndexed)),
        sbc::X_INDEXED_INDIRECT => Some((InstructionType::Sbc, AddressingMode::XIndexedIndirect)),
        sbc::ZERO_PAGE => Some((InstructionType::Sbc, AddressingMode::ZeroPage)),
        sbc::ZERO_PAGE_X_INDEXED => Some((InstructionType::Sbc, AddressingMode::ZeroPageXIndexed)),
        sbc::UNOFFICIAL0_IMMEDIATE => Some((InstructionType::Sbc, AddressingMode::Immediate)),
        sec::IMPLIED => Some((InstructionType::Sec, AddressingMode::Implied)),
        sed::IMPLIED => Some((InstructionType::Sed, AddressingMode::Implied)),
        sei::IMPLIED => Some((InstructionType::Sei, AddressingMode::Implied)),
        skb::UNOFFICIAL0_IMMEDIATE => Some((InstructionType::Skb, AddressingMode::Immediate)),
        skb::UNOFFICIAL1_IMMEDIATE => Some((InstructionType::Skb, AddressingMode::Immediate)),
        skb::UNOFFICIAL2_IMMEDIATE => Some((InstructionType::Skb, AddressingMode::Immediate)),
        skb::UNOFFICIAL3_IMMEDIATE => Some((InstructionType::Skb, AddressingMode::Immediate)),
        skb::UNOFFICIAL4_IMMEDIATE => Some((InstructionType::Skb, AddressingMode::Immediate)),
        slo::UNOFFICIAL0_X_INDEXED_INDIRECT => Some((InstructionType::Slo, AddressingMode::XIndexedIndirect)),
        slo::UNOFFICIAL0_ZERO_PAGE => Some((InstructionType::Slo, AddressingMode::ZeroPage)),
        slo::UNOFFICIAL0_ABSOLUTE => Some((InstructionType::Slo, AddressingMode::Absolute)),
        slo::UNOFFICIAL0_INDIRECT_Y_INDEXED => Some((InstructionType::Slo, AddressingMode::IndirectYIndexed)),
        slo::UNOFFICIAL0_ZERO_PAGE_X_INDEXED => Some((InstructionType::Slo, AddressingMode::ZeroPageXIndexed)),
        slo::UNOFFICIAL0_ABSOLUTE_X_INDEXED => Some((InstructionType::Slo, AddressingMode::AbsoluteXIndexed)),
        slo::UNOFFICIAL0_ABSOLUTE_Y_INDEXED => Some((InstructionType::Slo, AddressingMode::AbsoluteYIndexed)),
        sre::UNOFFICIAL0_X_INDEXED_INDIRECT => Some((InstructionType::Sre, AddressingMode::XIndexedIndirect)),
        sre::UNOFFICIAL0_ZERO_PAGE => Some((InstructionType::Sre, AddressingMode::ZeroPage)),
        sre::UNOFFICIAL0_ABSOLUTE => Some((InstructionType::Sre, AddressingMode::Absolute)),
        sre::UNOFFICIAL0_INDIRECT_Y_INDEXED => Some((InstructionType::Sre, AddressingMode::IndirectYIndexed)),
        sre::UNOFFICIAL0_ZERO_PAGE_X_INDEXED => Some((InstructionType::Sre, AddressingMode::ZeroPageXIndexed)),
        sre::UNOFFICIAL0_ABSOLUTE_X_INDEXED => Some((InstructionType::Sre, AddressingMode::AbsoluteXIndexed)),
        sre::UNOFFICIAL0_ABSOLUTE_Y_INDEXED => Some((InstructionType::Sre, AddressingMode::AbsoluteYIndexed)),
        sta::ABSOLUTE => Some((InstructionType::Sta, AddressingMode::Absolute)),
        sta::ABSOLUTE_X_INDEXED => Some((InstructionType::Sta, AddressingMode::AbsoluteXIndexed)),
        sta::ABSOLUTE_Y_INDEXED => Some((InstructionType::Sta, AddressingMode::AbsoluteYIndexed)),
        sta::INDIRECT_Y_INDEXED => Some((InstructionType::Sta, AddressingMode::IndirectYIndexed)),
        sta::X_INDEXED_INDIRECT => Some((InstructionType::Sta, AddressingMode::XIndexedIndirect)),
        sta::ZERO_PAGE => Some((InstructionType::Sta, AddressingMode::ZeroPage)),
        sta::ZERO_PAGE_X_INDEXED => Some((InstructionType::Sta, AddressingMode::ZeroPageXIndexed)),
        stx::ABSOLUTE => Some((InstructionType::Stx, AddressingMode::Absolute)),
        stx::ZERO_PAGE => Some((InstructionType::Stx, AddressingMode::ZeroPage)),
        stx::ZERO_PAGE_Y_INDEXED => Some((InstructionType::Stx, AddressingMode::ZeroPageYIndexed)),
        sty::ABSOLUTE => Some((InstructionType::Sty, AddressingMode::Absolute)),
        sty::ZERO_PAGE => Some((InstructionType::Sty, AddressingMode::ZeroPage)),
        sty::ZERO_PAGE_X_INDEXED => Some((InstructionType::Sty, AddressingMode::ZeroPageXIndexed)),
        sxa::UNOFFICIAL0_ABSOLUTE_Y_INDEXED => Some((InstructionType::Sxa, AddressingMode::AbsoluteYIndexed)),
        sya::UNOFFICIAL0_ABSOLUTE_X_INDEXED => Some((InstructionType::Sya, AddressingMode::AbsoluteXIndexed)),
        tax::IMPLIED => Some((InstructionType::Tax, AddressingMode::Implied)),
        tay::IMPLIED => Some((InstructionType::Tay, AddressingMode::Implied)),
        tsx::IMPLIED => Some((InstructionType::Tsx, AddressingMode::Implied)),
        txa::IMPLIED => Some((InstructionType::Txa, AddressingMode::Implied)),
        txs::IMPLIED => Some((InstructionType::Txs, AddressingMode::Implied)),
        tya::IMPLIED => Some((InstructionType::Tya, AddressingMode::Implied)),
        _ => None,
    }
}

/// A decoded opcode.
#[derive(Clone, Copy, Debug, PartialEq, Eq, Structural)]
pub struct Instruction {
    pub instruction_type: InstructionType,
    pub addressing_mode: AddressingMode,
}

impl Instruction {
    fn new(instruction_type: InstructionType, addressing_mode: AddressingMode) -> (r: Self)
        ensures
            r.instruction_type == instruction_type,
            r.addressing_mode == addressing_mode,
    {
        Self { instruction_type, addressing_mode }
    }

    /// Decodes an opcode byte.
    pub fn from_opcode(opcode: u8) -> (r: Result<Self, UnknownOpcode>)
        ensures
            match spec_decode(opcode) {
                Some((t, m)) => r == Ok::<Self, UnknownOpcode>(Instruction { instruction_type: t, addressing_mode: m }),
                None => r == Err::<Self, UnknownOpcode>(UnknownOpcode(opcode)),
            },
    {
        let (instruction_type, addressing_mode) = match opcode {
            adc::ABSOLUTE => (InstructionType::Adc, AddressingMode::Absolute),
            adc::ABSOLUTE_X_INDEXED => (InstructionType::Adc, AddressingMode::AbsoluteXIndexed),
            adc::ABSOLUTE_Y_INDEXED => (InstructionType::Adc, AddressingMode::AbsoluteYIndexed),
            adc::IMMEDIATE => (InstructionType::Adc, AddressingMode::Immediate),
            adc::INDIRECT_Y_INDEXED => (InstructionType::Adc, AddressingMode::IndirectYIndexed),
            adc::X_INDEXED_INDIRECT => (InstructionType::Adc, AddressingMode::XIndexedIndirect),
            adc::ZERO_PAGE => (InstructionType::Adc, AddressingMode::ZeroPage),
            adc::ZERO_PAGE_X_INDEXED => (InstructionType::Adc, AddressingMode::ZeroPageXIndexed),
            ahx::UNOFFICIAL0_ABSOLUTE_Y_INDEXED => (InstructionType::Ahx, AddressingMode::AbsoluteYIndexed),
            ahx::UNOFFICIAL0_INDIRECT_Y_INDEXED => (InstructionType::Ahx, AddressingMode::IndirectYIndexed),
            alr::UNOFFICIAL0_IMMEDIATE => (InstructionType::Alr, AddressingMode::Immediate),
            arr::UNOFFICIAL0_IMMEDIATE => (InstructionType::Arr, AddressingMode::Immediate),
            anc::UNOFFICIAL0_IMMEDIATE => (InstructionType::Anc, AddressingMode::Immediate),
            anc::UNOFFICIAL1_IMMEDIATE => (InstructionType::Anc, AddressingMode::Immediate),
            and::ABSOLUTE => (InstructionType::And, AddressingMode::Absolute),
            and::ABSOLUTE_X_INDEXED => (InstructionType::And, AddressingMode::AbsoluteXIndexed),
            and::ABSOLUTE_Y_INDEXED => (InstructionType::And, AddressingMode::AbsoluteYIndexed),
            and::IMMEDIATE => (InstructionType::And, AddressingMode::Immediate),
            and::INDIRECT_Y_INDEXED => (InstructionType::And, AddressingMode::IndirectYIndexed),
            and::X_INDEXED_INDIRECT => (InstructionType::And, AddressingMode::XIndexedIndirect),
            and::ZERO_PAGE => (InstructionType::And, AddressingMode::ZeroPage),
            and::ZERO_PAGE_X_INDEXED => (InstructionType::And, AddressingMode::ZeroPageXIndexed),
            asl::ABSOLUTE => (InstructionType::Asl, AddressingMode::Absolute),
            asl::ABSOLUTE_X_INDEXED => (InstructionType::Asl, AddressingMode::AbsoluteXIndexed),
            asl::ACCUMULATOR => (InstructionType::Asl, AddressingMode::Accumulator),
            asl::ZERO_PAGE => (InstructionType::Asl, AddressingMode::ZeroPage),
            asl::ZERO_PAGE_X_INDEXED => (InstructionType::Asl, AddressingMode::ZeroPageXIndexed),
            axs::UNOFFICIAL0_IMMEDIATE => (InstructionType::Axs, AddressingMode::Immediate),
            bcc::RELATIVE => (InstructionType::Bcc, AddressingMode::Relative),
            bcs::RELATIVE => (InstructionType::Bcs, AddressingMode::Relative),
            beq::RELATIVE => (InstructionType::Beq, AddressingMode::Relative),
            bmi::RELATIVE => (InstructionType::Bmi, AddressingMode::Relative),
            bne::RELATIVE => (InstructionType::Bne, AddressingMode::Relative),
            bpl::RELATIVE => (InstructionType::Bpl, AddressingMode::Relative),
            bvc::RELATIVE => (InstructionType::Bvc, AddressingMode::Relative),
            bvs::RELATIVE => (InstructionType::Bvs, AddressingMode::Relative),
            bit::ABSOLUTE => (InstructionType::Bit, AddressingMode::Absolute),
            bit::ZERO_PAGE => (InstructionType::Bit, AddressingMode::ZeroPage),
            brk::IMPLIED => (InstructionType::Brk, AddressingMode::Implied),
            clc::IMPLIED => (InstructionType::Clc, AddressingMode::Implied),
            cld::IMPLIED => (InstructionType::Cld, AddressingMode::Implied),
            cli::IMPLIED => (InstructionType::Cli, AddressingMode::Implied),
            clv::IMPLIED => (InstructionType::Clv, AddressingMode::Implied),
            cmp::ABSOLUTE => (InstructionType::Cmp, AddressingMode::Absolute),
            cmp::ABSOLUTE_X_INDEXED => (InstructionType::Cmp, AddressingMode::AbsoluteXIndexed),
            cmp::ABSOLUTE_Y_INDEXED => (InstructionType::Cmp, AddressingMode::AbsoluteYIndexed),
            cmp::IMMEDIATE => (InstructionType::Cmp, AddressingMode::Immediate),
            cmp::INDIRECT_Y_INDEXED => (InstructionType::Cmp, AddressingMode::IndirectYIndexed),
            cmp::X_INDEXED_INDIRECT => (InstructionType::Cmp, AddressingMode::XIndexedIndirect),
            cmp::ZERO_PAGE => (InstructionType::Cmp, AddressingMode::ZeroPage),
            cmp::ZERO_PAGE_X_INDEXED => (InstructionType::Cmp, AddressingMode::ZeroPageXIndexed),
            cpx::ABSOLUTE => (InstructionType::Cpx, AddressingMode::Absolute),
            cpx::IMMEDIATE => (InstructionType::Cpx, AddressingMode::Immediate),
            cpx::ZERO_PAGE => (InstructionType::Cpx, AddressingMode::ZeroPage),
            cpy::ABSOLUTE => (InstructionType::Cpy, AddressingMode::Absolute),
            cpy::IMMEDIATE => (InstructionType::Cpy, AddressingMode::Immediate),
            cpy::ZERO_PAGE => (InstructionType::Cpy, AddressingMode::ZeroPage),
            dcp::UNOFFICIAL0_X_INDEXED_INDIRECT => (InstructionType::Dcp, AddressingMode::XIndexedIndirect),
            dcp::UNOFFICIAL0_ZERO_PAGE => (InstructionType::Dcp, AddressingMode::ZeroPage),
            dcp::UNOFFICIAL0_ABSOLUTE => (InstructionType::Dcp, AddressingMode::Absolute),
            dcp::UNOFFICIAL0_INDIRECT_Y_INDEXED => (InstructionType::Dcp, AddressingMode::IndirectYIndexed),
            dcp::UNOFFICIAL0_ZERO_PAGE_X_INDEXED => (InstructionType::Dcp, AddressingMode::ZeroPageXIndexed),
            dcp::UNOFFICIAL0_ABSOLUTE_X_INDEXED => (InstructionType::Dcp, AddressingMode::AbsoluteXIndexed),
            dcp::UNOFFICIAL0_ABSOLUTE_Y_INDEXED => (InstructionType::Dcp, AddressingMode::AbsoluteYIndexed),
            dec::ABSOLUTE => (InstructionType::Dec, AddressingMode::Absolute),
            dec::ABSOLUTE_X_INDEXED => (InstructionType::Dec, AddressingMode::AbsoluteXIndexed),
            dec::ZERO_PAGE => (InstructionType::Dec, AddressingMode::ZeroPage),
            dec::ZERO_PAGE_X_INDEXED => (InstructionType::Dec, AddressingMode::ZeroPageXIndexed),
            dex::IMPLIED => (InstructionType::Dex, AddressingMode::Implied),
            dey::IMPLIED => (InstructionType::Dey, AddressingMode::Implied),
            eor::ABSOLUTE => (InstructionType::Eor, AddressingMode::Absolute),
            eor::ABSOLUTE_X_INDEXED => (InstructionType::Eor, AddressingMode::AbsoluteXIndexed),
            eor::ABSOLUTE_Y_INDEXED => (InstructionType::Eor, AddressingMode::AbsoluteYIndexed),
            eor::IMMEDIATE => (InstructionType::Eor, AddressingMode::Immediate),
            eor::INDIRECT_Y_INDEXED => (InstructionType::Eor, AddressingMode::IndirectYIndexed),
            eor::X_INDEXED_INDIRECT => (InstructionType::Eor, AddressingMode::XIndexedIndirect),
            eor::ZERO_PAGE => (InstructionType::Eor, AddressingMode::ZeroPage),
            eor::ZERO_PAGE_X_INDEXED => (InstructionType::Eor, AddressingMode::ZeroPageXIndexed),
            ign::UNOFFICIAL0_ABSOLUTE => (InstructionType::Ign, AddressingMode::Absolute),
            ign::UNOFFICIAL0_ABSOLUTE_X_INDEXED => (InstructionType::Ign, AddressingMode::AbsoluteXIndexed),
            ign::UNOFFICIAL0_ZERO_PAGE => (InstructionType::Ign, AddressingMode::ZeroPage),
            ign::UNOFFICIAL0_ZERO_PAGE_X_INDEXED => (InstructionType::Ign, AddressingMode::ZeroPageXIndexed),
            ign::UNOFFICIAL1_ABSOLUTE_X_INDEXED => (InstructionType::Ign, AddressingMode::AbsoluteXIndexed),
            ign::UNOFFICIAL1_ZERO_PAGE => (InstructionType::Ign, AddressingMode::ZeroPage),
            ign::UNOFFICIAL1_ZERO_PAGE_X_INDEXED => (InstructionType::Ign, AddressingMode::ZeroPageXIndexed),
            ign::UNOFFICIAL2_ABSOLUTE_X_INDEXED => (InstructionType::Ign, AddressingMode::AbsoluteXIndexed),
            ign::UNOFFICIAL2_ZERO_PAGE => (InstructionType::Ign, AddressingMode::ZeroPage),
            ign::UNOFFICIAL2_ZERO_PAGE_X_INDEXED => (InstructionType::Ign, AddressingMode::ZeroPageXIndexed),
            ign::UNOFFICIAL3_ABSOLUTE_X_INDEXED => (InstructionType::Ign, AddressingMode::AbsoluteXIndexed),
            ign::UNOFFICIAL3_ZERO_PAGE_X_INDEXED => (InstructionType::Ign, AddressingMode::ZeroPageXIndexed),
            ign::UNOFFICIAL4_ABSOLUTE_X_INDEXED => (InstructionType::Ign, AddressingMode::AbsoluteXIndexed),
            ign::UNOFFICIAL4_ZERO_PAGE_X_INDEXED => (InstructionType::Ign, AddressingMode::ZeroPageXIndexed),
            ign::UNOFFICIAL5_ABSOLUTE_X_INDEXED => (InstructionType::Ign, AddressingMode::AbsoluteXIndexed),
            ign::UNOFFICIAL5_ZERO_PAGE_X_INDEXED => (InstructionType::Ign, AddressingMode::ZeroPageXIndexed),
            inc::ABSOLUTE => (InstructionType::Inc, AddressingMode::Absolute),
            inc::ABSOLUTE_X_INDEXED => (InstructionType::Inc, AddressingMode::AbsoluteXIndexed),
            inc::ZERO_PAGE => (InstructionType::Inc, AddressingMode::ZeroPage),
            inc::ZERO_PAGE_X_INDEXED => (InstructionType::Inc, AddressingMode::ZeroPageXIndexed),
            inx::IMPLIED => (InstructionType::Inx, AddressingMode::Implied),
            iny::IMPLIED => (InstructionType::Iny, AddressingMode::Implied),
            isc::UNOFFICIAL0_X_INDEXED_INDIRECT => (InstructionType::Isc, AddressingMode::XIndexedIndirect),
            isc::UNOFFICIAL0_ZERO_PAGE => (InstructionType::Isc, AddressingMode::ZeroPage),
            isc::UNOFFICIAL0_ABSOLUTE => (InstructionType::Isc, AddressingMode::Absolute),
            isc::UNOFFICIAL0_INDIRECT_Y_INDEXED => (InstructionType::Isc, AddressingMode::IndirectYIndexed),
            isc::UNOFFICIAL0_ZERO_PAGE_X_INDEXED => (InstructionType::Isc, AddressingMode::ZeroPageXIndexed),
            isc::UNOFFICIAL0_ABSOLUTE_X_INDEXED => (InstructionType::Isc, AddressingMode::AbsoluteXIndexed),
            isc::UNOFFICIAL0_ABSOLUTE_Y_INDEXED => (InstructionType::Isc, AddressingMode::AbsoluteYIndexed),
            jmp::ABSOLUTE => (InstructionType::Jmp, AddressingMode::Absolute),
            jmp::INDIRECT => (InstructionType::Jmp, AddressingMode::Indirect),
            jsr::ABSOLUTE => (InstructionType::Jsr, AddressingMode::Absolute),
            lax::UNOFFICIAL0_ABSOLUTE => (InstructionType::Lax, AddressingMode::Absolute),
            lax::UNOFFICIAL0_ABSOLUTE_Y_INDEXED => (InstructionType::Lax, AddressingMode::AbsoluteYIndexed),
            lax::UNOFFICIAL0_IMMEDIATE => (InstructionType::Lax, AddressingMode::Immediate),
            lax::UNOFFICIAL0_X_INDEXED_INDIRECT => (InstructionType::Lax, AddressingMode::XIndexedIndirect),
            lax::UNOFFICIAL0_INDIRECT_Y_INDEXED => (InstructionType::Lax, AddressingMode::IndirectYIndexed),
            lax::UNOFFICIAL0_ZERO_PAGE => (InstructionType::Lax, AddressingMode::ZeroPage),
            lax::UNOFFICIAL0_ZERO_PAGE_Y_INDEXED => (InstructionType::Lax, AddressingMode::ZeroPageYIndexed),
            lda::ABSOLUTE => (InstructionType::Lda, AddressingMode::Absolute),
            lda::ABSOLUTE_X_INDEXED => (InstructionType::Lda, AddressingMode::AbsoluteXIndexed),
            lda::ABSOLUTE_Y_INDEXED => (InstructionType::Lda, AddressingMode::AbsoluteYIndexed),
            lda::IMMEDIATE => (InstructionType::Lda, AddressingMode::Immediate),
            lda::INDIRECT_Y_INDEXED => (InstructionType::Lda, AddressingMode::IndirectYIndexed),
            lda::X_INDEXED_INDIRECT => (InstructionType::Lda, AddressingMode::XIndexedIndirect),
            lda::ZERO_PAGE => (InstructionType::Lda, AddressingMode::ZeroPage),
            lda::ZERO_PAGE_X_INDEXED => (InstructionType::Lda, AddressingMode::ZeroPageXIndexed),
            ldx::ABSOLUTE => (InstructionType::Ldx, AddressingMode::Absolute),
            ldx::ABSOLUTE_Y_INDEXED => (InstructionType::Ldx, AddressingMode::AbsoluteYIndexed),
            ldx::IMMEDIATE => (InstructionType::Ldx, AddressingMode::Immediate),
            ldx::ZERO_PAGE => (InstructionType::Ldx, AddressingMode::ZeroPage),
            ldx::ZERO_PAGE_Y_INDEXED => (InstructionType::Ldx, AddressingMode::ZeroPageYIndexed),
            ldy::ABSOLUTE => (InstructionType::Ldy, AddressingMode::Absolute),
            ldy::ABSOLUTE_X_INDEXED => (InstructionType::Ldy, AddressingMode::AbsoluteXIndexed),
            ldy::IMMEDIATE => (InstructionType::Ldy, AddressingMode::Immediate),
            ldy::ZERO_PAGE => (InstructionType::Ldy, AddressingMode::ZeroPage),
            ldy::ZERO_PAGE_X_INDEXED => (InstructionType::Ldy, AddressingMode::ZeroPageXIndexed),
            lsr::ABSOLUTE => (InstructionType::Lsr, AddressingMode::Absolute),
            lsr::ABSOLUTE_X_INDEXED => (InstructionType::Lsr, AddressingMode::AbsoluteXIndexed),
            lsr::ACCUMULATOR => (InstructionType::Lsr, AddressingMode::Accumulator),
            lsr::ZERO_PAGE => (InstructionType::Lsr, AddressingMode::ZeroPage),
            lsr::ZERO_PAGE_X_INDEXED => (InstructionType::Lsr, AddressingMode::ZeroPageXIndexed),
            nop::IMPLIED => (InstructionType::Nop, AddressingMode::Implied),
            nop::UNOFFICIAL0_IMPLIED => (InstructionType::Nop, AddressingMode::Implied),
            nop::UNOFFICIAL1_IMPLIED => (InstructionType::Nop, AddressingMode::Implied),
            nop::UNOFFICIAL2_IMPLIED => (InstructionType::Nop, AddressingMode::Implied),
            nop::UNOFFICIAL3_IMPLIED => (InstructionType::Nop, AddressingMode::Implied),
            nop::UNOFFICIAL4_IMPLIED => (InstructionType::Nop, AddressingMode::Implied),
            nop::UNOFFICIAL5_IMPLIED => (InstructionType::Nop, AddressingMode::Implied),
            ora::ABSOLUTE => (InstructionType::Ora, AddressingMode::Absolute),
            ora::ABSOLUTE_X_INDEXED => (InstructionType::Ora, AddressingMode::AbsoluteXIndexed),
            ora::ABSOLUTE_Y_INDEXED => (InstructionType::Ora, AddressingMode::AbsoluteYIndexed),
            ora::IMMEDIATE => (InstructionType::Ora, AddressingMode::Immediate),
            ora::INDIRECT_Y_INDEXED => (InstructionType::Ora, AddressingMode::IndirectYIndexed),
            ora::X_INDEXED_INDIRECT => (InstructionType::Ora, AddressingMode::XIndexedIndirect),
            ora::ZERO_PAGE => (InstructionType::Ora, AddressingMode::ZeroPage),
            ora::ZERO_PAGE_X_INDEXED => (InstructionType::Ora, AddressingMode::ZeroPageXIndexed),
            pha::IMPLIED => (InstructionType::Pha, AddressingMode::Implied),
            php::IMPLIED => (InstructionType::Php, AddressingMode::Implied),
            pla::IMPLIED => (InstructionType::Pla, AddressingMode::Implied),
            plp::IMPLIED => (InstructionType::Plp, AddressingMode::Implied),
            rla::UNOFFICIAL0_X_INDEXED_INDIRECT => (InstructionType::Rla, AddressingMode::XIndexedIndirect),
            rla::UNOFFICIAL0_ZERO_PAGE => (InstructionType::Rla, AddressingMode::ZeroPage),
            rla::UNOFFICIAL0_ABSOLUTE => (InstructionType::Rla, AddressingMode::Absolute),
            rla::UNOFFICIAL0_INDIRECT_Y_INDEXED => (InstructionType::Rla, AddressingMode::IndirectYIndexed),
            rla::UNOFFICIAL0_ZERO_PAGE_X_INDEXED => (InstructionType::Rla, AddressingMode::ZeroPageXIndexed),
            rla::UNOFFICIAL0_ABSOLUTE_X_INDEXED => (InstructionType::Rla, AddressingMode::AbsoluteXIndexed),
            rla::UNOFFICIAL0_ABSOLUTE_Y_INDEXED => (InstructionType::Rla, AddressingMode::AbsoluteYIndexed),
            rol::ABSOLUTE => (InstructionType::Rol, AddressingMode::Absolute),
            rol::ABSOLUTE_X_INDEXED => (InstructionType::Rol, AddressingMode::AbsoluteXIndexed),
            rol::ACCUMULATOR => (InstructionType::Rol, AddressingMode::Accumulator),
            rol::ZERO_PAGE => (InstructionType::Rol, AddressingMode::ZeroPage),
            rol::ZERO_PAGE_X_INDEXED => (InstructionType::Rol, AddressingMode::ZeroPageXIndexed),
            ror::ABSOLUTE => (InstructionType::Ror, AddressingMode::Absolute),
            ror::ABSOLUTE_X_INDEXED => (InstructionType::Ror, AddressingMode::AbsoluteXIndexed),
            ror::ACCUMULATOR => (InstructionType::Ror, AddressingMode::Accumulator),
            ror::ZERO_PAGE => (InstructionType::Ror, AddressingMode::ZeroPage),
            ror::ZERO_PAGE_X_INDEXED => (InstructionType::Ror, AddressingMode::ZeroPageXIndexed),
            rra::UNOFFICIAL0_X_INDEXED_INDIRECT => (InstructionType::Rra, AddressingMode::XIndexedIndirect),
            rra::UNOFFICIAL0_ZERO_PAGE => (InstructionType::Rra, AddressingMode::ZeroPage),
            rra::UNOFFICIAL0_ABSOLUTE => (InstructionType::Rra, AddressingMode::Absolute),
            rra::UNOFFICIAL0_INDIRECT_Y_INDEXED => (InstructionType::Rra, AddressingMode::IndirectYIndexed),
            rra::UNOFFICIAL0_ZERO_PAGE_X_INDEXED => (InstructionType::Rra, AddressingMode::ZeroPageXIndexed),
            rra::UNOFFICIAL0_ABSOLUTE_X_INDEXED => (InstructionType::Rra, AddressingMode::AbsoluteXIndexed),
            rra::UNOFFICIAL0_ABSOLUTE_Y_INDEXED => (InstructionType::Rra, AddressingMode::AbsoluteYIndexed),
            rti::IMPLIED => (InstructionType::Rti, AddressingMode::Implied),
            rts::IMPLIED => (InstructionType::Rts, AddressingMode::Implied),
            sax::UNOFFICIAL0_X_INDEXED_INDIRECT => (InstructionType::Sax, AddressingMode::XIndexedIndirect),
            sax::UNOFFICIAL0_ZERO_PAGE => (InstructionType::Sax, AddressingMode::ZeroPage),
            sax::UNOFFICIAL0_ABSOLUTE => (InstructionType::Sax, AddressingMode::Absolute),
            sax::UNOFFICIAL0_ZERO_PAGE_Y_INDEXED => (InstructionType::Sax, AddressingMode::ZeroPageYIndexed),
            sbc::ABSOLUTE => (InstructionType::Sbc, AddressingMode::Absolute),
            sbc::ABSOLUTE_X_INDEXED => (InstructionType::Sbc, AddressingMode::AbsoluteXIndexed),
            sbc::ABSOLUTE_Y_INDEXED => (InstructionType::Sbc, AddressingMode::AbsoluteYIndexed),
            sbc::IMMEDIATE => (InstructionType::Sbc, AddressingMode::Immediate),
            sbc::INDIRECT_Y_INDEXED => (InstructionType::Sbc, AddressingMode::IndirectYIndexed),
            sbc::X_INDEXED_INDIRECT => (InstructionType::Sbc, AddressingMode::XIndexedIndirect),
            sbc::ZERO_PAGE => (InstructionType::Sbc, AddressingMode::ZeroPage),
            sbc::ZERO_PAGE_X_INDEXED => (InstructionType::Sbc, AddressingMode::ZeroPageXIndexed),
            sbc::UNOFFICIAL0_IMMEDIATE => (InstructionType::Sbc, AddressingMode::Immediate),
            sec::IMPLIED => (InstructionType::Sec, AddressingMode::Implied),
            sed::IMPLIED => (InstructionType::Sed, AddressingMode::Implied),
            sei::IMPLIED => (InstructionType::Sei, AddressingMode::Implied),
            skb::UNOFFICIAL0_IMMEDIATE => (InstructionType::Skb, AddressingMode::Immediate),
            skb::UNOFFICIAL1_IMMEDIATE => (InstructionType::Skb, AddressingMode::Immediate),
            skb::UNOFFICIAL2_IMMEDIATE => (InstructionType::Skb, AddressingMode::Immediate),
            skb::UNOFFICIAL3_IMMEDIATE => (InstructionType::Skb, AddressingMode::Immediate),
            skb::UNOFFICIAL4_IMMEDIATE => (InstructionType::Skb, AddressingMode::Immediate),
            slo::UNOFFICIAL0_X_INDEXED_INDIRECT => (InstructionType::Slo, AddressingMode::XIndexedIndirect),
            slo::UNOFFICIAL0_ZERO_PAGE => (InstructionType::Slo, AddressingMode::ZeroPage),
            slo::UNOFFICIAL0_ABSOLUTE => (InstructionType::Slo, AddressingMode::Absolute),
            slo::UNOFFICIAL0_INDIRECT_Y_INDEXED => (InstructionType::Slo, AddressingMode::IndirectYIndexed),
            slo::UNOFFICIAL0_ZERO_PAGE_X_INDEXED => (InstructionType::Slo, AddressingMode::ZeroPageXIndexed),
            slo::UNOFFICIAL0_ABSOLUTE_X_INDEXED => (InstructionType::Slo, AddressingMode::AbsoluteXIndexed),
            slo::UNOFFICIAL0_ABSOLUTE_Y_INDEXED => (InstructionType::Slo, AddressingMode::AbsoluteYIndexed),
            sre::UNOFFICIAL0_X_INDEXED_INDIRECT => (InstructionType::Sre, AddressingMode::XIndexedIndirect),
            sre::UNOFFICIAL0_ZERO_PAGE => (InstructionType::Sre, AddressingMode::ZeroPage),
            sre::UNOFFICIAL0_ABSOLUTE => (InstructionType::Sre, AddressingMode::Absolute),
            sre::UNOFFICIAL0_INDIRECT_Y_INDEXED => (InstructionType::Sre, AddressingMode::IndirectYIndexed),
            sre::UNOFFICIAL0_ZERO_PAGE_X_INDEXED => (InstructionType::Sre, AddressingMode::ZeroPageXIndexed),
            sre::UNOFFICIAL0_ABSOLUTE_X_INDEXED => (InstructionType::Sre, AddressingMode::AbsoluteXIndexed),
            sre::UNOFFICIAL0_ABSOLUTE_Y_INDEXED => (InstructionType::Sre, AddressingMode::AbsoluteYIndexed),
            sta::ABSOLUTE => (InstructionType::Sta, AddressingMode::Absolute),
            sta::ABSOLUTE_X_INDEXED => (InstructionType::Sta, AddressingMode::AbsoluteXIndexed),
            sta::ABSOLUTE_Y_INDEXED => (InstructionType::Sta, AddressingMode::AbsoluteYIndexed),
            sta::INDIRECT_Y_INDEXED => (InstructionType::Sta, AddressingMode::IndirectYIndexed),
            sta::X_INDEXED_INDIRECT => (InstructionType::Sta, AddressingMode::XIndexedIndirect),
            sta::ZERO_PAGE => (InstructionType::Sta, AddressingMode::ZeroPage),
            sta::ZERO_PAGE_X_INDEXED => (InstructionType::Sta, AddressingMode::ZeroPageXIndexed),
            stx::ABSOLUTE => (InstructionType::Stx, AddressingMode::Absolute),
            stx::ZERO_PAGE => (InstructionType::Stx, AddressingMode::ZeroPage),
            stx::ZERO_PAGE_Y_INDEXED => (InstructionType::Stx, AddressingMode::ZeroPageYIndexed),
            sty::ABSOLUTE => (InstructionType::Sty, AddressingMode::Absolute),
            sty::ZERO_PAGE => (InstructionType::Sty, AddressingMode::ZeroPage),
            sty::ZERO_PAGE_X_INDEXED => (InstructionType::Sty, AddressingMode::ZeroPageXIndexed),
            sxa::UNOFFICIAL0_ABSOLUTE_Y_INDEXED => (InstructionType::Sxa, AddressingMode::AbsoluteYIndexed),
            sya::UNOFFICIAL0_ABSOLUTE_X_INDEXED => (InstructionType::Sya, AddressingMode::AbsoluteXIndexed),
            tax::IMPLIED => (InstructionType::Tax, AddressingMode::Implied),
            tay::IMPLIED => (InstructionType::Tay, AddressingMode::Implied),
            tsx::IMPLIED => (InstructionType::Tsx, AddressingMode::Implied),
            txa::IMPLIED => (InstructionType::Txa, AddressingMode::Implied),
            txs::IMPLIED => (InstructionType::Txs, AddressingMode::Implied),
            tya::IMPLIED => (InstructionType::Tya, AddressingMode::Implied),
            _ => return Err(UnknownOpcode(opcode)),
        };
        Ok(Instruction::new(instruction_type, addressing_mode))
    }

    pub fn instruction_type(&self) -> (r: InstructionType)
        ensures
            r == self.instruction_type,
    {
        self.instruction_type
    }

    pub fn addressing_mode(&self) -> (r: AddressingMode)
        ensures
            r == self.addressing_mode,
    {
        self.addressing_mode
    }

    /// The length of the instruction in bytes: the opcode and its operand.
    pub fn size(&self) -> (r: usize)
        ensures
            r == 1 + spec_operand_bytes(self.addressing_mode),
    {
        1 + self.addressing_mode.operand_bytes()
    }
}

/// An instruction at an address together with the operand bytes that follow it.
pub struct InstructionWithOperand {
    pub address: Address,
    pub instruction: Instruction,
    pub operand: Vec<u8>,
}

/// The operand bytes of an instruction at `address` with `n` operand bytes.
pub open spec fn spec_operand<M: MemoryReadOnly>(memory: &M, address: Address, n: nat) -> Seq<u8> {
    Seq::new(n, |i: int| memory.spec_read_u8_read_only(address.wrapping_add(i as u16).wrapping_add(1)))
}

impl InstructionWithOperand {
    /// Decodes the instruction at `address` without changing memory.
    pub fn decode<M: MemoryReadOnly>(address: Address, memory: &M) -> (r: Result<Self, UnknownOpcode>)
        ensures
            ({
                let opcode = memory.spec_read_u8_read_only(address);
                match spec_decode(opcode) {
                    Some((t, m)) => r is Ok && r->Ok_0.address == address
                        && r->Ok_0.instruction == Instruction { instruction_type: t, addressing_mode: m }
                        && r->Ok_0.operand@ == spec_operand(memory, address, spec_operand_bytes(m)),
                    None => r is Err && r->Err_0 == UnknownOpcode(opcode),
                }
            }),
    {
        let opcode = memory.read_u8_read_only(address);
        let instruction = Instruction::from_opcode(opcode)?;
        let operand_bytes = instruction.addressing_mode.operand_bytes();
        let mut operand: Vec<u8> = Vec::new();
        let mut i: usize = 0;
        while i < operand_bytes
            invariant
                operand_bytes <= 2,
                i <= operand_bytes,
                operand@ == spec_operand(memory, address, i as nat),
            decreases operand_bytes - i,
        {
            operand.push(memory.read_u8_read_only(address.wrapping_add(i as Address).wrapping_add(1)));
            i += 1;
            assert(operand@ =~= spec_operand(memory, address, i as nat));
        }
        Ok(Self { address, instruction, operand })
    }

    /// Decodes the instruction at the program counter.
    pub fn next<M: MemoryReadOnly>(cpu: &Cpu, memory: &M) -> (r: Result<Self, UnknownOpcode>)
        ensures
            ({
                let opcode = memory.spec_read_u8_read_only(cpu.pc);
                match spec_decode(opcode) {
                    Some((t, m)) => r is Ok && r->Ok_0.address == cpu.pc
                        && r->Ok_0.instruction == Instruction { instruction_type: t, addressing_mode: m }
                        && r->Ok_0.operand@ == spec_operand(memory, cpu.pc, spec_operand_bytes(m)),
                    None => r is Err && r->Err_0 == UnknownOpcode(opcode),
                }
            }),
    {
        Self::decode(cpu.pc, memory)
    }

    pub fn instruction(&self) -> (r: Instruction)
        ensures
            r == self.instruction,
    {
        self.instruction
    }

    pub fn address(&self) -> (r: Address)
        ensures
            r == self.address,
    {
        self.address
    }

    /// The two operand bytes read as a little-endian address, when there are two.
    pub fn operand_u16_le(&self) -> (r: Option<u16>)
        ensures
            r == (if self.operand@.len() == 2 {
                Some(address::spec_from_lo_hi(self.operand@[0], self.operand@[1]))
            } else {
                None
            }),
    {
        if self.operand.len() == 2 {
            Some(address::from_u8_lo_hi(self.operand[0], self.operand[1]))
        } else {
            None
        }
    }
}

} // verus!
