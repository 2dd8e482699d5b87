use vstd::prelude::*;
use crate::address;
use crate::flag;
use crate::machine::Cpu;
use crate::status::{spec_carry_value, spec_with_flag, spec_with_zero_negative, Register};
use crate::Address;

pub mod adc;
pub mod ahx;
pub mod alr;
pub mod anc;
pub mod and;
pub mod arr;
pub mod asl;
pub mod axs;
pub mod bcc;
pub mod bcs;
pub mod beq;
pub mod bit;
pub mod bmi;
pub mod bne;
pub mod bpl;
pub mod brk;
pub mod bvc;
pub mod bvs;
pub mod clc;
pub mod cld;
pub mod cli;
pub mod clv;
pub mod cmp;
pub mod cpx;
pub mod cpy;
pub mod dcp;
pub mod dec;
pub mod dex;
pub mod dey;
pub mod eor;
pub mod ign;
pub mod inc;
pub mod inx;
pub mod iny;
pub mod isc;
pub mod jmp;
pub mod jsr;
pub mod lax;
pub mod lda;
pub mod ldx;
pub mod ldy;
pub mod lsr;
pub mod nop;
pub mod ora;
pub mod pha;
pub mod php;
pub mod pla;
pub mod plp;
pub mod rla;
pub mod rol;
pub mod ror;
pub mod rra;
pub mod rti;
pub mod rts;
pub mod sax;
pub mod sbc;
pub mod sec;
pub mod sed;
pub mod sei;
pub mod skb;
pub mod slo;
pub mod sre;
pub mod sta;
pub mod stx;
pub mod sty;
pub mod sxa;
pub mod sya;
pub mod tax;
pub mod tay;
pub mod tsx;
pub mod txa;
pub mod txs;
pub mod tya;

verus! {

/// The byte an instruction read and the number of cycles the instruction takes.
pub struct DataWithCycles {
    pub data: u8,
    pub cycles: u8,
}

/// `cpu` with its status register replaced by `raw`.
pub open spec fn spec_with_status(cpu: Cpu, raw: u8) -> Cpu {
    Cpu { status: Register { raw: raw }, ..cpu }
}

/// `cpu` with the program counter moved forward by `bytes`.
pub open spec fn spec_advance(cpu: Cpu, bytes: u16) -> Cpu {
    Cpu { pc: cpu.pc.wrapping_add(bytes), ..cpu }
}

/// `cpu` with the zero and negative flags describing `value`.
pub open spec fn spec_zn(cpu: Cpu, value: u8) -> Cpu {
    spec_with_status(cpu, spec_with_zero_negative(cpu.status.raw, value))
}

/// `cpu` with the carry flag set to `carry`.
pub open spec fn spec_with_carry(cpu: Cpu, carry: bool) -> Cpu {
    spec_with_status(cpu, spec_with_flag(cpu.status.raw, flag::CARRY, carry))
}

/// Whether adding `a`, `b` and the carry `carry_in` overflows as a signed byte: the
/// operands agree in sign and the sum does not.
pub open spec fn spec_signed_overflow(a: u8, b: u8, sum: u8) -> bool {
    (!(a ^ b)) & (a ^ sum) & 0x80 != 0
}

/// Add with carry: the accumulator becomes `acc + value + carry` (mod 256); the carry
/// flag records whether the sum exceeded 255, the overflow flag whether it overflowed
/// as a signed byte, and the zero and negative flags describe the new accumulator.
pub open spec fn spec_adc(cpu: Cpu, value: u8) -> Cpu {
    let total = cpu.acc as int + value as int + spec_carry_value(cpu.status.raw) as int;
    let sum = (total % 256) as u8;
    let raw0 = spec_with_flag(cpu.status.raw, flag::OVERFLOW, spec_signed_overflow(cpu.acc, value, sum));
    let raw1 = spec_with_flag(raw0, flag::CARRY, total > 255);
    Cpu { acc: sum, status: Register { raw: spec_with_zero_negative(raw1, sum) }, ..cpu }
}

/// Comparison of `register` with `value`: the zero and negative flags describe
/// `register - value` (mod 256), and the carry flag is set when there was no borrow.
pub open spec fn spec_compare(cpu: Cpu, register: u8, value: u8) -> Cpu {
    let diff = register.wrapping_sub(value);
    spec_with_carry(spec_zn(cpu, diff), register >= value)
}

/// A compare of `register` with `value` is a subtraction without borrow in: the carry flag is
/// set exactly when `register >= value` as unsigned bytes (so equal values set it), the zero
/// flag exactly when they are equal, and the negative flag exactly when the difference, taken
/// modulo 256, is at least 0x80. The other flags and every register are kept.
pub proof fn lemma_compare_flags(cpu: Cpu, register: u8, value: u8)
    ensures
        ({
            let c = spec_compare(cpu, register, value);
            let difference: int = if register >= value { register - value } else { register - value + 256 };
            &&& (c.status.raw & flag::CARRY != 0) == (register >= value)
            &&& (c.status.raw & flag::ZERO != 0) == (register == value)
            &&& (c.status.raw & flag::NEGATIVE != 0) == (difference >= 0x80)
            &&& c.status.raw & 0x7C == cpu.status.raw & 0x7C
            &&& c.acc == cpu.acc && c.x == cpu.x && c.y == cpu.y && c.sp == cpu.sp && c.pc == cpu.pc
        }),
{
    let diff = register.wrapping_sub(value);
    assert(diff == if register >= value { register - value } else { register - value + 256 });
    crate::status::lemma_zero_negative_carry_bits(cpu.status.raw, diff, register >= value, false);
}

/// An addition with carry of `value` to the accumulator: the accumulator becomes the sum of
/// the two and the carry in, modulo 256; the carry flag is set exactly when that sum is over
/// 255; the zero and negative flags describe the new accumulator. The interrupt disable,
/// decimal, break and expansion bits and the other registers are kept.
pub proof fn lemma_adc_sum(cpu: Cpu, value: u8)
    ensures
        ({
            let c = spec_adc(cpu, value);
            let carry_in: int = if cpu.status.raw & flag::CARRY != 0 { 1 } else { 0 };
            let total = cpu.acc + value + carry_in;
            &&& c.acc == total % 256
            &&& (c.status.raw & flag::CARRY != 0) == (total > 255)
            &&& (c.status.raw & flag::ZERO != 0) == (total % 256 == 0)
            &&& (c.status.raw & flag::NEGATIVE != 0) == (total % 256 >= 0x80)
            &&& c.status.raw & 0x3C == cpu.status.raw & 0x3C
            &&& c.x == cpu.x && c.y == cpu.y && c.sp == cpu.sp && c.pc == cpu.pc
        }),
{
    let total = cpu.acc as int + value as int + spec_carry_value(cpu.status.raw) as int;
    let sum = (total % 256) as u8;
    crate::status::lemma_zero_negative_carry_bits(
        cpu.status.raw,
        sum,
        total > 255,
        spec_signed_overflow(cpu.acc, value, sum),
    );
    let c = spec_adc(cpu, value);
    assert(sum as int == total % 256);
    assert(c.acc == sum);
    assert((c.status.raw & flag::CARRY != 0) == (total > 255));
    assert((c.status.raw & flag::ZERO != 0) == (sum == 0));
    assert((c.status.raw & flag::NEGATIVE != 0) == (sum >= 0x80));
}

/// A subtraction with borrow of `value` from the accumulator, done as an addition of its
/// complement: the accumulator becomes the accumulator less `value` and less one more when the
/// carry flag is clear (the borrow in), modulo 256; the carry flag is set exactly when no borrow
/// was needed, that is when the accumulator is at least `value` plus the borrow in.
pub proof fn lemma_sbc_difference(cpu: Cpu, value: u8)
    ensures
        ({
            let c = spec_adc(cpu, !value);
            let borrow_in: int = if cpu.status.raw & flag::CARRY != 0 { 0 } else { 1 };
            let difference = cpu.acc - value - borrow_in;
            &&& c.acc == (difference + 256) % 256
            &&& (c.status.raw & flag::CARRY != 0) == (difference >= 0)
            &&& (c.status.raw & flag::ZERO != 0) == ((difference + 256) % 256 == 0)
        }),
{
    crate::status::lemma_zero_negative_carry_bits(0, value, false, false);
    lemma_adc_sum(cpu, !value);
}

fn adc_common(cpu: &mut Cpu, value: u8)
    ensures
        *final(cpu) == spec_adc(*old(cpu), value),
{
    let carry_value = cpu.status.carry_value();
    let total: u16 = cpu.acc as u16 + value as u16 + carry_value as u16;
    let sum = (total % 256) as u8;
    let overflow_candidate = !(cpu.acc ^ value);  // sign bits must match for overflow to occur
    let overflow_if_candidate = cpu.acc ^ sum;  // the sign bit changing indicates an overflow
    let overflow = (overflow_candidate & overflow_if_candidate) & 0x80 != 0;
    cpu.acc = sum;
    cpu.status.set_overflow_to(overflow);
    cpu.status.set_carry_to(total > 255);
    cpu.status.set_zero_from_value(cpu.acc);
    cpu.status.set_negative_from_value(cpu.acc);
}

fn compare(cpu: &mut Cpu, register: u8, value: u8)
    ensures
        *final(cpu) == spec_compare(*old(cpu), register, value),
{
    let diff = register.wrapping_sub(value);
    let borrow = register < value;
    cpu.status.set_zero_from_value(diff);
    cpu.status.set_negative_from_value(diff);
    cpu.status.set_carry_to(!borrow);
}

/// Where a taken branch at `pc` with `offset` goes: `pc + offset` (mod 2^16). It takes
/// 3 cycles, or 4 when the target is on another page than `pc`.
pub open spec fn spec_branch(pc: Address, offset: i8) -> (Address, u8) {
    let next_pc = pc.wrapping_add_signed(offset as i16);
    (next_pc, if address::spec_page(pc) != address::spec_page(next_pc) { 4 } else { 3 })
}

fn branch_next_pc_with_cycles(pc: Address, offset: i8) -> (r: (Address, u8))
    ensures
        r == spec_branch(pc, offset),
{
    let next_pc = pc.wrapping_add_signed(offset as i16);
    let cycles = if address::on_different_pages(pc, next_pc) { 4 } else { 3 };
    (next_pc, cycles)
}

/// Where a branch at `cpu.pc` goes and the cycles it takes: when taken, the signed offset in
/// the byte after the opcode added to the address after the two-byte instruction (modulo
/// 2^16), in 3 cycles, or 4 when that lands on another 256-byte page; when not taken, the
/// address after the instruction, in 2 cycles.
pub open spec fn spec_branch_outcome<M: crate::machine::Memory>(cpu: Cpu, state: M::V, taken: bool) -> (Address, u8) {
    let next = (cpu.pc as int + 2) % 0x10000;
    if taken {
        let offset = M::read_spec(state, cpu.pc.wrapping_add(1)).0 as i8;
        let target = (next + offset as int + 0x10000) % 0x10000;
        (target as Address, if next / 256 != target / 256 { 4 } else { 3 })
    } else {
        (next as Address, 2)
    }
}

/// Each conditional branch tests its own flag: BCC a clear carry, BCS a set carry, BEQ a set
/// zero flag, BNE a clear zero flag, BMI a set negative flag, BPL a clear negative flag, BVC a
/// clear overflow flag, BVS a set overflow flag; and goes where `spec_branch_outcome` says,
/// leaving every register but the program counter as it was.
pub proof fn lemma_branches_test_their_flags<M: crate::machine::Memory>(cpu: Cpu, state: M::V)
    ensures
        ({
            let raw = cpu.status.raw;
            let go = |r: (Cpu, M::V, u8), taken: bool| {
                let (pc, n) = spec_branch_outcome::<M>(cpu, state, taken);
                r.0.pc == pc && r.2 == n && r.0 == (Cpu { pc: r.0.pc, ..cpu })
            };
            &&& go(bcc::spec_interpret::<M>(cpu, state), raw & 0x01 == 0)
            &&& go(bcs::spec_interpret::<M>(cpu, state), raw & 0x01 != 0)
            &&& go(beq::spec_interpret::<M>(cpu, state), raw & 0x02 != 0)
            &&& go(bne::spec_interpret::<M>(cpu, state), raw & 0x02 == 0)
            &&& go(bmi::spec_interpret::<M>(cpu, state), raw & 0x80 != 0)
            &&& go(bpl::spec_interpret::<M>(cpu, state), raw & 0x80 == 0)
            &&& go(bvc::spec_interpret::<M>(cpu, state), raw & 0x40 == 0)
            &&& go(bvs::spec_interpret::<M>(cpu, state), raw & 0x40 != 0)
        }),
{
}

} // verus!
