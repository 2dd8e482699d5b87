//! What the stack instructions promise of any memory that is RAM on the stack page: a pushed
//! byte pops back, a subroutine call returns after itself, a software interrupt returns after
//! itself with the status it interrupted, and an NMI leaves the interrupted address where the
//! NMI handler looks for it.
use vstd::prelude::*;
use crate::address;
use crate::addressing_mode::Absolute;
use crate::instruction::{brk, jsr, rti, rts};
use crate::machine::{spec_nmi, spec_pop, spec_push, spec_stack_address, Cpu, Memory, MemoryReadOnly};
use crate::status::MASK;
use crate::Address;

verus! {

/// In every state `inv` admits, the memory is RAM on the stack page (0x0100 to 0x01FF):
/// `inv` still holds after a read of any address and after a write to the stack page; a byte
/// written to a stack address reads back; a write to one stack address leaves the others as
/// they were; and a read of any address leaves what the stack page reads as it was.
pub open spec fn spec_stack_page_is_ram<M: Memory>(inv: spec_fn(M::V) -> bool) -> bool {
    &&& forall|s: M::V, sp: u8, d: u8|
        inv(s) ==> inv(#[trigger] M::write_spec(s, spec_stack_address(sp), d))
    &&& forall|s: M::V, a: Address| inv(s) ==> inv(#[trigger] M::read_spec(s, a).1)
    &&& forall|s: M::V, sp: u8, d: u8|
        inv(s) ==> (#[trigger] M::read_spec(M::write_spec(s, spec_stack_address(sp), d), spec_stack_address(sp))).0 == d
    &&& forall|s: M::V, sp: u8, sp2: u8, d: u8|
        inv(s) && sp != sp2 ==> (#[trigger] M::read_spec(M::write_spec(s, spec_stack_address(sp), d), spec_stack_address(sp2))).0
            == M::read_spec(s, spec_stack_address(sp2)).0
    &&& forall|s: M::V, a: Address, sp: u8|
        inv(s) ==> (#[trigger] M::read_spec(M::read_spec(s, a).1, spec_stack_address(sp))).0
            == M::read_spec(s, spec_stack_address(sp)).0
}

/// In every state `inv` admits, a read-only look at a stack address sees what a read returns.
pub open spec fn spec_stack_page_looks_as_read<M: Memory + MemoryReadOnly>(inv: spec_fn(M::V) -> bool) -> bool {
    forall|s: M::V, sp: u8| inv(s) ==> #[trigger] M::spec_peek(s, spec_stack_address(sp)) == M::read_spec(s, spec_stack_address(sp)).0
}

/// A byte pushed onto the stack pops back off it, and the stack pointer is back where it was.
pub proof fn lemma_push_then_pop<M: Memory>(inv: spec_fn(M::V) -> bool, cpu: Cpu, state: M::V, value: u8)
    requires
        spec_stack_page_is_ram::<M>(inv),
        inv(state),
    ensures
        ({
            let (c1, s1) = spec_push::<M>(cpu, state, value);
            let (v, c2, _s2) = spec_pop::<M>(c1, s1);
            v == value && c2 == cpu
        }),
{
    assert(cpu.sp.wrapping_sub(1).wrapping_add(1) == cpu.sp);
}

/// A subroutine call followed by a return resumes at the instruction after the three-byte
/// call, with the stack pointer back where it was; the return takes six cycles.
pub proof fn lemma_jsr_then_rts<M: Memory>(inv: spec_fn(M::V) -> bool, cpu: Cpu, state: M::V)
    requires
        spec_stack_page_is_ram::<M>(inv),
        inv(state),
    ensures
        ({
            let (c1, s1, _n1) = jsr::spec_interpret::<Absolute, M>(cpu, state);
            let (c2, _s2, n2) = rts::spec_interpret::<M>(c1, s1);
            c2.pc == cpu.pc.wrapping_add(3) && c2.sp == cpu.sp && n2 == 6
        }),
{
    let sp = cpu.sp;
    let sp1 = sp.wrapping_sub(1);
    assert(sp1 != sp && sp1.wrapping_add(1) == sp1.wrapping_add(1) && sp1.wrapping_sub(1).wrapping_add(1) == sp1
        && sp1.wrapping_add(1) == sp && sp.wrapping_sub(2) == sp1.wrapping_sub(1));
    let ret = cpu.pc.wrapping_add(2);
    let hi = (ret / 256) as u8;
    let lo = (ret % 256) as u8;
    let (cpu1, t1) = spec_push::<M>(cpu, state, hi);
    let (cpu2, t2) = spec_push::<M>(cpu1, t1, lo);
    let (_a1, u1) = M::read_spec(t2, cpu2.pc.wrapping_add(1));
    let (_a2, u2) = M::read_spec(u1, cpu2.pc.wrapping_add(2));
    assert(inv(t1) && inv(t2) && inv(u1) && inv(u2));
    // the low byte is at sp - 1 and the high byte at sp, through both operand reads
    assert(M::read_spec(t2, spec_stack_address(sp1)).0 == lo);
    assert(M::read_spec(t2, spec_stack_address(sp)).0 == hi);
    assert(M::read_spec(u1, spec_stack_address(sp1)).0 == lo);
    assert(M::read_spec(u1, spec_stack_address(sp)).0 == hi);
    assert(M::read_spec(u2, spec_stack_address(sp1)).0 == lo);
    assert(M::read_spec(u2, spec_stack_address(sp)).0 == hi);
    let (c1, s1, _n1) = jsr::spec_interpret::<Absolute, M>(cpu, state);
    assert(s1 == u2);
    let (v1, d1) = M::read_spec(s1, spec_stack_address(sp1));
    assert(inv(d1));
    assert(M::read_spec(d1, spec_stack_address(sp)).0 == hi);
    assert(ret == (ret / 256) * 256 + ret % 256);
}

/// A software interrupt followed by a return from interrupt resumes two bytes after the
/// break, with the stack pointer back where it was and the status register as it was, less
/// the break and expansion bits; the return takes six cycles.
pub proof fn lemma_brk_then_rti<M: Memory>(inv: spec_fn(M::V) -> bool, cpu: Cpu, state: M::V)
    requires
        spec_stack_page_is_ram::<M>(inv),
        inv(state),
    ensures
        ({
            let (c1, s1, _n1) = brk::spec_interpret::<M>(cpu, state);
            let (c2, _s2, n2) = rti::spec_interpret::<M>(c1, s1);
            c2.pc == cpu.pc.wrapping_add(2) && c2.sp == cpu.sp && c2.status.raw == cpu.status.raw & MASK && n2 == 6
        }),
{
    let sp = cpu.sp;
    let sp1 = sp.wrapping_sub(1);
    let sp2 = sp.wrapping_sub(2);
    assert(sp1 != sp && sp2 != sp && sp2 != sp1 && sp1.wrapping_sub(1) == sp2 && sp2.wrapping_add(1) == sp1
        && sp1.wrapping_add(1) == sp && sp.wrapping_sub(3).wrapping_add(1) == sp2 && sp2.wrapping_sub(1) == sp.wrapping_sub(3));
    let ret = cpu.pc.wrapping_add(2);
    let hi = (ret / 256) as u8;
    let lo = (ret % 256) as u8;
    let st = cpu.status.raw | crate::flag::BRK | crate::flag::EXPANSION;
    let (cpu1, t1) = spec_push::<M>(cpu, state, hi);
    let (cpu2, t2) = spec_push::<M>(cpu1, t1, lo);
    let (cpu3, t3) = spec_push::<M>(cpu2, t2, st);
    let (_a1, u1) = M::read_spec(t3, crate::interrupt_vector::IRQ_LO);
    let (_a2, u2) = M::read_spec(u1, crate::interrupt_vector::IRQ_LO.wrapping_add(1));
    assert(inv(t1) && inv(t2) && inv(t3) && inv(u1) && inv(u2));
    assert(M::read_spec(t3, spec_stack_address(sp2)).0 == st);
    assert(M::read_spec(t3, spec_stack_address(sp1)).0 == lo);
    assert(M::read_spec(t3, spec_stack_address(sp)).0 == hi);
    assert(M::read_spec(u1, spec_stack_address(sp2)).0 == st);
    assert(M::read_spec(u1, spec_stack_address(sp1)).0 == lo);
    assert(M::read_spec(u1, spec_stack_address(sp)).0 == hi);
    assert(M::read_spec(u2, spec_stack_address(sp2)).0 == st);
    assert(M::read_spec(u2, spec_stack_address(sp1)).0 == lo);
    assert(M::read_spec(u2, spec_stack_address(sp)).0 == hi);
    let (c1, s1, _n1) = brk::spec_interpret::<M>(cpu, state);
    assert(s1 == u2);
    let (v1, d1) = M::read_spec(s1, spec_stack_address(sp2));
    assert(inv(d1));
    assert(M::read_spec(d1, spec_stack_address(sp1)).0 == lo);
    assert(M::read_spec(d1, spec_stack_address(sp)).0 == hi);
    let (v2, d2) = M::read_spec(d1, spec_stack_address(sp1));
    assert(inv(d2));
    assert(M::read_spec(d2, spec_stack_address(sp)).0 == hi);
    assert(ret == (ret / 256) * 256 + ret % 256);
    let raw = cpu.status.raw;
    assert((raw | 0x10u8 | 0x20u8) & 0xCFu8 == raw & 0xCFu8) by (bit_vector);
}

/// After an NMI, the two bytes above the pushed status, where `retrieve_nmi_return_address_during_nmi`
/// looks while the program counter is at the start of the handler, hold the address the NMI
/// interrupted.
pub proof fn lemma_nmi_return_address<M: Memory + MemoryReadOnly>(inv: spec_fn(M::V) -> bool, cpu: Cpu, state: M::V)
    requires
        spec_stack_page_is_ram::<M>(inv),
        spec_stack_page_looks_as_read::<M>(inv),
        inv(state),
    ensures
        ({
            let (c, s) = spec_nmi::<M>(cpu, state);
            address::spec_from_lo_hi(
                M::spec_peek(s, spec_stack_address(c.sp.wrapping_add(2))),
                M::spec_peek(s, spec_stack_address(c.sp.wrapping_add(3))),
            ) == cpu.pc
        }),
{
    let sp = cpu.sp;
    let sp1 = sp.wrapping_sub(1);
    let sp2 = sp.wrapping_sub(2);
    let sp3 = sp.wrapping_sub(3);
    assert(sp1 != sp && sp2 != sp && sp2 != sp1 && sp3.wrapping_add(2) == sp1 && sp3.wrapping_add(3) == sp
        && sp1.wrapping_sub(1) == sp2 && sp2.wrapping_sub(1) == sp3);
    let hi = (cpu.pc / 256) as u8;
    let lo = (cpu.pc % 256) as u8;
    let st = cpu.status.raw | crate::flag::BRK | crate::flag::EXPANSION;
    let (cpu1, t1) = spec_push::<M>(cpu, state, hi);
    let (cpu2, t2) = spec_push::<M>(cpu1, t1, lo);
    let (cpu3, t3) = spec_push::<M>(cpu2, t2, st);
    let (_a1, u1) = M::read_spec(t3, crate::interrupt_vector::NMI_LO);
    let (_a2, u2) = M::read_spec(u1, crate::interrupt_vector::NMI_LO.wrapping_add(1));
    assert(inv(t1) && inv(t2) && inv(t3) && inv(u1) && inv(u2));
    assert(M::read_spec(t3, spec_stack_address(sp1)).0 == lo);
    assert(M::read_spec(t3, spec_stack_address(sp)).0 == hi);
    assert(M::read_spec(u1, spec_stack_address(sp1)).0 == lo);
    assert(M::read_spec(u1, spec_stack_address(sp)).0 == hi);
    assert(M::read_spec(u2, spec_stack_address(sp1)).0 == lo);
    assert(M::read_spec(u2, spec_stack_address(sp)).0 == hi);
    let (c, s) = spec_nmi::<M>(cpu, state);
    assert(s == u2 && c.sp == sp3);
    assert(M::spec_peek(s, spec_stack_address(sp1)) == lo);
    assert(M::spec_peek(s, spec_stack_address(sp)) == hi);
    assert(cpu.pc == (cpu.pc / 256) * 256 + cpu.pc % 256);
}

} // verus!
