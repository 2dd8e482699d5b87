use vstd::prelude::*;
use crate::text::{ascii_string, push_all, spec_chars, spec_is_ascii};
use crate::{bit, flag};

verus! {

/// Bits that the register never stores: they only exist in copies pushed to the stack.
pub const MASK: u8 = 0xCF;

/// `raw` with the bits of `flag` set when `on` holds and cleared otherwise.
pub open spec fn spec_with_flag(raw: u8, flag: u8, on: bool) -> u8 {
    if on { raw | flag } else { raw & !flag }
}

/// Whether any bit of `flag` is set in `raw`.
pub open spec fn spec_has_flag(raw: u8, flag: u8) -> bool {
    raw & flag != 0
}

/// The carry flag of `raw` as 0 or 1.
pub open spec fn spec_carry_value(raw: u8) -> u8 {
    if raw & flag::CARRY != 0 { 1 } else { 0 }
}

/// Whether `value` is negative read as a two's complement byte.
pub open spec fn spec_is_negative_value(value: u8) -> bool {
    value & flag::NEGATIVE != 0
}

/// `raw` with the zero and negative flags describing `value`.
pub open spec fn spec_with_zero_negative(raw: u8, value: u8) -> u8 {
    spec_with_flag(spec_with_flag(raw, flag::ZERO, value == 0), flag::NEGATIVE, spec_is_negative_value(value))
}

/// How the flags read after the two orders in which instructions set them. Setting the zero
/// and negative flags from `value` and then the carry flag (a compare); or the overflow flag,
/// then the carry flag, then the zero and negative flags (an addition): each flag set reads as
/// set, the negative flag being whether `value` is at least 0x80, and the other bits are kept.
/// Also, the complement of a byte is 255 less the byte.
pub proof fn lemma_zero_negative_carry_bits(raw: u8, value: u8, carry: bool, overflow: bool)
    by (bit_vector)
    ensures
        ({
            let r = if carry {
                (if value & 0x80u8 != 0 { (if value == 0 { raw | 0x02u8 } else { raw & !0x02u8 }) | 0x80u8 }
                else { (if value == 0 { raw | 0x02u8 } else { raw & !0x02u8 }) & !0x80u8 }) | 0x01u8
            } else {
                (if value & 0x80u8 != 0 { (if value == 0 { raw | 0x02u8 } else { raw & !0x02u8 }) | 0x80u8 }
                else { (if value == 0 { raw | 0x02u8 } else { raw & !0x02u8 }) & !0x80u8 }) & !0x01u8
            };
            &&& (r & 0x01u8 != 0) == carry
            &&& (r & 0x02u8 != 0) == (value == 0)
            &&& (r & 0x80u8 != 0) == (value >= 0x80u8)
            &&& r & 0x7Cu8 == raw & 0x7Cu8
        }),
        ({
            let a0 = if overflow { raw | 0x40u8 } else { raw & !0x40u8 };
            let a1 = if carry { a0 | 0x01u8 } else { a0 & !0x01u8 };
            let a2 = if value & 0x80u8 != 0 { (if value == 0 { a1 | 0x02u8 } else { a1 & !0x02u8 }) | 0x80u8 }
                else { (if value == 0 { a1 | 0x02u8 } else { a1 & !0x02u8 }) & !0x80u8 };
            &&& (a2 & 0x01u8 != 0) == carry
            &&& (a2 & 0x02u8 != 0) == (value == 0)
            &&& (a2 & 0x40u8 != 0) == overflow
            &&& (a2 & 0x80u8 != 0) == (value >= 0x80u8)
            &&& a2 & 0x3Cu8 == raw & 0x3Cu8
        }),
        !value == 255 - value,
{
}

/// Setting the negative flag before the zero flag gives the same register as the other order.
pub proof fn lemma_negative_then_zero(raw: u8, value: u8)
    ensures
        spec_with_flag(spec_with_flag(raw, flag::NEGATIVE, spec_is_negative_value(value)), flag::ZERO, value == 0)
            == spec_with_zero_negative(raw, value),
{
    let n = value & 0x80u8 != 0;
    let z = value == 0;
    assert((if z { (if n { raw | 0x80u8 } else { raw & !0x80u8 }) | 0x02u8 } else { (if n { raw | 0x80u8 } else { raw & !0x80u8 }) & !0x02u8 })
        == (if n { (if z { raw | 0x02u8 } else { raw & !0x02u8 }) | 0x80u8 } else { (if z { raw | 0x02u8 } else { raw & !0x02u8 }) & !0x80u8 })) by (bit_vector);
}

/// The processor status register of the 6502.
#[derive(Clone, Copy, Debug, PartialEq, Eq, Structural)]
pub struct Register {
    pub raw: u8,
}

impl Register {
    /// A register with only the interrupt disable flag set.
    pub fn new() -> (r: Self)
        ensures
            r.raw == flag::INTERRUPT_DISABLE,
    {
        Self { raw: flag::INTERRUPT_DISABLE }
    }

    /// The value pushed to the stack: the register with the break and expansion bits set.
    pub fn masked_with_brk_and_expansion(&self) -> (r: u8)
        ensures
            r == self.raw | flag::BRK | flag::EXPANSION,
    {
        self.raw | flag::BRK | flag::EXPANSION
    }

    /// Loads the register from a byte, dropping the break and expansion bits.
    pub fn set(&mut self, value: u8)
        ensures
            final(self).raw == value & MASK,
    {
        self.raw = value & MASK;
    }

    /// Sets the carry flag.
    pub fn set_carry(&mut self)
        ensures
            final(self).raw == spec_with_flag(old(self).raw, flag::CARRY, true),
    {
        let raw = self.raw;
        let r: u8 = raw | flag::CARRY;
        assert(r == spec_with_flag(raw, flag::CARRY, true)) by (bit_vector)
            requires
                r == raw | 0x01u8,
        ;
        self.raw = r;
    }

    /// Clears the carry flag.
    pub fn clear_carry(&mut self)
        ensures
            final(self).raw == spec_with_flag(old(self).raw, flag::CARRY, false),
    {
        let raw = self.raw;
        let r: u8 = raw & !flag::CARRY;
        assert(r == spec_with_flag(raw, flag::CARRY, false)) by (bit_vector)
            requires
                r == raw & !0x01u8,
        ;
        self.raw = r;
    }

    /// Sets the carry flag to `value`.
    pub fn set_carry_to(&mut self, value: bool)
        ensures
            final(self).raw == spec_with_flag(old(self).raw, flag::CARRY, value),
    {
        let raw = self.raw;
        let bit: u8 = if value { flag::CARRY } else { 0 };
        let r: u8 = bit | (raw & !flag::CARRY);
        assert(r == (if value { raw | 0x01u8 } else { raw & !0x01u8 })) by (bit_vector)
            requires
                r == bit | (raw & !0x01u8),
                bit == (if value { 0x01u8 } else { 0u8 }),
        ;
        self.raw = r;
    }

    /// Whether the carry flag is set.
    pub fn is_carry(&self) -> (r: bool)
        ensures
            r == spec_has_flag(self.raw, flag::CARRY),
    {
        self.raw & flag::CARRY != 0
    }

    /// The carry flag as a number: 1 when set, 0 when clear.
    pub fn carry_value(&self) -> (r: u8)
        ensures
            r == spec_carry_value(self.raw),
    {
        let raw = self.raw;
        let r = (raw & flag::CARRY) >> bit::CARRY;
        assert(r == (if raw & 0x01u8 != 0 { 1u8 } else { 0u8 })) by (bit_vector)
            requires
                r == (raw & 0x01u8) >> 0u8,
        ;
        r
    }

    /// Sets the decimal flag.
    pub fn set_decimal(&mut self)
        ensures
            final(self).raw == spec_with_flag(old(self).raw, flag::DECIMAL, true),
    {
        let raw = self.raw;
        let r: u8 = raw | flag::DECIMAL;
        assert(r == spec_with_flag(raw, flag::DECIMAL, true)) by (bit_vector)
            requires
                r == raw | 0x08u8,
        ;
        self.raw = r;
    }

    /// Clears the decimal flag.
    pub fn clear_decimal(&mut self)
        ensures
            final(self).raw == spec_with_flag(old(self).raw, flag::DECIMAL, false),
    {
        let raw = self.raw;
        let r: u8 = raw & !flag::DECIMAL;
        assert(r == spec_with_flag(raw, flag::DECIMAL, false)) by (bit_vector)
            requires
                r == raw & !0x08u8,
        ;
        self.raw = r;
    }

    /// Whether the decimal flag is set.
    pub fn is_decimal(&self) -> (r: bool)
        ensures
            r == spec_has_flag(self.raw, flag::DECIMAL),
    {
        self.raw & flag::DECIMAL != 0
    }

    /// Sets the zero flag exactly when `value` is 0.
    pub fn set_zero_from_value(&mut self, value: u8)
        ensures
            final(self).raw == spec_with_flag(old(self).raw, flag::ZERO, value == 0),
    {
        let raw = self.raw;
        let bit: u8 = if value == 0 { 1 } else { 0 };
        let r: u8 = (bit << bit::ZERO) | (raw & !flag::ZERO);
        assert(r == (if value == 0 { raw | 0x02u8 } else { raw & !0x02u8 })) by (bit_vector)
            requires
                r == (bit << 1u8) | (raw & !0x02u8),
                bit == (if value == 0 { 1u8 } else { 0u8 }),
        ;
        self.raw = r;
    }

    /// Whether the zero flag is set.
    pub fn is_zero(&self) -> (r: bool)
        ensures
            r == spec_has_flag(self.raw, flag::ZERO),
    {
        self.raw & flag::ZERO != 0
    }

    /// Clears the overflow flag.
    pub fn clear_overflow(&mut self)
        ensures
            final(self).raw == spec_with_flag(old(self).raw, flag::OVERFLOW, false),
    {
        let raw = self.raw;
        let r: u8 = raw & !flag::OVERFLOW;
        assert(r == spec_with_flag(raw, flag::OVERFLOW, false)) by (bit_vector)
            requires
                r == raw & !0x40u8,
        ;
        self.raw = r;
    }

    /// Whether the overflow flag is set.
    pub fn is_overflow(&self) -> (r: bool)
        ensures
            r == spec_has_flag(self.raw, flag::OVERFLOW),
    {
        self.raw & flag::OVERFLOW != 0
    }

    /// Sets the overflow flag to `value`.
    pub fn set_overflow_to(&mut self, value: bool)
        ensures
            final(self).raw == spec_with_flag(old(self).raw, flag::OVERFLOW, value),
    {
        let raw = self.raw;
        let bit: u8 = if value { flag::OVERFLOW } else { 0 };
        let r: u8 = bit | (raw & !flag::OVERFLOW);
        assert(r == (if value { raw | 0x40u8 } else { raw & !0x40u8 })) by (bit_vector)
            requires
                r == bit | (raw & !0x40u8),
                bit == (if value { 0x40u8 } else { 0u8 }),
        ;
        self.raw = r;
    }

    /// Clears the negative flag.
    pub fn clear_negative(&mut self)
        ensures
            final(self).raw == spec_with_flag(old(self).raw, flag::NEGATIVE, false),
    {
        let raw = self.raw;
        let r: u8 = raw & !flag::NEGATIVE;
        assert(r == spec_with_flag(raw, flag::NEGATIVE, false)) by (bit_vector)
            requires
                r == raw & !0x80u8,
        ;
        self.raw = r;
    }

    /// Whether the negative flag is set.
    pub fn is_negative(&self) -> (r: bool)
        ensures
            r == spec_has_flag(self.raw, flag::NEGATIVE),
    {
        self.raw & flag::NEGATIVE != 0
    }

    /// Copies bit 7 of `value` into the negative flag.
    pub fn set_negative_from_value(&mut self, value: u8)
        ensures
            final(self).raw == spec_with_flag(old(self).raw, flag::NEGATIVE, spec_is_negative_value(value)),
    {
        let raw = self.raw;
        let r: u8 = (value & flag::NEGATIVE) | (raw & !flag::NEGATIVE);
        assert(r == (if value & 0x80u8 != 0 { raw | 0x80u8 } else { raw & !0x80u8 })) by (bit_vector)
            requires
                r == (value & 0x80u8) | (raw & !0x80u8),
        ;
        self.raw = r;
    }

    /// Sets the interrupt disable flag.
    pub fn set_interrupt_disable(&mut self)
        ensures
            final(self).raw == spec_with_flag(old(self).raw, flag::INTERRUPT_DISABLE, true),
    {
        let raw = self.raw;
        let r: u8 = raw | flag::INTERRUPT_DISABLE;
        assert(r == spec_with_flag(raw, flag::INTERRUPT_DISABLE, true)) by (bit_vector)
            requires
                r == raw | 0x04u8,
        ;
        self.raw = r;
    }

    /// Clears the interrupt disable flag.
    pub fn clear_interrupt_disable(&mut self)
        ensures
            final(self).raw == spec_with_flag(old(self).raw, flag::INTERRUPT_DISABLE, false),
    {
        let raw = self.raw;
        let r: u8 = raw & !flag::INTERRUPT_DISABLE;
        assert(r == spec_with_flag(raw, flag::INTERRUPT_DISABLE, false)) by (bit_vector)
            requires
                r == raw & !0x04u8,
        ;
        self.raw = r;
    }

    /// Whether the interrupt disable flag is set.
    pub fn is_interrupt_disable(&self) -> (r: bool)
        ensures
            r == spec_has_flag(self.raw, flag::INTERRUPT_DISABLE),
    {
        self.raw & flag::INTERRUPT_DISABLE != 0
    }

    /// Sets the zero flag.
    pub fn set_zero(&mut self)
        ensures
            final(self).raw == spec_with_flag(old(self).raw, flag::ZERO, true),
    {
        self.raw = self.raw | flag::ZERO;
    }

    /// Clears the zero flag.
    pub fn clear_zero(&mut self)
        ensures
            final(self).raw == spec_with_flag(old(self).raw, flag::ZERO, false),
    {
        self.raw = self.raw & !flag::ZERO;
    }

    /// Sets the break flag.
    pub fn set_brk(&mut self)
        ensures
            final(self).raw == spec_with_flag(old(self).raw, flag::BRK, true),
    {
        self.raw = self.raw | flag::BRK;
    }

    /// Clears the break flag.
    pub fn clear_brk(&mut self)
        ensures
            final(self).raw == spec_with_flag(old(self).raw, flag::BRK, false),
    {
        self.raw = self.raw & !flag::BRK;
    }

    /// Whether the break flag is set.
    pub fn is_brk(&self) -> (r: bool)
        ensures
            r == spec_has_flag(self.raw, flag::BRK),
    {
        self.raw & flag::BRK != 0
    }

    /// Sets the overflow flag.
    pub fn set_overflow(&mut self)
        ensures
            final(self).raw == spec_with_flag(old(self).raw, flag::OVERFLOW, true),
    {
        self.raw = self.raw | flag::OVERFLOW;
    }

    /// Sets the negative flag.
    pub fn set_negative(&mut self)
        ensures
            final(self).raw == spec_with_flag(old(self).raw, flag::NEGATIVE, true),
    {
        self.raw = self.raw | flag::NEGATIVE;
    }

    /// Whether the expansion flag is set.
    pub fn is_expansion(&self) -> (r: bool)
        ensures
            r == spec_has_flag(self.raw, flag::EXPANSION),
    {
        self.raw & flag::EXPANSION != 0
    }

    /// The flags as text: "[N=n,V=v,D=d,I:i,Z:z,C:c]", each flag 1 when set and 0 when clear.
    pub fn to_string(&self) -> (r: String)
        ensures
            r@ == spec_chars(spec_register_text(self.raw)),
    {
        let text: [u8; 25] = [
            91, 78, 61, flag_digit(self.is_negative()), 44, 86, 61, flag_digit(self.is_overflow()), 44, 68, 61,
            flag_digit(self.is_decimal()), 44, 73, 58, flag_digit(self.is_interrupt_disable()), 44, 90, 58,
            flag_digit(self.is_zero()), 44, 67, 58, flag_digit(self.is_carry()), 93,
        ];
        let mut out: Vec<u8> = Vec::new();
        push_all(&mut out, text.as_slice());
        assert(out@ =~= spec_register_text(self.raw));
        assert(spec_is_ascii(out@));
        ascii_string(out)
    }
}

/// "1" for a set flag, "0" for a clear one.
pub open spec fn spec_flag_digit(set: bool) -> u8 {
    if set { 49 } else { 48 }
}

fn flag_digit(set: bool) -> (r: u8)
    ensures
        r == spec_flag_digit(set),
{
    if set { 49 } else { 48 }
}

/// The flags of `raw` as text: "[N=", the negative flag, ",V=", overflow, ",D=", decimal,
/// ",I:", interrupt disable, ",Z:", zero, ",C:", carry and "]".
pub open spec fn spec_register_text(raw: u8) -> Seq<u8> {
    seq![
        91u8, 78, 61, spec_flag_digit(spec_has_flag(raw, flag::NEGATIVE)), 44, 86, 61,
        spec_flag_digit(spec_has_flag(raw, flag::OVERFLOW)), 44, 68, 61, spec_flag_digit(spec_has_flag(raw, flag::DECIMAL)), 44,
        73, 58, spec_flag_digit(spec_has_flag(raw, flag::INTERRUPT_DISABLE)), 44, 90, 58,
        spec_flag_digit(spec_has_flag(raw, flag::ZERO)), 44, 67, 58, spec_flag_digit(spec_has_flag(raw, flag::CARRY)), 93,
    ]
}

} // verus!
