use vstd::prelude::*;
use crate::Address;

verus! {

/// The address whose high byte is `hi` and whose low byte is `lo`.
pub open spec fn spec_from_lo_hi(lo: u8, hi: u8) -> Address {
    (hi as int * 256 + lo as int) as Address
}

/// The page (high byte) of an address.
pub open spec fn spec_page(address: Address) -> int {
    address as int / 256
}

pub fn lo(address: Address) -> (r: u8)
    ensures
        r == address % 256,
{
    let r = address as u8;
    assert(r == address % 256) by (bit_vector)
        requires
            r == address as u8,
    ;
    r
}

pub fn hi(address: Address) -> (r: u8)
    ensures
        r == address / 256,
{
    let r = address.wrapping_shr(8) as u8;
    assert(r == address / 256) by (bit_vector)
        requires
            r == (address >> 8u32) as u8,
    ;
    r
}

pub fn from_u8_lo_hi(lo: u8, hi: u8) -> (r: Address)
    ensures
        r == spec_from_lo_hi(lo, hi),
{
    let r = (hi as Address).wrapping_shl(8) | lo as Address;
    assert(r == hi as int * 256 + lo as int) by (bit_vector)
        requires
            r == ((hi as Address) << 8u32) | lo as Address,
    ;
    r
}

/// Whether two addresses lie on different 256-byte pages.
pub fn on_different_pages(a: Address, b: Address) -> (r: bool)
    ensures
        r == (spec_page(a) != spec_page(b)),
{
    hi(a) != hi(b)
}

} // verus!
