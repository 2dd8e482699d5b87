use vstd::prelude::*;
use crate::mapper::PpuAddress;

verus! {

pub open spec fn spec_single_screen_lower(virtual_offset: PpuAddress) -> PpuAddress {
    virtual_offset & 0x03FF
}

pub open spec fn spec_single_screen_upper(virtual_offset: PpuAddress) -> PpuAddress {
    spec_single_screen_lower(virtual_offset) | 0x0400
}

pub open spec fn spec_horizontal(virtual_offset: PpuAddress) -> PpuAddress {
    spec_single_screen_lower(virtual_offset) | ((virtual_offset & 0x0800) >> 1u16)
}

pub open spec fn spec_vertical(virtual_offset: PpuAddress) -> PpuAddress {
    virtual_offset & !0x0800u16
}

/// Name table RAM is 2KB: offsets within the 4KB of name table address space are folded
/// onto it. Each of these maps an offset below 0x1000 into the 2KB.
pub proof fn lemma_offsets_in_ram(virtual_offset: PpuAddress)
    requires
        virtual_offset < 0x1000,
    ensures
        spec_single_screen_lower(virtual_offset) < 0x800,
        spec_single_screen_upper(virtual_offset) < 0x800,
        spec_horizontal(virtual_offset) < 0x800,
        spec_vertical(virtual_offset) < 0x800,
{
    lemma_mirroring_folds(virtual_offset);
}

/// The 4KB of name table address space is four 1KB tables, 0 to 3; each mirroring folds them
/// onto the 2KB of RAM, keeping the offset within the table. Horizontal mirroring gives tables
/// 0 and 1 the first 1KB and tables 2 and 3 the second; vertical mirroring gives tables 0 and 2
/// the first and tables 1 and 3 the second; single-screen mirroring gives all four the first,
/// or all four the second.
pub proof fn lemma_mirroring_folds(virtual_offset: PpuAddress)
    by (bit_vector)
    requires
        virtual_offset < 0x1000,
    ensures
        spec_horizontal(virtual_offset) == virtual_offset % 0x400 + (virtual_offset / 0x800) * 0x400,
        spec_vertical(virtual_offset) == virtual_offset % 0x400 + ((virtual_offset / 0x400) % 2) * 0x400,
        spec_single_screen_lower(virtual_offset) == virtual_offset % 0x400,
        spec_single_screen_upper(virtual_offset) == virtual_offset % 0x400 + 0x400,
{
}

pub fn single_screen_lower(virtual_offset: PpuAddress) -> (r: PpuAddress)
    ensures
        r == spec_single_screen_lower(virtual_offset),
{
    virtual_offset & 0x03FF
}

pub fn single_screen_upper(virtual_offset: PpuAddress) -> (r: PpuAddress)
    ensures
        r == spec_single_screen_upper(virtual_offset),
{
    single_screen_lower(virtual_offset) | 0x0400
}

pub fn horizontal(virtual_offset: PpuAddress) -> (r: PpuAddress)
    ensures
        r == spec_horizontal(virtual_offset),
{
    single_screen_lower(virtual_offset) | (virtual_offset & 0x0800).wrapping_shr(1)
}

pub fn vertical(virtual_offset: PpuAddress) -> (r: PpuAddress)
    ensures
        r == spec_vertical(virtual_offset),
{
    virtual_offset & !0x0800u16
}

} // verus!
