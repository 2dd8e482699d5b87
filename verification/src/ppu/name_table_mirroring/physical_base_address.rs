use vstd::prelude::*;
use crate::mapper::{spec_name_table_index, NameTableChoice, PpuAddress, NAME_TABLE_BYTES};

verus! {

/// Horizontal mirroring: the two top name tables share the first 1KB of RAM, the two
/// bottom ones the second.
pub fn horizontal(name_table: NameTableChoice) -> (r: PpuAddress)
    ensures
        r == (spec_name_table_index(name_table) / 2) * 0x400,
{
    (name_table.index() / 2) * (NAME_TABLE_BYTES as PpuAddress)
}

/// Vertical mirroring: the two left name tables share the first 1KB of RAM, the two
/// right ones the second.
pub fn vertical(name_table: NameTableChoice) -> (r: PpuAddress)
    ensures
        r == (spec_name_table_index(name_table) % 2) * 0x400,
{
    (name_table.index() % 2) * (NAME_TABLE_BYTES as PpuAddress)
}

pub fn single_screen_lower() -> (r: PpuAddress)
    ensures
        r == 0,
{
    0
}

pub fn single_screen_upper() -> (r: PpuAddress)
    ensures
        r == 0x400,
{
    NAME_TABLE_BYTES as PpuAddress
}

} // verus!
