use vstd::prelude::*;

verus! {

/// The PPU draws three pixels for each CPU cycle.
pub const NUM_PPU_CYCLES_PER_CPU_CYCLE: u32 = 3;

/// A scanline takes 341 PPU cycles: 113 whole CPU cycles.
pub const APPROX_CPU_CYCLES_PER_SCANLINE: u32 = 113;

/// Vertical blank lasts 20 scanlines.
pub const APPROX_CPU_CYCLES_PER_VBLANK: u32 = 2260;

} // verus!
