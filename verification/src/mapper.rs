use vstd::prelude::*;
use crate::dynamic_nes::DynamicNes;
use crate::nes::{Nes, NesView};
use crate::Address;

pub mod mmc1;
pub mod nrom;

verus! {

/// A 14-bit address on the PPU bus, held in 16 bits.
pub type PpuAddress = u16;

pub const PATTERN_TABLE_BYTES: usize = 0x1000;
pub const NAME_TABLE_BYTES: usize = 0x400;
pub const PALETTE_RAM_BYTES: usize = 0x20;

/// One of the four name tables the PPU addresses.
#[derive(Debug, Clone, Copy, PartialEq, Eq, Structural)]
pub enum NameTableChoice {
    TopLeft,
    TopRight,
    BottomLeft,
    BottomRight,
}

/// The position of a name table in the PPU's address space, 0 to 3.
pub open spec fn spec_name_table_index(choice: NameTableChoice) -> u16 {
    match choice {
        NameTableChoice::TopLeft => 0,
        NameTableChoice::TopRight => 1,
        NameTableChoice::BottomLeft => 2,
        NameTableChoice::BottomRight => 3,
    }
}

impl NameTableChoice {
    /// The position of the name table in the PPU's address space, 0 to 3.
    pub fn index(self) -> (r: u16)
        ensures
            r == spec_name_table_index(self),
    {
        match self {
            NameTableChoice::TopLeft => 0,
            NameTableChoice::TopRight => 1,
            NameTableChoice::BottomLeft => 2,
            NameTableChoice::BottomRight => 3,
        }
    }
}

/// One of the two pattern tables.
#[derive(Debug, Clone, Copy, PartialEq, Eq, Structural)]
pub enum PatternTableChoice {
    PatternTable0,
    PatternTable1,
}

/// Where a pattern table starts in the PPU's address space.
pub open spec fn spec_pattern_table_base(choice: PatternTableChoice) -> PpuAddress {
    match choice {
        PatternTableChoice::PatternTable0 => 0,
        PatternTableChoice::PatternTable1 => 0x1000,
    }
}

impl PatternTableChoice {
    pub fn base_address(self) -> (r: PpuAddress)
        ensures
            r == spec_pattern_table_base(self),
    {
        match self {
            PatternTableChoice::PatternTable0 => 0,
            PatternTableChoice::PatternTable1 => PATTERN_TABLE_BYTES as PpuAddress,
        }
    }
}

/// The cartridge as the PPU sees it: pattern tables, name tables and palette RAM.
/// Its state is described by its view; each operation by a spec function of the view.
pub trait PpuMapper: View + Sized {
    spec fn spec_ppu_read(state: Self::V, address: PpuAddress) -> u8;

    spec fn spec_ppu_write(state: Self::V, address: PpuAddress, data: u8) -> Self::V;

    spec fn spec_pattern_table(state: Self::V, choice: PatternTableChoice) -> Seq<u8>;

    spec fn spec_name_table(state: Self::V, choice: NameTableChoice) -> Seq<u8>;

    spec fn spec_palette_ram(state: Self::V) -> Seq<u8>;

    fn ppu_write_u8(&mut self, address: PpuAddress, data: u8)
        ensures
            final(self)@ == Self::spec_ppu_write(old(self)@, address, data),
    ;

    fn ppu_read_u8(&self, address: PpuAddress) -> (r: u8)
        ensures
            r == Self::spec_ppu_read(self@, address),
    ;

    fn ppu_pattern_table(&self, choice: PatternTableChoice) -> (r: &[u8])
        ensures
            r@ == Self::spec_pattern_table(self@, choice),
            r@.len() == PATTERN_TABLE_BYTES,
    ;

    fn ppu_name_table(&self, choice: NameTableChoice) -> (r: &[u8])
        ensures
            r@ == Self::spec_name_table(self@, choice),
            r@.len() == NAME_TABLE_BYTES,
    ;

    fn ppu_palette_ram(&self) -> (r: &[u8])
        ensures
            r@ == Self::spec_palette_ram(self@),
            r@.len() == PALETTE_RAM_BYTES,
    ;
}

/// The cartridge as the CPU sees it, from address 0x4020 up.
pub trait CpuMapper: View + Sized {
    spec fn spec_cpu_read(state: Self::V, address: Address) -> u8;

    spec fn spec_cpu_write(state: Self::V, address: Address, data: u8) -> Self::V;

    fn cpu_read_u8(&mut self, address: Address) -> (r: u8)
        ensures
            r == Self::spec_cpu_read(old(self)@, address),
            final(self)@ == old(self)@,
    ;

    fn cpu_write_u8(&mut self, address: Address, data: u8)
        ensures
            final(self)@ == Self::spec_cpu_write(old(self)@, address, data),
    ;

    fn cpu_read_u8_read_only(&self, address: Address) -> (r: u8)
        ensures
            r == Self::spec_cpu_read(self@, address),
    ;
}

/// A cartridge: both views, and the state that survives a power cycle.
pub trait Mapper: CpuMapper + PpuMapper {
    /// The battery-backed RAM image that `save_persistent_state` hands out, for a cartridge
    /// that keeps one.
    spec fn spec_saved_ram(state: Self::V) -> Option<Seq<u8>>;

    /// The state after loading battery-backed RAM image `data`, for a cartridge that takes one.
    spec fn spec_loaded(state: Self::V, data: Seq<u8>) -> Option<Self::V>;

    /// Whether `d` holds a NES with this cartridge, in state `nes`.
    spec fn spec_holds(d: DynamicNes, nes: NesView<Self::V>) -> bool;

    fn save_persistent_state(&self) -> (r: Option<PersistentState>)
        ensures
            match Self::spec_saved_ram(self@) {
                Some(data) => r matches Some(PersistentState::BatteryBackedRam(saved)) && saved@ == data,
                None => r is None,
            },
    ;

    /// Whether this cartridge can be handed `persistent_state` to load: a cartridge with
    /// battery-backed RAM needs an image the size of that RAM.
    spec fn spec_accepts_persistent_state(persistent_state: &PersistentState) -> bool;

    /// Loads state saved by `save_persistent_state`.
    fn load_persistent_state(&mut self, persistent_state: &PersistentState) -> (r: Result<(), PersistentStateError>)
        requires
            Self::spec_accepts_persistent_state(persistent_state),
        ensures
            match persistent_state {
                PersistentState::BatteryBackedRam(data) => match Self::spec_loaded(old(self)@, data@) {
                    Some(s) => r is Ok && final(self)@ == s,
                    None => r == Err::<(), PersistentStateError>(PersistentStateError::InvalidStateForMapper)
                        && final(self)@ == old(self)@,
                },
            },
    ;

    /// A copy of `nes`, held as a `DynamicNes`.
    fn clone_dynamic_nes(nes: &Nes<Self>) -> (r: DynamicNes)
        ensures
            Self::spec_holds(r, nes@),
    ;
}

#[derive(Debug, Clone, Copy, PartialEq, Eq, Structural)]
pub enum Error {
    UnexpectedPrgRomSize,
    UnexpectedChrRomSize,
}

/// State a cartridge keeps between sessions.
#[derive(Debug, Clone)]
pub enum PersistentState {
    BatteryBackedRam(Vec<u8>),
}

/// Whether a persistent state has the size a cartridge's battery-backed RAM has.
pub open spec fn spec_persistent_state_fits(persistent_state: &PersistentState) -> bool {
    match persistent_state {
        PersistentState::BatteryBackedRam(data) => data@.len() == 0x2000,
    }
}

#[derive(Debug, Clone, Copy, PartialEq, Eq, Structural)]
pub enum PersistentStateError {
    InvalidStateForMapper,
}

/// The 32 bytes of palette RAM, mirrored through the 256 palette addresses.
#[derive(Clone, Copy)]
pub struct PaletteRam {
    pub ram: [u8; PALETTE_RAM_BYTES],
}

impl PaletteRam {
    pub fn new() -> (r: Self)
        ensures
            r.ram@ == Seq::new(PALETTE_RAM_BYTES as nat, |_i: int| 0u8),
    {
        let r = Self { ram: [0; PALETTE_RAM_BYTES] };
        assert(r.ram@ =~= Seq::new(PALETTE_RAM_BYTES as nat, |_i: int| 0u8));
        r
    }

    pub fn read_u8(&self, offset: u8) -> (r: u8)
        ensures
            r == self.ram@[offset as int % PALETTE_RAM_BYTES as int],
    {
        self.ram[offset as usize % PALETTE_RAM_BYTES]
    }

    pub fn write_u8(&mut self, offset: u8, data: u8)
        ensures
            final(self).ram@ == old(self).ram@.update(offset as int % PALETTE_RAM_BYTES as int, data),
        no_unwind
    {
        self.ram[offset as usize % PALETTE_RAM_BYTES] = data;
    }
}

} // verus!
