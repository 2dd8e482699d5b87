use vstd::prelude::*;
use vstd::slice::slice_subrange;
use crate::mapper::{
    spec_pattern_table_base, CpuMapper, Error, Mapper, NameTableChoice, PaletteRam,
    PatternTableChoice, PersistentState, PersistentStateError, PpuAddress, PpuMapper,
    NAME_TABLE_BYTES, PATTERN_TABLE_BYTES,
};
use crate::ppu::name_table_mirroring::{physical_base_address, physical_offset};
use crate::mapper::spec_name_table_index;
use crate::dynamic_nes::DynamicNes;
use crate::nes::{Nes, NesView};
use crate::Address;

verus! {

pub const PRG_ROM_BYTES: usize = 0x8000;
pub const CHR_ROM_BYTES: usize = 0x2000;
pub const NAME_TABLE_RAM_BYTES: usize = 0x800;
pub const PRG_RAM_BYTES: usize = 0x2000;

/// How an NROM cartridge wires its 2KB of name table RAM.
pub trait Mirroring: Copy {
    /// Whether `d` holds a NES with an NROM cartridge of this mirroring, in state `nes`.
    spec fn spec_holds_nrom(d: DynamicNes, nes: NesView<NromView>) -> bool;

    fn clone_dynamic_nes(nes: &Nes<Nrom<Self>>) -> (r: DynamicNes)
        ensures
            Self::spec_holds_nrom(r, nes@),
    ;

    /// Every name table offset lands in the 2KB of name table RAM.
    proof fn lemma_physical_offset_in_ram(virtual_offset: PpuAddress)
        requires
            virtual_offset < 0x1000,
        ensures
            Self::spec_name_table_physical_offset(virtual_offset) < 0x800,
    ;

    spec fn spec_name_table_base_address(name_table: NameTableChoice) -> PpuAddress;

    spec fn spec_name_table_physical_offset(virtual_offset: PpuAddress) -> PpuAddress;

    fn name_table_base_address(name_table: NameTableChoice) -> (r: PpuAddress)
        ensures
            r == Self::spec_name_table_base_address(name_table),
            r <= 0x400,
    ;

    fn name_table_physical_offset(virtual_offset: PpuAddress) -> (r: PpuAddress)
        ensures
            r == Self::spec_name_table_physical_offset(virtual_offset),
            virtual_offset < 0x1000 ==> r < 0x800,
    ;
}

#[derive(Clone, Copy)]
pub struct Horizontal;

#[derive(Clone, Copy)]
pub struct Vertical;

impl Mirroring for Horizontal {
    proof fn lemma_physical_offset_in_ram(virtual_offset: PpuAddress) {
        physical_offset::lemma_offsets_in_ram(virtual_offset);
    }

    open spec fn spec_holds_nrom(d: DynamicNes, nes: NesView<NromView>) -> bool {
        d matches DynamicNes::NromHorizontal(n) && n@ == nes
    }

    fn clone_dynamic_nes(nes: &Nes<Nrom<Self>>) -> (r: DynamicNes) {
        DynamicNes::NromHorizontal(nes.clone_with_mapper(*nes.mapper()))
    }

    open spec fn spec_name_table_base_address(name_table: NameTableChoice) -> PpuAddress {
        ((spec_name_table_index(name_table) / 2) * 0x400) as PpuAddress
    }

    open spec fn spec_name_table_physical_offset(virtual_offset: PpuAddress) -> PpuAddress {
        physical_offset::spec_horizontal(virtual_offset)
    }

    fn name_table_base_address(name_table: NameTableChoice) -> (r: PpuAddress) {
        physical_base_address::horizontal(name_table)
    }

    fn name_table_physical_offset(virtual_offset: PpuAddress) -> (r: PpuAddress) {
        proof {
            if virtual_offset < 0x1000 {
                physical_offset::lemma_offsets_in_ram(virtual_offset);
            }
        }
        physical_offset::horizontal(virtual_offset)
    }
}

impl Mirroring for Vertical {
    proof fn lemma_physical_offset_in_ram(virtual_offset: PpuAddress) {
        physical_offset::lemma_offsets_in_ram(virtual_offset);
    }

    open spec fn spec_holds_nrom(d: DynamicNes, nes: NesView<NromView>) -> bool {
        d matches DynamicNes::NromVertical(n) && n@ == nes
    }

    fn clone_dynamic_nes(nes: &Nes<Nrom<Self>>) -> (r: DynamicNes) {
        DynamicNes::NromVertical(nes.clone_with_mapper(*nes.mapper()))
    }

    open spec fn spec_name_table_base_address(name_table: NameTableChoice) -> PpuAddress {
        ((spec_name_table_index(name_table) % 2) * 0x400) as PpuAddress
    }

    open spec fn spec_name_table_physical_offset(virtual_offset: PpuAddress) -> PpuAddress {
        physical_offset::spec_vertical(virtual_offset)
    }

    fn name_table_base_address(name_table: NameTableChoice) -> (r: PpuAddress) {
        physical_base_address::vertical(name_table)
    }

    fn name_table_physical_offset(virtual_offset: PpuAddress) -> (r: PpuAddress) {
        proof {
            if virtual_offset < 0x1000 {
                physical_offset::lemma_offsets_in_ram(virtual_offset);
            }
        }
        physical_offset::vertical(virtual_offset)
    }
}

/// The NROM cartridge: 32KB of PRG ROM, 8KB of CHR ROM, 8KB of PRG RAM, 2KB of name
/// table RAM and palette RAM.
#[derive(Clone, Copy)]
pub struct Nrom<M> {
    prg_rom: [u8; PRG_ROM_BYTES],
    chr_rom: [u8; CHR_ROM_BYTES],
    name_table_ram: [u8; NAME_TABLE_RAM_BYTES],
    prg_ram: [u8; PRG_RAM_BYTES],
    palette_ram: PaletteRam,
    mirroring: M,
}

/// The contents of an NROM cartridge.
pub struct NromView {
    pub prg_rom: Seq<u8>,
    pub chr_rom: Seq<u8>,
    pub name_table_ram: Seq<u8>,
    pub prg_ram: Seq<u8>,
    pub palette_ram: Seq<u8>,
}

impl<M> View for Nrom<M> {
    type V = NromView;

    closed spec fn view(&self) -> NromView {
        NromView {
            prg_rom: self.prg_rom@,
            chr_rom: self.chr_rom@,
            name_table_ram: self.name_table_ram@,
            prg_ram: self.prg_ram@,
            palette_ram: self.palette_ram.ram@,
        }
    }
}

/// The PRG ROM an NROM cartridge holds after loading `prg_rom_raw`: 32KB as they are,
/// or 16KB repeated in both halves.
pub open spec fn spec_prg_rom(prg_rom_raw: Seq<u8>) -> Seq<u8> {
    Seq::new(PRG_ROM_BYTES as nat, |i: int| prg_rom_raw[i % prg_rom_raw.len() as int])
}

/// The CHR ROM after loading `chr_rom_raw`: 8KB as they are, or zeros when there is none.
pub open spec fn spec_chr_rom(chr_rom_raw: Seq<u8>) -> Seq<u8> {
    if chr_rom_raw.len() == 0 { Seq::new(CHR_ROM_BYTES as nat, |_i: int| 0u8) } else { chr_rom_raw }
}

/// Why ROM contents do not fit an NROM cartridge, if they do not: PRG ROM must be 32KB or
/// 16KB, CHR ROM 8KB or absent.
pub open spec fn spec_nrom_error(prg_rom_raw: Seq<u8>, chr_rom_raw: Seq<u8>) -> Option<Error> {
    if !(prg_rom_raw.len() == PRG_ROM_BYTES || prg_rom_raw.len() == PRG_ROM_BYTES / 2) {
        Some(Error::UnexpectedPrgRomSize)
    } else if !(chr_rom_raw.len() == 0 || chr_rom_raw.len() == CHR_ROM_BYTES) {
        Some(Error::UnexpectedChrRomSize)
    } else {
        None
    }
}

/// An NROM cartridge just loaded with the given ROM contents: all RAM clear.
pub open spec fn spec_nrom_loaded(prg_rom_raw: Seq<u8>, chr_rom_raw: Seq<u8>) -> NromView {
    NromView {
        prg_rom: spec_prg_rom(prg_rom_raw),
        chr_rom: spec_chr_rom(chr_rom_raw),
        name_table_ram: Seq::new(NAME_TABLE_RAM_BYTES as nat, |_i: int| 0u8),
        prg_ram: Seq::new(PRG_RAM_BYTES as nat, |_i: int| 0u8),
        palette_ram: Seq::new(32, |_i: int| 0u8),
    }
}

fn copy_to_array<const N: usize>(dest: &mut [u8; N], start: usize, src: &[u8])
    requires
        start + src@.len() <= N,
    ensures
        final(dest)@ == old(dest)@.take(start as int) + src@ + old(dest)@.skip(start + src@.len()),
{
    let mut i: usize = 0;
    while i < src.len()
        invariant
            start + src@.len() <= N,
            i <= src@.len(),
            dest@.len() == N,
            dest@ == old(dest)@.take(start as int) + src@.take(i as int) + old(dest)@.skip(start + i),
        decreases src@.len() - i,
    {
        dest[start + i] = src[i];
        i += 1;
        assert(dest@ =~= old(dest)@.take(start as int) + src@.take(i as int) + old(dest)@.skip(start + i));
    }
    assert(src@.take(i as int) =~= src@);
}

impl<M: Mirroring> Nrom<M> {
    /// Loads the ROM contents: PRG ROM of 32KB, or of 16KB repeated; CHR ROM of 8KB, or none.
    pub fn new(mirroring: M, prg_rom_raw: &[u8], chr_rom_raw: &[u8]) -> (r: Result<Self, Error>)
        ensures
            match spec_nrom_error(prg_rom_raw@, chr_rom_raw@) {
                None => r matches Ok(nrom) && nrom@ == spec_nrom_loaded(prg_rom_raw@, chr_rom_raw@),
                Some(e) => r == Err::<Self, Error>(e),
            },
    {
        let mut prg_rom = [0u8; PRG_ROM_BYTES];
        let mut chr_rom = [0u8; CHR_ROM_BYTES];
        if prg_rom_raw.len() == PRG_ROM_BYTES {
            copy_to_array(&mut prg_rom, 0, prg_rom_raw);
        } else if prg_rom_raw.len() == PRG_ROM_BYTES / 2 {
            // copy the prg data into each half of prg_rom
            copy_to_array(&mut prg_rom, 0, prg_rom_raw);
            copy_to_array(&mut prg_rom, PRG_ROM_BYTES / 2, prg_rom_raw);
        } else {
            return Err(Error::UnexpectedPrgRomSize);
        }
        assert(prg_rom@ =~= spec_prg_rom(prg_rom_raw@));
        if chr_rom_raw.len() == 0 {
        } else if chr_rom_raw.len() == CHR_ROM_BYTES {
            copy_to_array(&mut chr_rom, 0, chr_rom_raw);
        } else {
            return Err(Error::UnexpectedChrRomSize);
        }
        assert(chr_rom@ =~= spec_chr_rom(chr_rom_raw@));
        let name_table_ram = [0u8; NAME_TABLE_RAM_BYTES];
        let palette_ram = PaletteRam::new();
        let prg_ram = [0u8; PRG_RAM_BYTES];
        let r = Self { prg_rom, chr_rom, name_table_ram, prg_ram, palette_ram, mirroring };
        assert(r@.name_table_ram =~= Seq::new(NAME_TABLE_RAM_BYTES as nat, |_i: int| 0u8));
        assert(r@.prg_ram =~= Seq::new(PRG_RAM_BYTES as nat, |_i: int| 0u8));
        Ok(r)
    }
}

impl<M: Mirroring> PpuMapper for Nrom<M> {
    open spec fn spec_ppu_read(state: NromView, address: PpuAddress) -> u8 {
        let address = address % 0x4000;
        if address < 0x2000 {
            state.chr_rom[address as int]
        } else if address < 0x3F00 {
            state.name_table_ram[M::spec_name_table_physical_offset(address & 0x0FFF) as int]
        } else {
            state.palette_ram[(address as u8) as int % 32]
        }
    }

    open spec fn spec_ppu_write(state: NromView, address: PpuAddress, data: u8) -> NromView {
        let address = address % 0x4000;
        if address < 0x2000 {
            state
        } else if address < 0x3F00 {
            NromView {
                name_table_ram: state.name_table_ram.update(M::spec_name_table_physical_offset(address & 0x0FFF) as int, data),
                ..state
            }
        } else {
            NromView { palette_ram: state.palette_ram.update((address as u8) as int % 32, data), ..state }
        }
    }

    open spec fn spec_pattern_table(state: NromView, choice: PatternTableChoice) -> Seq<u8> {
        let base = spec_pattern_table_base(choice) as int;
        state.chr_rom.subrange(base, base + PATTERN_TABLE_BYTES)
    }

    open spec fn spec_name_table(state: NromView, choice: NameTableChoice) -> Seq<u8> {
        let base = M::spec_name_table_base_address(choice) as int;
        state.name_table_ram.subrange(base, base + NAME_TABLE_BYTES)
    }

    open spec fn spec_palette_ram(state: NromView) -> Seq<u8> {
        state.palette_ram
    }

    fn ppu_write_u8(&mut self, address: PpuAddress, data: u8) {
        let address = address % 0x4000;
        if address < 0x2000 {
            // pattern tables are ROM on this cartridge
        } else if address < 0x3F00 {
            assert(address & 0x0FFF < 0x1000) by (bit_vector);
            let physical_offset = M::name_table_physical_offset(address & 0x0FFF) as usize;
            self.name_table_ram[physical_offset] = data;
        } else {
            self.palette_ram.write_u8(address as u8, data);
        }
    }

    fn ppu_read_u8(&self, address: PpuAddress) -> (r: u8) {
        let address = address % 0x4000;
        if address < 0x2000 {
            self.chr_rom[address as usize]
        } else if address < 0x3F00 {
            assert(address & 0x0FFF < 0x1000) by (bit_vector);
            let physical_offset = M::name_table_physical_offset(address & 0x0FFF) as usize;
            self.name_table_ram[physical_offset]
        } else {
            self.palette_ram.read_u8(address as u8)
        }
    }

    fn ppu_pattern_table(&self, choice: PatternTableChoice) -> (r: &[u8]) {
        let base_address = choice.base_address() as usize;
        slice_subrange(self.chr_rom.as_slice(), base_address, base_address + PATTERN_TABLE_BYTES)
    }

    fn ppu_name_table(&self, choice: NameTableChoice) -> (r: &[u8]) {
        let address_offset = M::name_table_base_address(choice) as usize;
        slice_subrange(self.name_table_ram.as_slice(), address_offset, address_offset + NAME_TABLE_BYTES)
    }

    fn ppu_palette_ram(&self) -> (r: &[u8]) {
        self.palette_ram.ram.as_slice()
    }
}

impl<M: Mirroring> CpuMapper for Nrom<M> {
    open spec fn spec_cpu_read(state: NromView, address: Address) -> u8 {
        if 0x6000 <= address <= 0x7FFF {
            state.prg_ram[address as int % 0x2000]
        } else if 0x8000 <= address {
            state.prg_rom[address as int % 0x8000]
        } else {
            0
        }
    }

    open spec fn spec_cpu_write(state: NromView, address: Address, data: u8) -> NromView {
        if 0x6000 <= address <= 0x7FFF {
            NromView { prg_ram: state.prg_ram.update(address as int % 0x2000, data), ..state }
        } else {
            state
        }
    }

    fn cpu_read_u8(&mut self, address: Address) -> (r: u8) {
        self.cpu_read_u8_read_only(address)
    }

    fn cpu_write_u8(&mut self, address: Address, data: u8) {
        if 0x6000 <= address && address <= 0x7FFF {
            self.prg_ram[address as usize % 0x2000] = data;
        }
    }

    fn cpu_read_u8_read_only(&self, address: Address) -> (r: u8) {
        if 0x6000 <= address && address <= 0x7FFF {
            self.prg_ram[address as usize % 0x2000]
        } else if 0x8000 <= address {
            self.prg_rom[address as usize % 0x8000]
        } else {
            0
        }
    }
}

impl<M: Mirroring> Mapper for Nrom<M> {
    open spec fn spec_accepts_persistent_state(persistent_state: &PersistentState) -> bool {
        true
    }

    open spec fn spec_saved_ram(state: NromView) -> Option<Seq<u8>> {
        None
    }

    open spec fn spec_loaded(state: NromView, data: Seq<u8>) -> Option<NromView> {
        None
    }

    open spec fn spec_holds(d: DynamicNes, nes: NesView<NromView>) -> bool {
        M::spec_holds_nrom(d, nes)
    }

    /// NROM cartridges keep no state.
    fn save_persistent_state(&self) -> (r: Option<PersistentState>) {
        None
    }

    /// NROM cartridges keep no state, so there is nothing to load.
    fn load_persistent_state(&mut self, _persistent_state: &PersistentState) -> (r: Result<(), PersistentStateError>) {
        Err(PersistentStateError::InvalidStateForMapper)
    }

    fn clone_dynamic_nes(nes: &Nes<Self>) -> (r: DynamicNes) {
        M::clone_dynamic_nes(nes)
    }
}

/// Name table RAM and palette RAM read back what was written to them, at any address of
/// theirs and through its mirrors.
pub proof fn lemma_vram_write_read<M: Mirroring>(state: NromView, address: PpuAddress, data: u8)
    requires
        state.name_table_ram.len() == NAME_TABLE_RAM_BYTES,
        state.palette_ram.len() == 32,
        address % 0x4000 >= 0x2000,
    ensures
        Nrom::<M>::spec_ppu_read(Nrom::<M>::spec_ppu_write(state, address, data), address) == data,
{
    let a = address % 0x4000;
    assert(a & 0x0FFF < 0x1000) by (bit_vector);
    M::lemma_physical_offset_in_ram(a & 0x0FFF);
}

/// PRG RAM reads back what was written to it.
pub proof fn lemma_prg_ram_write_read<M: Mirroring>(state: NromView, address: Address, data: u8)
    requires
        state.prg_ram.len() == PRG_RAM_BYTES,
        0x6000 <= address <= 0x7FFF,
    ensures
        Nrom::<M>::spec_cpu_read(Nrom::<M>::spec_cpu_write(state, address, data), address) == data,
{
}

} // verus!
