use vstd::prelude::*;
use vstd::slice::slice_subrange;
use crate::mapper::{
    spec_name_table_index, CpuMapper, Error, Mapper, NameTableChoice, PaletteRam,
    PatternTableChoice, PersistentState, PersistentStateError, PpuAddress, PpuMapper,
    NAME_TABLE_BYTES,
};
use crate::ppu::name_table_mirroring::{physical_base_address, physical_offset};
use crate::dynamic_nes::DynamicNes;
use crate::nes::{Nes, NesView};
use crate::Address;

verus! {

pub const PRG_RAM_BYTES: usize = 0x2000;
pub const PRG_ROM_BANK_BYTES: usize = 0x4000;
pub const CHR_ROM_BANK_BYTES: usize = 0x1000;
pub const NAME_TABLE_RAM_BYTES: usize = 0x800;
pub const MAX_NUM_SHIFT_REGISTER_WRITES: u8 = 4;

pub const REGISTER_CONTROL: u8 = 0;
pub const REGISTER_CHR_BANK0: u8 = 1;
pub const REGISTER_CHR_BANK1: u8 = 2;
pub const REGISTER_PRG_BANK: u8 = 3;

#[derive(Clone, Copy, Debug, PartialEq, Eq, Structural)]
pub enum Mirroring {
    SingleScreenLower,
    SingleScreenUpper,
    Horizontal,
    Vertical,
}

/// Where a name table starts in the 2KB of name table RAM.
pub open spec fn spec_name_table_base_address(mirroring: Mirroring, name_table: NameTableChoice) -> PpuAddress {
    match mirroring {
        Mirroring::SingleScreenLower => 0,
        Mirroring::SingleScreenUpper => 0x400,
        Mirroring::Horizontal => ((spec_name_table_index(name_table) / 2) * 0x400) as PpuAddress,
        Mirroring::Vertical => ((spec_name_table_index(name_table) % 2) * 0x400) as PpuAddress,
    }
}

/// Where an offset into the name table address space lands in name table RAM.
pub open spec fn spec_name_table_physical_offset(mirroring: Mirroring, virtual_offset: PpuAddress) -> PpuAddress {
    match mirroring {
        Mirroring::SingleScreenLower => physical_offset::spec_single_screen_lower(virtual_offset),
        Mirroring::SingleScreenUpper => physical_offset::spec_single_screen_upper(virtual_offset),
        Mirroring::Horizontal => physical_offset::spec_horizontal(virtual_offset),
        Mirroring::Vertical => physical_offset::spec_vertical(virtual_offset),
    }
}

impl Mirroring {
    fn name_table_base_address(self, name_table: NameTableChoice) -> (r: PpuAddress)
        ensures
            r == spec_name_table_base_address(self, name_table),
            r <= 0x400,
    {
        match self {
            Mirroring::SingleScreenLower => physical_base_address::single_screen_lower(),
            Mirroring::SingleScreenUpper => physical_base_address::single_screen_upper(),
            Mirroring::Horizontal => physical_base_address::horizontal(name_table),
            Mirroring::Vertical => physical_base_address::vertical(name_table),
        }
    }

    fn name_table_physical_offset(self, virtual_offset: PpuAddress) -> (r: PpuAddress)
        requires
            virtual_offset < 0x1000,
        ensures
            r == spec_name_table_physical_offset(self, virtual_offset),
            r < 0x800,
    {
        proof {
            physical_offset::lemma_offsets_in_ram(virtual_offset);
        }
        match self {
            Mirroring::SingleScreenLower => physical_offset::single_screen_lower(virtual_offset),
            Mirroring::SingleScreenUpper => physical_offset::single_screen_upper(virtual_offset),
            Mirroring::Horizontal => physical_offset::horizontal(virtual_offset),
            Mirroring::Vertical => physical_offset::vertical(virtual_offset),
        }
    }
}

#[derive(Clone, Copy, Debug, PartialEq, Eq, Structural)]
pub enum PrgRomBankMode {
    SwitchBoth,
    SwitchLower,
    SwitchUpper,
}

#[derive(Clone, Copy, Debug, PartialEq, Eq, Structural)]
pub enum ChrRomBankMode {
    SwitchTogether,
    SwitchSeperate,
}

/// The MMC1 cartridge. Its ROM banks are held back to back: PRG ROM in 16KB banks and
/// CHR ROM in 4KB banks, at least two of each. A bank number beyond the last bank
/// selects the bank it names modulo the number of banks.
pub struct Mmc1 {
    prg_rom: Vec<u8>,
    chr_rom: Vec<u8>,
    prg_ram: [u8; PRG_RAM_BYTES],
    name_table_ram: [u8; NAME_TABLE_RAM_BYTES],
    palette_ram: PaletteRam,
    prg_rom_bank0: usize,
    prg_rom_bank1: usize,
    chr_rom_bank0: usize,
    chr_rom_bank1: usize,
    mirroring: Mirroring,
    prg_rom_bank_mode: PrgRomBankMode,
    chr_rom_bank_mode: ChrRomBankMode,
    shift_register: u8,
    num_shift_register_writes: u8,
}

/// The state of an MMC1 cartridge.
pub struct Mmc1View {
    pub prg_rom: Seq<u8>,
    pub chr_rom: Seq<u8>,
    pub prg_ram: Seq<u8>,
    pub name_table_ram: Seq<u8>,
    pub palette_ram: Seq<u8>,
    pub prg_rom_bank0: nat,
    pub prg_rom_bank1: nat,
    pub chr_rom_bank0: nat,
    pub chr_rom_bank1: nat,
    pub mirroring: Mirroring,
    pub prg_rom_bank_mode: PrgRomBankMode,
    pub chr_rom_bank_mode: ChrRomBankMode,
    pub shift_register: u8,
    pub num_shift_register_writes: u8,
}

impl View for Mmc1 {
    type V = Mmc1View;

    closed spec fn view(&self) -> Mmc1View {
        Mmc1View {
            prg_rom: self.prg_rom@,
            chr_rom: self.chr_rom@,
            prg_ram: self.prg_ram@,
            name_table_ram: self.name_table_ram@,
            palette_ram: self.palette_ram.ram@,
            prg_rom_bank0: self.prg_rom_bank0 as nat,
            prg_rom_bank1: self.prg_rom_bank1 as nat,
            chr_rom_bank0: self.chr_rom_bank0 as nat,
            chr_rom_bank1: self.chr_rom_bank1 as nat,
            mirroring: self.mirroring,
            prg_rom_bank_mode: self.prg_rom_bank_mode,
            chr_rom_bank_mode: self.chr_rom_bank_mode,
            shift_register: self.shift_register,
            num_shift_register_writes: self.num_shift_register_writes,
        }
    }
}

/// The number of PRG ROM banks in the state.
pub open spec fn spec_num_prg_banks(s: Mmc1View) -> nat {
    s.prg_rom.len() / PRG_ROM_BANK_BYTES as nat
}

/// The number of CHR ROM banks in the state.
pub open spec fn spec_num_chr_banks(s: Mmc1View) -> nat {
    s.chr_rom.len() / CHR_ROM_BANK_BYTES as nat
}

/// Where byte `offset` of bank `bank` is held, for banks of `bank_bytes` in `len` bytes.
pub open spec fn spec_bank_index(bank: nat, offset: int, bank_bytes: nat, len: nat) -> int {
    (bank % (len / bank_bytes)) as int * bank_bytes as int + offset
}

/// ROM contents cut into banks of `bank_bytes`, padded with empty banks to at least two.
pub open spec fn spec_banks(raw: Seq<u8>, bank_bytes: nat) -> Seq<u8> {
    let n = raw.len() / bank_bytes;
    if n >= 2 { raw } else { raw + Seq::new(((2 - n) * bank_bytes) as nat, |_i: int| 0u8) }
}

/// Why ROM contents do not fit an MMC1 cartridge, if they do not: each must be whole banks.
pub open spec fn spec_mmc1_error(prg_rom_raw: Seq<u8>, chr_rom_raw: Seq<u8>) -> Option<Error> {
    if prg_rom_raw.len() % PRG_ROM_BANK_BYTES as nat != 0 {
        Some(Error::UnexpectedPrgRomSize)
    } else if chr_rom_raw.len() % CHR_ROM_BANK_BYTES as nat != 0 {
        Some(Error::UnexpectedChrRomSize)
    } else {
        None
    }
}

/// An MMC1 cartridge just loaded with the given ROM contents: RAM clear, the last PRG bank
/// fixed in the upper half, CHR banks 0 and 1 in place.
pub open spec fn spec_mmc1_loaded(prg_rom_raw: Seq<u8>, chr_rom_raw: Seq<u8>) -> Mmc1View {
    let prg_rom = spec_banks(prg_rom_raw, PRG_ROM_BANK_BYTES as nat);
    Mmc1View {
        prg_rom: prg_rom,
        chr_rom: spec_banks(chr_rom_raw, CHR_ROM_BANK_BYTES as nat),
        prg_ram: Seq::new(PRG_RAM_BYTES as nat, |_i: int| 0u8),
        name_table_ram: Seq::new(NAME_TABLE_RAM_BYTES as nat, |_i: int| 0u8),
        palette_ram: Seq::new(32, |_i: int| 0u8),
        prg_rom_bank0: 0,
        prg_rom_bank1: (prg_rom.len() / PRG_ROM_BANK_BYTES as nat - 1) as nat,
        chr_rom_bank0: 0,
        chr_rom_bank1: 1,
        mirroring: Mirroring::SingleScreenLower,
        prg_rom_bank_mode: PrgRomBankMode::SwitchLower,
        chr_rom_bank_mode: ChrRomBankMode::SwitchTogether,
        shift_register: 0,
        num_shift_register_writes: 0,
    }
}

/// Writing the control register: the low two bits choose the mirroring, the next two the
/// PRG bank mode (fixing the bank that mode keeps in place), bit 4 the CHR bank mode.
pub open spec fn spec_write_control_register(s: Mmc1View, data: u8) -> Mmc1View {
    let mirroring = if data & 3 == 0 {
        Mirroring::SingleScreenLower
    } else if data & 3 == 1 {
        Mirroring::SingleScreenUpper
    } else if data & 3 == 2 {
        Mirroring::Vertical
    } else {
        Mirroring::Horizontal
    };
    let prg_mode_bits = (data >> 2u8) & 3;
    let s1 = if prg_mode_bits <= 1 {
        Mmc1View { prg_rom_bank_mode: PrgRomBankMode::SwitchBoth, ..s }
    } else if prg_mode_bits == 2 {
        Mmc1View { prg_rom_bank0: 0, prg_rom_bank_mode: PrgRomBankMode::SwitchUpper, ..s }
    } else {
        Mmc1View {
            prg_rom_bank1: (spec_num_prg_banks(s) - 1) as nat,
            prg_rom_bank_mode: PrgRomBankMode::SwitchLower,
            ..s
        }
    };
    let chr_mode = if (data >> 4u8) & 1 == 0 { ChrRomBankMode::SwitchTogether } else { ChrRomBankMode::SwitchSeperate };
    Mmc1View { mirroring: mirroring, chr_rom_bank_mode: chr_mode, ..s1 }
}

/// Writing the first CHR bank register.
pub open spec fn spec_write_chr_bank0(s: Mmc1View, data: u8) -> Mmc1View {
    match s.chr_rom_bank_mode {
        ChrRomBankMode::SwitchSeperate => Mmc1View { chr_rom_bank0: data as nat, ..s },
        ChrRomBankMode::SwitchTogether => Mmc1View {
            chr_rom_bank0: (data & !1u8) as nat,
            chr_rom_bank1: (data | 1) as nat,
            ..s
        },
    }
}

/// Writing the second CHR bank register: in separate mode it selects the first bank.
pub open spec fn spec_write_chr_bank1(s: Mmc1View, data: u8) -> Mmc1View {
    match s.chr_rom_bank_mode {
        ChrRomBankMode::SwitchSeperate => Mmc1View { chr_rom_bank0: data as nat, ..s },
        ChrRomBankMode::SwitchTogether => s,
    }
}

/// Writing the PRG bank register: the low four bits select the bank(s) the mode switches.
pub open spec fn spec_write_prg_bank(s: Mmc1View, data: u8) -> Mmc1View {
    let bank = data & 0xF;
    match s.prg_rom_bank_mode {
        PrgRomBankMode::SwitchBoth => Mmc1View {
            prg_rom_bank0: (bank & !1u8) as nat,
            prg_rom_bank1: (bank | 1) as nat,
            ..s
        },
        PrgRomBankMode::SwitchLower => Mmc1View { prg_rom_bank0: bank as nat, ..s },
        PrgRomBankMode::SwitchUpper => Mmc1View { prg_rom_bank1: bank as nat, ..s },
    }
}

/// Writing one of the four registers.
pub open spec fn spec_write_register(s: Mmc1View, register: u8, data: u8) -> Mmc1View {
    if register == REGISTER_CONTROL {
        spec_write_control_register(s, data)
    } else if register == REGISTER_CHR_BANK0 {
        spec_write_chr_bank0(s, data)
    } else if register == REGISTER_CHR_BANK1 {
        spec_write_chr_bank1(s, data)
    } else {
        spec_write_prg_bank(s, data)
    }
}

/// A write to the serial port at 0x8000 and up: bit 7 resets the shift register; otherwise
/// bit 0 is shifted in, and the fifth bit completes a value for the register that bits 13
/// and 14 of the address select.
pub open spec fn spec_serial_write(s: Mmc1View, address: Address, data: u8) -> Mmc1View {
    if data & 0x80 != 0 {
        Mmc1View { num_shift_register_writes: 0, shift_register: 0, ..s }
    } else if s.num_shift_register_writes == MAX_NUM_SHIFT_REGISTER_WRITES {
        let value = ((data & 1) << 4u8) | s.shift_register;
        let register = ((address >> 13u16) & 3) as u8;
        Mmc1View { num_shift_register_writes: 0, shift_register: 0, ..spec_write_register(s, register, value) }
    } else {
        Mmc1View {
            shift_register: s.shift_register | ((data & 1) << s.num_shift_register_writes),
            num_shift_register_writes: (s.num_shift_register_writes + 1) as u8,
            ..s
        }
    }
}

impl Mmc1 {
    #[verifier::type_invariant]
    spec fn well_formed(&self) -> bool {
        &&& self.prg_rom@.len() % PRG_ROM_BANK_BYTES as nat == 0
        &&& self.prg_rom@.len() >= 2 * PRG_ROM_BANK_BYTES
        &&& self.chr_rom@.len() % CHR_ROM_BANK_BYTES as nat == 0
        &&& self.chr_rom@.len() >= 2 * CHR_ROM_BANK_BYTES
        &&& self.num_shift_register_writes <= MAX_NUM_SHIFT_REGISTER_WRITES
    }

    fn make_banks(raw: &[u8], bank_bytes: usize) -> (r: Result<Vec<u8>, ()>)
        requires
            bank_bytes == PRG_ROM_BANK_BYTES || bank_bytes == CHR_ROM_BANK_BYTES,
        ensures
            match r {
                Ok(banks) => raw@.len() % bank_bytes as nat == 0 && banks@ == spec_banks(raw@, bank_bytes as nat),
                Err(()) => raw@.len() % bank_bytes as nat != 0,
            },
    {
        let num_banks = raw.len() / bank_bytes;
        assert(num_banks * bank_bytes <= raw.len()) by (nonlinear_arith)
            requires
                num_banks == raw.len() / bank_bytes,
                bank_bytes > 0,
        ;
        if num_banks * bank_bytes != raw.len() {
            return Err(());
        }
        let mut banks: Vec<u8> = Vec::new();
        let mut i: usize = 0;
        while i < raw.len()
            invariant
                i <= raw@.len(),
                banks@ == raw@.take(i as int),
            decreases raw@.len() - i,
        {
            banks.push(raw[i]);
            i += 1;
            assert(banks@ =~= raw@.take(i as int));
        }
        assert(raw@.take(i as int) =~= raw@);
        let mut n = num_banks;
        while n < 2
            invariant
                n <= 2 || n == num_banks,
                num_banks <= n,
                num_banks == raw@.len() / bank_bytes as nat,
                bank_bytes == PRG_ROM_BANK_BYTES || bank_bytes == CHR_ROM_BANK_BYTES,
                banks@ == raw@ + Seq::new(((n - num_banks) * bank_bytes) as nat, |_i: int| 0u8),
            decreases 2 - n,
        {
            let mut j: usize = 0;
            while j < bank_bytes
                invariant
                    j <= bank_bytes,
                    n < 2,
                    num_banks <= n,
                    bank_bytes == PRG_ROM_BANK_BYTES || bank_bytes == CHR_ROM_BANK_BYTES,
                    banks@ == raw@ + Seq::new(((n - num_banks) * bank_bytes + j) as nat, |_i: int| 0u8),
                decreases bank_bytes - j,
            {
                banks.push(0);
                j += 1;
                assert(banks@ =~= raw@ + Seq::new(((n - num_banks) * bank_bytes + j) as nat, |_i: int| 0u8));
            }
            n += 1;
            assert(((n - 1 - num_banks) * bank_bytes + bank_bytes) == (n - num_banks) * bank_bytes) by (nonlinear_arith);
        }
        proof {
            if num_banks >= 2 {
                assert(banks@ =~= raw@);
            } else {
                assert((2 - num_banks) * bank_bytes == (n - num_banks) * bank_bytes);
            }
        }
        Ok(banks)
    }

    fn write_control_register(&mut self, data: u8)
        ensures
            final(self)@ == spec_write_control_register(old(self)@, data),
    {
        proof {
            use_type_invariant(&*self);
        }
        self.mirroring = match data & 3 {
            0 => Mirroring::SingleScreenLower,
            1 => Mirroring::SingleScreenUpper,
            2 => Mirroring::Vertical,
            _ => Mirroring::Horizontal,
        };
        self.prg_rom_bank_mode = match (data >> 2u8) & 3 {
            0 | 1 => PrgRomBankMode::SwitchBoth,
            2 => {
                self.prg_rom_bank0 = 0;
                PrgRomBankMode::SwitchUpper
            },
            _ => {
                self.prg_rom_bank1 = self.prg_rom.len() / PRG_ROM_BANK_BYTES - 1;
                PrgRomBankMode::SwitchLower
            },
        };
        self.chr_rom_bank_mode = match (data >> 4u8) & 1 {
            0 => ChrRomBankMode::SwitchTogether,
            _ => ChrRomBankMode::SwitchSeperate,
        };
    }

    fn write_chr_bank0(&mut self, data: u8)
        ensures
            final(self)@ == spec_write_chr_bank0(old(self)@, data),
    {
        proof {
            use_type_invariant(&*self);
        }
        match self.chr_rom_bank_mode {
            ChrRomBankMode::SwitchSeperate => {
                self.chr_rom_bank0 = data as usize;
            },
            ChrRomBankMode::SwitchTogether => {
                self.chr_rom_bank0 = (data & (!1u8)) as usize;
                self.chr_rom_bank1 = (data | 1) as usize;
            },
        }
    }

    fn write_chr_bank1(&mut self, data: u8)
        ensures
            final(self)@ == spec_write_chr_bank1(old(self)@, data),
    {
        proof {
            use_type_invariant(&*self);
        }
        match self.chr_rom_bank_mode {
            ChrRomBankMode::SwitchSeperate => {
                self.chr_rom_bank0 = data as usize;
            },
            ChrRomBankMode::SwitchTogether => (),
        }
    }

    fn write_prg_bank(&mut self, data: u8)
        ensures
            final(self)@ == spec_write_prg_bank(old(self)@, data),
    {
        proof {
            use_type_invariant(&*self);
        }
        let bank = data & 0xF;
        match self.prg_rom_bank_mode {
            PrgRomBankMode::SwitchBoth => {
                self.prg_rom_bank0 = (bank & (!1u8)) as usize;
                self.prg_rom_bank1 = (bank | 1) as usize;
            },
            PrgRomBankMode::SwitchLower => {
                self.prg_rom_bank0 = bank as usize;
            },
            PrgRomBankMode::SwitchUpper => {
                self.prg_rom_bank1 = bank as usize;
            },
        }
    }

    fn write_register(&mut self, register: u8, data: u8)
        requires
            register <= 3,
        ensures
            final(self)@ == spec_write_register(old(self)@, register, data),
    {
        proof {
            use_type_invariant(&*self);
        }
        match register {
            REGISTER_CONTROL => self.write_control_register(data),
            REGISTER_CHR_BANK0 => self.write_chr_bank0(data),
            REGISTER_CHR_BANK1 => self.write_chr_bank1(data),
            _ => self.write_prg_bank(data),
        }
    }

    fn write_u8(&mut self, address: Address, data: u8)
        ensures
            final(self)@ == spec_serial_write(old(self)@, address, data),
    {
        proof {
            use_type_invariant(&*self);
        }
        if data & 0x80 != 0 {
            self.num_shift_register_writes = 0;
            self.shift_register = 0;
        } else {
            if self.num_shift_register_writes == MAX_NUM_SHIFT_REGISTER_WRITES {
                let value = ((data & 1) << 4u8) | self.shift_register;
                let offset = (address.wrapping_shr(13) & 3) as u8;
                assert((address >> 13u16) & 3 <= 3) by (bit_vector);
                self.write_register(offset, value);
                self.num_shift_register_writes = 0;
                self.shift_register = 0;
            } else {
                self.shift_register |= (data & 1) << self.num_shift_register_writes;
                self.num_shift_register_writes += 1;
            }
        }
    }

    pub fn clone(&self) -> (r: Self)
        ensures
            r@ == self@,
    {
        proof {
            use_type_invariant(self);
        }
        Self {
            prg_rom: self.prg_rom.clone(),
            chr_rom: self.chr_rom.clone(),
            prg_ram: self.prg_ram,
            name_table_ram: self.name_table_ram,
            palette_ram: PaletteRam { ram: self.palette_ram.ram },
            prg_rom_bank0: self.prg_rom_bank0,
            prg_rom_bank1: self.prg_rom_bank1,
            chr_rom_bank0: self.chr_rom_bank0,
            chr_rom_bank1: self.chr_rom_bank1,
            mirroring: self.mirroring,
            prg_rom_bank_mode: self.prg_rom_bank_mode,
            chr_rom_bank_mode: self.chr_rom_bank_mode,
            shift_register: self.shift_register,
            num_shift_register_writes: self.num_shift_register_writes,
        }
    }

    /// Loads the ROM contents: each of PRG ROM and CHR ROM must be whole banks; missing
    /// banks up to two of each are empty.
    pub fn new(prg_rom_raw: &[u8], chr_rom_raw: &[u8]) -> (r: Result<Self, Error>)
        ensures
            match spec_mmc1_error(prg_rom_raw@, chr_rom_raw@) {
                None => r matches Ok(mmc1) && mmc1@ == spec_mmc1_loaded(prg_rom_raw@, chr_rom_raw@),
                Some(e) => r == Err::<Self, Error>(e),
            },
    {
        let prg_rom = match Self::make_banks(prg_rom_raw, PRG_ROM_BANK_BYTES) {
            Ok(banks) => banks,
            Err(()) => return Err(Error::UnexpectedPrgRomSize),
        };
        let chr_rom = match Self::make_banks(chr_rom_raw, CHR_ROM_BANK_BYTES) {
            Ok(banks) => banks,
            Err(()) => return Err(Error::UnexpectedChrRomSize),
        };
        proof {
            let np = prg_rom_raw@.len() / PRG_ROM_BANK_BYTES as nat;
            let nc = chr_rom_raw@.len() / CHR_ROM_BANK_BYTES as nat;
            if np < 2 {
                assert(prg_rom@.len() == 2 * PRG_ROM_BANK_BYTES);
            } else {
                assert(prg_rom@.len() == np * PRG_ROM_BANK_BYTES);
            }
            if nc < 2 {
                assert(chr_rom@.len() == 2 * CHR_ROM_BANK_BYTES);
            } else {
                assert(chr_rom@.len() == nc * CHR_ROM_BANK_BYTES);
            }
        }
        let prg_rom_bank1 = prg_rom.len() / PRG_ROM_BANK_BYTES - 1;
        let r = Self {
            palette_ram: PaletteRam::new(),
            prg_rom,
            chr_rom,
            prg_ram: [0u8; PRG_RAM_BYTES],
            name_table_ram: [0u8; NAME_TABLE_RAM_BYTES],
            mirroring: Mirroring::SingleScreenLower,
            prg_rom_bank0: 0,
            chr_rom_bank0: 0,
            prg_rom_bank1,
            chr_rom_bank1: 1,
            prg_rom_bank_mode: PrgRomBankMode::SwitchLower,
            chr_rom_bank_mode: ChrRomBankMode::SwitchTogether,
            shift_register: 0,
            num_shift_register_writes: 0,
        };
        assert(r@.prg_ram =~= Seq::new(PRG_RAM_BYTES as nat, |_i: int| 0u8));
        assert(r@.name_table_ram =~= Seq::new(NAME_TABLE_RAM_BYTES as nat, |_i: int| 0u8));
        Ok(r)
    }
}

impl PpuMapper for Mmc1 {
    open spec fn spec_ppu_read(state: Mmc1View, address: PpuAddress) -> u8 {
        let address = address % 0x4000;
        if address < 0x1000 {
            state.chr_rom[spec_bank_index(state.chr_rom_bank0, address as int, CHR_ROM_BANK_BYTES as nat, state.chr_rom.len())]
        } else if address < 0x2000 {
            state.chr_rom[spec_bank_index(state.chr_rom_bank1, (address & 0x0FFF) as int, CHR_ROM_BANK_BYTES as nat, state.chr_rom.len())]
        } else if address < 0x3F00 {
            state.name_table_ram[spec_name_table_physical_offset(state.mirroring, address & 0x0FFF) as int]
        } else {
            state.palette_ram[(address as u8) as int % 32]
        }
    }

    open spec fn spec_ppu_write(state: Mmc1View, address: PpuAddress, data: u8) -> Mmc1View {
        let address = address % 0x4000;
        if address < 0x1000 {
            Mmc1View {
                chr_rom: state.chr_rom.update(
                    spec_bank_index(state.chr_rom_bank0, address as int, CHR_ROM_BANK_BYTES as nat, state.chr_rom.len()),
                    data,
                ),
                ..state
            }
        } else if address < 0x2000 {
            Mmc1View {
                chr_rom: state.chr_rom.update(
                    spec_bank_index(state.chr_rom_bank1, (address & 0x0FFF) as int, CHR_ROM_BANK_BYTES as nat, state.chr_rom.len()),
                    data,
                ),
                ..state
            }
        } else if address < 0x3F00 {
            Mmc1View {
                name_table_ram: state.name_table_ram.update(
                    spec_name_table_physical_offset(state.mirroring, address & 0x0FFF) as int,
                    data,
                ),
                ..state
            }
        } else {
            Mmc1View { palette_ram: state.palette_ram.update((address as u8) as int % 32, data), ..state }
        }
    }

    open spec fn spec_pattern_table(state: Mmc1View, choice: PatternTableChoice) -> Seq<u8> {
        let bank = match choice {
            PatternTableChoice::PatternTable0 => state.chr_rom_bank0,
            PatternTableChoice::PatternTable1 => state.chr_rom_bank1,
        };
        let start = spec_bank_index(bank, 0, CHR_ROM_BANK_BYTES as nat, state.chr_rom.len());
        state.chr_rom.subrange(start, start + CHR_ROM_BANK_BYTES)
    }

    open spec fn spec_name_table(state: Mmc1View, choice: NameTableChoice) -> Seq<u8> {
        let base = spec_name_table_base_address(state.mirroring, choice) as int;
        state.name_table_ram.subrange(base, base + NAME_TABLE_BYTES)
    }

    open spec fn spec_palette_ram(state: Mmc1View) -> Seq<u8> {
        state.palette_ram
    }

    fn ppu_write_u8(&mut self, address: PpuAddress, data: u8) {
        proof {
            use_type_invariant(&*self);
        }
        let address = address % 0x4000;
        if address < 0x1000 {
            let index = self.chr_bank_index(self.chr_rom_bank0, address as usize);
            self.chr_rom[index] = data;
        } else if address < 0x2000 {
            assert(address & 0x0FFF < 0x1000) by (bit_vector);
            let index = self.chr_bank_index(self.chr_rom_bank1, (address & 0x0FFF) as usize);
            self.chr_rom[index] = data;
        } else if address < 0x3F00 {
            assert(address & 0x0FFF < 0x1000) by (bit_vector);
            let physical_offset = self.mirroring.name_table_physical_offset(address & 0x0FFF) as usize;
            self.name_table_ram[physical_offset] = data;
        } else {
            self.palette_ram.write_u8(address as u8, data);
        }
    }

    fn ppu_read_u8(&self, address: PpuAddress) -> (r: u8) {
        proof {
            use_type_invariant(self);
        }
        let address = address % 0x4000;
        if address < 0x1000 {
            self.chr_rom[self.chr_bank_index(self.chr_rom_bank0, address as usize)]
        } else if address < 0x2000 {
            assert(address & 0x0FFF < 0x1000) by (bit_vector);
            self.chr_rom[self.chr_bank_index(self.chr_rom_bank1, (address & 0x0FFF) as usize)]
        } else if address < 0x3F00 {
            assert(address & 0x0FFF < 0x1000) by (bit_vector);
            let physical_offset = self.mirroring.name_table_physical_offset(address & 0x0FFF) as usize;
            self.name_table_ram[physical_offset]
        } else {
            self.palette_ram.read_u8(address as u8)
        }
    }

    fn ppu_pattern_table(&self, choice: PatternTableChoice) -> (r: &[u8]) {
        proof {
            use_type_invariant(self);
        }
        let bank = match choice {
            PatternTableChoice::PatternTable0 => self.chr_rom_bank0,
            PatternTableChoice::PatternTable1 => self.chr_rom_bank1,
        };
        let start = self.chr_bank_index(bank, 0);
        let len = self.chr_rom.len();
        proof {
            lemma_bank_index_bound(bank as nat, CHR_ROM_BANK_BYTES as int - 1, CHR_ROM_BANK_BYTES as nat, self.chr_rom@.len());
            assert(spec_bank_index(bank as nat, CHR_ROM_BANK_BYTES as int - 1, CHR_ROM_BANK_BYTES as nat, self.chr_rom@.len())
                == start + CHR_ROM_BANK_BYTES - 1);
            assert(start + CHR_ROM_BANK_BYTES <= len);
        }
        slice_subrange(self.chr_rom.as_slice(), start, start + CHR_ROM_BANK_BYTES)
    }

    fn ppu_name_table(&self, choice: NameTableChoice) -> (r: &[u8]) {
        let address_offset = self.mirroring.name_table_base_address(choice) as usize;
        slice_subrange(self.name_table_ram.as_slice(), address_offset, address_offset + NAME_TABLE_BYTES)
    }

    fn ppu_palette_ram(&self) -> (r: &[u8]) {
        self.palette_ram.ram.as_slice()
    }
}

impl CpuMapper for Mmc1 {
    open spec fn spec_cpu_read(state: Mmc1View, address: Address) -> u8 {
        if 0x6000 <= address <= 0x7FFF {
            state.prg_ram[address as int % 0x2000]
        } else if 0x8000 <= address <= 0xBFFF {
            state.prg_rom[spec_bank_index(state.prg_rom_bank0, address as int % 0x4000, PRG_ROM_BANK_BYTES as nat, state.prg_rom.len())]
        } else if 0xC000 <= address {
            state.prg_rom[spec_bank_index(state.prg_rom_bank1, address as int % 0x4000, PRG_ROM_BANK_BYTES as nat, state.prg_rom.len())]
        } else {
            0
        }
    }

    open spec fn spec_cpu_write(state: Mmc1View, address: Address, data: u8) -> Mmc1View {
        if 0x6000 <= address <= 0x7FFF {
            Mmc1View { prg_ram: state.prg_ram.update(address as int % 0x2000, data), ..state }
        } else if 0x8000 <= address {
            spec_serial_write(state, address, data)
        } else {
            state
        }
    }

    fn cpu_read_u8(&mut self, address: Address) -> (r: u8) {
        self.cpu_read_u8_read_only(address)
    }

    fn cpu_write_u8(&mut self, address: Address, data: u8) {
        proof {
            use_type_invariant(&*self);
        }
        if 0x6000 <= address && address <= 0x7FFF {
            self.prg_ram[address as usize % 0x2000] = data;
        } else if 0x8000 <= address {
            self.write_u8(address, data);
        }
    }

    fn cpu_read_u8_read_only(&self, address: Address) -> (r: u8) {
        proof {
            use_type_invariant(self);
        }
        if 0x6000 <= address && address <= 0x7FFF {
            self.prg_ram[address as usize % 0x2000]
        } else if 0x8000 <= address && address <= 0xBFFF {
            self.prg_rom[self.prg_bank_index(self.prg_rom_bank0, address as usize % 0x4000)]
        } else if 0xC000 <= address {
            self.prg_rom[self.prg_bank_index(self.prg_rom_bank1, address as usize % 0x4000)]
        } else {
            0
        }
    }
}

impl Mapper for Mmc1 {
    open spec fn spec_accepts_persistent_state(persistent_state: &PersistentState) -> bool {
        crate::mapper::spec_persistent_state_fits(persistent_state)
    }

    open spec fn spec_saved_ram(state: Mmc1View) -> Option<Seq<u8>> {
        Some(state.prg_ram)
    }

    open spec fn spec_loaded(state: Mmc1View, data: Seq<u8>) -> Option<Mmc1View> {
        Some(Mmc1View { prg_ram: data, ..state })
    }

    open spec fn spec_holds(d: DynamicNes, nes: NesView<Mmc1View>) -> bool {
        d matches DynamicNes::Mmc1(n) && n@ == nes
    }

    /// The battery-backed PRG RAM.
    fn save_persistent_state(&self) -> (r: Option<PersistentState>) {
        Some(PersistentState::BatteryBackedRam(vstd::slice::slice_to_vec(self.prg_ram.as_slice())))
    }

    /// Restores the battery-backed PRG RAM.
    fn load_persistent_state(&mut self, persistent_state: &PersistentState) -> (r: Result<(), PersistentStateError>) {
        proof {
            use_type_invariant(&*self);
        }
        match persistent_state {
            PersistentState::BatteryBackedRam(data) => {
                let mut i: usize = 0;
                while i < PRG_RAM_BYTES
                    invariant
                        data@.len() == PRG_RAM_BYTES,
                        i <= PRG_RAM_BYTES,
                        self.well_formed(),
                        self@ == (Mmc1View { prg_ram: self@.prg_ram, ..old(self)@ }),
                        self@.prg_ram == data@.take(i as int) + old(self)@.prg_ram.skip(i as int),
                    decreases PRG_RAM_BYTES - i,
                {
                    self.prg_ram[i] = data[i];
                    i += 1;
                    assert(self@.prg_ram =~= data@.take(i as int) + old(self)@.prg_ram.skip(i as int));
                }
                assert(self@.prg_ram =~= data@);
            },
        }
        Ok(())
    }

    fn clone_dynamic_nes(nes: &Nes<Self>) -> (r: DynamicNes) {
        DynamicNes::Mmc1(nes.clone_with_mapper(nes.mapper().clone()))
    }
}

/// A bank index taken modulo the number of banks stays inside the ROM.
proof fn lemma_bank_index_bound(bank: nat, offset: int, bank_bytes: nat, len: nat)
    requires
        bank_bytes > 0,
        len % bank_bytes == 0,
        len >= 2 * bank_bytes,
        0 <= offset < bank_bytes,
    ensures
        0 <= spec_bank_index(bank, offset, bank_bytes, len) < len,
{
    let n = len / bank_bytes;
    let b = bank % n;
    assert(n >= 2) by (nonlinear_arith)
        requires
            n == len / bank_bytes,
            len >= 2 * bank_bytes,
            bank_bytes > 0,
    ;
    assert(b < n);
    assert(b * bank_bytes + offset < len) by (nonlinear_arith)
        requires
            b < n,
            n == len / bank_bytes,
            len % bank_bytes == 0,
            0 <= offset < bank_bytes,
            bank_bytes > 0,
    ;
    assert(0 <= b * bank_bytes) by (nonlinear_arith)
        requires
            b >= 0,
            bank_bytes > 0,
    ;
}

impl Mmc1 {
    fn chr_bank_index(&self, bank: usize, offset: usize) -> (r: usize)
        requires
            offset < CHR_ROM_BANK_BYTES,
        ensures
            r == spec_bank_index(bank as nat, offset as int, CHR_ROM_BANK_BYTES as nat, self@.chr_rom.len()),
            r < self@.chr_rom.len(),
    {
        proof {
            use_type_invariant(self);
            lemma_bank_index_bound(bank as nat, offset as int, CHR_ROM_BANK_BYTES as nat, self.chr_rom@.len());
        }
        let num_banks = self.chr_rom.len() / CHR_ROM_BANK_BYTES;
        (bank % num_banks) * CHR_ROM_BANK_BYTES + offset
    }

    fn prg_bank_index(&self, bank: usize, offset: usize) -> (r: usize)
        requires
            offset < PRG_ROM_BANK_BYTES,
        ensures
            r == spec_bank_index(bank as nat, offset as int, PRG_ROM_BANK_BYTES as nat, self@.prg_rom.len()),
            r < self@.prg_rom.len(),
    {
        proof {
            use_type_invariant(self);
            lemma_bank_index_bound(bank as nat, offset as int, PRG_ROM_BANK_BYTES as nat, self.prg_rom@.len());
        }
        let num_banks = self.prg_rom.len() / PRG_ROM_BANK_BYTES;
        (bank % num_banks) * PRG_ROM_BANK_BYTES + offset
    }
}

/// Loading the battery-backed RAM image an MMC1 cartridge saves gives back the same state.
pub proof fn lemma_save_load_roundtrip(state: Mmc1View)
    ensures
        <Mmc1 as Mapper>::spec_loaded(state, <Mmc1 as Mapper>::spec_saved_ram(state).unwrap()) == Some(state),
{
}

/// Name table RAM and palette RAM read back what was written to them.
pub proof fn lemma_vram_write_read(state: Mmc1View, address: PpuAddress, data: u8)
    requires
        state.name_table_ram.len() == NAME_TABLE_RAM_BYTES,
        state.palette_ram.len() == 32,
        address % 0x4000 >= 0x2000,
    ensures
        Mmc1::spec_ppu_read(Mmc1::spec_ppu_write(state, address, data), address) == data,
{
    let a = address % 0x4000;
    assert(a & 0x0FFF < 0x1000) by (bit_vector);
    physical_offset::lemma_offsets_in_ram(a & 0x0FFF);
}

/// PRG RAM reads back what was written to it.
pub proof fn lemma_prg_ram_write_read(state: Mmc1View, address: Address, data: u8)
    requires
        state.prg_ram.len() == PRG_RAM_BYTES,
        0x6000 <= address <= 0x7FFF,
    ensures
        Mmc1::spec_cpu_read(Mmc1::spec_cpu_write(state, address, data), address) == data,
{
}

/// Five writes to the serial port, starting from an empty shift register, each carrying the
/// next bit of a five-bit value (lowest first, bit 7 clear), write that value to the register
/// the address of the last write selects, and leave the shift register empty.
pub proof fn lemma_serial_port_loads_register(s: Mmc1View, address: Address, value: u8)
    requires
        s.num_shift_register_writes == 0,
        s.shift_register == 0,
        value < 32,
        0x8000 <= address,
    ensures
        ({
            let s1 = Mmc1::spec_cpu_write(s, address, value & 1);
            let s2 = Mmc1::spec_cpu_write(s1, address, (value >> 1u8) & 1);
            let s3 = Mmc1::spec_cpu_write(s2, address, (value >> 2u8) & 1);
            let s4 = Mmc1::spec_cpu_write(s3, address, (value >> 3u8) & 1);
            Mmc1::spec_cpu_write(s4, address, (value >> 4u8) & 1)
        }) == (Mmc1View {
            num_shift_register_writes: 0,
            shift_register: 0,
            ..spec_write_register(s, ((address >> 13u16) & 3) as u8, value)
        }),
{
    let b0 = value & 1;
    let b1 = (value >> 1u8) & 1;
    let b2 = (value >> 2u8) & 1;
    let b3 = (value >> 3u8) & 1;
    let b4 = (value >> 4u8) & 1;
    assert(b0 & 0x80 == 0 && b1 & 0x80 == 0 && b2 & 0x80 == 0 && b3 & 0x80 == 0 && b4 & 0x80 == 0) by (bit_vector)
        requires
            b0 == value & 1,
            b1 == (value >> 1u8) & 1,
            b2 == (value >> 2u8) & 1,
            b3 == (value >> 3u8) & 1,
            b4 == (value >> 4u8) & 1,
    ;
    let r1 = 0u8 | ((b0 & 1) << 0u8);
    let r2 = r1 | ((b1 & 1) << 1u8);
    let r3 = r2 | ((b2 & 1) << 2u8);
    let r4 = r3 | ((b3 & 1) << 3u8);
    assert(((b4 & 1) << 4u8) | r4 == value) by (bit_vector)
        requires
            value < 32,
            b0 == value & 1,
            b1 == (value >> 1u8) & 1,
            b2 == (value >> 2u8) & 1,
            b3 == (value >> 3u8) & 1,
            b4 == (value >> 4u8) & 1,
            r1 == 0u8 | ((b0 & 1) << 0u8),
            r2 == r1 | ((b1 & 1) << 1u8),
            r3 == r2 | ((b2 & 1) << 2u8),
            r4 == r3 | ((b3 & 1) << 3u8),
    ;
    let s1 = Mmc1::spec_cpu_write(s, address, b0);
    let s2 = Mmc1::spec_cpu_write(s1, address, b1);
    let s3 = Mmc1::spec_cpu_write(s2, address, b2);
    let s4 = Mmc1::spec_cpu_write(s3, address, b3);
    assert(s1 == Mmc1View { shift_register: r1, num_shift_register_writes: 1, ..s });
    assert(s2 == Mmc1View { shift_register: r2, num_shift_register_writes: 2, ..s });
    assert(s3 == Mmc1View { shift_register: r3, num_shift_register_writes: 3, ..s });
    assert(s4 == Mmc1View { shift_register: r4, num_shift_register_writes: 4, ..s });
    let register = ((address >> 13u16) & 3) as u8;
    let w = spec_write_register(s4, register, value);
    let v = spec_write_register(s, register, value);
    assert(Mmc1View { num_shift_register_writes: 0, shift_register: 0, ..w } == Mmc1View {
        num_shift_register_writes: 0,
        shift_register: 0,
        ..v
    });
}

/// Loading the PRG bank register with `b` (its low four bits name a 16KB bank): in 32KB mode
/// the CPU sees the even bank `b & 0xE` at 0x8000 and the bank after it at 0xC000; in the mode
/// that switches the lower half, bank `b & 0xF` at 0x8000 and the upper half as it was; in the
/// mode that switches the upper half, bank `b & 0xF` at 0xC000 and the lower half as it was. A
/// bank number past the last bank wraps round the banks there are.
pub proof fn lemma_prg_bank_register_maps(s: Mmc1View, b: u8, o: int)
    requires
        0 <= o < 0x4000,
        s.prg_rom.len() % 0x4000 == 0,
        s.prg_rom.len() >= 2 * 0x4000,
    ensures
        ({
            let t = spec_write_register(s, REGISTER_PRG_BANK, b);
            let n: int = (s.prg_rom.len() / 0x4000) as int;
            let lower = Mmc1::spec_cpu_read(t, (0x8000 + o) as u16);
            let upper = Mmc1::spec_cpu_read(t, (0xC000 + o) as u16);
            &&& s.prg_rom_bank_mode == PrgRomBankMode::SwitchBoth ==> {
                &&& lower == s.prg_rom[((b & 0x0E) as int % n) * 0x4000 + o]
                &&& upper == s.prg_rom[(((b & 0x0E) + 1) as int % n) * 0x4000 + o]
            }
            &&& s.prg_rom_bank_mode == PrgRomBankMode::SwitchLower ==> {
                &&& lower == s.prg_rom[((b & 0x0F) as int % n) * 0x4000 + o]
                &&& upper == Mmc1::spec_cpu_read(s, (0xC000 + o) as u16)
            }
            &&& s.prg_rom_bank_mode == PrgRomBankMode::SwitchUpper ==> {
                &&& lower == Mmc1::spec_cpu_read(s, (0x8000 + o) as u16)
                &&& upper == s.prg_rom[((b & 0x0F) as int % n) * 0x4000 + o]
            }
        }),
{
    assert((b & 0xF) & !1u8 == b & 0x0E && (b & 0xF) | 1u8 == (b & 0x0E) + 1) by (bit_vector);
    assert(((0x8000 + o) as u16) as int % 0x4000 == o && ((0xC000 + o) as u16) as int % 0x4000 == o);
}

/// Loading the control register with `c`: bits 2 and 3 choose how PRG ROM is seen. With 2 the
/// first 16KB bank is fixed at 0x8000; with 3 the last is fixed at 0xC000; with 0 or 1 both
/// halves follow the PRG bank register as one 32KB bank.
pub proof fn lemma_control_register_prg_mode(s: Mmc1View, c: u8, o: int)
    requires
        0 <= o < 0x4000,
        s.prg_rom.len() % 0x4000 == 0,
        s.prg_rom.len() >= 2 * 0x4000,
    ensures
        ({
            let t = spec_write_register(s, REGISTER_CONTROL, c);
            let n: int = (s.prg_rom.len() / 0x4000) as int;
            &&& (c >> 2u8) & 3 == 2 ==> t.prg_rom_bank_mode == PrgRomBankMode::SwitchUpper
                && Mmc1::spec_cpu_read(t, (0x8000 + o) as u16) == s.prg_rom[o]
            &&& (c >> 2u8) & 3 == 3 ==> t.prg_rom_bank_mode == PrgRomBankMode::SwitchLower
                && Mmc1::spec_cpu_read(t, (0xC000 + o) as u16) == s.prg_rom[(n - 1) * 0x4000 + o]
            &&& (c >> 2u8) & 3 <= 1 ==> t.prg_rom_bank_mode == PrgRomBankMode::SwitchBoth
        }),
{
    let n: int = (s.prg_rom.len() / 0x4000) as int;
    assert(((0x8000 + o) as u16) as int % 0x4000 == o && ((0xC000 + o) as u16) as int % 0x4000 == o);
    assert(0int % n == 0) by (nonlinear_arith) requires n >= 2;
    assert((n - 1) % n == n - 1) by (nonlinear_arith) requires n >= 2;
}

} // verus!
