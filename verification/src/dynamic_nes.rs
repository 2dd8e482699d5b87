//! A NES whose cartridge type is chosen at run time, from an iNES header.
use vstd::prelude::*;
use crate::ines::{self, Ines};
use crate::mapper::mmc1::{spec_mmc1_error, spec_mmc1_loaded, Mmc1};
use crate::mapper::nrom::{spec_nrom_error, spec_nrom_loaded, Horizontal, Nrom, Vertical};
use crate::mapper::{self, spec_persistent_state_fits, Mapper, PersistentState, PersistentStateError};
use crate::nes::{spec_frame_outcome, spec_nes_new, spec_run_for_frame, spec_with_controller1, Controller, ControllerView, FrameState, Nes};
use crate::nes_name_table_debug::NameTableFrame;
use crate::render_output::RenderOutput;
use crate::UnknownOpcode;

verus! {

/// A NES with one of the supported cartridges.
pub enum DynamicNes {
    NromHorizontal(Nes<Nrom<Horizontal>>),
    NromVertical(Nes<Nrom<Vertical>>),
    Mmc1(Nes<Mmc1>),
}

/// Why a cartridge image could not be turned into a NES.
#[derive(Debug, Clone, Copy, PartialEq, Eq, Structural)]
pub enum Error {
    /// The ROM contents do not fit the cartridge the header names.
    UnexpectedFormat(mapper::Error),
    InesParseError(ines::Error),
    /// The header asks for four-screen VRAM, which no supported NROM board wires.
    UnsupportedMirroring,
}

/// Whether `d` is the NES that `from_ines` builds for `header`'s cartridge with the given ROM
/// contents, or `r` the error it reports.
pub open spec fn spec_from_ines(header: ines::Header, prg_rom: Seq<u8>, chr_rom: Seq<u8>, r: Result<DynamicNes, Error>) -> bool {
    match header.mapper {
        ines::Mapper::Nrom => match header.mirroring {
            ines::Mirroring::FourScreenVram => r == Err::<DynamicNes, Error>(Error::UnsupportedMirroring),
            ines::Mirroring::Horizontal => match spec_nrom_error(prg_rom, chr_rom) {
                Some(e) => r == Err::<DynamicNes, Error>(Error::UnexpectedFormat(e)),
                None => r matches Ok(DynamicNes::NromHorizontal(n))
                    && n@ == spec_nes_new::<Nrom<Horizontal>>(spec_nrom_loaded(prg_rom, chr_rom)),
            },
            ines::Mirroring::Vertical => match spec_nrom_error(prg_rom, chr_rom) {
                Some(e) => r == Err::<DynamicNes, Error>(Error::UnexpectedFormat(e)),
                None => r matches Ok(DynamicNes::NromVertical(n))
                    && n@ == spec_nes_new::<Nrom<Vertical>>(spec_nrom_loaded(prg_rom, chr_rom)),
            },
        },
        ines::Mapper::Mmc1 => match spec_mmc1_error(prg_rom, chr_rom) {
            Some(e) => r == Err::<DynamicNes, Error>(Error::UnexpectedFormat(e)),
            None => r matches Ok(DynamicNes::Mmc1(n)) && n@ == spec_nes_new::<Mmc1>(spec_mmc1_loaded(prg_rom, chr_rom)),
        },
    }
}

/// The first controller of the NES `d` holds.
pub open spec fn spec_controller1(d: DynamicNes) -> ControllerView {
    match d {
        DynamicNes::NromHorizontal(n) => n@.devices.devices.controller1,
        DynamicNes::NromVertical(n) => n@.devices.devices.controller1,
        DynamicNes::Mmc1(n) => n@.devices.devices.controller1,
    }
}

impl DynamicNes {
    pub fn from_ines(ines: &Ines) -> (r: Result<Self, Error>)
        ensures
            spec_from_ines(ines.header, ines.prg_rom@, ines.chr_rom@, r),
    {
        let header = &ines.header;
        match header.mapper {
            ines::Mapper::Nrom => match header.mirroring {
                ines::Mirroring::Horizontal => match Nrom::new(Horizontal, ines.prg_rom.as_slice(), ines.chr_rom.as_slice()) {
                    Ok(nrom) => Ok(DynamicNes::NromHorizontal(Nes::new(nrom))),
                    Err(e) => Err(Error::UnexpectedFormat(e)),
                },
                ines::Mirroring::Vertical => match Nrom::new(Vertical, ines.prg_rom.as_slice(), ines.chr_rom.as_slice()) {
                    Ok(nrom) => Ok(DynamicNes::NromVertical(Nes::new(nrom))),
                    Err(e) => Err(Error::UnexpectedFormat(e)),
                },
                ines::Mirroring::FourScreenVram => Err(Error::UnsupportedMirroring),
            },
            ines::Mapper::Mmc1 => match Mmc1::new(ines.prg_rom.as_slice(), ines.chr_rom.as_slice()) {
                Ok(mmc1) => Ok(DynamicNes::Mmc1(Nes::new(mmc1))),
                Err(e) => Err(Error::UnexpectedFormat(e)),
            },
        }
    }

    pub fn load_persistent_state(&mut self, ps: &PersistentState) -> (r: Result<(), PersistentStateError>)
        requires
            *old(self) is Mmc1 ==> spec_persistent_state_fits(ps),
        ensures
            match ps {
                PersistentState::BatteryBackedRam(data) => match *old(self) {
                    DynamicNes::NromHorizontal(n) => r == Err::<(), PersistentStateError>(PersistentStateError::InvalidStateForMapper)
                        && (*final(self) matches DynamicNes::NromHorizontal(n2) && n2@ == n@),
                    DynamicNes::NromVertical(n) => r == Err::<(), PersistentStateError>(PersistentStateError::InvalidStateForMapper)
                        && (*final(self) matches DynamicNes::NromVertical(n2) && n2@ == n@),
                    DynamicNes::Mmc1(n) => r is Ok && (*final(self) matches DynamicNes::Mmc1(n2)
                        && n2@ == crate::nes::spec_with_mapper(n@, crate::mapper::mmc1::Mmc1View { prg_ram: data@, ..n@.devices.devices.mapper })),
                },
            },
    {
        match self {
            DynamicNes::NromHorizontal(n) => n.load_persistent_state(ps),
            DynamicNes::NromVertical(n) => n.load_persistent_state(ps),
            DynamicNes::Mmc1(n) => n.load_persistent_state(ps),
        }
    }

    pub fn controller1_mut(&mut self) -> (r: &mut Controller)
        ensures
            (*r)@ == spec_controller1(*old(self)),
            match *old(self) {
                DynamicNes::NromHorizontal(n) => *final(self) matches DynamicNes::NromHorizontal(n2)
                    && n2@ == spec_with_controller1(n@, (*final(r))@),
                DynamicNes::NromVertical(n) => *final(self) matches DynamicNes::NromVertical(n2)
                    && n2@ == spec_with_controller1(n@, (*final(r))@),
                DynamicNes::Mmc1(n) => *final(self) matches DynamicNes::Mmc1(n2) && n2@ == spec_with_controller1(n@, (*final(r))@),
            },
    {
        match self {
            DynamicNes::NromHorizontal(n) => n.controller1_mut(),
            DynamicNes::NromVertical(n) => n.controller1_mut(),
            DynamicNes::Mmc1(n) => n.controller1_mut(),
        }
    }

    pub fn run_for_frame<RO: RenderOutput>(&mut self, render_output: &mut RO) -> (r: Result<(), UnknownOpcode>)
        ensures
            match *old(self) {
                DynamicNes::NromHorizontal(n) => *final(self) matches DynamicNes::NromHorizontal(n2) && spec_frame_outcome(
                    spec_run_for_frame::<Nrom<Horizontal>, RO>(FrameState { nes: n@, pixels: old(render_output)@, name_table_frame: None, trace: Seq::empty() }),
                    r,
                    n2@,
                    final(render_output)@,
                    None,
                ),
                DynamicNes::NromVertical(n) => *final(self) matches DynamicNes::NromVertical(n2) && spec_frame_outcome(
                    spec_run_for_frame::<Nrom<Vertical>, RO>(FrameState { nes: n@, pixels: old(render_output)@, name_table_frame: None, trace: Seq::empty() }),
                    r,
                    n2@,
                    final(render_output)@,
                    None,
                ),
                DynamicNes::Mmc1(n) => *final(self) matches DynamicNes::Mmc1(n2) && spec_frame_outcome(
                    spec_run_for_frame::<Mmc1, RO>(FrameState { nes: n@, pixels: old(render_output)@, name_table_frame: None, trace: Seq::empty() }),
                    r,
                    n2@,
                    final(render_output)@,
                    None,
                ),
            },
    {
        let mut name_table_frame: Option<NameTableFrame> = None;
        match self {
            DynamicNes::NromHorizontal(n) => n.run_for_frame(render_output, &mut name_table_frame),
            DynamicNes::NromVertical(n) => n.run_for_frame(render_output, &mut name_table_frame),
            DynamicNes::Mmc1(n) => n.run_for_frame(render_output, &mut name_table_frame),
        }
    }
}

} // verus!
