use nes_emulator::assembler::Assembler;
use nes_emulator::dynamic_nes::{self, DynamicNes};
use nes_emulator::ines::{self, Header, Ines, Mirroring};
use nes_emulator::mapper::{self, PersistentState, PersistentStateError};
use nes_emulator::nes_headless_frame::Frame;
use nes_emulator::samples::{assemble_ines, test_image_bits, PRG_START};

/// An iNES image with the given header bytes 4 to 7 and ROM contents of the announced size,
/// each ROM byte its offset modulo 251.
fn image(prg_blocks: u8, chr_blocks: u8, flags6: u8, flags7: u8) -> Vec<u8> {
    let mut buffer = vec![78, 69, 83, 26, prg_blocks, chr_blocks, flags6, flags7, 0, 0, 0, 0, 0, 0, 0, 0];
    let rom_bytes = prg_blocks as usize * 0x4000 + chr_blocks as usize * 0x2000;
    for i in 0..rom_bytes {
        buffer.push((i % 251) as u8);
    }
    buffer
}

#[test]
fn parse_reads_header_and_rom_contents() {
    let buffer = image(1, 1, 0x01, 0x00);
    let ines = Ines::parse(&buffer).unwrap();
    assert_eq!(
        ines.header,
        Header { num_prg_rom_blocks: 1, num_chr_rom_blocks: 1, mapper: ines::Mapper::Nrom, mirroring: Mirroring::Vertical }
    );
    assert_eq!(ines.prg_rom.len(), 0x4000);
    assert_eq!(ines.chr_rom.len(), 0x2000);
    assert_eq!(ines.prg_rom[300], (300 % 251) as u8);
    assert_eq!(ines.chr_rom[0], (0x4000 % 251) as u8);
    assert_eq!(ines.header.prg_rom_bytes(), 0x4000);
    assert_eq!(ines.header.chr_rom_bytes(), 0x2000);
}

#[test]
fn parse_reads_mirroring_flags() {
    assert_eq!(Ines::parse(&image(1, 0, 0x00, 0)).unwrap().header.mirroring, Mirroring::Horizontal);
    assert_eq!(Ines::parse(&image(1, 0, 0x01, 0)).unwrap().header.mirroring, Mirroring::Vertical);
    assert_eq!(Ines::parse(&image(1, 0, 0x09, 0)).unwrap().header.mirroring, Mirroring::FourScreenVram);
}

#[test]
fn parse_reads_mapper_from_both_nibbles() {
    assert_eq!(Ines::parse(&image(1, 0, 0x10, 0)).unwrap().header.mapper, ines::Mapper::Mmc1);
    assert_eq!(
        Ines::parse(&image(1, 0, 0x20, 0)).err(),
        Some(ines::Error::UnimplementedMapper { code: 2 })
    );
    assert_eq!(
        Ines::parse(&image(1, 0, 0x00, 0x10)).err(),
        Some(ines::Error::UnimplementedMapper { code: 0x10 })
    );
}

#[test]
fn encode_then_parse_four_screen_image() {
    let prg_rom: Vec<u8> = (0..0x4000).map(|i| (i % 7) as u8).collect();
    let chr_rom: Vec<u8> = (0..0x2000).map(|i| (i % 5) as u8).collect();
    let header = Header { num_prg_rom_blocks: 1, num_chr_rom_blocks: 1, mapper: ines::Mapper::Mmc1, mirroring: Mirroring::FourScreenVram };
    let written = Ines { header, prg_rom: prg_rom.clone(), chr_rom: chr_rom.clone() };
    let mut buffer = Vec::new();
    written.encode(&mut buffer);
    assert_eq!(buffer.len(), 16 + 0x4000 + 0x2000);
    assert_eq!(&buffer[0..4], &[78, 69, 83, 26]);
    assert_eq!(buffer[6], 0x18);
    let parsed = Ines::parse(&buffer).unwrap();
    assert_eq!(parsed.header, header);
    assert_eq!(parsed.prg_rom, prg_rom);
    assert_eq!(parsed.chr_rom, chr_rom);
}

#[test]
fn encoded_horizontal_mirroring_reads_back_as_vertical() {
    let header = Header { num_prg_rom_blocks: 1, num_chr_rom_blocks: 0, mapper: ines::Mapper::Nrom, mirroring: Mirroring::Horizontal };
    let mut buffer = Vec::new();
    Ines { header, prg_rom: vec![0; 0x4000], chr_rom: Vec::new() }.encode(&mut buffer);
    assert_eq!(buffer[6], 0x01);
    assert_eq!(Ines::parse(&buffer).unwrap().header.mirroring, Mirroring::Vertical);
}

#[test]
fn encode_keeps_unfilled_rom_space() {
    let header = Header { num_prg_rom_blocks: 1, num_chr_rom_blocks: 0, mapper: ines::Mapper::Nrom, mirroring: Mirroring::Vertical };
    let mut buffer = vec![0xAA; 40];
    Ines { header, prg_rom: vec![1, 2, 3], chr_rom: Vec::new() }.encode(&mut buffer);
    assert_eq!(buffer.len(), 16 + 0x4000);
    assert_eq!(&buffer[16..19], &[1, 2, 3]);
    assert_eq!(buffer[19], 0xAA);
    assert_eq!(buffer[39], 0xAA);
    assert_eq!(buffer[40], 0);
    assert_eq!(buffer[8], 0xAA);
}

#[test]
fn dynamic_nes_from_ines_picks_the_cartridge() {
    let vertical = Ines::parse(&image(1, 1, 0x01, 0)).unwrap();
    assert!(matches!(DynamicNes::from_ines(&vertical), Ok(DynamicNes::NromVertical(_))));
    let horizontal = Ines::parse(&image(2, 0, 0x00, 0)).unwrap();
    assert!(matches!(DynamicNes::from_ines(&horizontal), Ok(DynamicNes::NromHorizontal(_))));
    let mmc1 = Ines::parse(&image(4, 2, 0x10, 0)).unwrap();
    assert!(matches!(DynamicNes::from_ines(&mmc1), Ok(DynamicNes::Mmc1(_))));
}

#[test]
fn dynamic_nes_from_ines_errors() {
    let four_screen = Ines::parse(&image(1, 0, 0x08, 0)).unwrap();
    assert_eq!(DynamicNes::from_ines(&four_screen).err(), Some(dynamic_nes::Error::UnsupportedMirroring));
    let too_big = Ines::parse(&image(3, 0, 0x00, 0)).unwrap();
    assert_eq!(
        DynamicNes::from_ines(&too_big).err(),
        Some(dynamic_nes::Error::UnexpectedFormat(mapper::Error::UnexpectedPrgRomSize))
    );
    let two_chr = Ines::parse(&image(1, 2, 0x00, 0)).unwrap();
    assert_eq!(
        DynamicNes::from_ines(&two_chr).err(),
        Some(dynamic_nes::Error::UnexpectedFormat(mapper::Error::UnexpectedChrRomSize))
    );
    let bad_mmc1 = Ines { header: Header { num_prg_rom_blocks: 1, num_chr_rom_blocks: 0, mapper: ines::Mapper::Mmc1, mirroring: Mirroring::Vertical }, prg_rom: vec![0; 100], chr_rom: Vec::new() };
    assert_eq!(
        DynamicNes::from_ines(&bad_mmc1).err(),
        Some(dynamic_nes::Error::UnexpectedFormat(mapper::Error::UnexpectedPrgRomSize))
    );
}

#[test]
fn dynamic_nes_persistent_state() {
    let mut nrom = DynamicNes::from_ines(&Ines::parse(&image(1, 0, 0x01, 0)).unwrap()).unwrap();
    assert_eq!(
        nrom.load_persistent_state(&PersistentState::BatteryBackedRam(vec![0; 0x2000])),
        Err(PersistentStateError::InvalidStateForMapper)
    );
    let mut mmc1 = DynamicNes::from_ines(&Ines::parse(&image(2, 0, 0x10, 0)).unwrap()).unwrap();
    assert_eq!(mmc1.load_persistent_state(&PersistentState::BatteryBackedRam(vec![7; 0x2000])), Ok(()));
}

#[test]
fn dynamic_nes_runs_a_frame() {
    let mut assembler = Assembler::new();
    assembler.declare_pc_address(PRG_START);
    let buffer = assemble_ines(&assembler);
    let mut nes = DynamicNes::from_ines(&Ines::parse(&buffer).unwrap()).unwrap();
    nes.controller1_mut().set_start();
    let mut frame = Frame::new();
    // the program is all BRK, which returns to 0x0000 and runs zeroed RAM
    assert_eq!(nes.run_for_frame(&mut frame), Ok(()));
}

#[test]
fn assemble_ines_image_layout() {
    let mut assembler = Assembler::new();
    assembler.org(PRG_START);
    assembler.declare_pc_address(0xC123);
    let buffer = assemble_ines(&assembler);
    assert_eq!(buffer.len(), 16 + 0x4000);
    assert_eq!(&buffer[0..8], &[78, 69, 83, 26, 1, 0, 0x01, 0x00]);
    assert_eq!(buffer[16 + 0x3FFC], 0x23);
    assert_eq!(buffer[16 + 0x3FFD], 0xC1);
    let ines = Ines::parse(&buffer).unwrap();
    assert_eq!(ines.header.num_prg_rom_blocks, 1);
    assert!(matches!(DynamicNes::from_ines(&ines), Ok(DynamicNes::NromVertical(_))));
}

#[test]
fn assembler_partial_binary() {
    let mut assembler = Assembler::new();
    assembler.declare_pc_address(0xABCD);
    let mut buffer = vec![9, 9, 9];
    assembler.partial_binary(0xFFFB, 4, &mut buffer);
    assert_eq!(buffer, vec![0, 0xCD, 0xAB, 0]);
}

#[test]
fn image_bounds_check() {
    assert!(ines::image_in_bounds(&image(1, 1, 0x01, 0)));
    let mut truncated = image(1, 1, 0x01, 0);
    truncated.pop();
    assert!(!ines::image_in_bounds(&truncated));
    let mut bad_checksum = image(1, 0, 0x00, 0);
    bad_checksum[3] = 0;
    assert!(!ines::image_in_bounds(&bad_checksum));
    assert!(!ines::image_in_bounds(&[78, 69, 83, 26, 1, 0]));
    // an unknown mapper is reported by the parser before any ROM is read
    let unknown_mapper = vec![78, 69, 83, 26, 1, 0, 0x20, 0, 0, 0, 0, 0, 0, 0, 0, 0];
    assert!(ines::image_in_bounds(&unknown_mapper));
    assert_eq!(Ines::parse(&unknown_mapper).err(), Some(ines::Error::UnimplementedMapper { code: 2 }));
}

#[test]
fn picture_packs_into_bytes() {
    let rows = ["#.......########", "........"];
    assert_eq!(test_image_bits(&rows), vec![0x01, 0xFF, 0x00]);
    // the count of eight restarts with each row, so rows shorter than eight complete nothing
    let rows = ["####", "####", "#"];
    assert_eq!(test_image_bits(&rows), Vec::<u8>::new());
}
