use nes_emulator::mapper::mmc1::{Mmc1, PRG_RAM_BYTES};
use nes_emulator::mapper::nrom::{Horizontal, Nrom, Vertical};
use nes_emulator::mapper::{
    CpuMapper, Error, Mapper, NameTableChoice, PaletteRam, PatternTableChoice, PersistentState, PpuMapper,
};
use nes_emulator::ppu::{pattern_to_palette_index, Oam, OamEntry, Ppu, SpriteZero, SpriteZeroRow};

fn nrom_horizontal() -> Nrom<Horizontal> {
    Nrom::new(Horizontal, &vec![0u8; 0x4000], &vec![0u8; 0x2000]).unwrap()
}

#[test]
fn nrom_rejects_wrong_rom_sizes() {
    assert_eq!(Nrom::new(Horizontal, &vec![0u8; 100], &[]).err(), Some(Error::UnexpectedPrgRomSize));
    assert_eq!(Nrom::new(Horizontal, &vec![0u8; 0x4000], &vec![0u8; 100]).err(), Some(Error::UnexpectedChrRomSize));
}

#[test]
fn nrom_mirrors_a_16kb_prg_rom() {
    let mut prg = vec![0u8; 0x4000];
    prg[0x123] = 0x99;
    let nrom = Nrom::new(Vertical, &prg, &[]).unwrap();
    assert_eq!(nrom.cpu_read_u8_read_only(0x8123), 0x99);
    assert_eq!(nrom.cpu_read_u8_read_only(0xC123), 0x99);
}

#[test]
fn nrom_prg_ram_reads_back() {
    let mut nrom = nrom_horizontal();
    nrom.cpu_write_u8(0x6010, 0xAB);
    assert_eq!(nrom.cpu_read_u8(0x6010), 0xAB);
}

#[test]
fn horizontal_mirroring_shares_left_and_right() {
    let mut nrom = nrom_horizontal();
    nrom.ppu_write_u8(0x2005, 0x11);
    assert_eq!(nrom.ppu_read_u8(0x2405), 0x11);
    assert_eq!(nrom.ppu_read_u8(0x2805), 0x00);
    assert_eq!(nrom.ppu_name_table(NameTableChoice::TopRight)[5], 0x11);
}

#[test]
fn vertical_mirroring_shares_top_and_bottom() {
    let mut nrom = Nrom::new(Vertical, &vec![0u8; 0x8000], &[]).unwrap();
    nrom.ppu_write_u8(0x2005, 0x22);
    assert_eq!(nrom.ppu_read_u8(0x2805), 0x22);
    assert_eq!(nrom.ppu_read_u8(0x2405), 0x00);
}

#[test]
fn palette_ram_mirrors_every_32_bytes() {
    let mut palette = PaletteRam::new();
    palette.write_u8(0x21, 0x30);
    assert_eq!(palette.read_u8(0x01), 0x30);
    let mut nrom = nrom_horizontal();
    nrom.ppu_write_u8(0x3F01, 0x2A);
    assert_eq!(nrom.ppu_read_u8(0x3F21), 0x2A);
    assert_eq!(nrom.ppu_palette_ram()[1], 0x2A);
}

#[test]
fn pattern_tables_are_the_two_halves_of_chr_rom() {
    let mut chr = vec![0u8; 0x2000];
    chr[0x1003] = 7;
    let nrom = Nrom::new(Horizontal, &vec![0u8; 0x4000], &chr).unwrap();
    assert_eq!(nrom.ppu_pattern_table(PatternTableChoice::PatternTable1)[3], 7);
    assert_eq!(nrom.ppu_pattern_table(PatternTableChoice::PatternTable0)[3], 0);
    assert_eq!(PatternTableChoice::PatternTable1.base_address(), 0x1000);
    assert_eq!(NameTableChoice::BottomRight.index(), 3);
}

/// Writes `value` to an MMC1 register through the serial port: five writes of one bit each.
fn mmc1_serial_write(mmc1: &mut Mmc1, address: u16, value: u8) {
    for i in 0..5 {
        mmc1.cpu_write_u8(address, (value >> i) & 1);
    }
}

#[test]
fn mmc1_rejects_partial_banks() {
    assert_eq!(Mmc1::new(&vec![0u8; 100], &[]).err(), Some(Error::UnexpectedPrgRomSize));
    assert_eq!(Mmc1::new(&vec![0u8; 0x4000], &vec![0u8; 100]).err(), Some(Error::UnexpectedChrRomSize));
}

#[test]
fn mmc1_starts_with_the_last_prg_bank_fixed_high() {
    let mut prg = vec![0u8; 0x4000 * 4];
    prg[0x4000 * 3] = 0x33;
    prg[0] = 0x11;
    let mmc1 = Mmc1::new(&prg, &[]).unwrap();
    assert_eq!(mmc1.cpu_read_u8_read_only(0xC000), 0x33);
    assert_eq!(mmc1.cpu_read_u8_read_only(0x8000), 0x11);
}

#[test]
fn mmc1_prg_bank_register_switches_the_low_bank() {
    let mut prg = vec![0u8; 0x4000 * 4];
    prg[0x4000 * 2] = 0x22;
    let mut mmc1 = Mmc1::new(&prg, &[]).unwrap();
    mmc1_serial_write(&mut mmc1, 0xE000, 2);
    assert_eq!(mmc1.cpu_read_u8_read_only(0x8000), 0x22);
}

#[test]
fn mmc1_reset_bit_clears_the_shift_register() {
    let mut prg = vec![0u8; 0x4000 * 4];
    prg[0x4000 * 2] = 0x22;
    let mut mmc1 = Mmc1::new(&prg, &[]).unwrap();
    mmc1.cpu_write_u8(0xE000, 1);
    mmc1.cpu_write_u8(0xE000, 0x80);
    mmc1_serial_write(&mut mmc1, 0xE000, 2);
    assert_eq!(mmc1.cpu_read_u8_read_only(0x8000), 0x22);
}

#[test]
fn mmc1_control_register_sets_mirroring() {
    let mut mmc1 = Mmc1::new(&vec![0u8; 0x8000], &vec![0u8; 0x2000]).unwrap();
    // vertical mirroring
    mmc1_serial_write(&mut mmc1, 0x8000, 0x02 | 0x0C);
    mmc1.ppu_write_u8(0x2001, 0x44);
    assert_eq!(mmc1.ppu_read_u8(0x2801), 0x44);
    assert_eq!(mmc1.ppu_read_u8(0x2401), 0x00);
    // horizontal mirroring
    mmc1_serial_write(&mut mmc1, 0x8000, 0x03 | 0x0C);
    assert_eq!(mmc1.ppu_read_u8(0x2401), 0x44);
}

#[test]
fn mmc1_persistent_state_round_trip() {
    let mut mmc1 = Mmc1::new(&vec![0u8; 0x8000], &[]).unwrap();
    mmc1.cpu_write_u8(0x6001, 0x5A);
    let saved = mmc1.save_persistent_state().unwrap();
    let mut other = Mmc1::new(&vec![0u8; 0x8000], &[]).unwrap();
    assert_eq!(other.cpu_read_u8_read_only(0x6001), 0);
    assert_eq!(other.load_persistent_state(&saved), Ok(()));
    assert_eq!(other.cpu_read_u8_read_only(0x6001), 0x5A);
    match saved {
        PersistentState::BatteryBackedRam(data) => assert_eq!(data.len(), PRG_RAM_BYTES),
    }
}

#[test]
fn ppu_address_and_data_registers() {
    let mut ppu = Ppu::new();
    let mut nrom = nrom_horizontal();
    ppu.write_address(0x21);
    ppu.write_address(0x08);
    ppu.write_data(&mut nrom, 0x7A);
    ppu.write_data(&mut nrom, 0x7B);
    assert_eq!(nrom.ppu_read_u8(0x2108), 0x7A);
    assert_eq!(nrom.ppu_read_u8(0x2109), 0x7B);
    ppu.write_address(0x21);
    ppu.write_address(0x08);
    // reads below the palette come through the read buffer, one read late
    let _stale = ppu.read_data(&nrom);
    assert_eq!(ppu.read_data(&nrom), 0x7A);
    assert_eq!(ppu.read_data(&nrom), 0x7B);
}

#[test]
fn ppu_palette_reads_are_immediate() {
    let mut ppu = Ppu::new();
    let mut nrom = nrom_horizontal();
    ppu.write_address(0x3F);
    ppu.write_address(0x02);
    ppu.write_data(&mut nrom, 0x16);
    ppu.write_address(0x3F);
    ppu.write_address(0x02);
    assert_eq!(ppu.read_data(&nrom), 0x16);
}

#[test]
fn ppu_address_increment_of_32() {
    let mut ppu = Ppu::new();
    let mut nrom = nrom_horizontal();
    ppu.write_control(0x04);
    ppu.write_address(0x20);
    ppu.write_address(0x00);
    ppu.write_data(&mut nrom, 1);
    ppu.write_data(&mut nrom, 2);
    assert_eq!(nrom.ppu_read_u8(0x2000), 1);
    assert_eq!(nrom.ppu_read_u8(0x2020), 2);
}

#[test]
fn ppu_status_reports_and_clears_vblank() {
    let mut ppu = Ppu::new();
    assert_eq!(ppu.read_status(), 0);
    ppu.before_vblank();
    assert_eq!(ppu.read_status(), 0x80);
    assert_eq!(ppu.read_status(), 0);
    ppu.write_control(0x80);
    assert!(ppu.is_vblank_nmi_enabled());
}

#[test]
fn ppu_scroll_register_pair() {
    let mut ppu = Ppu::new();
    ppu.write_scroll(0x2D);
    ppu.write_scroll(0x13);
    // the scroll takes effect after vblank when the background shows
    ppu.write_mask(0x08);
    ppu.after_vblank();
    assert_eq!(ppu.scroll_y(), 0x13);
    // status read resets the write toggle
    ppu.write_scroll(0x10);
    let _ = ppu.read_status();
    ppu.write_scroll(0x20);
    ppu.write_scroll(0x30);
    ppu.after_vblank();
    assert_eq!(ppu.scroll_y(), 0x30);
}

#[test]
fn ppu_oam_address_and_data() {
    let mut ppu = Ppu::new();
    let mut oam = Oam::new();
    ppu.write_oam_address(10);
    ppu.write_oam_data(0xAA, &mut oam);
    ppu.write_oam_data(0xBB, &mut oam);
    ppu.write_oam_address(10);
    assert_eq!(ppu.read_oam_data(&oam), 0xAA);
    assert_eq!(ppu.read_oam_data(&oam), 0xBB);
}

#[test]
fn oam_hides_sprites_at_the_bottom() {
    let mut ppu = Ppu::new();
    let mut oam = Oam::new();
    for byte in [0x10u8, 0x01, 0x42, 0x20] {
        ppu.write_oam_data(byte, &mut oam);
    }
    for byte in [0xEFu8, 0x01, 0x00, 0x20] {
        ppu.write_oam_data(byte, &mut oam);
    }
    let sprite = oam.get(0).unwrap();
    assert_eq!(sprite.position_y, 0x11);
    assert_eq!(sprite.tile_index, 1);
    assert_eq!(sprite.position_x, 0x20);
    assert!(sprite.flip_sprite_horizontally());
    assert!(!sprite.flip_sprite_vertically());
    assert_eq!(sprite.palette_base(), 24);
    assert!(oam.get(1).is_none());
}

#[test]
fn pattern_bits_make_palette_indices() {
    assert_eq!(pattern_to_palette_index(0b1000_0001, 0b0000_0001, 0), 3);
    assert_eq!(pattern_to_palette_index(0b1000_0001, 0b0000_0001, 7), 1);
    assert_eq!(pattern_to_palette_index(0, 0b0000_0010, 1), 2);
    assert_eq!(pattern_to_palette_index(0, 0, 4), 0);
}

#[test]
fn sprite_zero_rows_and_hits() {
    let sprite_zero = SpriteZero { opaque_pixel_map: 0x0000_0000_0000_8001, top_left_x: 10, top_left_y: 20 };
    let row = sprite_zero.opaque_pixel_map_row(20);
    assert_eq!(row, SpriteZeroRow { top_left_x: 10, opaque_pixel_map: 0x01 });
    assert!(row.is_hit(17));
    assert!(!row.is_hit(10));
    let row1 = sprite_zero.opaque_pixel_map_row(21);
    assert!(row1.is_hit(10));
    assert_eq!(sprite_zero.opaque_pixel_map_row(19).opaque_pixel_map, 0);
    assert_eq!(SpriteZero::blank(), SpriteZero { opaque_pixel_map: 0, top_left_x: 0, top_left_y: 0 });
    let entry = OamEntry { tile_index: 3, attributes: 0, position_x: 0, position_y: 0 };
    assert_eq!(entry.offset_within_pattern_table_8x8(), 48);
    assert_eq!(entry.offset_within_pattern_table_8x16(), (32, PatternTableChoice::PatternTable1));
}

#[test]
fn oam_as_text() {
    let mut ppu = Ppu::new();
    let mut oam = Oam::new();
    for byte in [0x10u8, 0x01, 0x42, 0xAB] {
        ppu.write_oam_data(byte, &mut oam);
    }
    let text = oam.to_string();
    let lines: Vec<&str> = text.lines().collect();
    assert_eq!(lines.len(), 64);
    assert_eq!(lines[0], "00: [10, 01, 42, AB]");
    assert_eq!(lines[1], "01: [00, 00, 00, 00]");
    assert_eq!(lines[63], "63: [00, 00, 00, 00]");
    assert!(text.ends_with("]\n"));
}
