use nes_emulator::mapper::nrom::{Horizontal, Nrom};
use nes_emulator::nes::Nes;
use nes_emulator::nes_headless_frame::Frame;
use nes_emulator::nes_name_table_debug::NameTableFrame;
use nes_emulator::nes_palette::{aged_colour, animation_colour_table, Palette, Rgb24};
use nes_emulator::render_output::{NoRenderOutput, RenderOutput, RenderOutputPair};

#[test]
fn frame_starts_blank() {
    let frame = Frame::new();
    assert_eq!(frame.indices().len(), 256 * 240);
    assert!(frame.indices().iter().all(|&i| i == 0));
    assert_eq!(frame.depths().len(), 256 * 240);
    assert!(frame.depths().iter().all(|&d| d == 0));
}

#[test]
fn frame_keeps_the_highest_layer() {
    let mut frame = Frame::new();
    frame.set_pixel_colour_sprite_front(10, 20, 0x05);
    assert_eq!(frame.depths()[20 * 256 + 10], 4);
    frame.set_pixel_colour_background(10, 20, 0x06);
    assert_eq!(frame.depths()[20 * 256 + 10], 4);
    frame.set_pixel_colour_universal_background(10, 20, 0x07);
    assert_eq!(frame.indices()[20 * 256 + 10], 0x05);
    frame.set_pixel_colour_sprite_back(11, 20, 0x08);
    assert_eq!(frame.indices()[20 * 256 + 11], 0x08);
    frame.set_pixel_colour_background(11, 20, 0x09);
    assert_eq!(frame.indices()[20 * 256 + 11], 0x09);
    frame.set_pixel_colour_sprite_front(11, 20, 0x0A);
    assert_eq!(frame.indices()[20 * 256 + 11], 0x0A);
}

#[test]
fn frame_masks_colour_indices() {
    let mut frame = Frame::new();
    frame.set_pixel_colour_background(255, 239, 0xC1);
    assert_eq!(frame.indices()[239 * 256 + 255], 0x01);
}

#[test]
fn frame_clear_forgets_depths() {
    let mut frame = Frame::new();
    frame.set_pixel_colour_sprite_front(0, 0, 0x05);
    frame.clear();
    assert_eq!(frame.indices()[0], 0);
    frame.set_pixel_colour_universal_background(0, 0, 0x02);
    assert_eq!(frame.indices()[0], 0x02);
    let copy = frame.clone();
    assert!(copy == frame);
    assert!(copy != Frame::new());
}

#[test]
fn render_output_pair_writes_both() {
    let mut pair = RenderOutputPair::new(Frame::new(), Frame::new());
    pair.set_pixel_colour_background(3, 4, 0x11);
    assert_eq!(pair.a.indices()[4 * 256 + 3], 0x11);
    assert_eq!(pair.b.indices()[4 * 256 + 3], 0x11);
    let mut with_nothing = RenderOutputPair::new(NoRenderOutput, Frame::new());
    with_nothing.set_pixel_colour_sprite_back(5, 6, 0x12);
    assert_eq!(with_nothing.b.indices()[6 * 256 + 5], 0x12);
}

#[test]
fn name_table_frame_marks_the_shown_pixels() {
    let mut frame = NameTableFrame::new();
    for scanline in 0..240u8 {
        frame.set_scroll(scanline, 0, 480);
    }
    frame.set_pixel(3, 0, 0x21);
    frame.set_pixel(300, 10, 0x22);
    frame.set_pixel(10, 10, 0x50);
    frame.set_scroll(0, 400, 10);
    let indices = frame.indices();
    // scanline 0 shows row 10 from x = 400, wrapping around to x = 143
    assert_eq!(indices[10 * 512 + 400], 64);
    assert_eq!(indices[10 * 512 + 511], 64);
    assert_eq!(indices[10 * 512 + 0], 64);
    assert_eq!(indices[10 * 512 + 143], 64);
    assert_eq!(indices[10 * 512 + 144], 0);
    assert_eq!(indices[10 * 512 + 300], 0x22);
    assert_eq!(indices[10 * 512 + 10], 0x50);
    // the other scanlines are scrolled below the plane and show nothing
    assert_eq!(indices[3], 0x21);
    assert_eq!(indices[0], 0);
}

#[test]
fn name_table_frame_default_scroll_marks_the_top_left() {
    let frame = NameTableFrame::new();
    let indices = frame.indices();
    assert_eq!(indices[0], 64);
    assert_eq!(indices[255], 64);
    assert_eq!(indices[256], 0);
    assert_eq!(indices[512], 0);
}

#[test]
fn name_table_frame_from_a_running_nes() {
    let mut prg = vec![0xEAu8; 0x4000];
    // JMP $C000
    prg[0..3].copy_from_slice(&[0x4C, 0x00, 0xC0]);
    prg[0x3FFA..0x4000].copy_from_slice(&[0x00, 0xC0, 0x00, 0xC0, 0x00, 0xC0]);
    let mut nes = Nes::new(Nrom::new(Horizontal, &prg, &[]).unwrap());
    let mut name_table_frame = Some(NameTableFrame::new());
    let mut frame = Frame::new();
    assert_eq!(nes.run_for_frame(&mut frame, &mut name_table_frame), Ok(()));
    let indices = name_table_frame.unwrap().indices();
    assert_eq!(indices.len(), 512 * 480);
    // with no scrolling, the scanlines show the top-left screen from its left edge
    assert!(indices[0] >= 64);
    assert!(indices[255] >= 64);
    assert!(indices[256] < 64);
}

#[test]
fn palette_bytes_round_trip() {
    let bytes: Vec<u8> = (0..192).map(|i| (i * 7 % 256) as u8).collect();
    let palette = Palette::from_bytes(&bytes);
    assert_eq!(palette.to_bytes().to_vec(), bytes);
}

#[test]
fn palette_transform_changes_every_colour() {
    let bytes: Vec<u8> = (0..192).map(|i| i as u8).collect();
    let mut palette = Palette::from_bytes(&bytes);
    palette.transform(|c: Rgb24| Rgb24::new(c.b, c.g, c.r));
    let swapped = palette.to_bytes();
    assert_eq!(&swapped[0..6], &[2, 1, 0, 5, 4, 3]);
    assert_eq!(&swapped[189..192], &[191, 190, 189]);
}

#[test]
fn deepest_layer_shows_whatever_the_order() {
    let mut first = Frame::new();
    first.set_pixel_colour_background(7, 9, 0x11);
    first.set_pixel_colour_sprite_front(7, 9, 0x22);
    first.set_pixel_colour_sprite_front(7, 9, 0x33);
    let mut second = Frame::new();
    second.set_pixel_colour_sprite_front(7, 9, 0x22);
    second.set_pixel_colour_background(7, 9, 0x11);
    second.set_pixel_colour_sprite_back(7, 9, 0x12);
    assert_eq!(first.indices()[9 * 256 + 7], 0x22);
    assert_eq!(second.indices()[9 * 256 + 7], 0x22);
}

#[test]
fn aged_colours_turn_towards_red() {
    assert_eq!(aged_colour(Rgb24::new(10, 200, 30)), Rgb24::new(255, 136, 0));
    assert_eq!(aged_colour(Rgb24::new(255, 64, 63)), Rgb24::new(255, 0, 0));
    assert_eq!(aged_colour(Rgb24::new(0, 255, 255)), Rgb24::new(255, 191, 191));
}

#[test]
fn animation_colour_table_holds_both_palettes() {
    let bytes: Vec<u8> = (0..192u32).map(|i| (i * 7 % 256) as u8).collect();
    let palette = Palette::from_bytes(&bytes);
    let table = animation_colour_table(&palette);
    assert_eq!(table.len(), 384);
    assert_eq!(&table[..192], &bytes[..]);
    for k in 0..64 {
        let aged = aged_colour(Rgb24::new(bytes[3 * k], bytes[3 * k + 1], bytes[3 * k + 2]));
        assert_eq!(table[192 + 3 * k], aged.r);
        assert_eq!(table[192 + 3 * k + 1], aged.g);
        assert_eq!(table[192 + 3 * k + 2], aged.b);
    }
    // the colour of index 1 is (21, 28, 35): aged, (255, 0, 0)
    assert_eq!(&table[195..198], &[255, 0, 0]);
}
