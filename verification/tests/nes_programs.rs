use nes_emulator::debug::{AddressingMode, InstructionType};
use nes_emulator::dynamic_nes::DynamicNes;
use nes_emulator::input::{frame_tick, handle_event, handle_key, Event, FrameAction, Key, KeyRequest, KeyState};
use nes_emulator::machine::MemoryReadOnly;
use nes_emulator::mapper::nrom::{Horizontal, Nrom};
use nes_emulator::mapper::{Mapper, PersistentState, PersistentStateError};
use nes_emulator::nes::{controller1, Nes};
use nes_emulator::nes_headless_frame::Frame;
use nes_emulator::render_output::NoRenderOutput;
use nes_emulator::UnknownOpcode;

/// A 16KB PRG ROM, seen at 0xC000, holding `code` at 0xC000, `nmi` at 0xC100, and vectors.
fn prg_rom(code: &[u8], nmi: &[u8]) -> Vec<u8> {
    let mut prg = vec![0xEAu8; 0x4000];
    prg[..code.len()].copy_from_slice(code);
    prg[0x100..0x100 + nmi.len()].copy_from_slice(nmi);
    // NMI vector, reset vector, IRQ vector
    prg[0x3FFA] = 0x00;
    prg[0x3FFB] = 0xC1;
    prg[0x3FFC] = 0x00;
    prg[0x3FFD] = 0xC0;
    prg[0x3FFE] = 0x00;
    prg[0x3FFF] = 0xC0;
    prg
}

fn nes_with(code: &[u8], nmi: &[u8]) -> Nes<Nrom<Horizontal>> {
    Nes::new(Nrom::new(Horizontal, &prg_rom(code, nmi), &[]).unwrap())
}

#[test]
fn program_stores_to_ram() {
    // LDA #$42; STA $0200; JMP $C005
    let mut nes = nes_with(&[0xA9, 0x42, 0x8D, 0x00, 0x02, 0x4C, 0x05, 0xC0], &[0x40]);
    let mut out = NoRenderOutput;
    let mut name_table_frame = None;
    assert_eq!(nes.run_for_frame(&mut out, &mut name_table_frame), Ok(()));
    assert_eq!(nes.devices_with_oam().read_u8_read_only(0x0200), 0x42);
    // RAM is mirrored every 2KB
    assert_eq!(nes.devices_with_oam().read_u8_read_only(0x0A00), 0x42);
    assert_eq!(nes.devices_with_oam().read_u8_read_only(0x1A00), 0x42);
}

#[test]
fn unknown_opcode_stops_the_frame() {
    let mut nes = nes_with(&[0x02], &[0x40]);
    let mut out = NoRenderOutput;
    let mut name_table_frame = None;
    assert_eq!(nes.run_for_frame(&mut out, &mut name_table_frame), Err(UnknownOpcode(0x02)));
}

#[test]
fn controller_reports_buttons_in_order() {
    // strobe, then read A and B into $0300 and $0301
    let code = [
        0xA9, 0x01, 0x8D, 0x16, 0x40, // LDA #1; STA $4016
        0xA9, 0x00, 0x8D, 0x16, 0x40, // LDA #0; STA $4016
        0xAD, 0x16, 0x40, 0x8D, 0x00, 0x03, // LDA $4016; STA $0300
        0xAD, 0x16, 0x40, 0x8D, 0x01, 0x03, // LDA $4016; STA $0301
        0x4C, 0x16, 0xC0, // JMP $C016
    ];
    let mut nes = nes_with(&code, &[0x40]);
    controller1::press::a(&mut nes);
    let mut out = NoRenderOutput;
    let mut name_table_frame = None;
    assert_eq!(nes.run_for_frame(&mut out, &mut name_table_frame), Ok(()));
    assert_eq!(nes.devices_with_oam().read_u8_read_only(0x0300), 1);
    assert_eq!(nes.devices_with_oam().read_u8_read_only(0x0301), 0);
}

#[test]
fn released_button_reads_zero() {
    let code = [
        0xA9, 0x01, 0x8D, 0x16, 0x40, 0xA9, 0x00, 0x8D, 0x16, 0x40, 0xAD, 0x16, 0x40, 0x8D, 0x00, 0x03, 0x4C,
        0x10, 0xC0,
    ];
    let mut nes = nes_with(&code, &[0x40]);
    controller1::press::a(&mut nes);
    controller1::release::a(&mut nes);
    let mut out = NoRenderOutput;
    let mut name_table_frame = None;
    assert_eq!(nes.run_for_frame(&mut out, &mut name_table_frame), Ok(()));
    assert_eq!(nes.devices_with_oam().read_u8_read_only(0x0300), 0);
}

#[test]
fn nmi_runs_the_handler_after_the_frame() {
    // enable the vblank NMI, then spin; the handler stores $55 at $0400
    let code = [0xA9, 0x80, 0x8D, 0x00, 0x20, 0x4C, 0x05, 0xC0];
    let nmi = [0xA9, 0x55, 0x8D, 0x00, 0x04, 0x40];
    let mut nes = nes_with(&code, &nmi);
    let mut out = NoRenderOutput;
    let mut name_table_frame = None;
    assert_eq!(nes.devices_with_oam().read_u8_read_only(0x0400), 0);
    assert_eq!(nes.run_for_frame(&mut out, &mut name_table_frame), Ok(()));
    assert_eq!(nes.devices_with_oam().read_u8_read_only(0x0400), 0x55);
    assert!(nes.ppu().is_vblank_nmi_enabled());
}

#[test]
fn stack_push_and_pull() {
    // LDA #$33; PHA; LDA #0; PLA; STA $0210; JMP
    let code = [0xA9, 0x33, 0x48, 0xA9, 0x00, 0x68, 0x8D, 0x10, 0x02, 0x4C, 0x09, 0xC0];
    let mut nes = nes_with(&code, &[0x40]);
    let mut out = NoRenderOutput;
    let mut name_table_frame = None;
    assert_eq!(nes.run_for_frame(&mut out, &mut name_table_frame), Ok(()));
    assert_eq!(nes.devices_with_oam().read_u8_read_only(0x0210), 0x33);
    // the pushed byte is in the stack page
    assert_eq!(nes.devices_with_oam().read_u8_read_only(0x01FF), 0x33);
}

#[test]
fn adc_and_sbc_arithmetic() {
    // CLC; LDA #$50; ADC #$50; STA $0220; SEC; LDA #$10; SBC #$20; STA $0221; JMP
    let code = [
        0x18, 0xA9, 0x50, 0x69, 0x50, 0x8D, 0x20, 0x02, 0x38, 0xA9, 0x10, 0xE9, 0x20, 0x8D, 0x21, 0x02, 0x4C,
        0x10, 0xC0,
    ];
    let mut nes = nes_with(&code, &[0x40]);
    let mut out = NoRenderOutput;
    let mut name_table_frame = None;
    assert_eq!(nes.run_for_frame(&mut out, &mut name_table_frame), Ok(()));
    assert_eq!(nes.devices_with_oam().read_u8_read_only(0x0220), 0xA0);
    assert_eq!(nes.devices_with_oam().read_u8_read_only(0x0221), 0xF0);
}

#[test]
fn oam_dma_copies_a_page() {
    // fill $0200..$02FF with its index using X, then DMA page 2 into OAM and read OAM back
    let code = [
        0xA2, 0x00, // LDX #0
        0x8A, 0x9D, 0x00, 0x02, // TXA; STA $0200,X
        0xE8, 0xD0, 0xF9, // INX; BNE -7
        0xA9, 0x02, 0x8D, 0x14, 0x40, // LDA #2; STA $4014
        0xA9, 0x05, 0x8D, 0x03, 0x20, // LDA #5; STA $2003
        0xAD, 0x04, 0x20, 0x8D, 0x30, 0x03, // LDA $2004; STA $0330
        0x4C, 0x19, 0xC0,
    ];
    let mut nes = nes_with(&code, &[0x40]);
    let mut out = NoRenderOutput;
    let mut name_table_frame = None;
    assert_eq!(nes.run_for_frame(&mut out, &mut name_table_frame), Ok(()));
    assert_eq!(nes.devices_with_oam().read_u8_read_only(0x0330), 5);
}

#[test]
fn frame_renders_into_a_headless_frame() {
    let mut nes = nes_with(&[0x4C, 0x00, 0xC0], &[0x40]);
    let mut frame = Frame::new();
    let mut name_table_frame = None;
    assert_eq!(nes.run_for_frame(&mut frame, &mut name_table_frame), Ok(()));
    // the background is hidden, so every pixel is black
    assert!(frame.indices().iter().all(|&i| i == 0x0F));
    assert_eq!(frame.indices().len(), 61440);
}

#[test]
fn nrom_keeps_no_persistent_state() {
    let nes = nes_with(&[0x4C, 0x00, 0xC0], &[0x40]);
    assert!(nes.save_persistent_state().is_none());
    let mut nes = nes;
    let state = PersistentState::BatteryBackedRam(vec![0; 0x2000]);
    assert_eq!(nes.load_persistent_state(&state), Err(PersistentStateError::InvalidStateForMapper));
    assert!(nes.mapper().save_persistent_state().is_none());
}

#[test]
fn clone_dynamic_nes_copies_the_state() {
    let mut nes = nes_with(&[0xA9, 0x42, 0x8D, 0x00, 0x02, 0x4C, 0x05, 0xC0], &[0x40]);
    let mut out = NoRenderOutput;
    let mut name_table_frame = None;
    assert_eq!(nes.run_for_frame(&mut out, &mut name_table_frame), Ok(()));
    match nes.clone_dynamic_nes() {
        DynamicNes::NromHorizontal(copy) => {
            assert_eq!(copy.devices_with_oam().read_u8_read_only(0x0200), 0x42);
        }
        _ => panic!("wrong variant"),
    }
}

#[test]
fn debug_run_traces_instructions() {
    let mut nes = nes_with(&[0xA9, 0x42, 0x8D, 0x00, 0x02, 0x4C, 0x05, 0xC0], &[0x40]);
    let mut out = NoRenderOutput;
    let mut name_table_frame = None;
    let (result, trace) = nes.run_for_frame_debug(&mut out, &mut name_table_frame);
    assert_eq!(result, Ok(()));
    assert_eq!(trace[0].address(), 0xC000);
    assert_eq!(trace[1].address(), 0xC002);
    assert_eq!(trace[2].address(), 0xC005);
    assert_eq!(trace[3].address(), 0xC005);
}

#[test]
fn debug_run_trace_follows_the_program() {
    // LDA #$42 (2 cycles); STA $0200 (4 cycles); then JMP $C005 (3 cycles) for the rest of the frame
    let mut nes = nes_with(&[0xA9, 0x42, 0x8D, 0x00, 0x02, 0x4C, 0x05, 0xC0], &[0x40]);
    let mut out = NoRenderOutput;
    let mut name_table_frame = None;
    let (result, trace) = nes.run_for_frame_debug(&mut out, &mut name_table_frame);
    assert_eq!(result, Ok(()));
    assert_eq!(trace[0].instruction().instruction_type(), InstructionType::Lda);
    assert_eq!(trace[0].instruction().addressing_mode(), AddressingMode::Immediate);
    assert_eq!(trace[1].instruction().instruction_type(), InstructionType::Sta);
    assert_eq!(trace[1].operand_u16_le(), Some(0x0200));
    // a frame runs for thousands of cycles, so the loop is traced many times
    assert!(trace.len() > 1000);
    for step in &trace[2..] {
        assert_eq!(step.address(), 0xC005);
        assert_eq!(step.instruction().instruction_type(), InstructionType::Jmp);
        assert_eq!(step.operand_u16_le(), Some(0xC005));
    }
    // the debug run leaves the NES as the plain run does
    let mut plain = nes_with(&[0xA9, 0x42, 0x8D, 0x00, 0x02, 0x4C, 0x05, 0xC0], &[0x40]);
    assert_eq!(plain.run_for_frame(&mut out, &mut name_table_frame), Ok(()));
    assert_eq!(plain.devices_with_oam().read_u8_read_only(0x0200), 0x42);
    assert_eq!(nes.devices_with_oam().read_u8_read_only(0x0200), 0x42);
    assert_eq!(plain.ppu().scroll_x(), nes.ppu().scroll_x());
}

#[test]
fn debug_run_trace_stops_at_an_unknown_opcode() {
    // LDA #$01; then a byte that is no opcode
    let mut nes = nes_with(&[0xA9, 0x01, 0x02], &[0x40]);
    let mut out = NoRenderOutput;
    let mut name_table_frame = None;
    let (result, trace) = nes.run_for_frame_debug(&mut out, &mut name_table_frame);
    assert_eq!(result, Err(UnknownOpcode(0x02)));
    assert_eq!(trace.len(), 1);
    assert_eq!(trace[0].address(), 0xC000);
    assert_eq!(trace[0].instruction().instruction_type(), InstructionType::Lda);
}

#[test]
fn keys_play_the_controller_and_ask_for_actions() {
    let code = [
        0xA9, 0x01, 0x8D, 0x16, 0x40, // LDA #1; STA $4016
        0xA9, 0x00, 0x8D, 0x16, 0x40, // LDA #0; STA $4016
        0xAD, 0x16, 0x40, 0x8D, 0x00, 0x03, // LDA $4016; STA $0300
        0xAD, 0x16, 0x40, 0x8D, 0x01, 0x03, // LDA $4016; STA $0301
        0x4C, 0x16, 0xC0, // JMP $C016
    ];
    let mut nes = nes_with(&code, &[0x40]);
    assert_eq!(handle_key(&mut nes, Key::B, KeyState::Pressed), None);
    assert_eq!(handle_key(&mut nes, Key::S, KeyState::Pressed), Some(KeyRequest::SaveState));
    assert_eq!(handle_key(&mut nes, Key::L, KeyState::Pressed), Some(KeyRequest::LoadState));
    assert_eq!(handle_key(&mut nes, Key::P, KeyState::Pressed), Some(KeyRequest::SavePersistentState));
    assert_eq!(handle_key(&mut nes, Key::I, KeyState::Pressed), Some(KeyRequest::PrintInfo));
    assert_eq!(handle_key(&mut nes, Key::I, KeyState::Released), None);
    assert_eq!(handle_key(&mut nes, Key::Other, KeyState::Pressed), None);
    let mut out = NoRenderOutput;
    let mut name_table_frame = None;
    assert_eq!(nes.run_for_frame(&mut out, &mut name_table_frame), Ok(()));
    assert_eq!(nes.devices_with_oam().read_u8_read_only(0x0300), 0);
    assert_eq!(nes.devices_with_oam().read_u8_read_only(0x0301), 1);
    assert_eq!(handle_key(&mut nes, Key::B, KeyState::Released), None);
    let mut nes = nes_with(&code, &[0x40]);
    handle_key(&mut nes, Key::A, KeyState::Pressed);
    handle_key(&mut nes, Key::A, KeyState::Released);
    assert_eq!(nes.run_for_frame(&mut out, &mut name_table_frame), Ok(()));
    assert_eq!(nes.devices_with_oam().read_u8_read_only(0x0300), 0);
}

fn run_one_frame(nes: &mut Nes<Nrom<Horizontal>>) {
    let mut out = NoRenderOutput;
    let mut name_table_frame = None;
    assert_eq!(nes.run_for_frame(&mut out, &mut name_table_frame), Ok(()));
}

#[test]
fn subroutine_call_returns_after_the_call() {
    // JSR $C010; LDA #$55; STA $0230; TSX; STX $0231; JMP $C00C; ... $C010: RTS
    let mut code = vec![0x20, 0x10, 0xC0, 0xA9, 0x55, 0x8D, 0x30, 0x02, 0xBA, 0x8E, 0x31, 0x02, 0x4C, 0x0C, 0xC0];
    code.resize(0x10, 0xEA);
    code.push(0x60);
    let mut nes = nes_with(&code, &[0x40]);
    run_one_frame(&mut nes);
    assert_eq!(nes.devices_with_oam().read_u8_read_only(0x0230), 0x55);
    assert_eq!(nes.devices_with_oam().read_u8_read_only(0x0231), 0xFF);
}

#[test]
fn return_from_interrupt_undoes_break() {
    // SEC; BRK; (skipped byte); PHP; PLA; STA $0232; TSX; STX $0233; JMP $C00B
    let mut prg = vec![0xEAu8; 0x4000];
    prg[0..14].copy_from_slice(&[0x38, 0x00, 0xEA, 0x08, 0x68, 0x8D, 0x32, 0x02, 0xBA, 0x8E, 0x33, 0x02, 0x4C, 0x0C]);
    prg[14] = 0xC0;
    // the IRQ handler clears the carry and returns
    prg[0x100] = 0x18;
    prg[0x101] = 0x40;
    prg[0x200] = 0x40;
    prg[0x3FFA..0x4000].copy_from_slice(&[0x00, 0xC2, 0x00, 0xC0, 0x00, 0xC1]);
    let mut nes = Nes::new(Nrom::new(Horizontal, &prg, &[]).unwrap());
    run_one_frame(&mut nes);
    assert_eq!(nes.devices_with_oam().read_u8_read_only(0x0232) & 0x01, 0x01);
    assert_eq!(nes.devices_with_oam().read_u8_read_only(0x0233), 0xFF);
}

#[test]
fn rotate_right_undoes_rotate_left() {
    // LDA #$A5; CLC; ROL A; ROR A; STA $0234; PHP; PLA; STA $0235; JMP $C00F
    let code = [0xA9, 0xA5, 0x18, 0x2A, 0x6A, 0x8D, 0x34, 0x02, 0x08, 0x68, 0x8D, 0x35, 0x02, 0xEA, 0xEA, 0x4C, 0x0F, 0xC0];
    let mut nes = nes_with(&code, &[0x40]);
    run_one_frame(&mut nes);
    assert_eq!(nes.devices_with_oam().read_u8_read_only(0x0234), 0xA5);
    assert_eq!(nes.devices_with_oam().read_u8_read_only(0x0235) & 0x01, 0x00);
}

#[test]
fn window_events_and_frame_decisions() {
    let mut nes = nes_with(&[0x4C, 0x00, 0xC0], &[0x40]);
    assert_eq!(handle_event(&mut nes, Event::CloseRequested), Some(KeyRequest::Quit));
    assert_eq!(handle_event(&mut nes, Event::Other), None);
    assert_eq!(handle_event(&mut nes, Event::Key(Key::I, KeyState::Pressed)), Some(KeyRequest::PrintInfo));
    assert_eq!(handle_event(&mut nes, Event::Key(Key::Left, KeyState::Pressed)), None);
    assert_eq!(frame_tick(10, Some(10), Some(10)), FrameAction { quit: true, autosave: false });
    assert_eq!(frame_tick(5, Some(10), Some(5)), FrameAction { quit: false, autosave: true });
    assert_eq!(frame_tick(5, None, None), FrameAction { quit: false, autosave: false });
}

#[test]
fn nrom_refuses_any_persistent_state() {
    let mut nes = nes_with(&[0x4C, 0x00, 0xC0], &[0x40]);
    assert_eq!(
        nes.load_persistent_state(&PersistentState::BatteryBackedRam(vec![1, 2, 3])),
        Err(PersistentStateError::InvalidStateForMapper)
    );
}
