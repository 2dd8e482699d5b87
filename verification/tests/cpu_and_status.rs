use nes_emulator::address::{from_u8_lo_hi, hi, lo, on_different_pages};
use nes_emulator::debug::{AddressingMode, Instruction, InstructionType, InstructionWithOperand};
use nes_emulator::debug::display::bytes_hex_text;
use nes_emulator::machine::{Cpu, StatusRegister};
use nes_emulator::{flag, UnknownOpcode};

#[test]
fn address_lo_hi_round_trip() {
    assert_eq!(lo(0xBEEF), 0xEF);
    assert_eq!(hi(0xBEEF), 0xBE);
    assert_eq!(from_u8_lo_hi(0xEF, 0xBE), 0xBEEF);
    assert_eq!(from_u8_lo_hi(lo(0x1234), hi(0x1234)), 0x1234);
}

#[test]
fn address_pages() {
    assert!(!on_different_pages(0x1200, 0x12FF));
    assert!(on_different_pages(0x12FF, 0x1300));
}

#[test]
fn cpu_powers_on_with_interrupts_disabled() {
    let cpu = Cpu::new();
    assert_eq!(cpu.pc, 0);
    assert_eq!(cpu.sp, 0xFF);
    assert_eq!(cpu.status.raw, flag::INTERRUPT_DISABLE);
    assert!(cpu.status.is_interrupt_disable());
}

#[test]
fn status_flags_set_and_clear() {
    let mut status = StatusRegister::new();
    status.set_carry();
    assert!(status.is_carry());
    assert_eq!(status.carry_value(), 1);
    status.clear_carry();
    assert!(!status.is_carry());
    assert_eq!(status.carry_value(), 0);
    status.set_decimal();
    assert!(status.is_decimal());
    status.clear_decimal();
    assert!(!status.is_decimal());
    status.set_zero_from_value(0);
    assert!(status.is_zero());
    status.set_zero_from_value(7);
    assert!(!status.is_zero());
    status.set_negative_from_value(0x80);
    assert!(status.is_negative());
    status.set_negative_from_value(0x7F);
    assert!(!status.is_negative());
    status.set_overflow_to(true);
    assert!(status.is_overflow());
    status.clear_overflow();
    assert!(!status.is_overflow());
}

#[test]
fn status_pushed_value_has_break_and_expansion() {
    let mut status = StatusRegister::new();
    status.set(0xFF);
    assert_eq!(status.masked_with_brk_and_expansion(), 0xFF);
    status.set(0x00);
    assert_eq!(status.masked_with_brk_and_expansion(), flag::BRK | flag::EXPANSION);
}

#[test]
fn decode_known_opcodes() {
    let lda = Instruction::from_opcode(0xA9).unwrap();
    assert_eq!(lda.instruction_type(), InstructionType::Lda);
    assert_eq!(lda.addressing_mode(), AddressingMode::Immediate);
    assert_eq!(lda.size(), 2);
    let jmp = Instruction::from_opcode(0x4C).unwrap();
    assert_eq!(jmp.instruction_type(), InstructionType::Jmp);
    assert_eq!(jmp.addressing_mode(), AddressingMode::Absolute);
    assert_eq!(jmp.size(), 3);
    let jmp_indirect = Instruction::from_opcode(0x6C).unwrap();
    assert_eq!(jmp_indirect.addressing_mode(), AddressingMode::Indirect);
    let rts = Instruction::from_opcode(0x60).unwrap();
    assert_eq!(rts.instruction_type(), InstructionType::Rts);
    assert_eq!(rts.size(), 1);
    let beq = Instruction::from_opcode(0xF0).unwrap();
    assert_eq!(beq.addressing_mode(), AddressingMode::Relative);
    assert_eq!(beq.size(), 2);
}

#[test]
fn decode_unknown_opcode() {
    assert_eq!(Instruction::from_opcode(0x02).err(), Some(UnknownOpcode(0x02)));
}

#[test]
fn status_register_as_text() {
    let mut status = StatusRegister::new();
    assert_eq!(status.to_string(), "[N=0,V=0,D=0,I:1,Z:0,C:0]");
    status.set_carry();
    status.set_negative_from_value(0x80);
    status.set_overflow_to(true);
    status.clear_interrupt_disable();
    assert_eq!(status.to_string(), "[N=1,V=1,D=0,I:0,Z:0,C:1]");
}

#[test]
fn instruction_with_operand_as_text() {
    let lda = InstructionWithOperand { address: 0x0010, instruction: Instruction::from_opcode(0xA9).unwrap(), operand: vec![0x7] };
    assert_eq!(lda.to_string(), "0010  Lda(Immediate) 07");
    let sta = InstructionWithOperand { address: 0xC123, instruction: Instruction::from_opcode(0x8D).unwrap(), operand: vec![0x00, 0x02] };
    assert_eq!(sta.to_string(), "C123  Sta(Absolute) 0200");
    let clc = InstructionWithOperand { address: 0xABCD, instruction: Instruction::from_opcode(0x18).unwrap(), operand: vec![] };
    assert_eq!(clc.to_string(), "ABCD  Clc(Implied) ");
}

#[test]
fn bytes_as_hex_dump() {
    let text = bytes_hex_text(&[0x00, 0x1F, 0xA0, 0xFF, 0x05], 0x0FFE, 2);
    assert_eq!(text, "0FFE: 00  1F  \n1000: A0  FF  \n1002: 05  \n");
    assert_eq!(bytes_hex_text(&[], 0, 4), "");
    assert_eq!(bytes_hex_text(&[1, 2, 3], 0xFFFF, 3), "FFFF: 01  02  03  \n");
    assert_eq!(bytes_hex_text(&[1, 2, 3], 0xFFFF, 1), "FFFF: 01  \n10000: 02  \n10001: 03  \n");
}

#[test]
fn status_flag_setters_and_stack_address() {
    let mut status = StatusRegister::new();
    status.set_zero();
    assert!(status.is_zero());
    status.clear_zero();
    assert!(!status.is_zero());
    status.set_brk();
    assert!(status.is_brk());
    status.clear_brk();
    assert!(!status.is_brk());
    status.set_overflow();
    assert!(status.is_overflow());
    status.set_negative();
    assert!(status.is_negative());
    assert!(!status.is_expansion());
    status.set(0xFF);
    assert!(!status.is_expansion());
    let mut cpu = Cpu::new();
    assert_eq!(cpu.sp_address(), 0x01FF);
    cpu.sp = 0x42;
    assert_eq!(cpu.sp_address(), 0x0142);
}
