//! A 6502 CPU model and the NES hardware around it: status register, addressing modes,
//! the instruction set with cycle counts, iNES cartridge images, mappers, the PPU and
//! the NES memory map.
use vstd::prelude::*;

pub mod address;
pub mod analyser;
pub mod assembler;
pub mod addressing_mode;
pub mod assembler_instruction;
pub mod bit;
pub mod debug;
pub mod dynamic_nes;
pub mod flag;
pub mod ines;
pub mod input;
pub mod instruction;
pub mod interrupt_vector;
pub mod machine;
pub mod mapper;
pub mod nes;
pub mod nes_headless_frame;
pub mod nes_name_table_debug;
pub mod nes_palette;
pub mod nes_specs;
pub mod operand;
pub mod ppu;
pub mod render_output;
pub mod samples;
pub mod stack_laws;
pub mod status;
pub mod text;
pub mod timing;

verus! {

/// A 16-bit address on the CPU bus.
pub type Address = u16;

/// The byte read at the program counter is not an opcode this CPU model knows.
#[derive(Clone, Copy, Debug, PartialEq, Eq, Structural)]
pub struct UnknownOpcode(pub u8);

} // verus!
