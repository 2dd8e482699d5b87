//! The NES: the CPU, its RAM, the PPU, the first controller and a cartridge, joined by the
//! CPU's memory map, and the frame loop that runs them together.
use vstd::prelude::*;
use crate::debug::InstructionWithOperand;
use crate::dynamic_nes::DynamicNes;
use crate::analyser::{spec_instruction_view, InstructionView};
use crate::machine::{lemma_execute_cycles, spec_nmi, spec_read_u16_le, spec_run, spec_run_for_cycles, spec_run_trace, spec_stack_address, Cpu, Memory, MemoryReadOnly};
use crate::mapper::{Mapper, PersistentState, PersistentStateError};
use crate::nes_name_table_debug::{spec_paint, NameTableFrame, NameTableFrameView, Scroll};
use crate::nes_specs::SCREEN_WIDTH_PX;
use crate::ppu::{
    spec_background_scanline, spec_before_vblank, spec_after_vblank, spec_debug_name_table_writes, spec_dma,
    spec_ppu_new, spec_ppu_scroll_x, spec_ppu_scroll_y, spec_read_data, spec_read_status, spec_sprite_writes,
    spec_sprite_zero, spec_write_address, spec_write_control, spec_write_mask, spec_write_scroll, spec_incremented,
    Oam, Ppu, PpuView, Scanline, ScanlineIter, SpriteZero,
};
use crate::render_output::{spec_render, RenderOutput};
use crate::stack_laws::{spec_stack_page_is_ram, spec_stack_page_looks_as_read};
use crate::timing::ntsc;
use crate::{Address, UnknownOpcode};

pub mod controller;
pub mod controller1;

verus! {

pub const RAM_BYTES: usize = 0x800;

/// A standard controller: the buttons held now, the shift register the CPU reads them
/// through one at a time, and the strobe that latches them into it.
#[derive(Clone, Copy, Debug)]
pub struct Controller {
    current_state: u8,
    shift_register: u8,
    strobe: bool,
}

pub struct ControllerView {
    pub current_state: u8,
    pub shift_register: u8,
    pub strobe: bool,
}

impl View for Controller {
    type V = ControllerView;

    closed spec fn view(&self) -> ControllerView {
        ControllerView { current_state: self.current_state, shift_register: self.shift_register, strobe: self.strobe }
    }
}

/// The controller with the buttons of `flag` held as well.
pub open spec fn spec_press(c: ControllerView, flag: u8) -> ControllerView {
    ControllerView { current_state: c.current_state | flag, ..c }
}

/// The controller with the buttons of `flag` released.
pub open spec fn spec_release(c: ControllerView, flag: u8) -> ControllerView {
    ControllerView { current_state: c.current_state & !flag, ..c }
}

impl Controller {
    fn new() -> (r: Self)
        ensures
            r@ == (ControllerView { current_state: 0, shift_register: 0, strobe: false }),
    {
        Self { current_state: 0, shift_register: 0, strobe: false }
    }

    fn set_strobe(&mut self)
        ensures
            final(self)@ == (ControllerView { shift_register: old(self)@.current_state, strobe: true, ..old(self)@ }),
    {
        self.shift_register = self.current_state;
        self.strobe = true;
    }

    fn clear_strobe(&mut self)
        ensures
            final(self)@ == (ControllerView { strobe: false, ..old(self)@ }),
    {
        self.strobe = false;
    }

    fn shift_read(&mut self) -> (r: u8)
        ensures
            r == old(self)@.shift_register & 1,
            final(self)@ == (ControllerView { shift_register: old(self)@.shift_register >> 1u8, ..old(self)@ }),
    {
        let masked = self.shift_register & 1;
        self.shift_register = self.shift_register >> 1u8;
        masked
    }

    pub fn set_a(&mut self)
        ensures
            final(self)@ == spec_press(old(self)@, controller::flag::A),
    {
        self.current_state = self.current_state | controller::flag::A;
    }

    pub fn set_b(&mut self)
        ensures
            final(self)@ == spec_press(old(self)@, controller::flag::B),
    {
        self.current_state = self.current_state | controller::flag::B;
    }

    pub fn set_select(&mut self)
        ensures
            final(self)@ == spec_press(old(self)@, controller::flag::SELECT),
    {
        self.current_state = self.current_state | controller::flag::SELECT;
    }

    pub fn set_start(&mut self)
        ensures
            final(self)@ == spec_press(old(self)@, controller::flag::START),
    {
        self.current_state = self.current_state | controller::flag::START;
    }

    pub fn set_left(&mut self)
        ensures
            final(self)@ == spec_press(old(self)@, controller::flag::LEFT),
    {
        self.current_state = self.current_state | controller::flag::LEFT;
    }

    pub fn set_right(&mut self)
        ensures
            final(self)@ == spec_press(old(self)@, controller::flag::RIGHT),
    {
        self.current_state = self.current_state | controller::flag::RIGHT;
    }

    pub fn set_up(&mut self)
        ensures
            final(self)@ == spec_press(old(self)@, controller::flag::UP),
    {
        self.current_state = self.current_state | controller::flag::UP;
    }

    pub fn set_down(&mut self)
        ensures
            final(self)@ == spec_press(old(self)@, controller::flag::DOWN),
    {
        self.current_state = self.current_state | controller::flag::DOWN;
    }

    pub fn clear_a(&mut self)
        ensures
            final(self)@ == spec_release(old(self)@, controller::flag::A),
    {
        self.current_state = self.current_state & !controller::flag::A;
    }

    pub fn clear_b(&mut self)
        ensures
            final(self)@ == spec_release(old(self)@, controller::flag::B),
    {
        self.current_state = self.current_state & !controller::flag::B;
    }

    pub fn clear_select(&mut self)
        ensures
            final(self)@ == spec_release(old(self)@, controller::flag::SELECT),
    {
        self.current_state = self.current_state & !controller::flag::SELECT;
    }

    pub fn clear_start(&mut self)
        ensures
            final(self)@ == spec_release(old(self)@, controller::flag::START),
    {
        self.current_state = self.current_state & !controller::flag::START;
    }

    pub fn clear_left(&mut self)
        ensures
            final(self)@ == spec_release(old(self)@, controller::flag::LEFT),
    {
        self.current_state = self.current_state & !controller::flag::LEFT;
    }

    pub fn clear_right(&mut self)
        ensures
            final(self)@ == spec_release(old(self)@, controller::flag::RIGHT),
    {
        self.current_state = self.current_state & !controller::flag::RIGHT;
    }

    pub fn clear_up(&mut self)
        ensures
            final(self)@ == spec_release(old(self)@, controller::flag::UP),
    {
        self.current_state = self.current_state & !controller::flag::UP;
    }

    pub fn clear_down(&mut self)
        ensures
            final(self)@ == spec_release(old(self)@, controller::flag::DOWN),
    {
        self.current_state = self.current_state & !controller::flag::DOWN;
    }
}

/// The devices on the CPU's bus.
pub struct NesDevices<M> {
    ram: [u8; RAM_BYTES],
    ppu: Ppu,
    controller1: Controller,
    mapper: M,
}

pub struct NesDevicesView<MV> {
    pub ram: Seq<u8>,
    pub ppu: PpuView,
    pub controller1: ControllerView,
    pub mapper: MV,
}

impl<M: View> View for NesDevices<M> {
    type V = NesDevicesView<M::V>;

    closed spec fn view(&self) -> NesDevicesView<M::V> {
        NesDevicesView { ram: self.ram@, ppu: self.ppu@, controller1: self.controller1@, mapper: self.mapper@ }
    }
}

/// The CPU's memory map: 2KB of RAM mirrored up to 0x1FFF; the eight PPU registers mirrored
/// up to 0x3FFF; the first controller at 0x4016; silence elsewhere up to 0x401F; the
/// cartridge above. Of the PPU registers only the status (2) and data (7) registers read
/// anything. The OAM data register (4) is answered where OAM is (`NesDevicesWithOam`);
/// here it reads 0 and ignores writes.
impl<M: Mapper> Memory for NesDevices<M> {
    open spec fn read_spec(state: NesDevicesView<M::V>, address: Address) -> (u8, NesDevicesView<M::V>) {
        if address <= 0x1FFF {
            (state.ram[address as int % RAM_BYTES as int], state)
        } else if address <= 0x3FFF {
            if address % 8 == 2 {
                let (value, ppu) = spec_read_status(state.ppu);
                (value, NesDevicesView { ppu: ppu, ..state })
            } else if address % 8 == 7 {
                let (value, ppu) = spec_read_data::<M>(state.ppu, state.mapper);
                (value, NesDevicesView { ppu: ppu, ..state })
            } else {
                (0, state)
            }
        } else if address == 0x4016 {
            (
                state.controller1.shift_register & 1,
                NesDevicesView {
                    controller1: ControllerView { shift_register: state.controller1.shift_register >> 1u8, ..state.controller1 },
                    ..state
                },
            )
        } else if address <= 0x401F {
            (0, state)
        } else {
            (M::spec_cpu_read(state.mapper, address), state)
        }
    }

    open spec fn write_spec(state: NesDevicesView<M::V>, address: Address, data: u8) -> NesDevicesView<M::V> {
        if address <= 0x1FFF {
            NesDevicesView { ram: state.ram.update(address as int % RAM_BYTES as int, data), ..state }
        } else if address <= 0x3FFF {
            if address % 8 == 0 {
                NesDevicesView { ppu: spec_write_control(state.ppu, data), ..state }
            } else if address % 8 == 1 {
                NesDevicesView { ppu: spec_write_mask(state.ppu, data), ..state }
            } else if address % 8 == 3 {
                NesDevicesView { ppu: PpuView { oam_address: data, ..state.ppu }, ..state }
            } else if address % 8 == 5 {
                NesDevicesView { ppu: spec_write_scroll(state.ppu, data), ..state }
            } else if address % 8 == 6 {
                NesDevicesView { ppu: spec_write_address(state.ppu, data), ..state }
            } else if address % 8 == 7 {
                NesDevicesView {
                    mapper: M::spec_ppu_write(state.mapper, state.ppu.current_vram_address, data),
                    ppu: spec_incremented(state.ppu),
                    ..state
                }
            } else {
                state
            }
        } else if address == 0x4016 {
            NesDevicesView {
                controller1: if data & 1 != 0 {
                    ControllerView { shift_register: state.controller1.current_state, strobe: true, ..state.controller1 }
                } else {
                    ControllerView { strobe: false, ..state.controller1 }
                },
                ..state
            }
        } else if address <= 0x401F {
            state
        } else {
            NesDevicesView { mapper: M::spec_cpu_write(state.mapper, address, data), ..state }
        }
    }

    fn read_u8(&mut self, address: Address) -> (r: u8) {
        if address <= 0x1FFF {
            self.ram[address as usize % RAM_BYTES]
        } else if address <= 0x3FFF {
            match address % 8 {
                2 => self.ppu.read_status(),
                7 => self.ppu.read_data(&self.mapper),
                _ => 0,
            }
        } else if address == 0x4016 {
            self.controller1.shift_read()
        } else if address <= 0x401F {
            0
        } else {
            self.mapper.cpu_read_u8(address)
        }
    }

    fn read_u8_zero_page(&mut self, address: u8) -> (r: u8) {
        self.ram[address as usize]
    }

    fn read_u8_stack(&mut self, stack_pointer: u8) -> (r: u8) {
        self.ram[0x0100 + stack_pointer as usize]
    }

    fn write_u8(&mut self, address: Address, data: u8) {
        if address <= 0x1FFF {
            self.ram[address as usize % RAM_BYTES] = data;
        } else if address <= 0x3FFF {
            match address % 8 {
                0 => self.ppu.write_control(data),
                1 => self.ppu.write_mask(data),
                3 => self.ppu.write_oam_address(data),
                5 => self.ppu.write_scroll(data),
                6 => self.ppu.write_address(data),
                7 => self.ppu.write_data(&mut self.mapper, data),
                _ => {},
            }
        } else if address == 0x4016 {
            if data & 1 != 0 {
                self.controller1.set_strobe();
            } else {
                self.controller1.clear_strobe();
            }
        } else if address <= 0x401F {
        } else {
            self.mapper.cpu_write_u8(address, data);
        }
    }

    fn write_u8_zero_page(&mut self, address: u8, data: u8) {
        self.ram[address as usize] = data;
    }

    fn write_u8_stack(&mut self, stack_pointer: u8, data: u8) {
        self.ram[0x0100 + stack_pointer as usize] = data;
    }
}

/// A read that changes nothing: RAM, or the cartridge; the registers read 0.
pub open spec fn spec_read_u8_read_only_devices<M: Mapper>(state: NesDevicesView<M::V>, address: Address) -> u8 {
    if address <= 0x1FFF {
        state.ram[address as int % RAM_BYTES as int]
    } else if address <= 0x401F {
        0
    } else {
        M::spec_cpu_read(state.mapper, address)
    }
}

impl<M: Mapper> MemoryReadOnly for NesDevices<M> {
    open spec fn spec_read_u8_read_only(&self, address: Address) -> u8 {
        spec_read_u8_read_only_devices::<M>(self@, address)
    }

    open spec fn spec_peek(state: NesDevicesView<M::V>, address: Address) -> u8 {
        spec_read_u8_read_only_devices::<M>(state, address)
    }

    proof fn lemma_read_only_is_peek(&self, address: Address) {
    }

    fn read_u8_read_only(&self, address: Address) -> (r: u8) {
        if address <= 0x1FFF {
            self.ram[address as usize % RAM_BYTES]
        } else if address <= 0x401F {
            0
        } else {
            self.mapper.cpu_read_u8_read_only(address)
        }
    }
}

/// The devices on the CPU's bus together with object attribute memory, which the CPU
/// reaches through the OAM data register (0x2004) and OAM DMA (0x4014).
pub struct NesDevicesWithOam<M> {
    devices: NesDevices<M>,
    oam: Oam,
}

pub struct NesDevicesWithOamView<MV> {
    pub devices: NesDevicesView<MV>,
    pub oam: Seq<u8>,
}

impl<M: View> View for NesDevicesWithOam<M> {
    type V = NesDevicesWithOamView<M::V>;

    closed spec fn view(&self) -> NesDevicesWithOamView<M::V> {
        NesDevicesWithOamView { devices: self.devices@, oam: self.oam@ }
    }
}

impl<M: Mapper> Memory for NesDevicesWithOam<M> {
    open spec fn read_spec(state: NesDevicesWithOamView<M::V>, address: Address) -> (u8, NesDevicesWithOamView<M::V>) {
        if address == 0x2004 {
            let ppu = state.devices.ppu;
            (
                state.oam[ppu.oam_address as int],
                NesDevicesWithOamView {
                    devices: NesDevicesView { ppu: PpuView { oam_address: ppu.oam_address.wrapping_add(1), ..ppu }, ..state.devices },
                    ..state
                },
            )
        } else {
            let (value, devices) = NesDevices::<M>::read_spec(state.devices, address);
            (value, NesDevicesWithOamView { devices: devices, ..state })
        }
    }

    open spec fn write_spec(state: NesDevicesWithOamView<M::V>, address: Address, data: u8) -> NesDevicesWithOamView<M::V> {
        if address == 0x4014 {
            let (oam, devices) = spec_dma::<NesDevices<M>>(state.oam, state.devices, data);
            NesDevicesWithOamView { devices: devices, oam: oam }
        } else if address == 0x2004 {
            let ppu = state.devices.ppu;
            NesDevicesWithOamView {
                devices: NesDevicesView { ppu: PpuView { oam_address: ppu.oam_address.wrapping_add(1), ..ppu }, ..state.devices },
                oam: state.oam.update(ppu.oam_address as int, data),
            }
        } else {
            NesDevicesWithOamView { devices: NesDevices::<M>::write_spec(state.devices, address, data), ..state }
        }
    }

    fn read_u8(&mut self, address: Address) -> (r: u8) {
        if address == 0x2004 {
            self.devices.ppu.read_oam_data(&self.oam)
        } else {
            self.devices.read_u8(address)
        }
    }

    fn write_u8(&mut self, address: Address, data: u8) {
        if address == 0x4014 {
            self.oam.dma(&mut self.devices, data);
        } else if address == 0x2004 {
            self.devices.ppu.write_oam_data(data, &mut self.oam);
        } else {
            self.devices.write_u8(address, data);
        }
    }

    fn read_u8_zero_page(&mut self, address: u8) -> (r: u8) {
        self.devices.read_u8_zero_page(address)
    }

    fn read_u8_stack(&mut self, stack_pointer: u8) -> (r: u8) {
        self.devices.read_u8_stack(stack_pointer)
    }

    fn write_u8_zero_page(&mut self, address: u8, data: u8) {
        self.devices.write_u8_zero_page(address, data);
    }

    fn write_u8_stack(&mut self, stack_pointer: u8, data: u8) {
        self.devices.write_u8_stack(stack_pointer, data);
    }
}

impl<M: Mapper> MemoryReadOnly for NesDevicesWithOam<M> {
    open spec fn spec_read_u8_read_only(&self, address: Address) -> u8 {
        spec_read_u8_read_only_devices::<M>(self@.devices, address)
    }

    open spec fn spec_peek(state: NesDevicesWithOamView<M::V>, address: Address) -> u8 {
        spec_read_u8_read_only_devices::<M>(state.devices, address)
    }

    proof fn lemma_read_only_is_peek(&self, address: Address) {
    }

    fn read_u8_read_only(&self, address: Address) -> (r: u8) {
        self.devices.read_u8_read_only(address)
    }
}

/// The views of a run of decoded instructions.
pub open spec fn spec_instruction_views(trace: Seq<InstructionWithOperand>) -> Seq<InstructionView> {
    trace.map_values(|i: InstructionWithOperand| spec_instruction_view(i))
}

/// Runs the CPU against memory for a number of cycles.
pub trait RunForCycles {
    /// Whether the runner keeps the instructions it runs.
    spec fn spec_records() -> bool;

    /// The instructions the runner has kept.
    spec fn spec_recorded(&self) -> Seq<InstructionView>;

    /// Runs instructions until at least `num_cycles` cycles have been spent, stopping at an
    /// unknown opcode. A runner that keeps instructions adds those of the run.
    fn run_for_cycles<M: Memory + MemoryReadOnly>(&mut self, cpu: &mut Cpu, memory: &mut M, num_cycles: u32) -> (r: Result<(), UnknownOpcode>)
        requires
            num_cycles as int + 8 <= usize::MAX,
        ensures
            match spec_run::<M>(*old(cpu), old(memory)@, num_cycles as nat) {
                Ok((c, s)) => r is Ok && *final(cpu) == c && final(memory)@ == s,
                Err((e, c, s)) => r == Err::<(), UnknownOpcode>(e) && *final(cpu) == c && final(memory)@ == s,
            },
            Self::spec_records() ==> final(self).spec_recorded() == old(self).spec_recorded()
                + spec_run_trace::<M>(*old(cpu), old(memory)@, 0, num_cycles as nat),
    ;
}

/// Runs the CPU and nothing else.
pub struct RunForCyclesRegular;

/// Runs the CPU and keeps, for each instruction it is about to execute, the instruction
/// decoded from memory.
pub struct RunForCyclesDebug {
    pub trace: Vec<InstructionWithOperand>,
}

impl RunForCyclesDebug {
    pub fn new() -> (r: Self)
        ensures
            r.trace@.len() == 0,
    {
        Self { trace: Vec::new() }
    }
}

impl RunForCycles for RunForCyclesRegular {
    open spec fn spec_records() -> bool {
        false
    }

    open spec fn spec_recorded(&self) -> Seq<InstructionView> {
        Seq::empty()
    }

    fn run_for_cycles<M: Memory + MemoryReadOnly>(&mut self, cpu: &mut Cpu, memory: &mut M, num_cycles: u32) -> (r: Result<(), UnknownOpcode>) {
        match cpu.run_for_cycles(memory, num_cycles as usize) {
            Ok(_count) => Ok(()),
            Err(e) => Err(e),
        }
    }
}

impl RunForCycles for RunForCyclesDebug {
    open spec fn spec_records() -> bool {
        true
    }

    open spec fn spec_recorded(&self) -> Seq<InstructionView> {
        spec_instruction_views(self.trace@)
    }

    fn run_for_cycles<M: Memory + MemoryReadOnly>(&mut self, cpu: &mut Cpu, memory: &mut M, num_cycles: u32) -> (r: Result<(), UnknownOpcode>) {
        let ghost cpu0 = *cpu;
        let ghost state0 = memory@;
        let ghost recorded0 = self.spec_recorded();
        let mut count: usize = 0;
        let n = num_cycles as usize;
        while count < n
            invariant
                n == num_cycles as usize,
                count < n + 8,
                n + 8 <= usize::MAX,
                cpu0 == *old(cpu),
                state0 == old(memory)@,
                spec_run_for_cycles::<M>(*cpu, memory@, count as nat, n as nat)
                    == spec_run_for_cycles::<M>(cpu0, state0, 0, n as nat),
                recorded0 == old(self).spec_recorded(),
                recorded0 + spec_run_trace::<M>(cpu0, state0, 0, n as nat)
                    == self.spec_recorded() + spec_run_trace::<M>(*cpu, memory@, count as nat, n as nat),
            decreases n + 8 - count,
        {
            proof {
                let (opcode, s1) = M::read_spec(memory@, cpu.pc);
                lemma_execute_cycles::<M>(opcode, *cpu, s1);
            }
            let ghost before = *cpu;
            let ghost state_before = memory@;
            let ghost recorded_before = self.spec_recorded();
            let ghost decoded = crate::analyser::spec_decoded(|a: Address| M::spec_peek(state_before, a), before.pc);
            proof {
                assert forall|a: Address| #[trigger] memory.spec_read_u8_read_only(a) == M::spec_peek(memory@, a) by {
                    memory.lemma_read_only_is_peek(a);
                }
            }
            match InstructionWithOperand::next(cpu, memory) {
                Ok(instruction_with_operand) => {
                    proof {
                        let v = spec_instruction_view(instruction_with_operand);
                        let d = decoded.unwrap();
                        assert(v.operand =~= d.operand);
                        assert(v == d);
                    }
                    self.trace.push(instruction_with_operand);
                    proof {
                        assert(spec_instruction_views(self.trace@) =~= recorded_before.push(decoded.unwrap()));
                    }
                },
                Err(_) => {},
            }
            let ghost decoded_seq = match decoded {
                Some(i) => seq![i],
                None => Seq::<InstructionView>::empty(),
            };
            assert(self.spec_recorded() =~= recorded_before + decoded_seq);
            match cpu.step(memory) {
                Err(e) => {
                    assert(spec_run_for_cycles::<M>(before, state_before, count as nat, n as nat)
                        == Err::<(Cpu, M::V, nat), (UnknownOpcode, Cpu, M::V)>((e, *cpu, memory@)));
                    assert(spec_run_trace::<M>(before, state_before, count as nat, n as nat) == decoded_seq);
                    assert(recorded_before + decoded_seq + Seq::<InstructionView>::empty() =~= recorded_before + decoded_seq);
                    return Err(e);
                },
                Ok(cycles) => {
                    proof {
                        let rest = spec_run_trace::<M>(*cpu, memory@, (count + cycles) as nat, n as nat);
                        assert(spec_run_trace::<M>(before, state_before, count as nat, n as nat) == decoded_seq + rest);
                        assert(recorded_before + (decoded_seq + rest) =~= (recorded_before + decoded_seq) + rest);
                    }
                    count += cycles as usize;
                },
            }
        }
        assert(self.spec_recorded() + Seq::<InstructionView>::empty() =~= self.spec_recorded());
        Ok(())
    }
}

/// A NES with cartridge `M`.
pub struct Nes<M> {
    cpu: Cpu,
    devices: NesDevicesWithOam<M>,
}

pub struct NesView<MV> {
    pub cpu: Cpu,
    pub devices: NesDevicesWithOamView<MV>,
}

impl<M: View> View for Nes<M> {
    type V = NesView<M::V>;

    closed spec fn view(&self) -> NesView<M::V> {
        NesView { cpu: self.cpu, devices: self.devices@ }
    }
}

/// The NES with the PPU replaced.
pub open spec fn spec_with_ppu<MV>(n: NesView<MV>, ppu: PpuView) -> NesView<MV> {
    NesView { devices: NesDevicesWithOamView { devices: NesDevicesView { ppu: ppu, ..n.devices.devices }, ..n.devices }, ..n }
}

/// The NES with the first controller replaced.
pub open spec fn spec_with_controller1<MV>(n: NesView<MV>, controller1: ControllerView) -> NesView<MV> {
    NesView { devices: NesDevicesWithOamView { devices: NesDevicesView { controller1: controller1, ..n.devices.devices }, ..n.devices }, ..n }
}

/// The NES with the cartridge replaced.
pub open spec fn spec_with_mapper<MV>(n: NesView<MV>, mapper: MV) -> NesView<MV> {
    NesView { devices: NesDevicesWithOamView { devices: NesDevicesView { mapper: mapper, ..n.devices.devices }, ..n.devices }, ..n }
}

/// A NES at power on, before the CPU has read the reset vector.
pub open spec fn spec_power_on<MV>(mapper: MV) -> NesView<MV> {
    NesView {
        cpu: Cpu { pc: 0, sp: 0xff, acc: 0, x: 0, y: 0, status: crate::status::Register { raw: crate::flag::INTERRUPT_DISABLE } },
        devices: NesDevicesWithOamView {
            devices: NesDevicesView {
                ram: Seq::new(RAM_BYTES as nat, |_i: int| 0u8),
                ppu: spec_ppu_new(),
                controller1: ControllerView { current_state: 0, shift_register: 0, strobe: false },
                mapper: mapper,
            },
            oam: Seq::new(crate::ppu::OAM_BYTES as nat, |_i: int| 0u8),
        },
    }
}

/// A new NES: powered on, with the program counter loaded from the reset vector.
pub open spec fn spec_nes_new<M: Mapper>(mapper: M::V) -> NesView<M::V> {
    let n = spec_power_on(mapper);
    let (pc, devices) = spec_read_u16_le::<NesDevicesWithOam<M>>(n.devices, crate::interrupt_vector::START_LO);
    NesView { cpu: Cpu { pc: pc, ..n.cpu }, devices: devices }
}

/// Running the CPU of a NES for `num_cycles` cycles.
pub open spec fn spec_run_nes<M: Mapper>(n: NesView<M::V>, num_cycles: u32) -> Result<NesView<M::V>, (UnknownOpcode, NesView<M::V>)> {
    match spec_run::<NesDevicesWithOam<M>>(n.cpu, n.devices, num_cycles as nat) {
        Ok((c, d)) => Ok(NesView { cpu: c, devices: d }),
        Err((e, c, d)) => Err((e, NesView { cpu: c, devices: d })),
    }
}

/// Everything a frame changes: the NES, the renderer, the optional name table picture, and
/// the instructions the CPU ran, as decoded before each step.
pub struct FrameState<MV, OV> {
    pub nes: NesView<MV>,
    pub pixels: OV,
    pub name_table_frame: Option<NameTableFrameView>,
    pub trace: Seq<InstructionView>,
}

/// The state of an optional name table picture.
pub open spec fn spec_name_table_frame_view(f: Option<NameTableFrame>) -> Option<NameTableFrameView> {
    match f {
        Some(frame) => Some(frame@),
        None => None,
    }
}

/// The frame state with the NES replaced.
pub open spec fn spec_with_nes<MV, OV>(st: FrameState<MV, OV>, nes: NesView<MV>) -> FrameState<MV, OV> {
    FrameState { nes: nes, ..st }
}

/// The instructions a run of the CPU of `n` for `num_cycles` cycles steps through.
pub open spec fn spec_run_nes_trace<M: Mapper>(n: NesView<M::V>, num_cycles: u32) -> Seq<InstructionView> {
    spec_run_trace::<NesDevicesWithOam<M>>(n.cpu, n.devices, 0, num_cycles as nat)
}

/// Running the CPU for `num_cycles` cycles within a frame: the NES after the run, with the
/// instructions of the run added to the trace.
pub open spec fn spec_frame_run<M: Mapper, O: RenderOutput>(st: FrameState<M::V, O::V>, num_cycles: u32)
    -> Result<FrameState<M::V, O::V>, (UnknownOpcode, FrameState<M::V, O::V>)>
{
    let trace = st.trace + spec_run_nes_trace::<M>(st.nes, num_cycles);
    match spec_run_nes::<M>(st.nes, num_cycles) {
        Ok(n) => Ok(FrameState { nes: n, trace: trace, ..st }),
        Err((e, n)) => Err((e, FrameState { nes: n, trace: trace, ..st })),
    }
}

/// One visible scanline of a frame: the scroll is noted in the name table picture, the CPU
/// runs for a scanline, the background scanline is drawn, and after a sprite zero hit the
/// CPU runs on for the rest of that scanline.
#[verifier::opaque]
pub open spec fn spec_frame_scanline<M: Mapper, O: RenderOutput>(st: FrameState<M::V, O::V>, sprite_zero: SpriteZero, scanline: u8)
    -> Result<FrameState<M::V, O::V>, (UnknownOpcode, FrameState<M::V, O::V>)>
{
    let ppu = st.nes.devices.devices.ppu;
    let name_table_frame = match st.name_table_frame {
        Some(f) => Some(NameTableFrameView {
            scroll_by_scanline: f.scroll_by_scanline.update(
                scanline as int,
                Scroll { x: spec_ppu_scroll_x(ppu), y: spec_ppu_scroll_y(ppu) },
            ),
            ..f
        }),
        None => None,
    };
    let st1 = FrameState { name_table_frame: name_table_frame, ..st };
    match spec_frame_run::<M, O>(st1, ntsc::APPROX_CPU_CYCLES_PER_SCANLINE) {
        Err(x) => Err(x),
        Ok(sa) => {
            let n1 = sa.nes;
            let (hit, ppu2, writes) = spec_background_scanline::<M>(
                n1.devices.devices.ppu,
                scanline,
                sprite_zero,
                n1.devices.devices.mapper,
            );
            let st2 = FrameState {
                nes: spec_with_ppu(n1, ppu2),
                pixels: spec_render::<O>(sa.pixels, writes),
                ..sa
            };
            match hit {
                None => Ok(st2),
                Some(x) => {
                    let cycles = ((SCREEN_WIDTH_PX - x) / ntsc::NUM_PPU_CYCLES_PER_CPU_CYCLE as int) as u32;
                    spec_frame_run::<M, O>(st2, cycles)
                },
            }
        },
    }
}

/// The first `k` visible scanlines of a frame.
pub open spec fn spec_frame_scanlines<M: Mapper, O: RenderOutput>(st: FrameState<M::V, O::V>, sprite_zero: SpriteZero, k: nat)
    -> Result<FrameState<M::V, O::V>, (UnknownOpcode, FrameState<M::V, O::V>)>
    decreases k,
{
    if k == 0 {
        Ok(st)
    } else {
        match spec_frame_scanlines::<M, O>(st, sprite_zero, (k - 1) as nat) {
            Ok(s) => spec_frame_scanline::<M, O>(s, sprite_zero, (k - 1) as u8),
            Err(e) => Err(e),
        }
    }
}

/// Once a scanline has stopped at an unknown opcode, the rest of the frame does not run.
proof fn lemma_frame_scanlines_stop<M: Mapper, O: RenderOutput>(st: FrameState<M::V, O::V>, sprite_zero: SpriteZero, k: nat, n: nat)
    requires
        k <= n,
        spec_frame_scanlines::<M, O>(st, sprite_zero, k) is Err,
    ensures
        spec_frame_scanlines::<M, O>(st, sprite_zero, n) == spec_frame_scanlines::<M, O>(st, sprite_zero, k),
    decreases n - k,
{
    if k < n {
        lemma_frame_scanlines_stop::<M, O>(st, sprite_zero, k, (n - 1) as nat);
    }
}

/// The end of a frame: the post-render scanline of CPU time, the NMI if the PPU asks for it,
/// and vertical blank.
#[verifier::opaque]
pub open spec fn spec_frame_end<M: Mapper, O: RenderOutput>(st: FrameState<M::V, O::V>)
    -> Result<FrameState<M::V, O::V>, (UnknownOpcode, FrameState<M::V, O::V>)>
{
    match spec_frame_run::<M, O>(st, ntsc::APPROX_CPU_CYCLES_PER_SCANLINE) {
        Err(x) => Err(x),
        Ok(sb) => {
            let n3 = sb.nes;
            let n4 = if n3.devices.devices.ppu.vblank_nmi {
                let (c, dev) = spec_nmi::<NesDevicesWithOam<M>>(n3.cpu, n3.devices);
                NesView { cpu: c, devices: dev }
            } else {
                n3
            };
            let n5 = spec_with_ppu(n4, spec_before_vblank(n4.devices.devices.ppu));
            match spec_frame_run::<M, O>(spec_with_nes(sb, n5), ntsc::APPROX_CPU_CYCLES_PER_VBLANK) {
                Err(x) => Err(x),
                Ok(sc) => Ok(spec_with_nes(sc, spec_with_ppu(sc.nes, spec_after_vblank(sc.nes.devices.devices.ppu)))),
            }
        },
    }
}

/// A frame: the pre-render scanline of CPU time; the sprites drawn; the name table picture
/// drawn; sprite zero found; the 240 visible scanlines; the end of the frame. An unknown
/// opcode stops the frame where it is met.
#[verifier::opaque]
pub open spec fn spec_run_for_frame<M: Mapper, O: RenderOutput>(st: FrameState<M::V, O::V>)
    -> Result<FrameState<M::V, O::V>, (UnknownOpcode, FrameState<M::V, O::V>)>
{
    match spec_frame_run::<M, O>(st, ntsc::APPROX_CPU_CYCLES_PER_SCANLINE) {
        Err(x) => Err(x),
        Ok(sa) => {
            let d = sa.nes.devices;
            let ppu = d.devices.ppu;
            let mapper = d.devices.mapper;
            let st1 = FrameState {
                pixels: spec_render::<O>(sa.pixels, spec_sprite_writes::<M>(ppu, d.oam, mapper)),
                name_table_frame: match sa.name_table_frame {
                    Some(f) => Some(spec_paint(f, spec_debug_name_table_writes::<M>(ppu, mapper))),
                    None => None,
                },
                ..sa
            };
            let sprite_zero = spec_sprite_zero::<M>(ppu, d.oam, mapper);
            match spec_frame_scanlines::<M, O>(st1, sprite_zero, 240) {
                Err(e) => Err(e),
                Ok(st2) => spec_frame_end::<M, O>(st2),
            }
        },
    }
}

/// The instructions a frame that ended as `expected` ran.
pub open spec fn spec_frame_trace<MV, OV>(expected: Result<FrameState<MV, OV>, (UnknownOpcode, FrameState<MV, OV>)>) -> Seq<InstructionView> {
    match expected {
        Ok(st) => st.trace,
        Err((_e, st)) => st.trace,
    }
}

/// Whether a frame that ended with `r` left the NES, renderer and picture as `expected` says.
pub open spec fn spec_frame_outcome<MV, OV>(
    expected: Result<FrameState<MV, OV>, (UnknownOpcode, FrameState<MV, OV>)>,
    r: Result<(), UnknownOpcode>,
    nes: NesView<MV>,
    pixels: OV,
    name_table_frame: Option<NameTableFrameView>,
) -> bool {
    match expected {
        Ok(st) => r is Ok && nes == st.nes && pixels == st.pixels && name_table_frame == st.name_table_frame,
        Err((e, st)) => r == Err::<(), UnknownOpcode>(e) && nes == st.nes && pixels == st.pixels
            && name_table_frame == st.name_table_frame,
    }
}

impl<M: View> Nes<M> {
    /// A copy of this NES with `mapper`, a copy of its cartridge, in it.
    pub(crate) fn clone_with_mapper(&self, mapper: M) -> (r: Nes<M>)
        requires
            mapper@ == self@.devices.devices.mapper,
        ensures
            r@ == self@,
    {
        Nes {
            cpu: self.cpu,
            devices: NesDevicesWithOam {
                devices: NesDevices {
                    ram: self.devices.devices.ram,
                    ppu: self.devices.devices.ppu,
                    controller1: self.devices.devices.controller1,
                    mapper,
                },
                oam: self.devices.oam,
            },
        }
    }

    pub fn ppu(&self) -> (r: &Ppu)
        ensures
            r@ == self@.devices.devices.ppu,
    {
        &self.devices.devices.ppu
    }

    pub fn controller1_mut(&mut self) -> (r: &mut Controller)
        ensures
            (*r)@ == old(self)@.devices.devices.controller1,
            final(self)@ == spec_with_controller1(old(self)@, (*final(r))@),
    {
        &mut self.devices.devices.controller1
    }

    pub fn mapper(&self) -> (r: &M)
        ensures
            r@ == self@.devices.devices.mapper,
    {
        &self.devices.devices.mapper
    }

    pub fn devices_with_oam(&self) -> (r: &NesDevicesWithOam<M>)
        ensures
            r@ == self@.devices,
    {
        &self.devices
    }
}

impl<M: Mapper> Nes<M> {
    fn start(&mut self)
        ensures
            ({
                let (pc, devices) = spec_read_u16_le::<NesDevicesWithOam<M>>(old(self)@.devices, crate::interrupt_vector::START_LO);
                final(self)@ == NesView { cpu: Cpu { pc: pc, ..old(self)@.cpu }, devices: devices }
            }),
    {
        self.cpu.start(&mut self.devices);
    }

    pub fn new(mapper: M) -> (r: Self)
        ensures
            r@ == spec_nes_new::<M>(mapper@),
    {
        let mut nes = Nes {
            cpu: Cpu::new(),
            devices: NesDevicesWithOam {
                devices: NesDevices { ram: [0; RAM_BYTES], ppu: Ppu::new(), controller1: Controller::new(), mapper },
                oam: Oam::new(),
            },
        };
        assert(nes.devices.devices.ram@ =~= Seq::new(RAM_BYTES as nat, |_i: int| 0u8));
        assert(nes@ == spec_power_on(mapper@));
        nes.start();
        nes
    }

    pub fn run_for_frame<O: RenderOutput>(&mut self, pixels: &mut O, name_table_frame: &mut Option<NameTableFrame>) -> (r: Result<(), UnknownOpcode>)
        ensures
            *old(name_table_frame) is None ==> *final(name_table_frame) is None,
            spec_frame_outcome(
                spec_run_for_frame::<M, O>(FrameState {
                    nes: old(self)@,
                    pixels: old(pixels)@,
                    name_table_frame: spec_name_table_frame_view(*old(name_table_frame)),
                    trace: Seq::empty(),
                }),
                r,
                final(self)@,
                final(pixels)@,
                spec_name_table_frame_view(*final(name_table_frame)),
            ),
    {
        let mut run = RunForCyclesRegular;
        self.run_for_frame_general(&mut run, pixels, name_table_frame)
    }

    /// Runs a frame as `run_for_frame` does, and hands back the instructions the CPU was
    /// about to execute, in order: the instruction decoded at the program counter before each
    /// step of the frame.
    pub fn run_for_frame_debug<O: RenderOutput>(
        &mut self,
        pixels: &mut O,
        name_table_frame: &mut Option<NameTableFrame>,
    ) -> (r: (Result<(), UnknownOpcode>, Vec<InstructionWithOperand>))
        ensures
            *old(name_table_frame) is None ==> *final(name_table_frame) is None,
            spec_frame_outcome(
                spec_run_for_frame::<M, O>(FrameState {
                    nes: old(self)@,
                    pixels: old(pixels)@,
                    name_table_frame: spec_name_table_frame_view(*old(name_table_frame)),
                    trace: Seq::empty(),
                }),
                r.0,
                final(self)@,
                final(pixels)@,
                spec_name_table_frame_view(*final(name_table_frame)),
            ),
            spec_instruction_views(r.1@) == spec_frame_trace(
                spec_run_for_frame::<M, O>(FrameState {
                    nes: old(self)@,
                    pixels: old(pixels)@,
                    name_table_frame: spec_name_table_frame_view(*old(name_table_frame)),
                    trace: Seq::empty(),
                }),
            ),
    {
        let mut run = RunForCyclesDebug::new();
        assert(run.spec_recorded() =~= Seq::<InstructionView>::empty());
        let r = self.run_for_frame_general(&mut run, pixels, name_table_frame);
        (r, run.trace)
    }

    pub fn clone_dynamic_nes(&self) -> (r: DynamicNes)
        ensures
            M::spec_holds(r, self@),
    {
        M::clone_dynamic_nes(self)
    }

    pub fn save_persistent_state(&self) -> (r: Option<PersistentState>)
        ensures
            match M::spec_saved_ram(self@.devices.devices.mapper) {
                Some(data) => r matches Some(PersistentState::BatteryBackedRam(saved)) && saved@ == data,
                None => r is None,
            },
    {
        self.devices.devices.mapper.save_persistent_state()
    }

    pub fn load_persistent_state(&mut self, persistent_state: &PersistentState) -> (r: Result<(), PersistentStateError>)
        requires
            M::spec_accepts_persistent_state(persistent_state),
        ensures
            match persistent_state {
                PersistentState::BatteryBackedRam(data) => match M::spec_loaded(old(self)@.devices.devices.mapper, data@) {
                    Some(s) => r is Ok && final(self)@ == spec_with_mapper(old(self)@, s),
                    None => r == Err::<(), PersistentStateError>(PersistentStateError::InvalidStateForMapper)
                        && final(self)@ == old(self)@,
                },
            },
    {
        self.devices.devices.mapper.load_persistent_state(persistent_state)
    }

    fn run_frame_scanline<R: RunForCycles, O: RenderOutput>(
        &mut self,
        run: &mut R,
        pixels: &mut O,
        name_table_frame: &mut Option<NameTableFrame>,
        scanline: Scanline,
        sprite_zero: &SpriteZero,
        Ghost(trace): Ghost<Seq<InstructionView>>,
    ) -> (r: Result<(), UnknownOpcode>)
        requires
            R::spec_records() ==> trace == old(run).spec_recorded(),
        ensures
            *old(name_table_frame) is None ==> *final(name_table_frame) is None,
            ({
                let expected = spec_frame_scanline::<M, O>(
                    FrameState {
                        nes: old(self)@,
                        pixels: old(pixels)@,
                        name_table_frame: spec_name_table_frame_view(*old(name_table_frame)),
                        trace: trace,
                    },
                    *sprite_zero,
                    scanline.spec_index(),
                );
                &&& spec_frame_outcome(expected, r, final(self)@, final(pixels)@, spec_name_table_frame_view(*final(name_table_frame)))
                &&& R::spec_records() ==> final(run).spec_recorded() == spec_frame_trace(expected)
            }),
    {
        reveal(spec_frame_scanline);
        let scanline_index = scanline.index();
        match name_table_frame {
            Some(f) => {
                let scroll_x = self.devices.devices.ppu.scroll_x();
                let scroll_y = self.devices.devices.ppu.scroll_y();
                f.set_scroll(scanline_index, scroll_x, scroll_y);
            },
            None => {},
        }
        match run.run_for_cycles(&mut self.cpu, &mut self.devices, ntsc::APPROX_CPU_CYCLES_PER_SCANLINE) {
            Err(e) => {
                return Err(e);
            },
            Ok(()) => {},
        }
        let hit = self.devices.devices.ppu.render_background_scanline(scanline, sprite_zero, &self.devices.devices.mapper, pixels);
        match hit {
            Some(sprite_zero_hit) => {
                let pixels_after_sprite_zero_hit = SCREEN_WIDTH_PX - sprite_zero_hit.screen_pixel_x() as u16;
                let approx_cpu_cycles_after_sprite_zero_hit = pixels_after_sprite_zero_hit as u32 / ntsc::NUM_PPU_CYCLES_PER_CPU_CYCLE;
                run.run_for_cycles(&mut self.cpu, &mut self.devices, approx_cpu_cycles_after_sprite_zero_hit)
            },
            None => Ok(()),
        }
    }

    /// The post-render scanline and vertical blank.
    fn run_frame_end<R: RunForCycles, O: RenderOutput>(&mut self, run: &mut R, Ghost(st): Ghost<FrameState<M::V, O::V>>) -> (r: Result<(), UnknownOpcode>)
        requires
            st.nes == old(self)@,
            R::spec_records() ==> st.trace == old(run).spec_recorded(),
        ensures
            ({
                let expected = spec_frame_end::<M, O>(st);
                &&& spec_frame_outcome(expected, r, final(self)@, st.pixels, st.name_table_frame)
                &&& R::spec_records() ==> final(run).spec_recorded() == spec_frame_trace(expected)
            }),
    {
        proof { reveal(spec_frame_end); }
        let ghost r1 = spec_frame_run::<M, O>(st, ntsc::APPROX_CPU_CYCLES_PER_SCANLINE);
        // post-render scanline
        match run.run_for_cycles(&mut self.cpu, &mut self.devices, ntsc::APPROX_CPU_CYCLES_PER_SCANLINE) {
            Err(e) => {
                assert(r1 is Err);
                return Err(e);
            },
            Ok(()) => {},
        }
        let ghost sb = r1->Ok_0;
        assert(self@ == sb.nes);
        assert(R::spec_records() ==> run.spec_recorded() == sb.trace);
        if self.devices.devices.ppu.is_vblank_nmi_enabled() {
            self.cpu.nmi(&mut self.devices);
        }
        self.devices.devices.ppu.before_vblank();
        let ghost r2 = spec_frame_run::<M, O>(spec_with_nes(sb, self@), ntsc::APPROX_CPU_CYCLES_PER_VBLANK);
        match run.run_for_cycles(&mut self.cpu, &mut self.devices, ntsc::APPROX_CPU_CYCLES_PER_VBLANK) {
            Err(e) => {
                assert(r2 is Err);
                return Err(e);
            },
            Ok(()) => {},
        }
        assert(r2 is Ok);
        self.devices.devices.ppu.after_vblank();
        Ok(())
    }

    fn run_frame_scanlines<R: RunForCycles, O: RenderOutput>(
        &mut self,
        run: &mut R,
        pixels: &mut O,
        name_table_frame: &mut Option<NameTableFrame>,
        sprite_zero: &SpriteZero,
        Ghost(trace): Ghost<Seq<InstructionView>>,
    ) -> (r: Result<(), UnknownOpcode>)
        requires
            R::spec_records() ==> trace == old(run).spec_recorded(),
        ensures
            *old(name_table_frame) is None ==> *final(name_table_frame) is None,
            ({
                let expected = spec_frame_scanlines::<M, O>(
                    FrameState {
                        nes: old(self)@,
                        pixels: old(pixels)@,
                        name_table_frame: spec_name_table_frame_view(*old(name_table_frame)),
                        trace: trace,
                    },
                    *sprite_zero,
                    240,
                );
                &&& spec_frame_outcome(expected, r, final(self)@, final(pixels)@, spec_name_table_frame_view(*final(name_table_frame)))
                &&& R::spec_records() ==> final(run).spec_recorded() == spec_frame_trace(expected)
            }),
    {
        let ghost st1 = FrameState::<M::V, O::V> {
            nes: self@,
            pixels: pixels@,
            name_table_frame: spec_name_table_frame_view(*name_table_frame),
            trace: trace,
        };
        let ghost mut tk = trace;
        let mut scanlines = ScanlineIter::new();
        let mut k: u16 = 0;
        while k < 240
            invariant
                k <= 240,
                scanlines.spec_position() == k,
                *old(name_table_frame) is None ==> *name_table_frame is None,
                st1 == (FrameState::<M::V, O::V> {
                    nes: old(self)@,
                    pixels: old(pixels)@,
                    name_table_frame: spec_name_table_frame_view(*old(name_table_frame)),
                    trace: trace,
                }),
                R::spec_records() ==> tk == run.spec_recorded(),
                spec_frame_scanlines::<M, O>(st1, *sprite_zero, k as nat) == Ok::<FrameState<M::V, O::V>, (UnknownOpcode, FrameState<M::V, O::V>)>(
                    FrameState { nes: self@, pixels: pixels@, name_table_frame: spec_name_table_frame_view(*name_table_frame), trace: tk },
                ),
            decreases 240 - k,
        {
            let scanline = scanlines.next().unwrap();
            let ghost next = spec_frame_scanline::<M, O>(
                FrameState { nes: self@, pixels: pixels@, name_table_frame: spec_name_table_frame_view(*name_table_frame), trace: tk },
                *sprite_zero,
                scanline.spec_index(),
            );
            match self.run_frame_scanline(run, pixels, name_table_frame, scanline, sprite_zero, Ghost(tk)) {
                Err(e) => {
                    proof {
                        lemma_frame_scanlines_stop::<M, O>(st1, *sprite_zero, (k + 1) as nat, 240);
                    }
                    return Err(e);
                },
                Ok(()) => {},
            }
            proof {
                tk = spec_frame_trace(next);
            }
            k += 1;
        }
        Ok(())
    }

    #[verifier::rlimit(40)]
    pub fn run_for_frame_general<R: RunForCycles, O: RenderOutput>(
        &mut self,
        run: &mut R,
        pixels: &mut O,
        name_table_frame: &mut Option<NameTableFrame>,
    ) -> (r: Result<(), UnknownOpcode>)
        ensures
            *old(name_table_frame) is None ==> *final(name_table_frame) is None,
            ({
                let expected = spec_run_for_frame::<M, O>(FrameState {
                    nes: old(self)@,
                    pixels: old(pixels)@,
                    name_table_frame: spec_name_table_frame_view(*old(name_table_frame)),
                    trace: old(run).spec_recorded(),
                });
                &&& spec_frame_outcome(expected, r, final(self)@, final(pixels)@, spec_name_table_frame_view(*final(name_table_frame)))
                &&& R::spec_records() ==> final(run).spec_recorded() == spec_frame_trace(expected)
            }),
    {
        reveal(spec_run_for_frame);
        let ghost trace0 = run.spec_recorded();
        let ghost nes0 = self@;
        // pre-render scanline
        match run.run_for_cycles(&mut self.cpu, &mut self.devices, ntsc::APPROX_CPU_CYCLES_PER_SCANLINE) {
            Err(e) => {
                return Err(e);
            },
            Ok(()) => {},
        }
        let ghost trace1 = trace0 + spec_run_nes_trace::<M>(nes0, ntsc::APPROX_CPU_CYCLES_PER_SCANLINE);
        self.devices.devices.ppu.render_sprites(&self.devices.devices.mapper, &self.devices.oam, pixels);
        match name_table_frame {
            Some(f) => {
                self.devices.devices.ppu.debug_render_name_table_frame(&self.devices.devices.mapper, f);
            },
            None => {},
        }
        let sprite_zero = self.devices.devices.ppu.sprite_zero(&self.devices.oam, &self.devices.devices.mapper);
        let ghost st1 = FrameState::<M::V, O::V> {
            nes: self@,
            pixels: pixels@,
            name_table_frame: spec_name_table_frame_view(*name_table_frame),
            trace: trace1,
        };
        match self.run_frame_scanlines(run, pixels, name_table_frame, &sprite_zero, Ghost(trace1)) {
            Err(e) => {
                return Err(e);
            },
            Ok(()) => {},
        }
        let ghost st2 = spec_frame_scanlines::<M, O>(st1, sprite_zero, 240)->Ok_0;
        self.run_frame_end::<R, O>(run, Ghost(st2))
    }
}

/// RAM reads back what was written to it, through any of its mirrors.
pub proof fn lemma_ram_write_read<M: Mapper>(state: NesDevicesView<M::V>, address: Address, mirror: Address, data: u8)
    requires
        state.ram.len() == RAM_BYTES,
        address <= 0x1FFF,
        mirror <= 0x1FFF,
        address % 0x800 == mirror % 0x800,
    ensures
        NesDevices::<M>::read_spec(NesDevices::<M>::write_spec(state, address, data), mirror).0 == data,
{
}

/// The states of the NES bus whose RAM is in place: the 2KB that the CPU's first 8KB mirror.
pub open spec fn spec_ram_in_place<M: Mapper>() -> spec_fn(NesDevicesWithOamView<M::V>) -> bool {
    |s: NesDevicesWithOamView<M::V>| s.devices.ram.len() == RAM_BYTES
}

/// The NES bus is RAM on the stack page, and a read-only look there sees what a read returns,
/// so the stack laws hold of it.
pub proof fn lemma_nes_stack_page_is_ram<M: Mapper>()
    ensures
        spec_stack_page_is_ram::<NesDevicesWithOam<M>>(spec_ram_in_place::<M>()),
        spec_stack_page_looks_as_read::<NesDevicesWithOam<M>>(spec_ram_in_place::<M>()),
{
    let inv = spec_ram_in_place::<M>();
    assert forall|s: NesDevicesWithOamView<M::V>, sp: u8, d: u8|
        inv(s) implies inv(#[trigger] NesDevicesWithOam::<M>::write_spec(s, spec_stack_address(sp), d)) by {
        assert(spec_stack_address(sp) <= 0x1FF);
    }
    assert forall|s: NesDevicesWithOamView<M::V>, sp: u8, d: u8|
        inv(s) implies (#[trigger] NesDevicesWithOam::<M>::read_spec(
            NesDevicesWithOam::<M>::write_spec(s, spec_stack_address(sp), d),
            spec_stack_address(sp),
        )).0 == d by {
        assert(spec_stack_address(sp) <= 0x1FF);
    }
    assert forall|s: NesDevicesWithOamView<M::V>, sp: u8, sp2: u8, d: u8|
        inv(s) && sp != sp2 implies (#[trigger] NesDevicesWithOam::<M>::read_spec(
            NesDevicesWithOam::<M>::write_spec(s, spec_stack_address(sp), d),
            spec_stack_address(sp2),
        )).0 == NesDevicesWithOam::<M>::read_spec(s, spec_stack_address(sp2)).0 by {
        assert(spec_stack_address(sp) <= 0x1FF && spec_stack_address(sp2) <= 0x1FF);
        assert(spec_stack_address(sp) != spec_stack_address(sp2));
    }
    assert forall|s: NesDevicesWithOamView<M::V>, a: Address, sp: u8|
        inv(s) implies (#[trigger] NesDevicesWithOam::<M>::read_spec(
            NesDevicesWithOam::<M>::read_spec(s, a).1,
            spec_stack_address(sp),
        )).0 == NesDevicesWithOam::<M>::read_spec(s, spec_stack_address(sp)).0 by {
        assert(spec_stack_address(sp) <= 0x1FF);
    }
    assert forall|s: NesDevicesWithOamView<M::V>, sp: u8|
        inv(s) implies #[trigger] NesDevicesWithOam::<M>::spec_peek(s, spec_stack_address(sp))
            == NesDevicesWithOam::<M>::read_spec(s, spec_stack_address(sp)).0 by {
        assert(spec_stack_address(sp) <= 0x1FF);
    }
}

/// Shifting a byte right once more.
proof fn lemma_shift_right_once_more(s: u8, i: u8)
    by (bit_vector)
    requires
        i < 8,
    ensures
        (s >> i) >> 1u8 == s >> ((i + 1) as u8),
        s >> 0u8 == s,
        1u8 & 1u8 == 1u8,
        0u8 & 1u8 == 0u8,
{
}

/// The controller after `n` reads of its serial port.
pub open spec fn spec_after_reads(c: ControllerView, n: nat) -> ControllerView
    decreases n,
{
    if n == 0 {
        c
    } else {
        let c1 = spec_after_reads(c, (n - 1) as nat);
        ControllerView { shift_register: c1.shift_register >> 1u8, ..c1 }
    }
}

/// Once the strobe has latched the buttons, the `n`th read of the serial port (from 0)
/// reports button `n`: A, B, Select, Start, Up, Down, Left, Right.
pub proof fn lemma_controller_serial_read<M: Mapper>(state: NesDevicesView<M::V>, n: u8)
    requires
        n < 8,
    ensures
        ({
            let latched = NesDevices::<M>::write_spec(NesDevices::<M>::write_spec(state, 0x4016, 1), 0x4016, 0);
            let c = spec_after_reads(latched.controller1, n as nat);
            let (value, _s) = NesDevices::<M>::read_spec(NesDevicesView { controller1: c, ..latched }, 0x4016);
            value == (state.controller1.current_state >> n) & 1
        }),
    decreases n,
{
    lemma_shift_right_once_more(0, 0);
    let latched = NesDevices::<M>::write_spec(NesDevices::<M>::write_spec(state, 0x4016, 1), 0x4016, 0);
    assert(latched.controller1.shift_register == state.controller1.current_state);
    lemma_after_reads_shift(latched.controller1, n);
}

/// `n` reads shift the register right `n` times.
proof fn lemma_after_reads_shift(c: ControllerView, n: u8)
    requires
        n <= 8,
    ensures
        spec_after_reads(c, n as nat).shift_register == c.shift_register >> n,
        spec_after_reads(c, n as nat).current_state == c.current_state,
    decreases n,
{
    if n == 0 {
        lemma_shift_right_once_more(c.shift_register, 0);
    } else {
        lemma_after_reads_shift(c, (n - 1) as u8);
        lemma_shift_right_once_more(c.shift_register, (n - 1) as u8);
    }
}

} // verus!
