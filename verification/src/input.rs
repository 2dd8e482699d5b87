//! What the events of a frontend's window do to a running NES: closing the window stops it;
//! the arrow keys, Return, right Shift, A and B play the first controller; S, L, P and I ask
//! the frontend to save or load state or to print information. Also what the frontend decides
//! at the start of each frame.
use vstd::prelude::*;
use crate::mapper::Mapper;
use crate::nes::{controller, controller1, spec_press, spec_release, spec_with_controller1, ControllerView, Nes};

verus! {

/// The keys a frontend reports.
#[derive(Clone, Copy, Debug, PartialEq, Eq, Structural)]
pub enum Key {
    Left,
    Right,
    Up,
    Down,
    Return,
    RShift,
    A,
    B,
    S,
    L,
    P,
    I,
    Other,
}

/// Whether a key went down or came up.
#[derive(Clone, Copy, Debug, PartialEq, Eq, Structural)]
pub enum KeyState {
    Pressed,
    Released,
}

/// An event of a frontend's window.
#[derive(Clone, Copy, Debug, PartialEq, Eq, Structural)]
pub enum Event {
    /// The window was asked to close.
    CloseRequested,
    /// A key went down or came up.
    Key(Key, KeyState),
    /// Anything else the window reports.
    Other,
}

/// What an event asks of the frontend besides the controller.
#[derive(Clone, Copy, Debug, PartialEq, Eq, Structural)]
pub enum KeyRequest {
    /// Stop the emulator.
    Quit,
    /// Save the whole machine to the state file.
    SaveState,
    /// Replace the machine with the one in the state file.
    LoadState,
    /// Save the cartridge's battery-backed RAM.
    SavePersistentState,
    /// Print the frame count and a hash of the next frame.
    PrintInfo,
}

/// The controller button a key plays, if any.
pub open spec fn spec_key_button(key: Key) -> Option<u8> {
    match key {
        Key::Left => Some(controller::flag::LEFT),
        Key::Right => Some(controller::flag::RIGHT),
        Key::Up => Some(controller::flag::UP),
        Key::Down => Some(controller::flag::DOWN),
        Key::Return => Some(controller::flag::START),
        Key::RShift => Some(controller::flag::SELECT),
        Key::A => Some(controller::flag::A),
        Key::B => Some(controller::flag::B),
        _ => None,
    }
}

/// What pressing a key asks of the frontend, if anything.
pub open spec fn spec_key_request(key: Key) -> Option<KeyRequest> {
    match key {
        Key::S => Some(KeyRequest::SaveState),
        Key::L => Some(KeyRequest::LoadState),
        Key::P => Some(KeyRequest::SavePersistentState),
        Key::I => Some(KeyRequest::PrintInfo),
        _ => None,
    }
}

/// Where the button a key plays comes in the controller's serial report, which a game reads
/// from 0x4016 one button at a time after a strobe: A, B, Select, Start, Up, Down, Left, Right.
pub open spec fn spec_report_place(key: Key) -> Option<u8> {
    match key {
        Key::A => Some(0),
        Key::B => Some(1),
        Key::RShift => Some(2),
        Key::Return => Some(3),
        Key::Up => Some(4),
        Key::Down => Some(5),
        Key::Left => Some(6),
        Key::Right => Some(7),
        _ => None,
    }
}

/// Setting or clearing the one bit `p` of a byte changes bit `p` alone.
proof fn lemma_one_bit(x: u8, f: u8, p: u8, n: u8)
    by (bit_vector)
    requires
        n < 8,
        (p == 0 && f == 0x01) || (p == 1 && f == 0x02) || (p == 2 && f == 0x04) || (p == 3 && f == 0x08)
            || (p == 4 && f == 0x10) || (p == 5 && f == 0x20) || (p == 6 && f == 0x40) || (p == 7 && f == 0x80),
    ensures
        ((x | f) >> n) & 1 == if n == p { 1u8 } else { (x >> n) & 1 },
        ((x & !f) >> n) & 1 == if n == p { 0u8 } else { (x >> n) & 1 },
{
}

/// A key plays exactly one button, the one at its place in the serial report: pressing it
/// makes that place of the first controller's report read 1 and releasing it makes it read 0,
/// every other place reading as before. So Up is the fifth button a game reads and Down the
/// sixth. S, L, P, I and other keys play no button.
pub proof fn lemma_key_plays_its_report_place(c: ControllerView, key: Key, n: u8)
    requires
        n < 8,
    ensures
        spec_key_button(key) is Some <==> spec_report_place(key) is Some,
        spec_key_button(key) matches Some(b) ==> {
            let place = spec_report_place(key)->0;
            &&& (spec_press(c, b).current_state >> n) & 1 == if n == place { 1u8 } else { (c.current_state >> n) & 1 }
            &&& (spec_release(c, b).current_state >> n) & 1 == if n == place { 0u8 } else { (c.current_state >> n) & 1 }
        },
{
    if let Some(b) = spec_key_button(key) {
        lemma_one_bit(c.current_state, b, spec_report_place(key)->0, n);
    }
}

/// Presses or releases the controller button `key` plays, and says what else a pressed key
/// asks for. Released keys ask for nothing.
pub fn handle_key<M: Mapper>(nes: &mut Nes<M>, key: Key, state: KeyState) -> (r: Option<KeyRequest>)
    ensures
        match spec_key_button(key) {
            Some(button) => r is None && final(nes)@ == spec_with_controller1(
                old(nes)@,
                match state {
                    KeyState::Pressed => spec_press(old(nes)@.devices.devices.controller1, button),
                    KeyState::Released => spec_release(old(nes)@.devices.devices.controller1, button),
                },
            ),
            None => final(nes)@ == old(nes)@ && r == match state {
                KeyState::Pressed => spec_key_request(key),
                KeyState::Released => None,
            },
        },
{
    match state {
        KeyState::Pressed => match key {
            Key::Left => {
                controller1::press::left(nes);
                None
            },
            Key::Right => {
                controller1::press::right(nes);
                None
            },
            Key::Up => {
                controller1::press::up(nes);
                None
            },
            Key::Down => {
                controller1::press::down(nes);
                None
            },
            Key::Return => {
                controller1::press::start(nes);
                None
            },
            Key::RShift => {
                controller1::press::select(nes);
                None
            },
            Key::A => {
                controller1::press::a(nes);
                None
            },
            Key::B => {
                controller1::press::b(nes);
                None
            },
            Key::S => Some(KeyRequest::SaveState),
            Key::L => Some(KeyRequest::LoadState),
            Key::P => Some(KeyRequest::SavePersistentState),
            Key::I => Some(KeyRequest::PrintInfo),
            Key::Other => None,
        },
        KeyState::Released => {
            match key {
                Key::Left => controller1::release::left(nes),
                Key::Right => controller1::release::right(nes),
                Key::Up => controller1::release::up(nes),
                Key::Down => controller1::release::down(nes),
                Key::Return => controller1::release::start(nes),
                Key::RShift => controller1::release::select(nes),
                Key::A => controller1::release::a(nes),
                Key::B => controller1::release::b(nes),
                _ => {},
            }
            None
        },
    }
}

/// Handles an event of the frontend's window: a close request asks to quit and leaves the
/// machine as it is; a key is handled by `handle_key`; any other event does nothing.
pub fn handle_event<M: Mapper>(nes: &mut Nes<M>, event: Event) -> (r: Option<KeyRequest>)
    ensures
        match event {
            Event::CloseRequested => r == Some(KeyRequest::Quit) && final(nes)@ == old(nes)@,
            Event::Key(key, state) => match spec_key_button(key) {
                Some(button) => r is None && final(nes)@ == spec_with_controller1(
                    old(nes)@,
                    match state {
                        KeyState::Pressed => spec_press(old(nes)@.devices.devices.controller1, button),
                        KeyState::Released => spec_release(old(nes)@.devices.devices.controller1, button),
                    },
                ),
                None => final(nes)@ == old(nes)@ && r == match state {
                    KeyState::Pressed => spec_key_request(key),
                    KeyState::Released => None,
                },
            },
            Event::Other => r is None && final(nes)@ == old(nes)@,
        },
{
    match event {
        Event::CloseRequested => Some(KeyRequest::Quit),
        Event::Key(key, state) => handle_key(nes, key, state),
        Event::Other => None,
    }
}

/// What a frontend does at the start of a frame before running it.
#[derive(Clone, Copy, Debug, PartialEq, Eq, Structural)]
pub struct FrameAction {
    /// Stop the emulator instead of running the frame.
    pub quit: bool,
    /// Save the machine to the state file before running the frame.
    pub autosave: bool,
}

/// The decisions at the start of frame number `frame_count` (from 0): quit once the count
/// reaches `kill_after`; otherwise autosave when it is `autosave_at`.
pub fn frame_tick(frame_count: u64, kill_after: Option<u64>, autosave_at: Option<u64>) -> (r: FrameAction)
    ensures
        r.quit == (kill_after == Some(frame_count)),
        r.autosave == (!r.quit && autosave_at == Some(frame_count)),
{
    let quit = match kill_after {
        Some(k) => k == frame_count,
        None => false,
    };
    let autosave = !quit && match autosave_at {
        Some(a) => a == frame_count,
        None => false,
    };
    FrameAction { quit, autosave }
}

} // verus!
