use vstd::prelude::*;
use crate::mapper::Mapper;
use crate::nes::{controller, spec_release, spec_with_controller1, Nes};

verus! {

pub fn left<M: Mapper>(nes: &mut Nes<M>)
    ensures
        final(nes)@ == spec_with_controller1(old(nes)@, spec_release(old(nes)@.devices.devices.controller1, controller::flag::LEFT)),
{
    nes.devices.devices.controller1.clear_left();
}

pub fn right<M: Mapper>(nes: &mut Nes<M>)
    ensures
        final(nes)@ == spec_with_controller1(old(nes)@, spec_release(old(nes)@.devices.devices.controller1, controller::flag::RIGHT)),
{
    nes.devices.devices.controller1.clear_right();
}

pub fn up<M: Mapper>(nes: &mut Nes<M>)
    ensures
        final(nes)@ == spec_with_controller1(old(nes)@, spec_release(old(nes)@.devices.devices.controller1, controller::flag::UP)),
{
    nes.devices.devices.controller1.clear_up();
}

pub fn down<M: Mapper>(nes: &mut Nes<M>)
    ensures
        final(nes)@ == spec_with_controller1(old(nes)@, spec_release(old(nes)@.devices.devices.controller1, controller::flag::DOWN)),
{
    nes.devices.devices.controller1.clear_down();
}

pub fn start<M: Mapper>(nes: &mut Nes<M>)
    ensures
        final(nes)@ == spec_with_controller1(old(nes)@, spec_release(old(nes)@.devices.devices.controller1, controller::flag::START)),
{
    nes.devices.devices.controller1.clear_start();
}

pub fn select<M: Mapper>(nes: &mut Nes<M>)
    ensures
        final(nes)@ == spec_with_controller1(old(nes)@, spec_release(old(nes)@.devices.devices.controller1, controller::flag::SELECT)),
{
    nes.devices.devices.controller1.clear_select();
}

pub fn a<M: Mapper>(nes: &mut Nes<M>)
    ensures
        final(nes)@ == spec_with_controller1(old(nes)@, spec_release(old(nes)@.devices.devices.controller1, controller::flag::A)),
{
    nes.devices.devices.controller1.clear_a();
}

pub fn b<M: Mapper>(nes: &mut Nes<M>)
    ensures
        final(nes)@ == spec_with_controller1(old(nes)@, spec_release(old(nes)@.devices.devices.controller1, controller::flag::B)),
{
    nes.devices.devices.controller1.clear_b();
}

} // verus!
