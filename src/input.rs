use vstd::prelude::*;

use crate::ports::{
    live_step, read_step, write_step, ControllerPorts, InvalidAddress, PortsView,
};

verus! {

/// Button masks of a controller state byte, in the order the console reads them.
pub const A: u8 = 1;
pub const B: u8 = 2;
pub const SELECT: u8 = 4;
pub const START: u8 = 8;
pub const UP: u8 = 16;
pub const DOWN: u8 = 32;
pub const LEFT: u8 = 64;
pub const RIGHT: u8 = 128;

/// Which of the keys that drive the first controller are held down.
#[derive(Clone, Copy, Debug, PartialEq, Eq, Structural)]
pub struct KeyboardSnapshot {
    pub z: bool,
    pub x: bool,
    pub return_key: bool,
    pub backspace: bool,
    pub up: bool,
    pub down: bool,
    pub left: bool,
    pub right: bool,
}

/// `val` when the key is pressed, else nothing.
pub open spec fn key_bits(pressed: bool, val: u8) -> u8 {
    if pressed {
        val
    } else {
        0
    }
}

/// The controller state for a keyboard: Z is A, X is B, Return is Start,
/// Backspace is Select, and the arrows are the pad.
pub open spec fn button_bits(keys: KeyboardSnapshot) -> u8 {
    key_bits(keys.z, A) | key_bits(keys.x, B) | key_bits(keys.return_key, START) | key_bits(
        keys.backspace,
        SELECT,
    ) | key_bits(keys.up, UP) | key_bits(keys.down, DOWN) | key_bits(keys.right, RIGHT)
        | key_bits(keys.left, LEFT)
}

/// The mask `val` if the key is pressed, else 0.
pub fn read_key(pressed: bool, val: u8) -> (r: u8)
    ensures
        r == key_bits(pressed, val),
{
    if pressed {
        val
    } else {
        0
    }
}

/// The controller state byte for the keys held down.
pub fn controller_state(keys: &KeyboardSnapshot) -> (r: u8)
    ensures
        r == button_bits(*keys),
{
    read_key(keys.z, A) | read_key(keys.x, B) | read_key(keys.return_key, START) | read_key(
        keys.backspace,
        SELECT,
    ) | read_key(keys.up, UP) | read_key(keys.down, DOWN) | read_key(keys.right, RIGHT)
        | read_key(keys.left, LEFT)
}

/// The live input adapter: the controller ports fed from the keyboard that
/// the host samples once per frame.
pub struct SdlIO {
    ports: ControllerPorts,
}

impl View for SdlIO {
    type V = PortsView;

    closed spec fn view(&self) -> PortsView {
        self.ports@
    }
}

impl SdlIO {
    /// While the strobe is high the first latch holds the live state.
    pub open spec fn wf(&self) -> bool {
        self@.strobe ==> self@.controller1 == self@.live
    }

    /// An adapter with the strobe low and nothing pressed.
    pub fn new() -> (r: SdlIO)
        ensures
            r.wf(),
            r@ == (PortsView { strobe: false, live: 0, controller1: 0, controller2: 0 }),
    {
        SdlIO { ports: ControllerPorts::new() }
    }

    /// A bus read at `idx`.
    pub fn read(&mut self, idx: u16) -> (r: Result<u8, InvalidAddress>)
        requires
            old(self).wf(),
        ensures
            final(self).wf(),
            (final(self)@, r) == read_step(old(self)@, idx),
    {
        self.ports.read(idx)
    }

    /// A bus write of `val` at `idx`.
    pub fn write(&mut self, idx: u16, val: u8) -> (r: Result<(), InvalidAddress>)
        requires
            old(self).wf(),
        ensures
            final(self).wf(),
            (final(self)@, r) == write_step(old(self)@, idx, val),
    {
        self.ports.write(idx, val)
    }

    /// Takes the keyboard as sampled for this frame; with the strobe high the
    /// first controller's latch is loaded from it.
    pub fn poll(&mut self, keys: &KeyboardSnapshot)
        requires
            old(self).wf(),
        ensures
            final(self).wf(),
            final(self)@ == live_step(old(self)@, button_bits(*keys)),
    {
        let state = controller_state(keys);
        self.ports.set_live(state);
    }
}

} // verus!
