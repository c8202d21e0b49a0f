use vstd::prelude::*;

use crate::shift_register::{shifted, ShiftRegister8};

verus! {

/// Address of the first controller port; its lowest written bit is the strobe.
pub const CONTROLLER1_ADDR: u16 = 0x4016;

/// Address of the second controller port.
pub const CONTROLLER2_ADDR: u16 = 0x4017;

/// The bits of a controller read that no device drives. The last byte on the
/// bus is nearly always 0x40, so a read returns it with the serial bit in
/// bit 0.
pub const OPEN_BUS: u8 = 0x40;

/// A bus access at an address that the controller ports do not answer.
#[derive(Clone, Copy, Debug, PartialEq, Eq, Structural)]
pub struct InvalidAddress {
    pub address: u16,
}

/// The abstract state of the two controller ports.
pub struct PortsView {
    pub strobe: bool,
    /// The button state last sampled from the input source.
    pub live: u8,
    pub controller1: u8,
    pub controller2: u8,
}

/// What a controller read puts on the bus when the latch holds `bits`.
pub open spec fn port_value(bits: u8) -> u8 {
    OPEN_BUS | (bits & 1u8)
}

/// The strobe level that a write of `val` to the first port sets.
pub open spec fn strobe_of(val: u8) -> bool {
    val & 1u8 != 0
}

/// A bus read of the ports in state `s`: the new state and what the bus
/// gets. The first port drains one bit of its latch, or, while the strobe is
/// high, reports the live state's first bit and keeps following it. The
/// second port drains its own latch. Any other address is refused.
pub open spec fn read_step(s: PortsView, idx: u16) -> (PortsView, Result<u8, InvalidAddress>) {
    if idx == CONTROLLER1_ADDR {
        (
            PortsView {
                controller1: if s.strobe {
                    s.live
                } else {
                    s.controller1 >> 1u8
                },
                ..s
            },
            Ok(port_value(s.controller1)),
        )
    } else if idx == CONTROLLER2_ADDR {
        (PortsView { controller2: s.controller2 >> 1u8, ..s }, Ok(port_value(s.controller2)))
    } else {
        (s, Err(InvalidAddress { address: idx }))
    }
}

/// A bus write of `val` to the ports in state `s`. Bit 0 of a write to the
/// first port sets the strobe; while it is or was high the live state is
/// loaded, so that its fall latches the state of that moment. The second
/// port ignores writes. Any other address is refused.
pub open spec fn write_step(s: PortsView, idx: u16, val: u8) -> (PortsView, Result<(), InvalidAddress>) {
    if idx == CONTROLLER1_ADDR {
        (
            PortsView {
                strobe: strobe_of(val),
                controller1: if s.strobe || strobe_of(val) {
                    s.live
                } else {
                    s.controller1
                },
                ..s
            },
            Ok(()),
        )
    } else if idx == CONTROLLER2_ADDR {
        (s, Ok(()))
    } else {
        (s, Err(InvalidAddress { address: idx }))
    }
}

/// The state of the ports once the input source reports `state`: with the
/// strobe high the first latch takes it at once.
pub open spec fn live_step(s: PortsView, state: u8) -> PortsView {
    PortsView {
        live: state,
        controller1: if s.strobe {
            state
        } else {
            s.controller1
        },
        ..s
    }
}

/// The two controller ports as the bus sees them: a strobe bit and one
/// shift register per controller. While the strobe is high the first
/// register follows the live button state; when it falls, the state of
/// that moment stays latched and each read drains one bit.
pub struct ControllerPorts {
    strobe: bool,
    live: u8,
    controller1: ShiftRegister8,
    controller2: ShiftRegister8,
}

impl View for ControllerPorts {
    type V = PortsView;

    closed spec fn view(&self) -> PortsView {
        PortsView {
            strobe: self.strobe,
            live: self.live,
            controller1: self.controller1@,
            controller2: self.controller2@,
        }
    }
}

impl ControllerPorts {
    /// While the strobe is high the first register holds the live state.
    pub open spec fn wf(&self) -> bool {
        self@.strobe ==> self@.controller1 == self@.live
    }

    /// Ports with the strobe low and nothing pressed.
    pub fn new() -> (r: ControllerPorts)
        ensures
            r.wf(),
            r@ == (PortsView { strobe: false, live: 0, controller1: 0, controller2: 0 }),
    {
        ControllerPorts {
            strobe: false,
            live: 0,
            controller1: ShiftRegister8::new(0),
            controller2: ShiftRegister8::new(0),
        }
    }

    /// Takes a new live button state; with the strobe high it is loaded at once.
    pub fn set_live(&mut self, state: u8)
        requires
            old(self).wf(),
        ensures
            final(self).wf(),
            final(self)@ == live_step(old(self)@, state),
    {
        self.live = state;
        if self.strobe {
            self.controller1.load(state);
        }
    }

    /// A bus read; see `read_step`.
    pub fn read(&mut self, idx: u16) -> (r: Result<u8, InvalidAddress>)
        requires
            old(self).wf(),
        ensures
            final(self).wf(),
            (final(self)@, r) == read_step(old(self)@, idx),
    {
        if idx == CONTROLLER1_ADDR {
            let bit = self.controller1.shift();
            if self.strobe {
                self.controller1.load(self.live);
            }
            Ok(OPEN_BUS | bit)
        } else if idx == CONTROLLER2_ADDR {
            let bit = self.controller2.shift();
            Ok(OPEN_BUS | bit)
        } else {
            Err(InvalidAddress { address: idx })
        }
    }

    /// A bus write; see `write_step`.
    pub fn write(&mut self, idx: u16, val: u8) -> (r: Result<(), InvalidAddress>)
        requires
            old(self).wf(),
        ensures
            final(self).wf(),
            (final(self)@, r) == write_step(old(self)@, idx, val),
    {
        if idx == CONTROLLER1_ADDR {
            let strobe = val & 1 != 0;
            if self.strobe || strobe {
                self.controller1.load(self.live);
            }
            self.strobe = strobe;
            Ok(())
        } else if idx == CONTROLLER2_ADDR {
            Ok(())
        } else {
            Err(InvalidAddress { address: idx })
        }
    }
}

/// After `k` shifts a latch loaded with `v` holds `v` shifted down by `k`
/// bits, and nothing once all eight have left.
pub proof fn lemma_shifted(v: u8, k: nat)
    ensures
        shifted(v, k) == if k < 8 {
            v >> (k as u8)
        } else {
            0u8
        },
    decreases k,
{
    if k > 0 {
        let w: u8 = v >> 1u8;
        lemma_shifted(w, (k - 1) as nat);
        if k < 8 {
            let j: u8 = (k - 1) as u8;
            assert((v >> 1u8) >> j == v >> ((j + 1) as u8)) by (bit_vector)
                requires
                    j < 7,
            ;
        } else if k == 8 {
            assert((v >> 1u8) >> 7u8 == 0u8) by (bit_vector);
        }
    } else {
        assert(v >> 0u8 == v) by (bit_vector);
    }
}

/// Once a value `v` is latched in the first port, its reads with the
/// strobe low hand out the bits of `v` from the lowest up: when `k` reads
/// have been made, the next one returns the open-bus bits with bit `k` of
/// `v` for the first eight reads, and the open-bus constant alone on every
/// read after them, and it leaves the latch as `k + 1` reads do.
pub proof fn lemma_drain_order(s: PortsView, v: u8, k: nat)
    requires
        !s.strobe,
        s.controller1 == shifted(v, k),
    ensures
        read_step(s, CONTROLLER1_ADDR) == (
            PortsView { controller1: shifted(v, k + 1), ..s },
            Ok::<u8, InvalidAddress>(
                if k < 8 {
                    OPEN_BUS | ((v >> (k as u8)) & 1u8)
                } else {
                    OPEN_BUS
                },
            ),
        ),
{
    lemma_shifted(v, k);
    lemma_shifted(v, k + 1);
    if k < 7 {
        let j: u8 = k as u8;
        assert((v >> j) >> 1u8 == v >> ((j + 1) as u8)) by (bit_vector)
            requires
                j < 7,
        ;
    } else if k == 7 {
        assert((v >> 7u8) >> 1u8 == 0u8) by (bit_vector);
    } else {
        assert(0u8 >> 1u8 == 0u8) by (bit_vector);
        assert(OPEN_BUS | (0u8 & 1u8) == OPEN_BUS) by (bit_vector);
    }
}

/// Writing 1 and then 0 to the first port latches the live state of the
/// moment of the second write; a new live state that comes later leaves the
/// latch alone until the strobe rises again.
pub proof fn lemma_strobe_latches(s: PortsView, later: u8)
    ensures
        ({
            let latched = write_step(write_step(s, CONTROLLER1_ADDR, 1).0, CONTROLLER1_ADDR, 0).0;
            &&& !latched.strobe
            &&& latched.controller1 == s.live
            &&& live_step(latched, later).controller1 == s.live
        }),
{
    assert(1u8 & 1u8 != 0u8 && 0u8 & 1u8 == 0u8) by (bit_vector);
}

} // verus!
