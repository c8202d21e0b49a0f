use vstd::prelude::*;

verus! {

/// An 8-bit parallel-in, serial-out latch. A load replaces all eight bits;
/// each shift hands out the lowest bit and moves the rest down, filling
/// with zeros, so that after eight shifts only zeros come out.
#[derive(Clone, Copy, Debug, PartialEq, Eq, Structural)]
pub struct ShiftRegister8 {
    bits: u8,
}

/// The latch after `n` shifts, starting from `bits`.
pub open spec fn shifted(bits: u8, n: nat) -> u8
    decreases n,
{
    if n == 0 {
        bits
    } else {
        shifted(bits >> 1u8, (n - 1) as nat)
    }
}

impl View for ShiftRegister8 {
    type V = u8;

    closed spec fn view(&self) -> u8 {
        self.bits
    }
}

impl ShiftRegister8 {
    /// A latch holding `init`.
    pub fn new(init: u8) -> (r: ShiftRegister8)
        ensures
            r@ == init,
    {
        ShiftRegister8 { bits: init }
    }

    /// Replaces the latched bits with `val`.
    pub fn load(&mut self, val: u8)
        ensures
            final(self)@ == val,
    {
        self.bits = val;
    }

    /// Hands out the lowest bit (0 or 1) and shifts the rest down by one.
    pub fn shift(&mut self) -> (r: u8)
        ensures
            r == old(self)@ & 1,
            final(self)@ == old(self)@ >> 1u8,
    {
        let r = self.bits & 1;
        self.bits = self.bits >> 1;
        r
    }

    /// The bits currently latched.
    pub fn bits(&self) -> (r: u8)
        ensures
            r == self@,
    {
        self.bits
    }
}

} // verus!
