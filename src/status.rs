use vstd::prelude::*;

verus! {

/// The processor status register: six live flags held in one byte.
///
/// The two break patterns are never live flags; they are spliced into the
/// byte only when it is pushed to the stack.
#[derive(Clone, Copy, Debug, PartialEq, Eq, Structural)]
pub struct Status {
    bits: u8,
}

impl View for Status {
    type V = u8;

    closed spec fn view(&self) -> u8 {
        self.bits
    }
}

/// `p` with the bits of `flag` set when `on` holds, cleared otherwise.
pub open spec fn with_flag(p: u8, flag: u8, on: bool) -> u8 {
    if on {
        p | flag
    } else {
        p & !flag
    }
}

/// `p` with Zero and Negative describing `v`.
pub open spec fn with_zn(p: u8, v: u8) -> u8 {
    with_flag(with_flag(p, Status::Z, v == 0), Status::N, v & 0x80 == 0x80)
}

/// Whether every bit of `flag` is set in `p`.
pub open spec fn has_flag(p: u8, flag: u8) -> bool {
    p & flag == flag
}

impl Status {
    /// Carry.
    pub const C: u8 = 0x01;
    /// Zero.
    pub const Z: u8 = 0x02;
    /// Interrupt disable.
    pub const I: u8 = 0x04;
    /// Decimal mode.
    pub const D: u8 = 0x08;
    /// Overflow.
    pub const V: u8 = 0x40;
    /// Negative.
    pub const N: u8 = 0x80;
    /// Break pattern of a hardware interrupt.
    pub const INTERRUPT_B: u8 = 0x20;
    /// Break pattern of a software break or a status push.
    pub const INSTRUCTION_B: u8 = 0x30;

    pub fn empty() -> (r: Status)
        ensures
            r@ == 0,
    {
        Status { bits: 0 }
    }

    pub fn from_bits(bits: u8) -> (r: Status)
        ensures
            r@ == bits,
    {
        Status { bits }
    }

    pub fn bits(&self) -> (r: u8)
        ensures
            r == self@,
    {
        self.bits
    }

    pub fn contains(&self, flag: u8) -> (r: bool)
        ensures
            r == has_flag(self@, flag),
    {
        self.bits & flag == flag
    }

    pub fn set(&mut self, flag: u8, on: bool)
        ensures
            final(self)@ == with_flag(old(self)@, flag, on),
    {
        if on {
            self.bits = self.bits | flag;
        } else {
            self.bits = self.bits & !flag;
        }
    }

    pub fn insert(&mut self, flag: u8)
        ensures
            final(self)@ == old(self)@ | flag,
    {
        self.bits = self.bits | flag;
    }

    pub fn remove(&mut self, flag: u8)
        ensures
            final(self)@ == old(self)@ & !flag,
    {
        self.bits = self.bits & !flag;
    }

    /// Sets Zero and Negative from the value `v`.
    pub fn set_zn(&mut self, v: u8)
        ensures
            final(self)@ == with_zn(old(self)@, v),
    {
        self.set(Self::Z, v == 0);
        self.set(Self::N, v & 0x80 == 0x80);
    }
}

impl Default for Status {
    fn default() -> (r: Status)
        ensures
            r@ == 0,
    {
        Status { bits: 0 }
    }
}

} // verus!
