//! Model of the current program status register (CPSR).
//!
//! The low five bits select the processor mode; bit 6 masks FIQ and bit 7
//! masks IRQ.

use vstd::prelude::*;

verus! {

/// Processor modes, identified by the five-bit mode field of the status
/// register.
#[derive(Clone, Copy, Debug, PartialEq, Eq, Structural)]
pub enum Mode {
    /// User mode
    User,
    /// FIQ mode
    Fiq,
    /// IRQ mode
    Irq,
    /// Supervisor mode
    Supervisor,
    /// Abort mode
    Abort,
    /// Undefined mode
    Undefined,
    /// System mode
    System,
}

impl Mode {
    /// The five-bit encoding of this mode.
    pub open spec fn spec_bits(self) -> u8 {
        match self {
            Mode::User => 0x10,
            Mode::Fiq => 0x11,
            Mode::Irq => 0x12,
            Mode::Supervisor => 0x13,
            Mode::Abort => 0x17,
            Mode::Undefined => 0x1B,
            Mode::System => 0x1F,
        }
    }

    /// The mode selected by the low five bits of `bits`, if they are a
    /// recognized encoding.
    pub open spec fn spec_from_bits(bits: u8) -> Option<Mode> {
        let field = bits & 0x1F;
        if field == 0x10 {
            Some(Mode::User)
        } else if field == 0x11 {
            Some(Mode::Fiq)
        } else if field == 0x12 {
            Some(Mode::Irq)
        } else if field == 0x13 {
            Some(Mode::Supervisor)
        } else if field == 0x17 {
            Some(Mode::Abort)
        } else if field == 0x1B {
            Some(Mode::Undefined)
        } else if field == 0x1F {
            Some(Mode::System)
        } else {
            None
        }
    }

    /// The five-bit encoding of this mode.
    pub fn bits(self) -> (r: u8)
        ensures
            r == self.spec_bits(),
    {
        match self {
            Mode::User => 0x10,
            Mode::Fiq => 0x11,
            Mode::Irq => 0x12,
            Mode::Supervisor => 0x13,
            Mode::Abort => 0x17,
            Mode::Undefined => 0x1B,
            Mode::System => 0x1F,
        }
    }

    /// Convert from raw bits; only the low five bits are read.
    pub fn from_bits(bits: u8) -> (r: Option<Mode>)
        ensures
            r == Mode::spec_from_bits(bits),
            r matches Some(m) ==> m.spec_bits() == bits & 0x1F,
    {
        let field = bits & 0x1F;
        if field == 0x10 {
            Some(Mode::User)
        } else if field == 0x11 {
            Some(Mode::Fiq)
        } else if field == 0x12 {
            Some(Mode::Irq)
        } else if field == 0x13 {
            Some(Mode::Supervisor)
        } else if field == 0x17 {
            Some(Mode::Abort)
        } else if field == 0x1B {
            Some(Mode::Undefined)
        } else if field == 0x1F {
            Some(Mode::System)
        } else {
            None
        }
    }
}

/// The value of the status register, as read from or written to the
/// hardware.
#[derive(Clone, Copy, Debug)]
pub struct Cpsr {
    bits: u32,
}

impl Cpsr {
    /// The raw register value.
    pub closed spec fn spec_bits(self) -> u32 {
        self.bits
    }

    /// Create from raw bits.
    pub fn from_bits(bits: u32) -> (r: Self)
        ensures
            r.spec_bits() == bits,
    {
        Self { bits }
    }

    /// Get raw bits.
    pub fn bits(&self) -> (r: u32)
        ensures
            r == self.spec_bits(),
    {
        self.bits
    }

    /// The processor mode selected by the low five bits, if recognized.
    pub fn mode(&self) -> (r: Option<Mode>)
        ensures
            r == Mode::spec_from_bits((self.spec_bits() & 0x1F) as u8),
    {
        Mode::from_bits((self.bits & 0x1F) as u8)
    }

    /// True if the IRQ mask bit (bit 7) is set.
    pub fn irq_disabled(&self) -> (r: bool)
        ensures
            r == (self.spec_bits() & 0x80 != 0),
    {
        (self.bits & 0x80) != 0
    }

    /// True if the FIQ mask bit (bit 6) is set.
    pub fn fiq_disabled(&self) -> (r: bool)
        ensures
            r == (self.spec_bits() & 0x40 != 0),
    {
        (self.bits & 0x40) != 0
    }
}

} // verus!
