//! Interrupt sources, their request bits, vectors and priority.

use vstd::prelude::*;

verus! {

/// The five interrupt sources, in priority order (V-Blank first).
#[derive(Clone, Copy, Debug, PartialEq, Eq, Structural)]
pub enum Interrupt {
    Vblank,
    LCDStat,
    Timer,
    Serial,
    Joypad,
}

/// The IF/IE bit of an interrupt source.
pub open spec fn interrupt_bit(i: Interrupt) -> u8 {
    match i {
        Interrupt::Vblank => 0x01,
        Interrupt::LCDStat => 0x02,
        Interrupt::Timer => 0x04,
        Interrupt::Serial => 0x08,
        Interrupt::Joypad => 0x10,
    }
}

/// The address the CPU jumps to when servicing an interrupt source.
pub open spec fn interrupt_vector(i: Interrupt) -> u16 {
    match i {
        Interrupt::Vblank => 0x40,
        Interrupt::LCDStat => 0x48,
        Interrupt::Timer => 0x50,
        Interrupt::Serial => 0x58,
        Interrupt::Joypad => 0x60,
    }
}

/// The highest-priority source whose bit is set in `pending`, if any.
pub open spec fn highest_pending(pending: u8) -> Option<Interrupt> {
    if pending & 0x01 != 0 {
        Some(Interrupt::Vblank)
    } else if pending & 0x02 != 0 {
        Some(Interrupt::LCDStat)
    } else if pending & 0x04 != 0 {
        Some(Interrupt::Timer)
    } else if pending & 0x08 != 0 {
        Some(Interrupt::Serial)
    } else if pending & 0x10 != 0 {
        Some(Interrupt::Joypad)
    } else {
        None
    }
}

impl Interrupt {
    pub fn bit(self) -> (r: u8)
        ensures
            r == interrupt_bit(self),
    {
        match self {
            Interrupt::Vblank => 0x01,
            Interrupt::LCDStat => 0x02,
            Interrupt::Timer => 0x04,
            Interrupt::Serial => 0x08,
            Interrupt::Joypad => 0x10,
        }
    }

    pub fn vector(self) -> (r: u16)
        ensures
            r == interrupt_vector(self),
    {
        match self {
            Interrupt::Vblank => 0x40,
            Interrupt::LCDStat => 0x48,
            Interrupt::Timer => 0x50,
            Interrupt::Serial => 0x58,
            Interrupt::Joypad => 0x60,
        }
    }

    /// Picks the source to service among the bits of `pending` (IE & IF).
    pub fn highest(pending: u8) -> (r: Option<Interrupt>)
        ensures
            r == highest_pending(pending),
    {
        if pending & 0x01 != 0 {
            Some(Interrupt::Vblank)
        } else if pending & 0x02 != 0 {
            Some(Interrupt::LCDStat)
        } else if pending & 0x04 != 0 {
            Some(Interrupt::Timer)
        } else if pending & 0x08 != 0 {
            Some(Interrupt::Serial)
        } else if pending & 0x10 != 0 {
            Some(Interrupt::Joypad)
        } else {
            None
        }
    }
}

} // verus!
