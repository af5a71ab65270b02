//! The emulator's error conditions.

use vstd::prelude::*;

verus! {

/// The fatal and recorded conditions of the emulator.
#[derive(Clone, Copy, Debug, PartialEq, Eq, Structural)]
pub enum EmuError {
    /// The CPU fetched an undefined opcode, or STOP.
    InvalidOpcode(u8),
    /// The cartridge header names a banking controller that is not modelled.
    UnsupportedMbc(u8),
    /// A program wrote a value above 0xF1 to the OAM DMA register.
    InvalidDmaSource(u8),
}

} // verus!
