//! Emulation core of the original monochrome Game Boy: CPU, memory map with
//! MBC1 banking, pixel-processing unit, interval timer and interrupts.

pub mod alu;
pub mod cartridge;
pub mod cpu;
pub mod emulator;
pub mod error;
pub mod gpu;
pub mod input;
pub mod instructions;
pub mod interrupt;
pub mod mmu;
pub mod timer;
