//! Core of a cycle-accurate emulator for an ARM7TDMI-based handheld console.
//!
//! The crate models the system fabric around the CPU: the address-decoded
//! memory map with its mirroring rules, the IO register file with per-address
//! read/write masks and side-effect callbacks, the interrupt controller, the
//! hardware timers, the DMA engine, the serial EEPROM save device, the keypad,
//! and the scanline renderer. The CPU core itself and the host toolkit
//! (window, audio, input, files) are external collaborators driven from a
//! thin unverified shell.

use vstd::prelude::*;

pub mod bit_util;
pub mod gba;
pub mod io;
pub mod mmu;
pub mod rom;

verus! {

/// A fatal setup error: the console cannot start without its program images.
pub enum GBAError {
    RomLoadError(String),
}

} // verus!
