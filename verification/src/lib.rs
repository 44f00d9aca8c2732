//! Core of a cycle-synchronized NES emulator: a 6502 CPU, a PPU driven by
//! CPU cycle counts, and the memory bus that couples them to cartridge
//! memory and a controller.

pub mod bus;
pub mod cpu;
pub mod frame;
pub mod joypad;
pub mod laws;
pub mod opcodes;
pub mod ppu;
pub mod registers;
pub mod render;

use vstd::prelude::*;

verus! {

} // verus!
