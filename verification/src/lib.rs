//! A cycle-synchronous NTSC NES core: a 6502 CPU, a per-dot PPU, a cartridge
//! mapper, a standard gamepad, and a self-compressing rewind tape, wired
//! together by a memory bus and driven at frame granularity by a console.

pub mod bitmasks;
pub mod bus;
pub mod cartridge;
pub mod console;
pub mod controller;
pub mod cpu;
pub mod ines;
pub mod instructions;
pub mod ppu;
pub mod snapshot;
pub mod trace;
