//! A verified core for an 8-bit console emulator built around a 6502-style
//! CPU and its companion picture processing unit (PPU): cartridge layout,
//! instruction decode, CPU execution, the memory bus, and the PPU pixel
//! pipeline.  The host presentation layer lives outside this crate and
//! talks to it through plain values.

pub mod errors;
pub mod opcodes;
pub mod ppu;
pub mod bus;
pub mod cpu;
pub mod emu;
pub mod rom;
