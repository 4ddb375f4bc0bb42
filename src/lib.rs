//! Execution core of a 65C816 console emulator: the word and flag
//! primitives, a 24-bit memory bus, the CPU interpreter and the cartridge
//! image loader with its LoROM mapper.

pub mod cartridge;
pub mod cpu;
pub mod rom;
