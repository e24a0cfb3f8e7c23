//! A 6502-family CPU emulator core for a home-console emulator: instruction
//! decode/execute engine, addressing-mode resolver, bus address decoding with
//! region mirroring, and a cartridge mapper abstraction.

pub mod bus;
pub mod cartridges;
pub mod common;
pub mod cpu;
pub mod ppu;
pub mod mappers;
pub mod memory;
