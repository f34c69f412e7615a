//! Core of a cycle-paced NES emulator: a 6502 interpreter, the picture
//! processing unit's state machine and memory map, the CPU address bus, the
//! controller port and NROM cartridge images.
pub mod bus;
pub mod controller;
pub mod cpu;
pub mod fault;
pub mod opcodes;
pub mod ppu;
pub mod render;
pub mod rom;
