//! Core of a DMG Game Boy emulator: SM83 interpreter, memory bus, MBC1
//! mapper, interrupt protocol, timer, LCD state machine and background
//! renderer, each with a machine-checked contract.

pub mod utils;
pub mod registers;
pub mod alu;
pub mod cartridge;
pub mod mapper;
pub mod bus;
pub mod interrupts;
pub mod machine;
pub mod cpu;
pub mod timer;
pub mod tile;
pub mod lcd;
pub mod ppu;
pub mod emu;
pub mod licensee;
