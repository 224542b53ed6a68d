//! The core of a Famicom/NES emulator: an iNES image loader, the CPU's
//! memory bus, a 6502 interpreter and a trace formatter.
//!
//! Every executable function carries a contract over a mathematical model of
//! the machine (`cpu::machine::Machine`, `bus::Memory`, `rom::Cartridge`),
//! and Verus proves the code against it.

pub mod bus;
pub mod bytes;
pub mod cpu;
pub mod opcodes;
pub mod ppu;
pub mod rom;
pub mod trace;
