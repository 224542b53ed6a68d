//! Registers of the PPU.

pub mod addr;
pub mod constans;
