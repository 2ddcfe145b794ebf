//! A cycle-counting emulator core for the Nintendo Entertainment System.
//!
//! The crate models the 2A03 processor, the 2C02 picture processor, the
//! cartridge interface with the plain no-bank-switching mapper, and the
//! motherboard that wires them together.  Every device is a plain value whose
//! transitions are given twice: as a specification function over the value,
//! and as executable code proved to compute exactly that function.
pub mod devices;
