//! The devices of the console and the buses between them.
pub mod bus;
pub mod cartridge;
pub mod cpu;
pub mod mem;
pub mod nes;
pub mod ppu;
