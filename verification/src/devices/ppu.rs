//! The 2C02 picture processor.
pub mod invariants;
pub mod laws;
pub mod ppu;
pub mod render;
pub mod structs;
