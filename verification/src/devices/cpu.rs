//! The 2A03 processor: a 6502 without decimal mode.
pub mod alu;
pub mod cpu;
pub mod laws;
pub mod structs;
pub mod trace;
pub mod utils;
