//! Bit-exact decoding of MIPS instruction words and of the Config and Status
//! registers of the system-control coprocessor.

pub mod bits;
pub mod cpu;
pub mod error;
