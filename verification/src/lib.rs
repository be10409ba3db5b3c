//! An interpreter core for an 8-bit accumulator machine of the 8080 class:
//! register file, flag arithmetic, opcode decoding and the
//! fetch-decode-execute engine, each with a proved contract.

pub mod alu;
pub mod cpu;
pub mod decoder;
pub mod error;
pub mod laws;
pub mod machine;
pub mod modules;
