//! The leaf components of the machine: its register file and its memory.

pub mod memory;
pub mod registers;
