//! A verified Game-Boy-class CPU core: register file, flags, opcode decode
//! tables, the per-instruction execution engine, and the fetch-decode-execute
//! step loop.

pub mod cpu;
pub mod flags;
pub mod instruction;
pub mod memory;
pub mod registers;
