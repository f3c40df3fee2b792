//! A 16-bit fixed-width instruction-set architecture (RISC16) and its emulator.
//!
//! The machine has eight general-purpose 16-bit registers, a 64 KiB
//! byte-addressable little-endian memory, a 16-bit program counter and four
//! condition flags (carry, overflow, zero, signed).  Instructions are 16 bits
//! wide; the major class sits in the top nibble and a low-order function field
//! selects the instruction within a class.
//!
//! Every component carries a contract: the decoder is proved to follow the
//! encoding table, the executor to follow the instruction semantics, and the
//! instruction loop to be the reflexive-transitive closure of single steps.

pub mod alu;
pub mod cpu;
pub mod decode;
pub mod execute;
pub mod flags;
pub mod instruction;
pub mod laws;
pub mod loader;
pub mod memory;
pub mod options;
pub mod run;
pub mod utils;
