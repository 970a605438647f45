//! A 32-bit RISC-V (RV32IM) instruction-set simulator: a paged little-endian
//! memory, a register file, and a fetch-decode-execute engine whose every step
//! is specified against a mathematical machine model.

pub mod little_endian;
pub mod page;
pub mod mmu;
pub mod memory;
pub mod register;
pub mod opcodes;
pub mod decode;
pub mod alu;
pub mod error;
pub mod machine;
pub mod cpu;
pub mod instruction;
pub mod builder;
