//! An interpreter for the 64-bit RISC-V instruction set: the base integer
//! instructions, multiplication and division, the atomic memory operations
//! on words, the control/status register instructions, the fences and the
//! compressed encoding, on a flat little-endian memory.

pub mod alu;
pub mod bits;
pub mod compressed;
pub mod cpu;
pub mod execute;
pub mod instruction;
pub mod mmu;
pub mod semantics;
pub mod step;
