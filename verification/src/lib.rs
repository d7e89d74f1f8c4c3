//! A verified interpreter core for a 16-bit register machine, together
//! with a small CHIP-8 machine that shares the crate.
//!
//! The register machine has eight general registers, a program counter,
//! a condition register and 2^16 words of memory. `machine` defines what
//! an instruction does as a function on mathematical state; `vm` is the
//! executable engine, proved to compute exactly that function; `laws`
//! states properties of the cycle.

pub mod bits;
pub mod chip8;
pub mod console;
pub mod flags;
pub mod image;
pub mod instruction;
pub mod laws;
pub mod machine;
pub mod opcode;
pub mod prelude;
pub mod register;
pub mod trap;
pub mod vm;
