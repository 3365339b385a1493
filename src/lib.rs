//! A small register machine over a fixed 15-bit instruction set.
//!
//! The machine has 32768 words of memory, eight registers, an unbounded
//! stack and a program counter. Every behaviour of the interpreter is stated
//! over the mathematical model in [`isa`] and [`machine`], and proved; the
//! laws of the instruction set stand in [`laws`].
pub mod isa;
pub mod laws;
pub mod machine;
pub mod prims;

pub use isa::{ErrorKind, Operand, Operation};
pub use machine::{Event, Fault, Run, Status, VM};
