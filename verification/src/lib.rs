//! A verified CHIP-8 virtual machine engine.
//!
//! The crate models a fixed 8-bit instruction-set architecture: 4096 bytes of
//! addressable memory, sixteen 8-bit registers, a bounded call stack, two
//! countdown timers, and a 64x32 monochrome framebuffer with XOR sprite
//! compositing. One `Machine::tick` performs exactly one
//! fetch-decode-execute-tick cycle.

pub mod heap;
pub mod display;
pub mod instruction;
pub mod machine;
pub mod quirks;
pub mod registers;
pub mod stack;
pub mod timers;
pub mod word;

pub use crate::machine::Machine;
pub use crate::quirks::Quirks;
