//! A CHIP-8 virtual machine core: instruction decoding and execution,
//! the call stack, and a collision-reporting monochrome framebuffer.
pub mod arch;
pub mod cpu;
pub mod error;
pub mod framebuffer;
pub mod instruction;
pub mod semantics;
pub mod stack;
pub mod theorems;
