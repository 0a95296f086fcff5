//! A small CHIP-8 style virtual CPU: an instruction decoder and an execution
//! engine over a flat 4096-byte memory, sixteen 8-bit registers, a bounded
//! call stack and a 64x32 monochrome framebuffer.

pub mod inst;
pub mod mem;
pub mod ops;
pub mod proc;
pub mod reg;
