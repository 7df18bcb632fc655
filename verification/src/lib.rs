//! A verified CHIP-8 virtual machine core: instruction decoding, the
//! execution engine over registers, memory, stack and timers, and the
//! monochrome framebuffer with XOR sprite drawing.

pub mod graphics;
pub mod input;
pub mod instruction;
pub mod timer;
pub mod util;
pub mod vm;
