//! A small 8-bit virtual machine: 4 KiB of memory, sixteen registers, a
//! sixteen-slot call stack, two timers and a 64x32 one-bit display, together
//! with the engine that fetches, decodes and carries out its instructions.

pub mod compositing;
pub mod cpu;
pub mod display;
pub mod fault;
pub mod font;
pub mod laws;
pub mod machine;
pub mod opcode;
