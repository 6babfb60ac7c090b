//! Instruction-processing core of an 8-bit handheld game console: a CPU
//! executing a fixed instruction set against a byte-addressable memory map
//! with memory-mapped peripherals (timers, joypad, interrupt controller).

pub mod cpu;
pub mod header;
pub mod instructions;
pub mod joypad;
pub mod memory;
pub mod registers;
pub mod timers;
