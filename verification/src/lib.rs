//! A CHIP-8 virtual machine core: memory, registers, call stack, frame
//! buffer, timers and keypad latch, driven one cycle at a time by a host.

pub mod chip8;
pub mod cycle;
pub mod fault;
pub mod instruction;
pub mod laws;
pub mod machine;
mod random;
