//! A CHIP-8 virtual machine: memory, register file, call stack, decoder and
//! the instruction handlers, each with a contract over a mathematical model
//! of the machine state.

pub mod error;
pub mod cpu;
pub mod decode;
pub mod memory;
pub mod display;
pub mod keyslog;
pub mod isa;
pub mod instructions;
pub mod emu8;
pub mod laws;
