//! A virtual machine for the CHIP-8 instruction set: decoder, executor and
//! the scheduling decisions of the run loop, with machine-checked contracts.

pub mod alu;
pub mod decode;
pub mod display;
pub mod execute;
pub mod keypad;
pub mod laws;
pub mod machine;
pub mod memory;
pub mod registers;
pub mod run;
