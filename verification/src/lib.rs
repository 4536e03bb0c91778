//! A CHIP-8 virtual machine: the processor state and its instruction
//! interpreter, with every instruction's effect stated over a mathematical
//! model of the machine and proved of the code that runs.

pub mod cpu;
pub mod display;
pub mod instruction;
pub mod laws;
pub mod machine;
pub mod operation_codes;
mod random;
