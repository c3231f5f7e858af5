//! The processor: registers and flags, the memory bus, the instruction
//! decoder, and the engine that executes instructions.

pub mod cpu;
pub mod flags;
pub mod flow;
pub mod instructions;
pub mod load;
pub mod maths;
pub mod memorybus;
pub mod registers;
