//! The instruction-execution core of an emulator for the 8-bit processor of
//! the Game Boy.
//!
//! The engine fetches opcode bytes from a flat 64 KiB memory, decodes them
//! and executes them against a register file and that memory, with the
//! exact effect on every register and every flag bit. Each executable
//! function states that effect over a mathematical view of the engine, and
//! Verus proves that the code has it.

pub mod processor;
