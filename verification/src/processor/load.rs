//! The load instructions. They copy a byte or a word between registers,
//! memory and the instruction stream, and change no flag.

pub mod load16;
pub mod load8;
pub mod loadreg;
pub mod loadword;
