//! The arithmetic and logic instructions, with the rule by which each sets
//! the flags.

pub mod add;
pub mod and;
pub mod daa;
pub mod dec;
pub mod inc;
pub mod or;
pub mod sub;
pub mod xor;
