//! The instructions that work on the flags or on the state of the engine
//! alone: compare, set carry, halt.

pub mod comp;
pub mod halt;
pub mod scf;
