//! Halt: the engine stops fetching until something outside wakes it.

use vstd::prelude::*;
use crate::processor::cpu::{Cpu, CpuView};

verus! {

impl CpuView {
    /// This engine, halted.
    pub open spec fn halt(self) -> CpuView {
        CpuView { halted: true, ..self }
    }
}

impl Cpu {
    /// HALT: pauses the engine.
    pub fn halt(&mut self)
        ensures
            final(self)@ == old(self)@.halt(),
    {
        self.pause = true;
    }

    /// Whether the engine is paused.
    pub fn is_halted(&self) -> (halted: bool)
        ensures
            halted == self@.halted,
    {
        self.pause
    }
}

} // verus!
