//! Compare: the flags of a subtraction, without the subtraction.

use vstd::prelude::*;
use crate::processor::cpu::Cpu;
use crate::processor::instructions::ArithmeticTarget;

verus! {

impl Cpu {
    /// CP: sets the flags as a subtraction of the operand from the
    /// accumulator would, and leaves the accumulator as it is.
    pub fn comp_dispatch(&mut self, target: ArithmeticTarget)
        ensures
            final(self)@ == old(self)@.compare(target, false),
    {
        let subtrahend = self.arithmetic_operand(target);
        let _ = self.sub_u8(subtrahend, false);
    }
}

} // verus!
