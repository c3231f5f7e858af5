//! Bitwise OR into the accumulator.

use vstd::prelude::*;
use crate::processor::cpu::{Cpu, CpuView};
use crate::processor::instructions::ArithmeticTarget;
use crate::processor::maths::xor::or_flags;
use crate::processor::registers::RegistersView;

verus! {

impl CpuView {
    /// This engine after the accumulator is OR-ed with the operand.
    pub open spec fn or(self, target: ArithmeticTarget) -> CpuView {
        let result = self.registers.a | self.operand(target);
        self.past_operand(target).with_registers(
            RegistersView { a: result, f: or_flags(self.registers.f, result), ..self.registers },
        )
    }
}

impl Cpu {
    /// OR: adds to the accumulator the bits of the operand.
    pub fn or_dispatch(&mut self, target: ArithmeticTarget)
        ensures
            final(self)@ == old(self)@.or(target),
    {
        let value = self.arithmetic_operand(target);
        self.registers.a |= value;
        if self.registers.a == 0 {
            self.registers.f.set_zero();
        } else {
            self.registers.f.unset_zero();
        }
        self.registers.f.unset_h();
        self.registers.f.unset_carry();
    }
}

proof fn lemma_or_bits(x: u8, y: u8)
    by (bit_vector)
    ensures
        x | x == x,
        x | 0 == x,
        (x | y == 0) == (x == 0 && y == 0),
{
}

/// OR of the accumulator with itself or with zero keeps it, and the result
/// of an OR is zero only when both sides are.
pub proof fn lemma_or_fixed_points(engine: CpuView, target: ArithmeticTarget)
    ensures
        target == ArithmeticTarget::A ==> engine.or(target).registers.a == engine.registers.a,
        engine.operand(target) == 0 ==> engine.or(target).registers.a == engine.registers.a,
        engine.or(target).registers.f.zero <==> engine.registers.a == 0 && engine.operand(target)
            == 0,
{
    lemma_or_bits(engine.registers.a, engine.operand(target));
    lemma_or_bits(engine.registers.a, engine.registers.a);
}

} // verus!
