//! Bitwise AND into the accumulator.

use vstd::prelude::*;
use crate::processor::cpu::{Cpu, CpuView};
use crate::processor::flags::FlagBits;
use crate::processor::instructions::ArithmeticTarget;
use crate::processor::registers::RegistersView;

verus! {

/// The flags after an AND that gave `result`: zero tells whether the result
/// is zero, half-carry goes on, carry goes off, subtract stays.
pub open spec fn and_flags(flags: FlagBits, result: u8) -> FlagBits {
    FlagBits { zero: result == 0, half_carry: true, carry: false, ..flags }
}

impl CpuView {
    /// This engine after the accumulator is AND-ed with the operand.
    pub open spec fn and(self, target: ArithmeticTarget) -> CpuView {
        let result = self.registers.a & self.operand(target);
        self.past_operand(target).with_registers(
            RegistersView { a: result, f: and_flags(self.registers.f, result), ..self.registers },
        )
    }
}

impl Cpu {
    /// AND: keeps in the accumulator the bits that it shares with the
    /// operand.
    pub fn and_dispatch(&mut self, target: ArithmeticTarget)
        ensures
            final(self)@ == old(self)@.and(target),
    {
        let value = self.arithmetic_operand(target);
        self.registers.a &= value;
        if self.registers.a == 0 {
            self.registers.f.set_zero();
        } else {
            self.registers.f.unset_zero();
        }
        self.registers.f.set_h();
        self.registers.f.unset_carry();
    }
}

proof fn lemma_and_bits(x: u8)
    by (bit_vector)
    ensures
        x & x == x,
        x & 0 == 0,
        x & 0xFF == x,
{
}

/// AND of the accumulator with itself or with 0xFF keeps it, and AND with
/// zero clears it.
pub proof fn lemma_and_fixed_points(engine: CpuView, target: ArithmeticTarget)
    ensures
        target == ArithmeticTarget::A ==> engine.and(target).registers.a == engine.registers.a,
        engine.operand(target) == 0xFF ==> engine.and(target).registers.a == engine.registers.a,
        engine.operand(target) == 0 ==> engine.and(target).registers.a == 0 && engine.and(
            target,
        ).registers.f.zero,
{
    lemma_and_bits(engine.registers.a);
}

} // verus!
