//! Bitwise XOR into the accumulator.

use vstd::prelude::*;
use crate::processor::cpu::{Cpu, CpuView};
use crate::processor::flags::FlagBits;
use crate::processor::instructions::ArithmeticTarget;
use crate::processor::registers::RegistersView;

verus! {

/// The flags after an XOR or an OR that gave `result`: zero tells whether
/// the result is zero, half-carry and carry go off, subtract stays.
pub open spec fn or_flags(flags: FlagBits, result: u8) -> FlagBits {
    FlagBits { zero: result == 0, half_carry: false, carry: false, ..flags }
}

impl CpuView {
    /// This engine after the accumulator is XOR-ed with the operand.
    pub open spec fn xor(self, target: ArithmeticTarget) -> CpuView {
        let result = self.registers.a ^ self.operand(target);
        self.past_operand(target).with_registers(
            RegistersView { a: result, f: or_flags(self.registers.f, result), ..self.registers },
        )
    }
}

impl Cpu {
    /// XOR: keeps in the accumulator the bits in which it differs from the
    /// operand.
    pub fn xor_dispatch(&mut self, target: ArithmeticTarget)
        ensures
            final(self)@ == old(self)@.xor(target),
    {
        let value = self.arithmetic_operand(target);
        self.registers.a ^= value;
        if self.registers.a == 0 {
            self.registers.f.set_zero();
        } else {
            self.registers.f.unset_zero();
        }
        self.registers.f.unset_h();
        self.registers.f.unset_carry();
    }
}

proof fn lemma_xor_bits(x: u8, y: u8)
    by (bit_vector)
    ensures
        x ^ x == 0,
        x ^ 0 == x,
        (x ^ y) ^ y == x,
{
}

/// XOR of the accumulator with itself clears it and switches zero on; XOR
/// with the same operand twice gives the accumulator back.
pub proof fn lemma_xor_cancels(engine: CpuView, x: u8, y: u8)
    ensures
        engine.xor(ArithmeticTarget::A).registers.a == 0,
        engine.xor(ArithmeticTarget::A).registers.f.zero,
        (x ^ y) ^ y == x,
        x ^ 0 == x,
{
    lemma_xor_bits(engine.registers.a, 0);
    lemma_xor_bits(x, y);
}

} // verus!
