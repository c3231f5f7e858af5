//! Addition to the accumulator, with or without the carry flag as carry-in.

use vstd::prelude::*;
use crate::processor::cpu::{Cpu, CpuView};
use crate::processor::flags::FlagBits;
use crate::processor::instructions::ArithmeticTarget;
use crate::processor::registers::RegistersView;

verus! {

/// The carry that goes into an addition or a subtraction: one if the
/// instruction takes the carry flag in and the flag is on, else nothing.
pub open spec fn carry_in(with_carry: bool, flags: FlagBits) -> int {
    if with_carry && flags.carry {
        1
    } else {
        0
    }
}

/// The sum of the accumulator, the operand and the carry-in, wrapped to
/// eight bits.
pub open spec fn add_result(a: u8, operand: u8, carry: int) -> u8 {
    ((a + operand + carry) % 256) as u8
}

/// The flags after an addition. Zero tells whether the wrapped sum is zero,
/// carry whether the full sum does not fit in eight bits, half-carry
/// whether the sum of the low nibbles does not fit in four. Subtract goes
/// off.
pub open spec fn add_flags(flags: FlagBits, a: u8, operand: u8, carry: int) -> FlagBits {
    FlagBits {
        zero: add_result(a, operand, carry) == 0,
        subtract: false,
        half_carry: a % 16 + operand % 16 + carry > 15,
        carry: a + operand + carry > 255,
        ..flags
    }
}

impl CpuView {
    /// This engine after an addition of the operand to the accumulator.
    pub open spec fn add(self, target: ArithmeticTarget, with_carry: bool) -> CpuView {
        let a = self.registers.a;
        let operand = self.operand(target);
        let carry = carry_in(with_carry, self.registers.f);
        self.past_operand(target).with_registers(
            RegistersView {
                a: add_result(a, operand, carry),
                f: add_flags(self.registers.f, a, operand, carry),
                ..self.registers
            },
        )
    }
}

pub(crate) proof fn lemma_low_nibble(value: u8)
    by (bit_vector)
    ensures
        value & 0xF == value % 16,
{
}

proof fn lemma_low_twelve_bits(value: u16)
    by (bit_vector)
    ensures
        value & 0xFFF == value % 4096,
{
}

proof fn lemma_fifth_bit(sum: u8)
    by (bit_vector)
    requires
        sum < 32,
    ensures
        (sum & 0x10 == 0x10) == (sum > 15),
{
}

proof fn lemma_thirteenth_bit(sum: u16)
    by (bit_vector)
    requires
        sum < 8192,
    ensures
        (sum & 0x1000 == 0x1000) == (sum > 4095),
{
}

/// Whether adding the low nibbles of two bytes carries out of bit 3.
pub fn half_overflow_u8(target: u8, value: u8) -> (carries: bool)
    ensures
        carries == (target % 16 + value % 16 > 15),
{
    proof {
        lemma_low_nibble(target);
        lemma_low_nibble(value);
    }
    let low_target_nibble = target & 0xF;
    let low_value_nibble = value & 0xF;
    proof {
        lemma_fifth_bit((low_target_nibble + low_value_nibble) as u8);
    }
    ((low_target_nibble + low_value_nibble) & 0x10) == 0x10
}

/// Whether adding the low twelve bits of two words carries out of bit 11.
pub fn half_overflow_u16(target: u16, value: u16) -> (carries: bool)
    ensures
        carries == (target % 4096 + value % 4096 > 4095),
{
    proof {
        lemma_low_twelve_bits(target);
        lemma_low_twelve_bits(value);
    }
    let low_target_nibble = target & 0xFFF;
    let low_value_nibble = value & 0xFFF;
    proof {
        lemma_thirteenth_bit((low_target_nibble + low_value_nibble) as u16);
    }
    ((low_target_nibble + low_value_nibble) & 0x1000) == 0x1000
}

impl Cpu {
    /// ADD: adds the operand to the accumulator.
    pub fn add_dispatch(&mut self, target: ArithmeticTarget)
        ensures
            final(self)@ == old(self)@.add(target, false),
    {
        let addend = self.arithmetic_operand(target);
        let result = self.add_u8(addend, false);
        self.registers.a = result;
    }

    /// ADC: adds the operand and the carry flag to the accumulator.
    pub fn addc_dispatch(&mut self, target: ArithmeticTarget)
        ensures
            final(self)@ == old(self)@.add(target, true),
    {
        let addend = self.arithmetic_operand(target);
        let result = self.add_u8(addend, true);
        self.registers.a = result;
    }

    /// Adds `to_add` to the accumulator, and the carry flag too if `carry`
    /// asks for it. Returns the sum and sets the flags by it; the
    /// accumulator itself is left for the caller to write.
    pub fn add_u8(&mut self, to_add: u8, carry: bool) -> (result: u8)
        ensures
            result == add_result(
                old(self)@.registers.a,
                to_add,
                carry_in(carry, old(self)@.registers.f),
            ),
            final(self)@ == old(self)@.with_registers(
                RegistersView {
                    f: add_flags(
                        old(self)@.registers.f,
                        old(self)@.registers.a,
                        to_add,
                        carry_in(carry, old(self)@.registers.f),
                    ),
                    ..old(self)@.registers
                },
            ),
    {
        let carry_value: u8 = if carry && self.registers.f.is_carry() {
            1
        } else {
            0
        };
        let a = self.registers.a;
        let result = a.wrapping_add(carry_value).wrapping_add(to_add);
        let overflow = a as u16 + to_add as u16 + carry_value as u16 > 0xFF;
        self.set_flags_u8(result, a, to_add, carry_value, overflow);
        result
    }

    fn set_flags_u8(&mut self, result: u8, v1: u8, v2: u8, carry_value: u8, overflow: bool)
        requires
            carry_value <= 1,
        ensures
            final(self)@ == old(self)@.with_registers(
                RegistersView {
                    f: FlagBits {
                        zero: result == 0,
                        subtract: false,
                        half_carry: v1 % 16 + v2 % 16 + carry_value > 15,
                        carry: overflow,
                        ..old(self)@.registers.f
                    },
                    ..old(self)@.registers
                },
            ),
    {
        self.registers.f.unset_n();
        if result == 0 {
            self.registers.f.set_zero();
        } else {
            self.registers.f.unset_zero();
        }
        if overflow {
            self.registers.f.set_carry();
        } else {
            self.registers.f.unset_carry();
        }
        proof {
            lemma_low_nibble(v1);
            lemma_low_nibble(v2);
        }
        if (v1 & 0xF) + (v2 & 0xF) + carry_value > 0xF {
            self.registers.f.set_h();
        } else {
            self.registers.f.unset_h();
        }
    }
}

/// Adding zero leaves the accumulator as it is, switches carry and
/// half-carry off, and switches zero on exactly when the accumulator is
/// zero.
pub proof fn lemma_add_zero(flags: FlagBits, x: u8)
    ensures
        add_result(x, 0, 0) == x,
        !add_flags(flags, x, 0, 0).carry,
        !add_flags(flags, x, 0, 0).half_carry,
        !add_flags(flags, x, 0, 0).subtract,
        add_flags(flags, x, 0, 0).zero <==> x == 0,
        add_flags(flags, x, 0, 0).unused == flags.unused,
{
}

/// The same of the instruction: an addition without carry-in of an operand
/// that is zero changes nothing but the flags, which come out as above.
pub proof fn lemma_add_zero_operand(engine: CpuView, target: ArithmeticTarget)
    requires
        engine.operand(target) == 0,
    ensures
        engine.add(target, false).registers.a == engine.registers.a,
        !engine.add(target, false).registers.f.carry,
        !engine.add(target, false).registers.f.half_carry,
        engine.add(target, false).registers.f.zero <==> engine.registers.a == 0,
        engine.add(target, false) == engine.past_operand(target).with_registers(
            RegistersView {
                f: engine.add(target, false).registers.f,
                ..engine.registers
            },
        ),
{
    lemma_add_zero(engine.registers.f, engine.registers.a);
}

/// An addition is commutative in the accumulator and the operand, in the
/// sum and in every flag.
pub proof fn lemma_add_commutes(flags: FlagBits, x: u8, y: u8, carry: int)
    ensures
        add_result(x, y, carry) == add_result(y, x, carry),
        add_flags(flags, x, y, carry) == add_flags(flags, y, x, carry),
{
}

} // verus!
