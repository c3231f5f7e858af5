//! Subtraction from the accumulator, with or without the carry flag as
//! borrow-in.

use vstd::prelude::*;
use crate::processor::cpu::{Cpu, CpuView};
use crate::processor::flags::{FlagBits, Flags};
use crate::processor::instructions::ArithmeticTarget;
use crate::processor::maths::add::{add_result, carry_in, lemma_low_nibble};
use crate::processor::registers::RegistersView;

verus! {

/// The accumulator less the operand and the borrow-in, wrapped to eight
/// bits.
pub open spec fn sub_result(a: u8, operand: u8, borrow: int) -> u8 {
    ((a - operand - borrow) % 256) as u8
}

/// The flags after a subtraction. Zero tells whether the wrapped difference
/// is zero, carry whether the operand with the borrow-in exceeds the
/// accumulator, half-carry whether the same holds of the low nibbles.
/// Subtract goes on.
pub open spec fn sub_flags(flags: FlagBits, a: u8, operand: u8, borrow: int) -> FlagBits {
    FlagBits {
        zero: sub_result(a, operand, borrow) == 0,
        subtract: true,
        half_carry: operand % 16 + borrow > a % 16,
        carry: operand + borrow > a,
        ..flags
    }
}

impl CpuView {
    /// This engine after the flags are set as a subtraction of the operand
    /// from the accumulator sets them. The accumulator stays.
    pub open spec fn compare(self, target: ArithmeticTarget, with_carry: bool) -> CpuView {
        let borrow = carry_in(with_carry, self.registers.f);
        self.past_operand(target).with_registers(
            RegistersView {
                f: sub_flags(self.registers.f, self.registers.a, self.operand(target), borrow),
                ..self.registers
            },
        )
    }

    /// This engine after a subtraction of the operand from the accumulator.
    pub open spec fn sub(self, target: ArithmeticTarget, with_carry: bool) -> CpuView {
        let borrow = carry_in(with_carry, self.registers.f);
        let compared = self.compare(target, with_carry);
        compared.with_registers(
            RegistersView {
                a: sub_result(self.registers.a, self.operand(target), borrow),
                ..compared.registers
            },
        )
    }
}

/// Whether `v2`, with one more where `carry` is set, exceeds `v1`.
pub fn underflow_u8(v1: u8, v2: u8, carry: bool) -> (borrows: bool)
    ensures
        borrows == (v2 + (if carry { 1int } else { 0int }) > v1),
{
    let borrow: u16 = if carry {
        1
    } else {
        0
    };
    (v1 as u16) < (v2 as u16 + borrow)
}

/// Whether the low nibble of `v2`, with one more where `carry` is set,
/// exceeds the low nibble of `v1`.
pub fn half_underflow_u8(v1: u8, v2: u8, carry: bool) -> (borrows: bool)
    ensures
        borrows == (v2 % 16 + (if carry { 1int } else { 0int }) > v1 % 16),
{
    proof {
        lemma_low_nibble(v1);
        lemma_low_nibble(v2);
    }
    let borrow: u8 = if carry {
        1
    } else {
        0
    };
    let first_nibble_v1 = v1 & 0xF;
    let first_nibble_v2 = v2 & 0xF;
    first_nibble_v1 < first_nibble_v2 + borrow
}

/// Subtracts `value` from `target` in place, and sets the flag byte as a
/// subtraction without borrow-in does.
pub fn sub(target: &mut u8, value: u8, flags: &mut u8)
    ensures
        *final(target) == sub_result(*old(target), value, 0),
        (Flags { f: *final(flags) })@ == sub_flags(
            (Flags { f: *old(flags) })@,
            *old(target),
            value,
            0,
        ),
{
    let minuend = *target;
    let res = minuend.wrapping_sub(value);
    let mut register = Flags { f: *flags };
    register.set_n();
    if res == 0 {
        register.set_zero();
    } else {
        register.unset_zero();
    }
    if underflow_u8(minuend, value, false) {
        register.set_carry();
    } else {
        register.unset_carry();
    }
    if half_underflow_u8(minuend, value, false) {
        register.set_h();
    } else {
        register.unset_h();
    }
    *flags = register.f;
    *target = res;
}

impl Cpu {
    /// SUB: subtracts the operand from the accumulator.
    pub fn sub_dispatch(&mut self, target: ArithmeticTarget)
        ensures
            final(self)@ == old(self)@.sub(target, false),
    {
        let subtrahend = self.arithmetic_operand(target);
        let result = self.sub_u8(subtrahend, false);
        self.registers.a = result;
    }

    /// SBC: subtracts the operand and the carry flag from the accumulator.
    pub fn subc_dispatch(&mut self, target: ArithmeticTarget)
        ensures
            final(self)@ == old(self)@.sub(target, true),
    {
        let subtrahend = self.arithmetic_operand(target);
        let result = self.sub_u8(subtrahend, true);
        self.registers.a = result;
    }

    /// Subtracts `to_sub` from the accumulator, and the carry flag too if
    /// `carry` asks for it. Returns the difference and sets the flags by
    /// it; the accumulator itself is left for the caller to write.
    pub fn sub_u8(&mut self, to_sub: u8, carry: bool) -> (result: u8)
        ensures
            result == sub_result(
                old(self)@.registers.a,
                to_sub,
                carry_in(carry, old(self)@.registers.f),
            ),
            final(self)@ == old(self)@.with_registers(
                RegistersView {
                    f: sub_flags(
                        old(self)@.registers.f,
                        old(self)@.registers.a,
                        to_sub,
                        carry_in(carry, old(self)@.registers.f),
                    ),
                    ..old(self)@.registers
                },
            ),
    {
        let borrow = carry && self.registers.f.is_carry();
        let carry_value: u8 = if borrow {
            1
        } else {
            0
        };
        let result = self.registers.a.wrapping_sub(carry_value).wrapping_sub(to_sub);
        self.set_flags_u8_sub(result, self.registers.a, to_sub, borrow);
        result
    }

    fn set_flags_u8_sub(&mut self, result: u8, v1: u8, v2: u8, borrow: bool)
        ensures
            final(self)@ == old(self)@.with_registers(
                RegistersView {
                    f: FlagBits {
                        zero: result == 0,
                        subtract: true,
                        half_carry: v2 % 16 + (if borrow { 1int } else { 0int }) > v1 % 16,
                        carry: v2 + (if borrow { 1int } else { 0int }) > v1,
                        ..old(self)@.registers.f
                    },
                    ..old(self)@.registers
                },
            ),
    {
        self.registers.f.set_n();
        if result == 0 {
            self.registers.f.set_zero();
        } else {
            self.registers.f.unset_zero();
        }
        if underflow_u8(v1, v2, borrow) {
            self.registers.f.set_carry();
        } else {
            self.registers.f.unset_carry();
        }
        if half_underflow_u8(v1, v2, borrow) {
            self.registers.f.set_h();
        } else {
            self.registers.f.unset_h();
        }
    }
}

/// Subtracting what was added, or adding what was subtracted, gives the
/// first value back, wraparound included.
pub proof fn lemma_sub_undoes_add(x: u8, y: u8)
    ensures
        sub_result(add_result(x, y, 0), y, 0) == x,
        add_result(sub_result(x, y, 0), y, 0) == x,
{
    let sum = add_result(x, y, 0);
    let difference = sub_result(x, y, 0);
    assert(sum == if x + y > 255 { x + y - 256 } else { x + y });
    assert(difference == if x < y { x - y + 256 } else { x - y });
}

/// A value less itself is zero, with zero on and neither carry nor
/// half-carry.
pub proof fn lemma_sub_self(flags: FlagBits, x: u8)
    ensures
        sub_result(x, x, 0) == 0,
        sub_flags(flags, x, x, 0).zero,
        sub_flags(flags, x, x, 0).subtract,
        !sub_flags(flags, x, x, 0).carry,
        !sub_flags(flags, x, x, 0).half_carry,
{
}

/// A comparison sets the flags of the subtraction and changes nothing
/// else: not the accumulator, no other register, no cell of memory.
pub proof fn lemma_compare_keeps_accumulator(engine: CpuView, target: ArithmeticTarget)
    ensures
        engine.compare(target, false).registers.f == engine.sub(target, false).registers.f,
        engine.compare(target, false).registers == (RegistersView {
            f: engine.compare(target, false).registers.f,
            ..engine.registers
        }),
        engine.compare(target, false).memory.cells == engine.memory.cells,
        engine.compare(target, false).registers.f.zero <==> engine.registers.a == engine.operand(
            target,
        ),
        engine.compare(target, false).registers.f.carry <==> engine.registers.a < engine.operand(
            target,
        ),
{
}

} // verus!
