//! Decimal adjust: corrects the accumulator after an addition of two
//! packed decimal bytes, so that it holds the packed decimal sum.

use vstd::prelude::*;
use crate::processor::cpu::{Cpu, CpuView};
use crate::processor::flags::FlagBits;
use crate::processor::maths::add::{add_flags, add_result, lemma_low_nibble};
use crate::processor::registers::RegistersView;

verus! {

/// The correction of the low digit: 6 where the low nibble is above 9 or
/// the addition carried out of it.
pub open spec fn units_adjust(a: u8, half_carry: bool) -> u8 {
    if a % 16 > 9 || half_carry {
        0x06
    } else {
        0
    }
}

/// The correction of the high digit: 0x60 where the byte is above 0x99 or
/// the addition carried out of it.
pub open spec fn tens_adjust(a: u8, carry: bool) -> u8 {
    if a > 0x99 || carry {
        0x60
    } else {
        0
    }
}

/// The accumulator after the adjustment: both corrections added, wrapped to
/// eight bits.
pub open spec fn daa_result(a: u8, half_carry: bool, carry: bool) -> u8 {
    ((a + units_adjust(a, half_carry) + tens_adjust(a, carry)) % 256) as u8
}

/// The number that a packed decimal byte stands for: ten times the high
/// nibble plus the low nibble.
pub open spec fn decimal_value(byte: u8) -> int {
    10 * (byte / 16) + byte % 16
}

/// Both nibbles of the byte are decimal digits.
pub open spec fn is_packed_decimal(byte: u8) -> bool {
    byte / 16 <= 9 && byte % 16 <= 9
}

impl CpuView {
    /// This engine after a decimal adjust. Carry is on afterwards exactly
    /// when the high digit was corrected; the other flags stay.
    pub open spec fn daa(self) -> CpuView {
        let r = self.registers;
        self.with_registers(
            RegistersView {
                a: daa_result(r.a, r.f.half_carry, r.f.carry),
                f: FlagBits { carry: r.a > 0x99 || r.f.carry, ..r.f },
                ..r
            },
        )
    }
}

/// The correction of the low digit.
pub fn handle_units(a: u8, half_carry: bool) -> (retval: u8)
    ensures
        retval == units_adjust(a, half_carry),
{
    proof {
        lemma_low_nibble(a);
    }
    let mut retval: u8 = 0;
    if (a & 0xF) > 9 || half_carry {
        retval = 0x6;
    }
    retval
}

/// The correction of the high digit.
pub fn handle_tens(a: u8, carry: bool) -> (retval: u8)
    ensures
        retval == tens_adjust(a, carry),
{
    let mut retval: u8 = 0;
    if a > 0x99 || carry {
        retval = 0x60;
    }
    retval
}

impl Cpu {
    /// DAA: adjusts the accumulator to packed decimal.
    pub fn daa(&mut self)
        ensures
            final(self)@ == old(self)@.daa(),
    {
        let a = self.registers.a;
        let units = handle_units(a, self.registers.f.is_half_carry());
        let tens = handle_tens(a, self.registers.f.is_carry());
        let adjust: u8 = units + tens;
        self.registers.a = a.wrapping_add(adjust);
        if tens != 0 {
            self.registers.f.set_carry();
        }
    }
}

/// A decimal adjust changes the accumulator and the carry flag, and nothing
/// else. Once carry is on it stays on.
pub proof fn lemma_daa_touches_accumulator_and_carry(engine: CpuView)
    ensures
        engine.daa() == engine.with_registers(
            RegistersView {
                a: engine.daa().registers.a,
                f: FlagBits { carry: engine.daa().registers.f.carry, ..engine.registers.f },
                ..engine.registers
            },
        ),
        engine.registers.f.carry ==> engine.daa().registers.f.carry,
{
}

/// With carry and half-carry off, a byte that is packed decimal already is
/// left as it is.
pub proof fn lemma_daa_keeps_packed_decimal(a: u8)
    requires
        is_packed_decimal(a),
    ensures
        daa_result(a, false, false) == a,
{
}

proof fn lemma_adjusted_sum(x: u8, y: u8)
    by (bit_vector)
    requires
        x / 16 <= 9,
        x % 16 <= 9,
        y / 16 <= 9,
        y % 16 <= 9,
    ensures
        ({
            let sum = ((x + y) % 256) as u8;
            let half_carry = x % 16 + y % 16 > 15;
            let carry = x + y > 255;
            let units: u8 = if sum % 16 > 9 || half_carry {
                0x06
            } else {
                0
            };
            let tens: u8 = if sum > 0x99 || carry {
                0x60
            } else {
                0
            };
            let adjusted = ((sum + units + tens) % 256) as u8;
            &&& adjusted / 16 <= 9
            &&& adjusted % 16 <= 9
            &&& 10 * (adjusted / 16) + adjusted % 16 + (if sum > 0x99 || carry {
                100int
            } else {
                0int
            }) == 10 * (x / 16) + x % 16 + 10 * (y / 16) + y % 16
        }),
{
}

/// After an addition of two packed decimal bytes, the adjustment leaves
/// their packed decimal sum: the accumulator holds its last two digits, and
/// carry tells whether the sum reached a hundred.
pub proof fn lemma_daa_after_add(flags: FlagBits, x: u8, y: u8)
    requires
        is_packed_decimal(x),
        is_packed_decimal(y),
    ensures
        ({
            let sum = add_result(x, y, 0);
            let added = add_flags(flags, x, y, 0);
            let adjusted = daa_result(sum, added.half_carry, added.carry);
            let hundred = sum > 0x99 || added.carry;
            &&& is_packed_decimal(adjusted)
            &&& decimal_value(adjusted) + (if hundred { 100int } else { 0int }) == decimal_value(x)
                + decimal_value(y)
        }),
{
    lemma_adjusted_sum(x, y);
}

} // verus!
