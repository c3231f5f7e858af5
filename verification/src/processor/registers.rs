//! The register file: seven 8-bit registers, the flag register and the
//! 16-bit stack pointer, with the 16-bit pairs AF, BC, DE and HL read and
//! written through their two halves.

use vstd::prelude::*;
use crate::processor::flags::{FlagBits, Flags, lemma_byte_then_view, lemma_view_then_byte};

verus! {

/// The 16-bit value whose high byte is `high` and whose low byte is `low`.
pub open spec fn pair_of(high: u8, low: u8) -> u16 {
    (high * 256 + low) as u16
}

/// The high byte of a 16-bit value.
pub open spec fn high_of(value: u16) -> u8 {
    (value / 256) as u8
}

/// The low byte of a 16-bit value.
pub open spec fn low_of(value: u16) -> u8 {
    (value % 256) as u8
}

/// What a register file holds, with the flag byte read as its bits.
pub struct RegistersView {
    pub a: u8,
    pub b: u8,
    pub c: u8,
    pub d: u8,
    pub e: u8,
    pub f: FlagBits,
    pub h: u8,
    pub l: u8,
    pub sp: u16,
}

impl RegistersView {
    /// The flag bits are those of a byte.
    pub open spec fn wf(self) -> bool {
        self.f.wf()
    }

    /// The pair AF: A is the high byte, the flag byte the low one.
    pub open spec fn af(self) -> u16 {
        pair_of(self.a, self.f.byte())
    }

    /// The pair BC: B is the high byte, C the low one.
    pub open spec fn bc(self) -> u16 {
        pair_of(self.b, self.c)
    }

    /// The pair DE: D is the high byte, E the low one.
    pub open spec fn de(self) -> u16 {
        pair_of(self.d, self.e)
    }

    /// The pair HL: H is the high byte, L the low one.
    pub open spec fn hl(self) -> u16 {
        pair_of(self.h, self.l)
    }

    /// These registers after `value` is written to AF. The whole flag byte
    /// is replaced, its low four bits included.
    pub open spec fn with_af(self, value: u16) -> RegistersView {
        RegistersView { a: high_of(value), f: (Flags { f: low_of(value) })@, ..self }
    }

    /// These registers after `value` is written to BC.
    pub open spec fn with_bc(self, value: u16) -> RegistersView {
        RegistersView { b: high_of(value), c: low_of(value), ..self }
    }

    /// These registers after `value` is written to DE.
    pub open spec fn with_de(self, value: u16) -> RegistersView {
        RegistersView { d: high_of(value), e: low_of(value), ..self }
    }

    /// These registers after `value` is written to HL.
    pub open spec fn with_hl(self, value: u16) -> RegistersView {
        RegistersView { h: high_of(value), l: low_of(value), ..self }
    }
}

/// The register file.
#[derive(Debug)]
pub struct Registers {
    pub a: u8,
    pub b: u8,
    pub c: u8,
    pub d: u8,
    pub e: u8,
    pub f: Flags,
    pub h: u8,
    pub l: u8,
    pub sp: u16,
}

impl View for Registers {
    type V = RegistersView;

    open spec fn view(&self) -> RegistersView {
        RegistersView {
            a: self.a,
            b: self.b,
            c: self.c,
            d: self.d,
            e: self.e,
            f: self.f@,
            h: self.h,
            l: self.l,
            sp: self.sp,
        }
    }
}

proof fn lemma_combine_bytes(high: u16, low: u16)
    by (bit_vector)
    requires
        high <= 0xFF,
        low <= 0xFF,
    ensures
        (high << 8) | low == high * 256 + low,
{
}

proof fn lemma_split_word(value: u16)
    by (bit_vector)
    ensures
        (value >> 8) & 0xFF == value / 256,
        value & 0xFF == value % 256,
        value >> 8 == value / 256,
{
}

/// Joins two bytes, each held in 16 bits, into one 16-bit value. With
/// arguments that are not bytes the bits of `low` above the seventh are
/// or-ed into the shifted `high`.
pub fn combine(high: u16, low: u16) -> (value: u16)
    ensures
        value == (high << 8) | low,
        high <= 0xFF && low <= 0xFF ==> value == high * 256 + low,
{
    proof {
        if high <= 0xFF && low <= 0xFF {
            lemma_combine_bytes(high, low);
        }
    }
    (high << 8) | low
}

/// Splits a 16-bit value into its high and its low byte, in that order.
pub fn get_high_and_low(value: u16) -> (halves: (u8, u8))
    ensures
        halves.0 == high_of(value),
        halves.1 == low_of(value),
{
    proof {
        lemma_split_word(value);
    }
    let high = ((value >> 8) & 0xFF) as u8;
    let low = (value & 0xFF) as u8;

    (high, low)
}

impl Registers {
    /// What a new register file holds: zero in every register, and every
    /// flag off.
    pub open spec fn new_view() -> RegistersView {
        RegistersView {
            a: 0,
            b: 0,
            c: 0,
            d: 0,
            e: 0,
            f: FlagBits {
                zero: false,
                subtract: false,
                half_carry: false,
                carry: false,
                unused: 0,
            },
            h: 0,
            l: 0,
            sp: 0,
        }
    }

    /// A register file with every register at zero.
    pub fn new() -> (registers: Registers)
        ensures
            registers@ == Registers::new_view(),
    {
        Registers { a: 0, b: 0, c: 0, d: 0, e: 0, f: Flags::new(), h: 0, l: 0, sp: 0 }
    }

    /// Writes the stack pointer.
    pub fn set_sp(&mut self, value: u16)
        ensures
            final(self)@ == (RegistersView { sp: value, ..old(self)@ }),
    {
        self.sp = value;
    }

    /// Writes the pair AF: the high byte to A, the low byte to the flag
    /// register, all eight bits of it.
    pub fn set_af(&mut self, value: u16)
        ensures
            final(self)@ == old(self)@.with_af(value),
            final(self).f.f == low_of(value),
    {
        let (high, low) = get_high_and_low(value);
        self.a = high;
        self.f.f = low;
    }

    /// Writes the pair BC: the high byte to B, the low byte to C.
    pub fn set_bc(&mut self, value: u16)
        ensures
            final(self)@ == old(self)@.with_bc(value),
    {
        let (high, low) = get_high_and_low(value);
        self.b = high;
        self.c = low;
    }

    /// Writes the pair DE: the high byte to D, the low byte to E.
    pub fn set_de(&mut self, value: u16)
        ensures
            final(self)@ == old(self)@.with_de(value),
    {
        let (high, low) = get_high_and_low(value);
        self.d = high;
        self.e = low;
    }

    /// Writes the pair HL: the high byte to H, the low byte to L.
    pub fn set_hl(&mut self, value: u16)
        ensures
            final(self)@ == old(self)@.with_hl(value),
    {
        let (high, low) = get_high_and_low(value);
        self.h = high;
        self.l = low;
    }

    /// Reads the pair AF.
    pub fn af(&mut self) -> (value: u16)
        ensures
            value == old(self)@.af(),
            *final(self) == *old(self),
    {
        proof {
            lemma_view_then_byte(self.f);
        }
        combine(self.a as u16, self.f.f as u16)
    }

    /// Reads the pair BC.
    pub fn bc(&mut self) -> (value: u16)
        ensures
            value == old(self)@.bc(),
            *final(self) == *old(self),
    {
        combine(self.b as u16, self.c as u16)
    }

    /// Reads the pair DE.
    pub fn de(&mut self) -> (value: u16)
        ensures
            value == old(self)@.de(),
            *final(self) == *old(self),
    {
        combine(self.d as u16, self.e as u16)
    }

    /// Reads the pair HL.
    pub fn hl(&mut self) -> (value: u16)
        ensures
            value == old(self)@.hl(),
            *final(self) == *old(self),
    {
        combine(self.h as u16, self.l as u16)
    }
}

/// A pair is made of its two halves and of nothing else: splitting a value
/// and joining the halves gives the value back, and joining two bytes and
/// splitting gives the bytes back.
pub proof fn lemma_pair_halves(high: u8, low: u8, value: u16)
    ensures
        pair_of(high_of(value), low_of(value)) == value,
        high_of(pair_of(high, low)) == high,
        low_of(pair_of(high, low)) == low,
{
}

/// Reading a pair after writing it gives the value written, for each of the
/// four pairs and every 16-bit value.
pub proof fn lemma_set_pair_then_pair(registers: RegistersView, value: u16)
    ensures
        registers.with_af(value).af() == value,
        registers.with_bc(value).bc() == value,
        registers.with_de(value).de() == value,
        registers.with_hl(value).hl() == value,
{
    lemma_pair_halves(0, 0, value);
    lemma_view_then_byte(Flags { f: low_of(value) });
}

/// Writing a pair changes its two halves and leaves every other register,
/// the stack pointer included, as it was.
pub proof fn lemma_set_pair_keeps_the_rest(registers: RegistersView, value: u16)
    ensures
        registers.with_bc(value) == (RegistersView {
            b: registers.with_bc(value).b,
            c: registers.with_bc(value).c,
            ..registers
        }),
        registers.with_de(value) == (RegistersView {
            d: registers.with_de(value).d,
            e: registers.with_de(value).e,
            ..registers
        }),
        registers.with_hl(value) == (RegistersView {
            h: registers.with_hl(value).h,
            l: registers.with_hl(value).l,
            ..registers
        }),
        registers.with_af(value) == (RegistersView {
            a: registers.with_af(value).a,
            f: registers.with_af(value).f,
            ..registers
        }),
{
}

/// Of two writes to the same pair only the second one shows.
pub proof fn lemma_set_pair_twice(registers: RegistersView, first: u16, second: u16)
    ensures
        registers.with_af(first).with_af(second) == registers.with_af(second),
        registers.with_bc(first).with_bc(second) == registers.with_bc(second),
        registers.with_de(first).with_de(second) == registers.with_de(second),
        registers.with_hl(first).with_hl(second) == registers.with_hl(second),
{
}

/// Writing back the value that a pair holds changes nothing.
pub proof fn lemma_pair_then_set_pair(registers: RegistersView)
    requires
        registers.wf(),
    ensures
        registers.with_af(registers.af()) == registers,
        registers.with_bc(registers.bc()) == registers,
        registers.with_de(registers.de()) == registers,
        registers.with_hl(registers.hl()) == registers,
{
    lemma_pair_halves(registers.a, registers.f.byte(), 0);
    lemma_byte_then_view(registers.f);
}

/// The view of a register file loses nothing.
pub proof fn lemma_view_injective(x: Registers, y: Registers)
    requires
        x@ == y@,
    ensures
        x == y,
{
    crate::processor::flags::lemma_view_injective(x.f, y.f);
}

} // verus!
