//! Increment of a register, of the byte at HL, or of a 16-bit pair.
//!
//! The 8-bit forms set zero, subtract and half-carry and leave carry as it
//! is. The 16-bit forms change no flag. Both wrap.

use vstd::prelude::*;
use crate::processor::cpu::{Cpu, CpuView};
use crate::processor::flags::FlagBits;
use crate::processor::instructions::IncTarget;
use crate::processor::maths::add::half_overflow_u8;
use crate::processor::registers::RegistersView;

verus! {

/// A byte one up, wrapping from 255 to 0.
pub open spec fn inc_result(value: u8) -> u8 {
    ((value + 1) % 256) as u8
}

/// A word one up, wrapping from 65535 to 0.
pub open spec fn inc_word(value: u16) -> u16 {
    ((value + 1) % 65536) as u16
}

/// The flags after an 8-bit increment of `value`. Zero tells whether the
/// result is zero, half-carry whether the low nibble was at its highest, so
/// that the step carries out of it. Subtract goes off. Carry stays.
pub open spec fn inc_flags(flags: FlagBits, value: u8) -> FlagBits {
    FlagBits {
        zero: inc_result(value) == 0,
        subtract: false,
        half_carry: value % 16 + 1 > 15,
        ..flags
    }
}

impl CpuView {
    /// This engine after the increment of `target`.
    pub open spec fn inc(self, target: IncTarget) -> CpuView {
        let r = self.registers;
        match target {
            IncTarget::A => self.with_registers(
                RegistersView { a: inc_result(r.a), f: inc_flags(r.f, r.a), ..r },
            ),
            IncTarget::B => self.with_registers(
                RegistersView { b: inc_result(r.b), f: inc_flags(r.f, r.b), ..r },
            ),
            IncTarget::C => self.with_registers(
                RegistersView { c: inc_result(r.c), f: inc_flags(r.f, r.c), ..r },
            ),
            IncTarget::D => self.with_registers(
                RegistersView { d: inc_result(r.d), f: inc_flags(r.f, r.d), ..r },
            ),
            IncTarget::E => self.with_registers(
                RegistersView { e: inc_result(r.e), f: inc_flags(r.f, r.e), ..r },
            ),
            IncTarget::H => self.with_registers(
                RegistersView { h: inc_result(r.h), f: inc_flags(r.f, r.h), ..r },
            ),
            IncTarget::L => self.with_registers(
                RegistersView { l: inc_result(r.l), f: inc_flags(r.f, r.l), ..r },
            ),
            IncTarget::BC => self.with_registers(r.with_bc(inc_word(r.bc()))),
            IncTarget::DE => self.with_registers(r.with_de(inc_word(r.de()))),
            IncTarget::SP => self.with_registers(RegistersView { sp: inc_word(r.sp), ..r }),
            IncTarget::HL => self.with_registers(r.with_hl(inc_word(r.hl()))),
            IncTarget::HLFlags => self.store(r.hl() as int, inc_result(self.hl_byte())).with_registers(
                RegistersView { f: inc_flags(r.f, self.hl_byte()), ..r },
            ),
        }
    }
}

/// Steps a word up by one, wrapping.
pub(crate) fn inc_u16(value: u16) -> (result: u16)
    ensures
        result == inc_word(value),
{
    value.wrapping_add(1)
}

impl Cpu {
    /// INC: steps `target` up by one.
    pub fn inc_dispatch(&mut self, target: IncTarget)
        ensures
            final(self)@ == old(self)@.inc(target),
    {
        match target {
            IncTarget::A => {
                let value = self.registers.a;
                let result = self.inc(value);
                self.registers.a = result;
            },
            IncTarget::B => {
                let value = self.registers.b;
                let result = self.inc(value);
                self.registers.b = result;
            },
            IncTarget::C => {
                let value = self.registers.c;
                let result = self.inc(value);
                self.registers.c = result;
            },
            IncTarget::D => {
                let value = self.registers.d;
                let result = self.inc(value);
                self.registers.d = result;
            },
            IncTarget::E => {
                let value = self.registers.e;
                let result = self.inc(value);
                self.registers.e = result;
            },
            IncTarget::H => {
                let value = self.registers.h;
                let result = self.inc(value);
                self.registers.h = result;
            },
            IncTarget::L => {
                let value = self.registers.l;
                let result = self.inc(value);
                self.registers.l = result;
            },
            IncTarget::BC => {
                let value = self.registers.bc();
                self.registers.set_bc(inc_u16(value));
            },
            IncTarget::DE => {
                let value = self.registers.de();
                self.registers.set_de(inc_u16(value));
            },
            IncTarget::SP => {
                let value = self.registers.sp;
                self.registers.sp = inc_u16(value);
            },
            IncTarget::HL => {
                let value = self.registers.hl();
                self.registers.set_hl(inc_u16(value));
            },
            IncTarget::HLFlags => {
                let position = self.registers.hl() as usize;
                let value = self.memory.fetch_byte_at(position);
                let result = self.inc(value);
                self.memory.set_byte(result, position);
            },
        }
    }

    fn inc(&mut self, value: u8) -> (result: u8)
        ensures
            result == inc_result(value),
            final(self)@ == old(self)@.with_registers(
                RegistersView {
                    f: inc_flags(old(self)@.registers.f, value),
                    ..old(self)@.registers
                },
            ),
    {
        let result = value.wrapping_add(1);
        self.set_flags(result, value);
        result
    }

    fn set_flags(&mut self, result: u8, value: u8)
        ensures
            final(self)@ == old(self)@.with_registers(
                RegistersView {
                    f: FlagBits {
                        zero: result == 0,
                        subtract: false,
                        half_carry: value % 16 + 1 > 15,
                        ..old(self)@.registers.f
                    },
                    ..old(self)@.registers
                },
            ),
    {
        if result == 0 {
            self.registers.f.set_zero();
        } else {
            self.registers.f.unset_zero();
        }
        self.registers.f.unset_n();
        if half_overflow_u8(value, 1) {
            self.registers.f.set_h();
        } else {
            self.registers.f.unset_h();
        }
    }
}

/// An 8-bit increment leaves the carry flag and the unused bits as they
/// were, whatever the value.
pub proof fn lemma_inc_keeps_carry(flags: FlagBits, value: u8)
    ensures
        inc_flags(flags, value).carry == flags.carry,
        inc_flags(flags, value).unused == flags.unused,
        !inc_flags(flags, value).subtract,
        inc_flags(flags, value).zero <==> value == 255,
        inc_flags(flags, value).half_carry <==> value % 16 == 15,
{
}

/// A 16-bit increment changes no flag.
pub proof fn lemma_inc_pair_keeps_flags(engine: CpuView, target: IncTarget)
    requires
        target == IncTarget::BC || target == IncTarget::DE || target == IncTarget::HL || target
            == IncTarget::SP,
    ensures
        engine.inc(target).registers.f == engine.registers.f,
        engine.inc(target).memory == engine.memory,
{
}

} // verus!
