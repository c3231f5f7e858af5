//! Decrement of a register, of the byte at HL, or of a 16-bit pair.
//!
//! The 8-bit forms set zero, subtract and half-carry and leave carry as it
//! is. The 16-bit forms change no flag. Both wrap.

use vstd::prelude::*;
use crate::processor::cpu::{Cpu, CpuView};
use crate::processor::flags::FlagBits;
use crate::processor::instructions::IncTarget;
use crate::processor::maths::inc::{inc_result, inc_word};
use crate::processor::maths::sub::half_underflow_u8;
use crate::processor::registers::{
    lemma_pair_then_set_pair, lemma_set_pair_then_pair, lemma_set_pair_twice, RegistersView,
};

verus! {

/// A byte one down, wrapping from 0 to 255.
pub open spec fn dec_result(value: u8) -> u8 {
    ((value - 1) % 256) as u8
}

/// A word one down, wrapping from 0 to 65535.
pub open spec fn dec_word(value: u16) -> u16 {
    ((value - 1) % 65536) as u16
}

/// The flags after an 8-bit decrement of `value`. Zero tells whether the
/// result is zero, half-carry whether the low nibble was zero, so that the
/// step borrows into it. Subtract goes on. Carry stays.
pub open spec fn dec_flags(flags: FlagBits, value: u8) -> FlagBits {
    FlagBits {
        zero: dec_result(value) == 0,
        subtract: true,
        half_carry: 1 > value % 16,
        ..flags
    }
}

impl CpuView {
    /// This engine after the decrement of `target`.
    pub open spec fn dec(self, target: IncTarget) -> CpuView {
        let r = self.registers;
        match target {
            IncTarget::A => self.with_registers(
                RegistersView { a: dec_result(r.a), f: dec_flags(r.f, r.a), ..r },
            ),
            IncTarget::B => self.with_registers(
                RegistersView { b: dec_result(r.b), f: dec_flags(r.f, r.b), ..r },
            ),
            IncTarget::C => self.with_registers(
                RegistersView { c: dec_result(r.c), f: dec_flags(r.f, r.c), ..r },
            ),
            IncTarget::D => self.with_registers(
                RegistersView { d: dec_result(r.d), f: dec_flags(r.f, r.d), ..r },
            ),
            IncTarget::E => self.with_registers(
                RegistersView { e: dec_result(r.e), f: dec_flags(r.f, r.e), ..r },
            ),
            IncTarget::H => self.with_registers(
                RegistersView { h: dec_result(r.h), f: dec_flags(r.f, r.h), ..r },
            ),
            IncTarget::L => self.with_registers(
                RegistersView { l: dec_result(r.l), f: dec_flags(r.f, r.l), ..r },
            ),
            IncTarget::BC => self.with_registers(r.with_bc(dec_word(r.bc()))),
            IncTarget::DE => self.with_registers(r.with_de(dec_word(r.de()))),
            IncTarget::SP => self.with_registers(RegistersView { sp: dec_word(r.sp), ..r }),
            IncTarget::HL => self.with_registers(r.with_hl(dec_word(r.hl()))),
            IncTarget::HLFlags => self.store(r.hl() as int, dec_result(self.hl_byte())).with_registers(
                RegistersView { f: dec_flags(r.f, self.hl_byte()), ..r },
            ),
        }
    }
}

/// Steps a word down by one, wrapping.
pub(crate) fn dec_u16(value: u16) -> (result: u16)
    ensures
        result == dec_word(value),
{
    value.wrapping_sub(1)
}

impl Cpu {
    /// DEC: steps `target` down by one.
    pub fn dec_dispatch(&mut self, target: IncTarget)
        ensures
            final(self)@ == old(self)@.dec(target),
    {
        match target {
            IncTarget::A => {
                let value = self.registers.a;
                let result = self.dec(value);
                self.registers.a = result;
            },
            IncTarget::B => {
                let value = self.registers.b;
                let result = self.dec(value);
                self.registers.b = result;
            },
            IncTarget::C => {
                let value = self.registers.c;
                let result = self.dec(value);
                self.registers.c = result;
            },
            IncTarget::D => {
                let value = self.registers.d;
                let result = self.dec(value);
                self.registers.d = result;
            },
            IncTarget::E => {
                let value = self.registers.e;
                let result = self.dec(value);
                self.registers.e = result;
            },
            IncTarget::H => {
                let value = self.registers.h;
                let result = self.dec(value);
                self.registers.h = result;
            },
            IncTarget::L => {
                let value = self.registers.l;
                let result = self.dec(value);
                self.registers.l = result;
            },
            IncTarget::BC => {
                let value = self.registers.bc();
                self.registers.set_bc(dec_u16(value));
            },
            IncTarget::DE => {
                let value = self.registers.de();
                self.registers.set_de(dec_u16(value));
            },
            IncTarget::SP => {
                let value = self.registers.sp;
                self.registers.sp = dec_u16(value);
            },
            IncTarget::HL => {
                let value = self.registers.hl();
                self.registers.set_hl(dec_u16(value));
            },
            IncTarget::HLFlags => {
                let position = self.registers.hl() as usize;
                let value = self.memory.fetch_byte_at(position);
                let result = self.dec(value);
                self.memory.set_byte(result, position);
            },
        }
    }

    fn dec(&mut self, value: u8) -> (result: u8)
        ensures
            result == dec_result(value),
            final(self)@ == old(self)@.with_registers(
                RegistersView {
                    f: dec_flags(old(self)@.registers.f, value),
                    ..old(self)@.registers
                },
            ),
    {
        let result = value.wrapping_sub(1);
        self.set_dec_flags(result, value);
        result
    }

    fn set_dec_flags(&mut self, result: u8, value: u8)
        ensures
            final(self)@ == old(self)@.with_registers(
                RegistersView {
                    f: FlagBits {
                        zero: result == 0,
                        subtract: true,
                        half_carry: 1 > value % 16,
                        ..old(self)@.registers.f
                    },
                    ..old(self)@.registers
                },
            ),
    {
        if result == 0 {
            self.registers.f.set_zero();
        } else {
            self.registers.f.unset_zero();
        }
        self.registers.f.set_n();
        if half_underflow_u8(value, 1, false) {
            self.registers.f.set_h();
        } else {
            self.registers.f.unset_h();
        }
    }
}

/// An 8-bit decrement leaves the carry flag and the unused bits as they
/// were, whatever the value.
pub proof fn lemma_dec_keeps_carry(flags: FlagBits, value: u8)
    ensures
        dec_flags(flags, value).carry == flags.carry,
        dec_flags(flags, value).unused == flags.unused,
        dec_flags(flags, value).subtract,
        dec_flags(flags, value).zero <==> value == 1,
        dec_flags(flags, value).half_carry <==> value % 16 == 0,
{
}

/// A 16-bit decrement changes no flag.
pub proof fn lemma_dec_pair_keeps_flags(engine: CpuView, target: IncTarget)
    requires
        target == IncTarget::BC || target == IncTarget::DE || target == IncTarget::HL || target
            == IncTarget::SP,
    ensures
        engine.dec(target).registers.f == engine.registers.f,
        engine.dec(target).memory == engine.memory,
{
}

/// Increment and decrement undo each other, on bytes and on words and
/// across the wrap.
pub proof fn lemma_dec_undoes_inc(x: u8, w: u16)
    ensures
        dec_result(inc_result(x)) == x,
        inc_result(dec_result(x)) == x,
        dec_word(inc_word(w)) == w,
        inc_word(dec_word(w)) == w,
{
}

/// Stepping a pair up and then down gives the registers back.
proof fn lemma_pair_step_back(r: RegistersView)
    requires
        r.wf(),
    ensures
        r.with_bc(inc_word(r.bc())).with_bc(
            dec_word(r.with_bc(inc_word(r.bc())).bc()),
        ) == r,
        r.with_de(inc_word(r.de())).with_de(
            dec_word(r.with_de(inc_word(r.de())).de()),
        ) == r,
        r.with_hl(inc_word(r.hl())).with_hl(
            dec_word(r.with_hl(inc_word(r.hl())).hl()),
        ) == r,
{
    let bc = inc_word(r.bc());
    let de = inc_word(r.de());
    let hl = inc_word(r.hl());
    lemma_set_pair_then_pair(r, bc);
    lemma_set_pair_then_pair(r, de);
    lemma_set_pair_then_pair(r, hl);
    lemma_dec_undoes_inc(0, r.bc());
    lemma_dec_undoes_inc(0, r.de());
    lemma_dec_undoes_inc(0, r.hl());
    lemma_set_pair_twice(r, bc, r.bc());
    lemma_set_pair_twice(r, de, r.de());
    lemma_set_pair_twice(r, hl, r.hl());
    lemma_pair_then_set_pair(r);
}

/// The same of the instructions: a decrement after an increment of the
/// same target gives back every register but the flags, and every cell of
/// memory. Of the flags, carry is as it was.
pub proof fn lemma_dec_after_inc(engine: CpuView, target: IncTarget)
    requires
        engine.wf(),
    ensures
        engine.inc(target).dec(target).registers == (RegistersView {
            f: engine.inc(target).dec(target).registers.f,
            ..engine.registers
        }),
        engine.inc(target).dec(target).memory == engine.memory,
        engine.inc(target).dec(target).halted == engine.halted,
        engine.inc(target).dec(target).registers.f.carry == engine.registers.f.carry,
{
    let r = engine.registers;
    match target {
        IncTarget::A => lemma_dec_undoes_inc(r.a, 0),
        IncTarget::B => lemma_dec_undoes_inc(r.b, 0),
        IncTarget::C => lemma_dec_undoes_inc(r.c, 0),
        IncTarget::D => lemma_dec_undoes_inc(r.d, 0),
        IncTarget::E => lemma_dec_undoes_inc(r.e, 0),
        IncTarget::H => lemma_dec_undoes_inc(r.h, 0),
        IncTarget::L => lemma_dec_undoes_inc(r.l, 0),
        IncTarget::BC | IncTarget::DE | IncTarget::HL => lemma_pair_step_back(r),
        IncTarget::SP => lemma_dec_undoes_inc(0, r.sp),
        IncTarget::HLFlags => {
            let stepped = engine.inc(target);
            lemma_dec_undoes_inc(engine.hl_byte(), 0);
            assert(stepped.registers.hl() == r.hl());
            assert(stepped.hl_byte() == inc_result(engine.hl_byte()));
            assert(stepped.dec(target).memory.cells =~= engine.memory.cells);
        },
    }
}

} // verus!
