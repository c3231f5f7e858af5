//! The 8-bit loads that take an immediate byte or go through an address in
//! a register pair or in the high page.

use vstd::prelude::*;
use crate::processor::cpu::{Cpu, CpuView};
use crate::processor::instructions::TargetLd8;
use crate::processor::maths::dec::dec_word;
use crate::processor::maths::inc::inc_word;
use crate::processor::registers::RegistersView;

verus! {

/// The address in the high page, the last 256 bytes of memory, at `offset`.
pub open spec fn high_page(offset: u8) -> int {
    0xFF00 + offset
}

fn high_page_address(offset: u8) -> (position: usize)
    ensures
        position == high_page(offset),
{
    0xFF00 + offset as usize
}

impl CpuView {
    /// This engine after an 8-bit load. The forms that take an immediate
    /// byte or offset read it under the cursor and move the cursor past it;
    /// the others leave the cursor where it is.
    pub open spec fn load8(self, target: TargetLd8) -> CpuView {
        let r = self.registers;
        let immediate = self.memory.next_byte();
        let fetched = self.skip(1);
        match target {
            TargetLd8::A => fetched.with_registers(RegistersView { a: immediate, ..r }),
            TargetLd8::B => fetched.with_registers(RegistersView { b: immediate, ..r }),
            TargetLd8::C => fetched.with_registers(RegistersView { c: immediate, ..r }),
            TargetLd8::D => fetched.with_registers(RegistersView { d: immediate, ..r }),
            TargetLd8::E => fetched.with_registers(RegistersView { e: immediate, ..r }),
            TargetLd8::H => fetched.with_registers(RegistersView { h: immediate, ..r }),
            TargetLd8::L => fetched.with_registers(RegistersView { l: immediate, ..r }),
            TargetLd8::AA8 => fetched.with_registers(
                RegistersView { a: self.memory.read(high_page(immediate)), ..r },
            ),
            TargetLd8::A8A => fetched.store(high_page(immediate), r.a),
            TargetLd8::AC8 => self.with_registers(
                RegistersView { a: self.memory.read(high_page(r.c)), ..r },
            ),
            TargetLd8::C8A => self.store(high_page(r.c), r.a),
            TargetLd8::HL => fetched.store(r.hl() as int, immediate),
            TargetLd8::AHLp => self.with_registers(
                RegistersView { a: self.hl_byte(), ..r.with_hl(inc_word(r.hl())) },
            ),
            TargetLd8::AHLm => self.with_registers(
                RegistersView { a: self.hl_byte(), ..r.with_hl(dec_word(r.hl())) },
            ),
            TargetLd8::Abc => self.with_registers(
                RegistersView { a: self.memory.read(r.bc() as int), ..r },
            ),
            TargetLd8::Ade => self.with_registers(
                RegistersView { a: self.memory.read(r.de() as int), ..r },
            ),
        }
    }
}

impl Cpu {
    /// The 8-bit loads: LD r,d8 and LD (HL),d8; LDH to and from the high
    /// page; LD A through BC, DE, HL+ and HL-.
    pub fn load8_dispatch(&mut self, target: TargetLd8)
        ensures
            final(self)@ == old(self)@.load8(target),
    {
        match target {
            TargetLd8::A => {
                let value = self.memory.fetch_next_byte();
                self.registers.a = value;
            },
            TargetLd8::B => {
                let value = self.memory.fetch_next_byte();
                self.registers.b = value;
            },
            TargetLd8::C => {
                let value = self.memory.fetch_next_byte();
                self.registers.c = value;
            },
            TargetLd8::D => {
                let value = self.memory.fetch_next_byte();
                self.registers.d = value;
            },
            TargetLd8::E => {
                let value = self.memory.fetch_next_byte();
                self.registers.e = value;
            },
            TargetLd8::H => {
                let value = self.memory.fetch_next_byte();
                self.registers.h = value;
            },
            TargetLd8::L => {
                let value = self.memory.fetch_next_byte();
                self.registers.l = value;
            },
            TargetLd8::AA8 => {
                let position_a8 = self.memory.fetch_next_byte();
                let position = high_page_address(position_a8);
                self.registers.a = self.memory.fetch_byte_at(position);
            },
            TargetLd8::A8A => {
                let position_a8 = self.memory.fetch_next_byte();
                let position = high_page_address(position_a8);
                self.memory.set_byte(self.registers.a, position);
            },
            TargetLd8::AC8 => {
                let position = high_page_address(self.registers.c);
                self.registers.a = self.memory.fetch_byte_at(position);
            },
            TargetLd8::C8A => {
                let position = high_page_address(self.registers.c);
                self.memory.set_byte(self.registers.a, position);
            },
            TargetLd8::HL => {
                let position = self.registers.hl() as usize;
                let value = self.memory.fetch_next_byte();
                self.memory.set_byte(value, position);
            },
            TargetLd8::AHLp => {
                let position = self.registers.hl();
                let value = self.memory.fetch_byte_at(position as usize);
                self.registers.set_hl(crate::processor::maths::inc::inc_u16(position));
                self.registers.a = value;
            },
            TargetLd8::AHLm => {
                let position = self.registers.hl();
                let value = self.memory.fetch_byte_at(position as usize);
                self.registers.set_hl(crate::processor::maths::dec::dec_u16(position));
                self.registers.a = value;
            },
            TargetLd8::Abc => {
                let position = self.registers.bc() as usize;
                let value = self.memory.fetch_byte_at(position);
                self.registers.a = value;
            },
            TargetLd8::Ade => {
                let position = self.registers.de() as usize;
                let value = self.memory.fetch_byte_at(position);
                self.registers.a = value;
            },
        }
    }
}

/// An 8-bit load changes no flag.
pub proof fn lemma_load8_keeps_flags(engine: CpuView, target: TargetLd8)
    ensures
        engine.load8(target).registers.f == engine.registers.f,
        engine.load8(target).halted == engine.halted,
{
}

/// A store to the high page followed by the matching load gives the
/// accumulator back, whatever it was overwritten with in between.
pub proof fn lemma_high_page_round_trip(engine: CpuView, other: u8)
    requires
        engine.wf(),
    ensures
        ({
            let stored = engine.load8(TargetLd8::C8A);
            let clobbered = stored.with_registers(RegistersView { a: other, ..stored.registers });
            clobbered.load8(TargetLd8::AC8).registers.a == engine.registers.a
        }),
{
}

/// HL wraps: a load through HL+ at the last address leaves HL at zero, and
/// a load through HL- at address zero leaves HL at the last address.
pub proof fn lemma_hl_wraps(engine: CpuView)
    ensures
        engine.registers.hl() == 0xFFFF ==> engine.load8(TargetLd8::AHLp).registers.hl() == 0,
        engine.registers.hl() == 0 ==> engine.load8(TargetLd8::AHLm).registers.hl() == 0xFFFF,
{
    crate::processor::registers::lemma_set_pair_then_pair(engine.registers, 0);
    crate::processor::registers::lemma_set_pair_then_pair(engine.registers, 0xFFFF);
}

} // verus!
