//! The loads that take an immediate word: into a register pair or the stack
//! pointer, or as the address at which A is stored or loaded.

use vstd::prelude::*;
use crate::processor::cpu::{Cpu, CpuView};
use crate::processor::instructions::Load16Target;
use crate::processor::registers::RegistersView;

verus! {

impl CpuView {
    /// This engine after a load with an immediate word. The word is read
    /// under the cursor, low byte first, and the cursor moves past it.
    pub open spec fn load16(self, target: Load16Target) -> CpuView {
        let r = self.registers;
        let word = self.memory.next_word();
        let fetched = self.skip(2);
        match target {
            Load16Target::BC => fetched.with_registers(r.with_bc(word)),
            Load16Target::DE => fetched.with_registers(r.with_de(word)),
            Load16Target::HL => fetched.with_registers(r.with_hl(word)),
            Load16Target::SP => fetched.with_registers(RegistersView { sp: word, ..r }),
            Load16Target::A16A => fetched.store(word as int, r.a),
            Load16Target::AA16 => fetched.with_registers(
                RegistersView { a: self.memory.read(word as int), ..r },
            ),
        }
    }
}

impl Cpu {
    /// LD rr,d16; LD SP,d16; LD (a16),A; LD A,(a16).
    pub fn load16_dispatch(&mut self, target: Load16Target)
        ensures
            final(self)@ == old(self)@.load16(target),
    {
        match target {
            Load16Target::BC => {
                let word = self.memory.fetch_next_word();
                self.registers.set_bc(word);
            },
            Load16Target::DE => {
                let word = self.memory.fetch_next_word();
                self.registers.set_de(word);
            },
            Load16Target::HL => {
                let word = self.memory.fetch_next_word();
                self.registers.set_hl(word);
            },
            Load16Target::SP => {
                let word = self.memory.fetch_next_word();
                self.registers.set_sp(word);
            },
            Load16Target::A16A => {
                let position = self.memory.fetch_next_word();
                let value: u8 = self.registers.a;
                self.memory.set_byte(value, position as usize);
            },
            Load16Target::AA16 => {
                let position = self.memory.fetch_next_word();
                let value: u8 = self.memory.fetch_byte_at(position as usize);
                self.registers.a = value;
            },
        }
    }
}

/// A load with an immediate word changes no flag, and the pair that it
/// loads then reads as the word under the cursor.
pub proof fn lemma_load16_reads_the_word(engine: CpuView, target: Load16Target)
    ensures
        engine.load16(target).registers.f == engine.registers.f,
        engine.load16(target).memory.cursor == engine.memory.advance(2).cursor,
        engine.load16(Load16Target::BC).registers.bc() == engine.memory.next_word(),
        engine.load16(Load16Target::DE).registers.de() == engine.memory.next_word(),
        engine.load16(Load16Target::HL).registers.hl() == engine.memory.next_word(),
        engine.load16(Load16Target::SP).registers.sp == engine.memory.next_word(),
{
    crate::processor::registers::lemma_set_pair_then_pair(engine.registers, engine.memory.next_word());
}

} // verus!
