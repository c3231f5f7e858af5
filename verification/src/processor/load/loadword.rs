//! Stores of A through a register pair: at the address in BC or DE, or at
//! the address in HL, which then steps up or down by one.

use vstd::prelude::*;
use crate::processor::cpu::{Cpu, CpuView};
use crate::processor::instructions::ByteTarget;
use crate::processor::maths::dec::dec_word;
use crate::processor::maths::inc::inc_word;

verus! {

impl CpuView {
    /// This engine after A is stored through a register pair.
    pub open spec fn loadbytea(self, target: ByteTarget) -> CpuView {
        let r = self.registers;
        match target {
            ByteTarget::BC => self.store(r.bc() as int, r.a),
            ByteTarget::DE => self.store(r.de() as int, r.a),
            ByteTarget::HLp => self.store(r.hl() as int, r.a).with_registers(
                r.with_hl(inc_word(r.hl())),
            ),
            ByteTarget::HLm => self.store(r.hl() as int, r.a).with_registers(
                r.with_hl(dec_word(r.hl())),
            ),
        }
    }
}

impl Cpu {
    /// LD (BC),A; LD (DE),A; LD (HL+),A; LD (HL-),A.
    pub fn loadbytea_dispatch(&mut self, target: ByteTarget)
        ensures
            final(self)@ == old(self)@.loadbytea(target),
    {
        let position: u16;
        match target {
            ByteTarget::BC => position = self.registers.bc(),
            ByteTarget::DE => position = self.registers.de(),
            ByteTarget::HLp => {
                position = self.registers.hl();
                self.registers.set_hl(crate::processor::maths::inc::inc_u16(position));
            },
            ByteTarget::HLm => {
                position = self.registers.hl();
                self.registers.set_hl(crate::processor::maths::dec::dec_u16(position));
            },
        }
        let value = self.registers.a;

        self.memory.set_byte(value, position as usize);
    }
}

/// A store of A through a pair changes no flag and leaves A and the cursor
/// as they were; the cell that it names then holds A.
pub proof fn lemma_loadbytea_stores_a(engine: CpuView, target: ByteTarget)
    requires
        engine.wf(),
    ensures
        engine.loadbytea(target).registers.f == engine.registers.f,
        engine.loadbytea(target).registers.a == engine.registers.a,
        engine.loadbytea(target).memory.cursor == engine.memory.cursor,
        engine.loadbytea(ByteTarget::BC).memory.read(engine.registers.bc() as int)
            == engine.registers.a,
        engine.loadbytea(ByteTarget::DE).memory.read(engine.registers.de() as int)
            == engine.registers.a,
        engine.loadbytea(ByteTarget::HLp).memory.read(engine.registers.hl() as int)
            == engine.registers.a,
        engine.loadbytea(ByteTarget::HLm).memory.read(engine.registers.hl() as int)
            == engine.registers.a,
{
}

} // verus!
