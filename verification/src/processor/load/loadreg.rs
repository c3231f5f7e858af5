//! Loads of a register from a register or from the byte at HL, and stores
//! of a register to the address in HL.

use vstd::prelude::*;
use crate::processor::cpu::{Cpu, CpuView};
use crate::processor::instructions::Target;
use crate::processor::registers::RegistersView;

verus! {

impl CpuView {
    /// This engine after A is loaded from the source.
    pub open spec fn loada(self, target: Target) -> CpuView {
        self.with_registers(RegistersView { a: self.source(target), ..self.registers })
    }

    /// This engine after B is loaded from the source.
    pub open spec fn loadb(self, target: Target) -> CpuView {
        self.with_registers(RegistersView { b: self.source(target), ..self.registers })
    }

    /// This engine after C is loaded from the source.
    pub open spec fn loadc(self, target: Target) -> CpuView {
        self.with_registers(RegistersView { c: self.source(target), ..self.registers })
    }

    /// This engine after D is loaded from the source.
    pub open spec fn loadd(self, target: Target) -> CpuView {
        self.with_registers(RegistersView { d: self.source(target), ..self.registers })
    }

    /// This engine after E is loaded from the source.
    pub open spec fn loade(self, target: Target) -> CpuView {
        self.with_registers(RegistersView { e: self.source(target), ..self.registers })
    }

    /// This engine after H is loaded from the source.
    pub open spec fn loadh(self, target: Target) -> CpuView {
        self.with_registers(RegistersView { h: self.source(target), ..self.registers })
    }

    /// This engine after L is loaded from the source.
    pub open spec fn loadl(self, target: Target) -> CpuView {
        self.with_registers(RegistersView { l: self.source(target), ..self.registers })
    }

    /// This engine after the source register is stored at the address in
    /// HL. With the byte at HL itself as the source nothing changes.
    pub open spec fn loadhl(self, target: Target) -> CpuView {
        match target {
            Target::HL => self,
            _ => self.store(self.registers.hl() as int, self.source(target)),
        }
    }
}

impl Cpu {
    /// LD A,r: loads A from a register or from the byte at HL.
    pub fn loada_dispatch(&mut self, target: Target)
        ensures
            final(self)@ == old(self)@.loada(target),
    {
        let value = self.source_value(target);
        self.registers.a = value;
    }

    /// LD B,r: loads B from a register or from the byte at HL.
    pub fn loadb_dispatch(&mut self, target: Target)
        ensures
            final(self)@ == old(self)@.loadb(target),
    {
        let value = self.source_value(target);
        self.registers.b = value;
    }

    /// LD C,r: loads C from a register or from the byte at HL.
    pub fn loadc_dispatch(&mut self, target: Target)
        ensures
            final(self)@ == old(self)@.loadc(target),
    {
        let value = self.source_value(target);
        self.registers.c = value;
    }

    /// LD D,r: loads D from a register or from the byte at HL.
    pub fn loadd_dispatch(&mut self, target: Target)
        ensures
            final(self)@ == old(self)@.loadd(target),
    {
        let value = self.source_value(target);
        self.registers.d = value;
    }

    /// LD E,r: loads E from a register or from the byte at HL.
    pub fn loade_dispatch(&mut self, target: Target)
        ensures
            final(self)@ == old(self)@.loade(target),
    {
        let value = self.source_value(target);
        self.registers.e = value;
    }

    /// LD H,r: loads H from a register or from the byte at HL.
    pub fn loadh_dispatch(&mut self, target: Target)
        ensures
            final(self)@ == old(self)@.loadh(target),
    {
        let value = self.source_value(target);
        self.registers.h = value;
    }

    /// LD L,r: loads L from a register or from the byte at HL.
    pub fn loadl_dispatch(&mut self, target: Target)
        ensures
            final(self)@ == old(self)@.loadl(target),
    {
        let value = self.source_value(target);
        self.registers.l = value;
    }

    /// LD (HL),r: stores a register at the address in HL.
    pub fn loadhl_dispatch(&mut self, target: Target)
        ensures
            final(self)@ == old(self)@.loadhl(target),
    {
        let position = self.registers.hl() as usize;
        match target {
            Target::A => self.memory.set_byte(self.registers.a, position),
            Target::B => self.memory.set_byte(self.registers.b, position),
            Target::C => self.memory.set_byte(self.registers.c, position),
            Target::D => self.memory.set_byte(self.registers.d, position),
            Target::E => self.memory.set_byte(self.registers.e, position),
            Target::H => self.memory.set_byte(self.registers.h, position),
            Target::L => self.memory.set_byte(self.registers.l, position),
            Target::HL => {},
        }
    }
}

/// A load of a register from itself changes nothing.
pub proof fn lemma_load_from_itself(engine: CpuView)
    ensures
        engine.loada(Target::A) == engine,
        engine.loadb(Target::B) == engine,
        engine.loadc(Target::C) == engine,
        engine.loadd(Target::D) == engine,
        engine.loade(Target::E) == engine,
        engine.loadh(Target::H) == engine,
        engine.loadl(Target::L) == engine,
        engine.loadhl(Target::HL) == engine,
{
}

/// A register load changes the one register that it names: no flag, no
/// other register, no cell of memory, and not the cursor.
pub proof fn lemma_register_load_changes_one_register(engine: CpuView, target: Target)
    ensures
        engine.loada(target) == engine.with_registers(
            RegistersView { a: engine.source(target), ..engine.registers },
        ),
        engine.loadb(target) == engine.with_registers(
            RegistersView { b: engine.source(target), ..engine.registers },
        ),
        engine.loadc(target) == engine.with_registers(
            RegistersView { c: engine.source(target), ..engine.registers },
        ),
        engine.loadd(target) == engine.with_registers(
            RegistersView { d: engine.source(target), ..engine.registers },
        ),
        engine.loade(target) == engine.with_registers(
            RegistersView { e: engine.source(target), ..engine.registers },
        ),
        engine.loadh(target) == engine.with_registers(
            RegistersView { h: engine.source(target), ..engine.registers },
        ),
        engine.loadl(target) == engine.with_registers(
            RegistersView { l: engine.source(target), ..engine.registers },
        ),
        engine.loadhl(target).registers == engine.registers,
        engine.loadhl(target).memory.cursor == engine.memory.cursor,
{
}

/// A store through HL followed by a load through HL moves the byte from one
/// register to the other.
pub proof fn lemma_store_then_load(engine: CpuView)
    requires
        engine.wf(),
    ensures
        engine.loadhl(Target::B).loada(Target::HL).registers.a == engine.registers.b,
        engine.loadhl(Target::A).loadb(Target::HL).registers.b == engine.registers.a,
{
}

} // verus!
