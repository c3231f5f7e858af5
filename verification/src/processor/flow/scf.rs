//! Set carry flag.

use vstd::prelude::*;
use crate::processor::cpu::{Cpu, CpuView};
use crate::processor::flags::FlagBits;
use crate::processor::registers::RegistersView;

verus! {

impl CpuView {
    /// This engine after carry is switched on and half-carry and subtract
    /// are switched off. Zero stays.
    pub open spec fn scf(self) -> CpuView {
        self.with_registers(
            RegistersView {
                f: FlagBits { carry: true, half_carry: false, subtract: false, ..self.registers.f },
                ..self.registers
            },
        )
    }
}

impl Cpu {
    /// SCF: sets the carry flag.
    pub fn scf(&mut self)
        ensures
            final(self)@ == old(self)@.scf(),
    {
        self.registers.f.set_carry();
        self.registers.f.unset_h();
        self.registers.f.unset_n();
    }
}

/// Setting carry leaves the zero flag and the unused bits as they were, and
/// doing it twice is doing it once.
pub proof fn lemma_scf_keeps_zero(engine: CpuView)
    ensures
        engine.scf().registers.f.zero == engine.registers.f.zero,
        engine.scf().registers.f.unused == engine.registers.f.unused,
        engine.scf().registers.f.carry,
        engine.scf().scf() == engine.scf(),
{
}

} // verus!
