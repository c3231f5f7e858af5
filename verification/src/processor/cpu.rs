//! The engine: a register file, a memory bus and the halt state, with the
//! fetch-decode-execute step that drives them.

use vstd::prelude::*;
use crate::processor::instructions::{
    decode, ArithmeticTarget, Instruction, Target, TargetLd8, END_OPCODE, HALT_OPCODE,
};
use crate::processor::memorybus::{BusView, MemoryBus};
use crate::processor::registers::{Registers, RegistersView};

verus! {

/// What an engine holds: the registers, the memory with its cursor, and
/// whether the engine is halted.
pub struct CpuView {
    pub registers: RegistersView,
    pub memory: BusView,
    pub halted: bool,
}

impl CpuView {
    /// The registers and the memory are those of an engine.
    pub open spec fn wf(self) -> bool {
        self.registers.wf() && self.memory.wf()
    }

    /// This engine with other registers.
    pub open spec fn with_registers(self, registers: RegistersView) -> CpuView {
        CpuView { registers, ..self }
    }

    /// This engine after `value` is stored in memory at `address`.
    pub open spec fn store(self, address: int, value: u8) -> CpuView {
        CpuView { memory: self.memory.write(address, value), ..self }
    }

    /// This engine after the cursor has moved past `width` fetched bytes.
    pub open spec fn skip(self, width: int) -> CpuView {
        CpuView { memory: self.memory.advance(width), ..self }
    }

    /// The byte in memory at the address held in HL.
    pub open spec fn hl_byte(self) -> u8 {
        self.memory.read(self.registers.hl() as int)
    }

    /// The byte that a register-to-register load reads.
    pub open spec fn source(self, target: Target) -> u8 {
        match target {
            Target::A => self.registers.a,
            Target::B => self.registers.b,
            Target::C => self.registers.c,
            Target::D => self.registers.d,
            Target::E => self.registers.e,
            Target::H => self.registers.h,
            Target::L => self.registers.l,
            Target::HL => self.hl_byte(),
        }
    }

    /// The operand of an arithmetic instruction: a register, the byte at
    /// HL, or the byte under the cursor.
    pub open spec fn operand(self, target: ArithmeticTarget) -> u8 {
        match target {
            ArithmeticTarget::A => self.registers.a,
            ArithmeticTarget::B => self.registers.b,
            ArithmeticTarget::C => self.registers.c,
            ArithmeticTarget::D => self.registers.d,
            ArithmeticTarget::E => self.registers.e,
            ArithmeticTarget::H => self.registers.h,
            ArithmeticTarget::L => self.registers.l,
            ArithmeticTarget::HL => self.hl_byte(),
            ArithmeticTarget::D8 => self.memory.next_byte(),
        }
    }

    /// This engine once the operand of an arithmetic instruction has been
    /// read: an immediate operand moves the cursor past itself, any other
    /// leaves the engine as it is.
    pub open spec fn past_operand(self, target: ArithmeticTarget) -> CpuView {
        match target {
            ArithmeticTarget::D8 => self.skip(1),
            _ => self,
        }
    }
}

/// How a step left the engine.
#[derive(Debug, Clone, Copy, PartialEq, Eq, Structural)]
pub enum StepOutcome {
    /// The engine is running and can take another step.
    Continued,
    /// The engine is halted, and a further step will do nothing.
    Halted,
    /// The program has ended.
    Terminated,
}

/// An opcode that the decoder does not know. The engine has moved past it
/// and is otherwise unchanged.
#[derive(Debug, Clone, Copy, PartialEq, Eq, Structural)]
pub struct UnknownOpcode {
    pub opcode: u8,
}

impl CpuView {
    /// This engine after `instruction` has been executed. The opcode has
    /// been fetched already; operand bytes are fetched here.
    pub open spec fn execute(self, instruction: Instruction) -> CpuView {
        match instruction {
            Instruction::Halt => self.halt(),
            Instruction::Daa => self.daa(),
            Instruction::Scf => self.scf(),
            Instruction::Inc(target) => self.inc(target),
            Instruction::Dec(target) => self.dec(target),
            Instruction::Add(target) => self.add(target, false),
            Instruction::AddC(target) => self.add(target, true),
            Instruction::Sub(target) => self.sub(target, false),
            Instruction::SubC(target) => self.sub(target, true),
            Instruction::And(target) => self.and(target),
            Instruction::Xor(target) => self.xor(target),
            Instruction::Or(target) => self.or(target),
            Instruction::Cp(target) => self.compare(target, false),
            Instruction::LoadA(target) => self.loada(target),
            Instruction::LoadB(target) => self.loadb(target),
            Instruction::LoadC(target) => self.loadc(target),
            Instruction::LoadD(target) => self.loadd(target),
            Instruction::LoadE(target) => self.loade(target),
            Instruction::LoadH(target) => self.loadh(target),
            Instruction::LoadL(target) => self.loadl(target),
            Instruction::LoadHL(target) => self.loadhl(target),
            Instruction::Load16(target) => self.load16(target),
            Instruction::Load8(target) => self.load8(target),
            Instruction::LoadByteA(target) => self.loadbytea(target),
            Instruction::Nop => self,
            Instruction::End => self,
        }
    }

    /// How the engine stands: halted, or able to continue.
    pub open spec fn standing(self) -> StepOutcome {
        if self.halted {
            StepOutcome::Halted
        } else {
            StepOutcome::Continued
        }
    }

    /// The outcome to report once `instruction` has left the engine in this
    /// state: the end instruction terminates, and after any other the
    /// engine is halted or can continue.
    pub open spec fn outcome(self, instruction: Instruction) -> StepOutcome {
        if instruction is End {
            StepOutcome::Terminated
        } else {
            self.standing()
        }
    }

    /// The opcode that the next step will find unknown, if the engine is
    /// running and the byte under the cursor stands for no instruction.
    pub open spec fn unknown_opcode(self) -> Option<u8> {
        if !self.halted && decode(self.memory.next_byte()) is None {
            Some(self.memory.next_byte())
        } else {
            None
        }
    }

    /// One step: the engine after it, and the outcome. A halted engine
    /// stays as it is. A running engine fetches the opcode under the cursor
    /// and executes the instruction that it stands for; an unknown opcode
    /// is skipped.
    pub open spec fn step(self) -> (CpuView, StepOutcome) {
        if self.halted {
            (self, StepOutcome::Halted)
        } else {
            let fetched = self.skip(1);
            match decode(self.memory.next_byte()) {
                Some(instruction) => (
                    fetched.execute(instruction),
                    fetched.execute(instruction).outcome(instruction),
                ),
                None => (fetched, StepOutcome::Continued),
            }
        }
    }

    /// Steps until the engine halts or terminates, but `budget` steps at
    /// most: the engine afterwards, and the outcome of the last step (or
    /// how the engine stands, where no step was taken).
    pub open spec fn run(self, budget: nat) -> (CpuView, StepOutcome)
        decreases budget,
    {
        if budget == 0 || self.halted {
            (self, self.standing())
        } else {
            let (next, outcome) = self.step();
            if outcome == StepOutcome::Continued {
                next.run((budget - 1) as nat)
            } else {
                (next, outcome)
            }
        }
    }
}

/// The engine.
#[derive(Debug)]
pub struct Cpu {
    pub registers: Registers,
    pub memory: MemoryBus,
    pub pause: bool,
}

impl View for Cpu {
    type V = CpuView;

    open spec fn view(&self) -> CpuView {
        CpuView { registers: self.registers@, memory: self.memory@, halted: self.pause }
    }
}

impl Cpu {
    /// What a new engine holds: zeroed registers, a new memory bus, and the
    /// engine running.
    pub open spec fn new_view() -> CpuView {
        CpuView {
            registers: Registers::new_view(),
            memory: MemoryBus::new_view(),
            halted: false,
        }
    }

    /// A running engine with zeroed registers and a new memory bus.
    pub fn new() -> (cpu: Cpu)
        ensures
            cpu@ == Cpu::new_view(),
    {
        Cpu { registers: Registers::new(), memory: MemoryBus::new(), pause: false }
    }

    /// Reads a register, or the byte at HL.
    pub(crate) fn source_value(&mut self, target: Target) -> (value: u8)
        ensures
            value == old(self)@.source(target),
            *final(self) == *old(self),
    {
        match target {
            Target::A => self.registers.a,
            Target::B => self.registers.b,
            Target::C => self.registers.c,
            Target::D => self.registers.d,
            Target::E => self.registers.e,
            Target::H => self.registers.h,
            Target::L => self.registers.l,
            Target::HL => {
                let position = self.registers.hl() as usize;
                self.memory.fetch_byte_at(position)
            },
        }
    }

    /// Reads the operand of an arithmetic instruction, fetching it from
    /// under the cursor where it is an immediate byte.
    pub(crate) fn arithmetic_operand(&mut self, target: ArithmeticTarget) -> (operand: u8)
        ensures
            operand == old(self)@.operand(target),
            final(self)@ == old(self)@.past_operand(target),
    {
        match target {
            ArithmeticTarget::A => self.registers.a,
            ArithmeticTarget::B => self.registers.b,
            ArithmeticTarget::C => self.registers.c,
            ArithmeticTarget::D => self.registers.d,
            ArithmeticTarget::E => self.registers.e,
            ArithmeticTarget::H => self.registers.h,
            ArithmeticTarget::L => self.registers.l,
            ArithmeticTarget::HL => {
                let position = self.registers.hl() as usize;
                self.memory.fetch_byte_at(position)
            },
            ArithmeticTarget::D8 => self.memory.fetch_next_byte(),
        }
    }

    /// Executes one decoded instruction and reports how the engine stands
    /// afterwards. The end instruction changes nothing and reports
    /// `Terminated`, whether the engine is halted or not.
    pub fn execute(&mut self, instruction: Instruction) -> (outcome: StepOutcome)
        ensures
            final(self)@ == old(self)@.execute(instruction),
            outcome == final(self)@.outcome(instruction),
    {
        match instruction {
            Instruction::Halt => self.halt(),
            Instruction::Daa => self.daa(),
            Instruction::Scf => self.scf(),
            Instruction::Inc(target) => self.inc_dispatch(target),
            Instruction::Dec(target) => self.dec_dispatch(target),
            Instruction::Add(target) => self.add_dispatch(target),
            Instruction::AddC(target) => self.addc_dispatch(target),
            Instruction::Sub(target) => self.sub_dispatch(target),
            Instruction::SubC(target) => self.subc_dispatch(target),
            Instruction::And(target) => self.and_dispatch(target),
            Instruction::Xor(target) => self.xor_dispatch(target),
            Instruction::Or(target) => self.or_dispatch(target),
            Instruction::Cp(target) => self.comp_dispatch(target),
            Instruction::LoadA(target) => self.loada_dispatch(target),
            Instruction::LoadB(target) => self.loadb_dispatch(target),
            Instruction::LoadC(target) => self.loadc_dispatch(target),
            Instruction::LoadD(target) => self.loadd_dispatch(target),
            Instruction::LoadE(target) => self.loade_dispatch(target),
            Instruction::LoadH(target) => self.loadh_dispatch(target),
            Instruction::LoadL(target) => self.loadl_dispatch(target),
            Instruction::LoadHL(target) => self.loadhl_dispatch(target),
            Instruction::Load16(target) => self.load16_dispatch(target),
            Instruction::Load8(target) => self.load8_dispatch(target),
            Instruction::LoadByteA(target) => self.loadbytea_dispatch(target),
            Instruction::Nop => {},
            Instruction::End => {},
        }
        self.outcome_after(instruction)
    }

    /// The outcome to report once `instruction` has been executed.
    fn outcome_after(&self, instruction: Instruction) -> (outcome: StepOutcome)
        ensures
            outcome == self@.outcome(instruction),
    {
        match instruction {
            Instruction::End => StepOutcome::Terminated,
            _ => if self.is_halted() {
                StepOutcome::Halted
            } else {
                StepOutcome::Continued
            },
        }
    }

    /// One fetch-decode-execute step, which tells an unknown opcode apart.
    /// A halted engine is left exactly as it is. On an unknown opcode the
    /// cursor has moved past it, nothing else has changed, and the engine
    /// can continue.
    pub fn try_step(&mut self) -> (result: Result<StepOutcome, UnknownOpcode>)
        ensures
            final(self)@ == old(self)@.step().0,
            old(self)@.halted ==> *final(self) == *old(self),
            match old(self)@.unknown_opcode() {
                Some(opcode) => result == Err::<StepOutcome, UnknownOpcode>(
                    UnknownOpcode { opcode },
                ),
                None => result == Ok::<StepOutcome, UnknownOpcode>(old(self)@.step().1),
            },
    {
        if self.is_halted() {
            return Ok(StepOutcome::Halted);
        }
        let opcode = self.memory.fetch_next_instruction();
        match Instruction::from_byte(opcode) {
            Some(instruction) => Ok(self.execute(instruction)),
            None => Err(UnknownOpcode { opcode }),
        }
    }

    /// One fetch-decode-execute step. An unknown opcode is skipped and
    /// counts as a step after which the engine continues.
    pub fn step(&mut self) -> (outcome: StepOutcome)
        ensures
            (final(self)@, outcome) == old(self)@.step(),
            old(self)@.halted ==> *final(self) == *old(self),
    {
        match self.try_step() {
            Ok(outcome) => outcome,
            Err(_) => StepOutcome::Continued,
        }
    }

    /// Steps the engine until it halts or the program ends, and tells
    /// which. A program that does neither is given up after `u64::MAX`
    /// steps, with `Continued`.
    pub fn run(&mut self) -> (outcome: StepOutcome)
        ensures
            (final(self)@, outcome) == old(self)@.run(u64::MAX as nat),
            forall|budget: nat|
                budget <= u64::MAX && (#[trigger] old(self)@.run(budget)).1
                    != StepOutcome::Continued ==> (final(self)@, outcome) == old(self)@.run(
                    budget,
                ),
    {
        proof {
            let engine = old(self)@;
            assert forall|budget: nat|
                budget <= u64::MAX && (#[trigger] engine.run(budget)).1
                    != StepOutcome::Continued implies engine.run(u64::MAX as nat) == engine.run(
                budget,
            ) by {
                lemma_run_stops_for_good(engine, budget, u64::MAX as nat);
            }
        }
        self.run_for(u64::MAX)
    }

    /// Steps the engine until it halts or the program ends, but `max_steps`
    /// times at most. Returns `Continued` where the steps ran out first.
    pub fn run_for(&mut self, max_steps: u64) -> (outcome: StepOutcome)
        ensures
            (final(self)@, outcome) == old(self)@.run(max_steps as nat),
    {
        let mut remaining = max_steps;
        let mut outcome = if self.is_halted() {
            StepOutcome::Halted
        } else {
            StepOutcome::Continued
        };
        while remaining > 0 && outcome == StepOutcome::Continued
            invariant
                outcome == StepOutcome::Continued ==> !self@.halted && self@.run(remaining as nat)
                    == old(self)@.run(max_steps as nat),
                outcome != StepOutcome::Continued ==> (self@, outcome) == old(self)@.run(
                    max_steps as nat,
                ),
            decreases remaining,
        {
            outcome = self.step();
            remaining = remaining - 1;
        }
        outcome
    }
}

/// The halt instruction takes a running engine to the halted state, and a
/// halted engine stays exactly as it is: a step changes no register, no
/// cell of memory and not the cursor, however often it is taken.
pub proof fn lemma_halt_then_step(engine: CpuView, budget: nat)
    requires
        !engine.halted,
        engine.memory.next_byte() == HALT_OPCODE,
    ensures
        engine.step() == (engine.skip(1).halt(), StepOutcome::Halted),
        engine.step().0.step() == (engine.step().0, StepOutcome::Halted),
        engine.step().0.run(budget) == (engine.step().0, StepOutcome::Halted),
{
}

/// A step of a halted engine, and any run of it, leaves it as it is and
/// reports that it is halted.
pub proof fn lemma_halted_stays(engine: CpuView, budget: nat)
    requires
        engine.halted,
    ensures
        engine.step() == (engine, StepOutcome::Halted),
        engine.run(budget) == (engine, StepOutcome::Halted),
{
}

/// The end instruction terminates from any state, halted or running, and
/// changes nothing. A running engine that finds the end opcode under the
/// cursor terminates in that step, having moved past the opcode.
pub proof fn lemma_end_terminates(engine: CpuView, budget: nat)
    ensures
        engine.execute(Instruction::End) == engine,
        engine.execute(Instruction::End).outcome(Instruction::End) == StepOutcome::Terminated,
        !engine.halted && engine.memory.next_byte() == END_OPCODE ==> engine.step() == (
            engine.skip(1),
            StepOutcome::Terminated,
        ),
        !engine.halted && engine.memory.next_byte() == END_OPCODE && budget > 0 ==> engine.run(
            budget,
        ) == (engine.skip(1), StepOutcome::Terminated),
{
}

/// A new engine holds an empty program: its first step finds the end opcode
/// and terminates.
pub proof fn lemma_new_engine_terminates(budget: nat)
    requires
        budget > 0,
    ensures
        Cpu::new_view().wf(),
        Cpu::new_view().step() == (Cpu::new_view().skip(1), StepOutcome::Terminated),
        Cpu::new_view().run(budget) == (Cpu::new_view().skip(1), StepOutcome::Terminated),
{
    lemma_end_terminates(Cpu::new_view(), budget);
}

/// An unknown opcode is skipped: the step moves the cursor past it, changes
/// neither a register nor a cell of memory, and the engine continues.
pub proof fn lemma_unknown_opcode_is_skipped(engine: CpuView)
    requires
        engine.unknown_opcode() is Some,
    ensures
        engine.step() == (engine.skip(1), StepOutcome::Continued),
        engine.step().0.registers == engine.registers,
        engine.step().0.memory.cells == engine.memory.cells,
{
}

/// A step reports `Halted` exactly when it leaves the engine halted without
/// ending the program, and only the halt instruction halts a running
/// engine.
pub proof fn lemma_outcome_tells_the_state(engine: CpuView)
    ensures
        engine.step().1 == StepOutcome::Halted ==> engine.step().0.halted,
        engine.step().1 == StepOutcome::Continued ==> !engine.step().0.halted,
        !engine.halted && engine.step().0.halted ==> engine.memory.next_byte() == HALT_OPCODE,
        engine.step().1 == StepOutcome::Terminated ==> engine.memory.next_byte() == END_OPCODE,
{
    crate::processor::instructions::lemma_end_and_halt_opcodes(engine.memory.next_byte());
}

/// A run with a budget of `first + second` steps is a run of `first` steps
/// followed, where the engine can still continue, by a run of `second`.
pub proof fn lemma_run_in_two_parts(engine: CpuView, first: nat, second: nat)
    ensures
        engine.run(first + second) == if engine.run(first).1 == StepOutcome::Continued {
            engine.run(first).0.run(second)
        } else {
            engine.run(first)
        },
    decreases first,
{
    if first == 0 || engine.halted {
    } else {
        let (next, outcome) = engine.step();
        lemma_outcome_tells_the_state(engine);
        if outcome == StepOutcome::Continued {
            lemma_run_in_two_parts(next, (first - 1) as nat, second);
            assert(engine.run(first + second) == next.run((first + second - 1) as nat));
            assert((first + second - 1) as nat == (first - 1) as nat + second);
        }
    }
}

/// Once a run has stopped because the engine halted or the program ended,
/// a larger budget changes nothing.
pub proof fn lemma_run_stops_for_good(engine: CpuView, budget: nat, larger: nat)
    requires
        engine.run(budget).1 != StepOutcome::Continued,
        budget <= larger,
    ensures
        engine.run(larger) == engine.run(budget),
{
    lemma_run_in_two_parts(engine, budget, (larger - budget) as nat);
}

/// The number of operand bytes that an instruction fetches after its
/// opcode: one for an immediate byte or a high-page offset, two for an
/// immediate word or address, none otherwise.
pub open spec fn operand_width(instruction: Instruction) -> int {
    match instruction {
        Instruction::Add(ArithmeticTarget::D8)
        | Instruction::AddC(ArithmeticTarget::D8)
        | Instruction::Sub(ArithmeticTarget::D8)
        | Instruction::SubC(ArithmeticTarget::D8)
        | Instruction::And(ArithmeticTarget::D8)
        | Instruction::Xor(ArithmeticTarget::D8)
        | Instruction::Or(ArithmeticTarget::D8)
        | Instruction::Cp(ArithmeticTarget::D8) => 1,
        Instruction::Load8(target) => match target {
            TargetLd8::AC8
            | TargetLd8::C8A
            | TargetLd8::AHLp
            | TargetLd8::AHLm
            | TargetLd8::Abc
            | TargetLd8::Ade => 0,
            _ => 1,
        },
        Instruction::Load16(_) => 2,
        _ => 0,
    }
}

/// An instruction moves the cursor past its operand bytes and no further.
pub proof fn lemma_execute_moves_cursor_by_width(engine: CpuView, instruction: Instruction)
    ensures
        engine.execute(instruction).memory.cursor == engine.memory.advance(
            operand_width(instruction),
        ).cursor,
{
}

/// No instruction touches the four unused bits of the flag byte.
pub proof fn lemma_execute_keeps_unused_bits(engine: CpuView, instruction: Instruction)
    ensures
        engine.execute(instruction).registers.f.unused == engine.registers.f.unused,
{
}

/// A load changes no flag, whatever it moves and wherever.
pub proof fn lemma_loads_keep_flags(engine: CpuView, instruction: Instruction)
    requires
        instruction is LoadA || instruction is LoadB || instruction is LoadC || instruction is LoadD
            || instruction is LoadE || instruction is LoadH || instruction is LoadL
            || instruction is LoadHL || instruction is Load16 || instruction is Load8
            || instruction is LoadByteA,
    ensures
        engine.execute(instruction).registers.f == engine.registers.f,
{
}

/// Only the halt instruction halts the engine, and no instruction wakes it.
pub proof fn lemma_only_halt_halts(engine: CpuView, instruction: Instruction)
    ensures
        engine.execute(instruction).halted == (engine.halted || instruction is Halt),
{
}

/// Executing an instruction keeps the engine well-formed.
pub proof fn lemma_execute_keeps_wf(engine: CpuView, instruction: Instruction)
    requires
        engine.wf(),
    ensures
        engine.execute(instruction).wf(),
{
    match instruction {
        Instruction::Inc(target) => {
            assert(engine.inc(target).wf());
        },
        Instruction::Dec(target) => {
            assert(engine.dec(target).wf());
        },
        Instruction::Load8(target) => {
            assert(engine.load8(target).wf());
        },
        Instruction::Load16(target) => {
            assert(engine.load16(target).wf());
        },
        Instruction::LoadByteA(target) => {
            assert(engine.loadbytea(target).wf());
        },
        _ => {},
    }
}

/// Every step and every run keeps the engine well-formed.
pub proof fn lemma_step_keeps_wf(engine: CpuView, budget: nat)
    requires
        engine.wf(),
    ensures
        engine.step().0.wf(),
        engine.run(budget).0.wf(),
    decreases budget,
{
    if !engine.halted {
        match decode(engine.memory.next_byte()) {
            Some(instruction) => {
                lemma_execute_keeps_wf(engine.skip(1), instruction);
            },
            None => {},
        }
        if budget > 0 {
            lemma_step_keeps_wf(engine.step().0, (budget - 1) as nat);
        }
    }
}

/// The view of an engine loses nothing.
pub proof fn lemma_view_injective(x: Cpu, y: Cpu)
    requires
        x@ == y@,
    ensures
        x == y,
{
    crate::processor::registers::lemma_view_injective(x.registers, y.registers);
    crate::processor::memorybus::lemma_view_injective(x.memory, y.memory);
}

} // verus!
