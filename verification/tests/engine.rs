use gameboy::processor::cpu::{Cpu, StepOutcome, UnknownOpcode};
use gameboy::processor::instructions::Instruction;

#[test]
fn a_new_engine_is_zeroed_and_running() {
    let cpu = Cpu::new();
    assert_eq!(cpu.registers.a, 0);
    assert_eq!(cpu.registers.b, 0);
    assert_eq!(cpu.registers.c, 0);
    assert_eq!(cpu.registers.d, 0);
    assert_eq!(cpu.registers.e, 0);
    assert_eq!(cpu.registers.h, 0);
    assert_eq!(cpu.registers.l, 0);
    assert_eq!(cpu.registers.f.f, 0);
    assert_eq!(cpu.registers.sp, 0);
    assert_eq!(cpu.memory.pc, 0);
    assert_eq!(cpu.memory.memory.len(), 0x10000);
    assert!(cpu.memory.memory.iter().all(|byte| *byte == 0xFC));
    assert!(!cpu.is_halted());
}

#[test]
fn a_new_engine_terminates_at_once() {
    let mut cpu = Cpu::new();
    assert_eq!(cpu.run_for(10), StepOutcome::Terminated);
    assert_eq!(cpu.memory.pc, 1);
}

#[test]
fn an_unknown_opcode_is_reported_and_skipped() {
    let mut cpu = Cpu::new();
    cpu.memory.set_byte(0x07, 0);
    cpu.registers.a = 0x12;
    cpu.registers.f.f = 0xA5;

    assert_eq!(cpu.try_step(), Err(UnknownOpcode { opcode: 0x07 }));
    assert_eq!(cpu.memory.pc, 1);
    assert_eq!(cpu.registers.a, 0x12);
    assert_eq!(cpu.registers.f.f, 0xA5);
    assert_eq!(cpu.memory.fetch_byte_at(0), 0x07);
    assert!(!cpu.is_halted());

    assert_eq!(cpu.try_step(), Ok(StepOutcome::Terminated));
}

#[test]
fn step_passes_over_an_unknown_opcode() {
    let mut cpu = Cpu::new();
    cpu.memory.set_byte(0xD3, 0);
    cpu.memory.set_byte(0x3C, 1);

    assert_eq!(cpu.step(), StepOutcome::Continued);
    assert_eq!(cpu.memory.pc, 1);
    assert_eq!(cpu.registers.a, 0);
    assert_eq!(cpu.step(), StepOutcome::Continued);
    assert_eq!(cpu.registers.a, 1);
}

#[test]
fn run_passes_over_unknown_opcodes_until_the_end() {
    let mut cpu = Cpu::new();
    cpu.memory.set_byte(0xD3, 0);
    cpu.memory.set_byte(0x04, 1);
    cpu.memory.set_byte(0xFF, 2);
    cpu.memory.set_byte(0x04, 3);

    assert_eq!(cpu.run_for(100), StepOutcome::Terminated);
    assert_eq!(cpu.registers.b, 2);
    assert_eq!(cpu.memory.pc, 5);
}

#[test]
fn try_step_of_a_halted_engine_is_no_error() {
    let mut cpu = Cpu::new();
    cpu.memory.set_byte(0x07, 0);
    cpu.halt();
    assert_eq!(cpu.try_step(), Ok(StepOutcome::Halted));
    assert_eq!(cpu.memory.pc, 0);
}

#[test]
fn run_stops_when_the_budget_is_spent() {
    let mut cpu = Cpu::new();
    for position in 0..8 {
        cpu.memory.set_byte(0x3C, position);
    }
    assert_eq!(cpu.run_for(3), StepOutcome::Continued);
    assert_eq!(cpu.registers.a, 3);
    assert_eq!(cpu.memory.pc, 3);

    assert_eq!(cpu.run_for(0), StepOutcome::Continued);
    assert_eq!(cpu.registers.a, 3);
    assert_eq!(cpu.memory.pc, 3);

    assert_eq!(cpu.run_for(100), StepOutcome::Terminated);
    assert_eq!(cpu.registers.a, 8);
    assert_eq!(cpu.memory.pc, 9);
}

#[test]
fn run_of_a_budget_is_two_runs_of_its_parts() {
    let mut whole = Cpu::new();
    let mut parts = Cpu::new();
    for position in 0..20 {
        whole.memory.set_byte(0x04, position);
        parts.memory.set_byte(0x04, position);
    }
    assert_eq!(whole.run_for(12), StepOutcome::Continued);
    assert_eq!(parts.run_for(5), StepOutcome::Continued);
    assert_eq!(parts.run_for(7), StepOutcome::Continued);
    assert_eq!(whole.registers.b, parts.registers.b);
    assert_eq!(whole.memory.pc, parts.memory.pc);
    assert_eq!(whole.registers.f.f, parts.registers.f.f);
}

#[test]
fn run_stops_at_halt() {
    let mut cpu = Cpu::new();
    cpu.memory.set_byte(0x3C, 0);
    cpu.memory.set_byte(0x76, 1);
    cpu.memory.set_byte(0x3C, 2);

    assert_eq!(cpu.run_for(100), StepOutcome::Halted);
    assert_eq!(cpu.registers.a, 1);
    assert_eq!(cpu.memory.pc, 2);
    assert!(cpu.is_halted());
    assert_eq!(cpu.run_for(0), StepOutcome::Halted);
}

#[test]
fn a_memory_of_nops_never_ends() {
    let mut cpu = Cpu::new();
    for position in 0..0x10000 {
        cpu.memory.set_byte(0x00, position);
    }
    assert_eq!(cpu.run_for(0x10000 + 5), StepOutcome::Continued);
    assert_eq!(cpu.memory.pc, 5);
}

#[test]
fn the_cursor_wraps_at_the_end_of_memory() {
    let mut cpu = Cpu::new();
    cpu.memory.pc = 0xFFFF;
    cpu.memory.set_byte(0x3C, 0xFFFF);
    cpu.memory.set_byte(0x3C, 0x0000);

    assert_eq!(cpu.step(), StepOutcome::Continued);
    assert_eq!(cpu.memory.pc, 0);
    assert_eq!(cpu.step(), StepOutcome::Continued);
    assert_eq!(cpu.memory.pc, 1);
    assert_eq!(cpu.registers.a, 2);
}

#[test]
fn an_immediate_operand_is_read_across_the_wrap() {
    let mut cpu = Cpu::new();
    cpu.memory.pc = 0xFFFF;
    cpu.memory.set_byte(0x3E, 0xFFFF);
    cpu.memory.set_byte(0x99, 0x0000);

    assert_eq!(cpu.step(), StepOutcome::Continued);
    assert_eq!(cpu.registers.a, 0x99);
    assert_eq!(cpu.memory.pc, 1);
}

#[test]
fn execute_reports_how_the_engine_stands() {
    let mut cpu = Cpu::new();
    assert_eq!(cpu.execute(Instruction::Nop), StepOutcome::Continued);
    assert_eq!(cpu.execute(Instruction::Scf), StepOutcome::Continued);
    assert_eq!(cpu.execute(Instruction::Halt), StepOutcome::Halted);
    assert_eq!(cpu.execute(Instruction::Nop), StepOutcome::Halted);
    assert_eq!(cpu.execute(Instruction::End), StepOutcome::Terminated);
    assert_eq!(cpu.memory.pc, 0);
}

#[test]
fn nop_changes_nothing_but_the_cursor() {
    let mut cpu = Cpu::new();
    cpu.memory.set_byte(0x00, 0);
    cpu.registers.a = 9;
    cpu.registers.f.f = 0xFF;
    cpu.registers.sp = 0x1000;

    assert_eq!(cpu.step(), StepOutcome::Continued);
    assert_eq!(cpu.memory.pc, 1);
    assert_eq!(cpu.registers.a, 9);
    assert_eq!(cpu.registers.f.f, 0xFF);
    assert_eq!(cpu.registers.sp, 0x1000);
}

#[test]
fn run_returns_when_the_program_ends_or_the_engine_halts() {
    let mut cpu = Cpu::new();
    cpu.memory.set_byte(0x3C, 0);
    cpu.memory.set_byte(0x3C, 1);
    assert_eq!(cpu.run(), StepOutcome::Terminated);
    assert_eq!(cpu.registers.a, 2);
    assert_eq!(cpu.memory.pc, 3);

    let mut cpu = Cpu::new();
    cpu.memory.set_byte(0x3C, 0);
    cpu.memory.set_byte(0x76, 1);
    assert_eq!(cpu.run(), StepOutcome::Halted);
    assert_eq!(cpu.registers.a, 1);
    assert_eq!(cpu.memory.pc, 2);
    assert_eq!(cpu.run(), StepOutcome::Halted);
    assert_eq!(cpu.memory.pc, 2);
}
