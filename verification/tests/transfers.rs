use gameboy::processor::cpu::{Cpu, StepOutcome};
use gameboy::processor::instructions::{ByteTarget, Load16Target, Target, TargetLd8};
use gameboy::processor::memorybus::MemoryBus;

#[test]
fn a_word_is_fetched_low_byte_first() {
    let mut memory = MemoryBus::new();
    memory.set_byte(0x34, 0x0200);
    memory.set_byte(0x12, 0x0201);
    assert_eq!(memory.fetch_word_at(0x0200), 0x1234);
    assert_eq!(memory.pc, 0);

    memory.pc = 0x0200;
    assert_eq!(memory.fetch_next_word(), 0x1234);
    assert_eq!(memory.pc, 0x0202);
}

#[test]
fn a_word_at_the_last_address_takes_its_high_byte_from_the_first() {
    let mut memory = MemoryBus::new();
    memory.set_byte(0xCD, 0xFFFF);
    memory.set_byte(0xAB, 0x0000);
    assert_eq!(memory.fetch_word_at(0xFFFF), 0xABCD);

    memory.pc = 0xFFFF;
    assert_eq!(memory.fetch_next_word(), 0xABCD);
    assert_eq!(memory.pc, 1);
}

#[test]
fn byte_fetches_wrap_the_cursor() {
    let mut memory = MemoryBus::new();
    memory.set_byte(0x11, 0xFFFF);
    memory.set_byte(0x22, 0x0000);
    memory.pc = 0xFFFF;
    assert_eq!(memory.fetch_next_byte(), 0x11);
    assert_eq!(memory.pc, 0);
    assert_eq!(memory.fetch_next_instruction(), 0x22);
    assert_eq!(memory.pc, 1);
}

#[test]
fn a_word_is_stored_under_the_cursor_high_byte_first() {
    let mut memory = MemoryBus::new();
    memory.pc = 0x0300;
    memory.set_word(0xBEEF);
    assert_eq!(memory.fetch_byte_at(0x0300), 0xBE);
    assert_eq!(memory.fetch_byte_at(0x0301), 0xEF);
    assert_eq!(memory.pc, 0x0300);

    memory.pc = 0xFFFF;
    memory.set_word(0x1234);
    assert_eq!(memory.fetch_byte_at(0xFFFF), 0x12);
    assert_eq!(memory.fetch_byte_at(0x0000), 0x34);
    assert_eq!(memory.pc, 0xFFFF);
}

#[test]
fn loads_change_no_flag() {
    for flags in [0x00u8, 0xF0, 0x5A] {
        let mut cpu = Cpu::new();
        cpu.registers.f.f = flags;
        cpu.registers.set_hl(0x9000);
        cpu.loada_dispatch(Target::HL);
        cpu.loadb_dispatch(Target::A);
        cpu.loadhl_dispatch(Target::B);
        cpu.load8_dispatch(TargetLd8::C);
        cpu.load8_dispatch(TargetLd8::AHLp);
        cpu.load8_dispatch(TargetLd8::A8A);
        cpu.load16_dispatch(Load16Target::SP);
        cpu.load16_dispatch(Load16Target::A16A);
        cpu.loadbytea_dispatch(ByteTarget::HLm);
        assert_eq!(cpu.registers.f.f, flags);
    }
}

#[test]
fn a_load_of_a_register_from_itself_changes_nothing() {
    let mut cpu = Cpu::new();
    cpu.registers.a = 1;
    cpu.registers.b = 2;
    cpu.registers.c = 3;
    cpu.registers.d = 4;
    cpu.registers.e = 5;
    cpu.registers.h = 6;
    cpu.registers.l = 7;
    cpu.loada_dispatch(Target::A);
    cpu.loadb_dispatch(Target::B);
    cpu.loadc_dispatch(Target::C);
    cpu.loadd_dispatch(Target::D);
    cpu.loade_dispatch(Target::E);
    cpu.loadh_dispatch(Target::H);
    cpu.loadl_dispatch(Target::L);
    cpu.loadhl_dispatch(Target::HL);
    assert_eq!(cpu.registers.a, 1);
    assert_eq!(cpu.registers.b, 2);
    assert_eq!(cpu.registers.c, 3);
    assert_eq!(cpu.registers.d, 4);
    assert_eq!(cpu.registers.e, 5);
    assert_eq!(cpu.registers.h, 6);
    assert_eq!(cpu.registers.l, 7);
    assert_eq!(cpu.memory.fetch_byte_at(0x0607), 0xFC);
    assert_eq!(cpu.memory.pc, 0);
}

#[test]
fn every_register_loads_from_every_source() {
    let sources = [
        (Target::A, 0x0Au8),
        (Target::B, 0x0B),
        (Target::C, 0x0C),
        (Target::D, 0x0D),
        (Target::E, 0x0E),
        (Target::H, 0x40),
        (Target::L, 0x50),
        (Target::HL, 0x77),
    ];
    for (source, expected) in sources {
        for destination in 0..7 {
            let mut cpu = Cpu::new();
            cpu.registers.a = 0x0A;
            cpu.registers.b = 0x0B;
            cpu.registers.c = 0x0C;
            cpu.registers.d = 0x0D;
            cpu.registers.e = 0x0E;
            cpu.registers.h = 0x40;
            cpu.registers.l = 0x50;
            cpu.memory.set_byte(0x77, 0x4050);
            let loaded = match destination {
                0 => {
                    cpu.loada_dispatch(source);
                    cpu.registers.a
                }
                1 => {
                    cpu.loadb_dispatch(source);
                    cpu.registers.b
                }
                2 => {
                    cpu.loadc_dispatch(source);
                    cpu.registers.c
                }
                3 => {
                    cpu.loadd_dispatch(source);
                    cpu.registers.d
                }
                4 => {
                    cpu.loade_dispatch(source);
                    cpu.registers.e
                }
                5 => {
                    cpu.loadh_dispatch(source);
                    cpu.registers.h
                }
                _ => {
                    cpu.loadl_dispatch(source);
                    cpu.registers.l
                }
            };
            assert_eq!(loaded, expected);
        }
    }
}

#[test]
fn the_high_page_is_the_last_256_bytes() {
    let mut cpu = Cpu::new();
    cpu.memory.set_byte(0xE0, 0);
    cpu.memory.set_byte(0x00, 1);
    cpu.memory.set_byte(0xE0, 2);
    cpu.memory.set_byte(0xFF, 3);
    cpu.registers.a = 0x5A;
    assert_eq!(cpu.run_for(2), StepOutcome::Continued);
    assert_eq!(cpu.memory.fetch_byte_at(0xFF00), 0x5A);
    assert_eq!(cpu.memory.fetch_byte_at(0xFFFF), 0x5A);
    assert_eq!(cpu.memory.fetch_byte_at(0xFEFF), 0xFC);
    assert_eq!(cpu.memory.pc, 4);

    cpu.registers.c = 0x80;
    cpu.registers.a = 0xA5;
    cpu.load8_dispatch(TargetLd8::C8A);
    assert_eq!(cpu.memory.fetch_byte_at(0xFF80), 0xA5);
    cpu.registers.a = 0;
    cpu.load8_dispatch(TargetLd8::AC8);
    assert_eq!(cpu.registers.a, 0xA5);
    assert_eq!(cpu.memory.pc, 4);
}

#[test]
fn hl_steps_wrap_in_loads_and_stores() {
    let mut cpu = Cpu::new();
    cpu.registers.set_hl(0xFFFF);
    cpu.memory.set_byte(0x21, 0xFFFF);
    cpu.load8_dispatch(TargetLd8::AHLp);
    assert_eq!(cpu.registers.a, 0x21);
    assert_eq!(cpu.registers.hl(), 0x0000);

    cpu.memory.set_byte(0x43, 0x0000);
    cpu.load8_dispatch(TargetLd8::AHLm);
    assert_eq!(cpu.registers.a, 0x43);
    assert_eq!(cpu.registers.hl(), 0xFFFF);

    cpu.registers.a = 0x65;
    cpu.loadbytea_dispatch(ByteTarget::HLp);
    assert_eq!(cpu.memory.fetch_byte_at(0xFFFF), 0x65);
    assert_eq!(cpu.registers.hl(), 0x0000);

    cpu.registers.a = 0x87;
    cpu.loadbytea_dispatch(ByteTarget::HLm);
    assert_eq!(cpu.memory.fetch_byte_at(0x0000), 0x87);
    assert_eq!(cpu.registers.hl(), 0xFFFF);
}

#[test]
fn an_immediate_word_is_read_low_byte_first() {
    let mut cpu = Cpu::new();
    cpu.memory.set_byte(0x21, 0);
    cpu.memory.set_byte(0xCD, 1);
    cpu.memory.set_byte(0xAB, 2);
    cpu.memory.set_byte(0x31, 3);
    cpu.memory.set_byte(0xFE, 4);
    cpu.memory.set_byte(0xFF, 5);
    assert_eq!(cpu.run_for(2), StepOutcome::Continued);
    assert_eq!(cpu.registers.h, 0xAB);
    assert_eq!(cpu.registers.l, 0xCD);
    assert_eq!(cpu.registers.sp, 0xFFFE);
    assert_eq!(cpu.memory.pc, 6);
}

#[test]
fn a_store_of_an_immediate_byte_through_hl() {
    let mut cpu = Cpu::new();
    cpu.memory.set_byte(0x36, 0);
    cpu.memory.set_byte(0x99, 1);
    cpu.registers.set_hl(0xD000);
    assert_eq!(cpu.step(), StepOutcome::Continued);
    assert_eq!(cpu.memory.fetch_byte_at(0xD000), 0x99);
    assert_eq!(cpu.memory.pc, 2);
    assert_eq!(cpu.registers.hl(), 0xD000);
}

#[test]
fn stores_through_pairs_keep_the_pairs() {
    let mut cpu = Cpu::new();
    cpu.registers.a = 0x3C;
    cpu.registers.set_bc(0x8001);
    cpu.registers.set_de(0x8002);
    cpu.loadbytea_dispatch(ByteTarget::BC);
    cpu.loadbytea_dispatch(ByteTarget::DE);
    assert_eq!(cpu.memory.fetch_byte_at(0x8001), 0x3C);
    assert_eq!(cpu.memory.fetch_byte_at(0x8002), 0x3C);
    assert_eq!(cpu.registers.bc(), 0x8001);
    assert_eq!(cpu.registers.de(), 0x8002);
    assert_eq!(cpu.registers.a, 0x3C);
}
