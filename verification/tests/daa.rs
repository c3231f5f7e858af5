use gameboy::processor::cpu::Cpu;

#[test]
fn it_should_adjust_unit_when_greater_than_9() {
    let mut cpu = Cpu::new();
    cpu.memory.set_byte(0x27, 0x0);
    cpu.registers.a = 0x2E;

    cpu.run();
    assert_eq!(cpu.registers.a, 0x2E + 0x6)
}

#[test]
fn it_should_adjust_unit_when_half_carry() {
    let mut cpu = Cpu::new();
    cpu.memory.set_byte(0x27, 0x0);
    cpu.registers.a = 0x22;
    cpu.registers.f.set_h();

    cpu.run();
    assert_eq!(cpu.registers.a, 0x22 + 0x6)
}

#[test]
fn it_should_adjust_tens_when_greater_than_99() {
    let mut cpu = Cpu::new();
    cpu.memory.set_byte(0x27, 0x0);
    cpu.registers.a = 0xA4;

    cpu.run();
    assert_eq!(cpu.registers.a, 0x4)
}

#[test]
fn it_should_adjust_tens_when_carry() {
    let mut cpu = Cpu::new();
    cpu.memory.set_byte(0x27, 0x0);
    cpu.registers.a = 0x22;
    cpu.registers.f.set_carry();

    cpu.run();
    assert_eq!(cpu.registers.a, 0x22 + 0x60)
}

#[test]
fn it_should_adjust_tens_and_unit_when_carry_and_half_carry() {
    let mut cpu = Cpu::new();
    cpu.memory.set_byte(0x27, 0x0);
    cpu.registers.a = 0x22;
    cpu.registers.f.set_carry();
    cpu.registers.f.set_h();

    cpu.run();
    assert_eq!(cpu.registers.a, 0x22 + 0x66)
}

#[test]
fn it_should_adjust_tens_and_unit_when_higher_than_99() {
    let mut cpu = Cpu::new();
    cpu.memory.set_byte(0x27, 0x0);
    cpu.registers.a = 0xAA;

    cpu.run();
    assert_eq!(cpu.registers.a, 0x10)
}
