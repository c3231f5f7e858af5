use gameboy::processor::cpu::Cpu;
use gameboy::processor::maths::add::half_overflow_u16;
use gameboy::processor::maths::add::half_overflow_u8;

#[test]
fn add_it_check_half_overflow_u8_true() {
    let a = 0xf;
    let b = 0x1;

    let res = half_overflow_u8(a, b);
    assert!(res);
}

#[test]
fn add_it_check_half_overflow_u8_false() {
    let a = 0xe;
    let b = 0x1;

    let res = half_overflow_u8(a, b);
    assert!(!res);
}

#[test]
fn add_it_check_half_overflow_u16_true() {
    let a = 0xfff;
    let b = 0x1;

    let res = half_overflow_u16(a, b);
    assert!(res);
}

#[test]
fn add_it_check_half_overflow_u16_false() {
    let a = 0xffe;
    let b = 0x1;

    let res = half_overflow_u16(a, b);
    assert!(!res);
}

#[test]
fn it_addc_u8() {
    let mut cpu = Cpu::new();
    cpu.registers.a = 0x1;
    cpu.registers.f.set_carry();

    let res = cpu.add_u8(0x2, true);
    assert_eq!(res, 0x1 + 0x2 + 1);
}

#[test]
fn it_add_u8_with_no_overflow_flag() {
    let mut cpu = Cpu::new();
    cpu.registers.a = 0x1;
    let res = cpu.add_u8(0x2, false);

    assert_eq!(res, 0x1 + 0x2);
    assert!(!cpu.registers.f.is_flag());
    assert!(!cpu.registers.f.is_n());
}

#[test]
fn it_add_u8_with_overflow_flag() {
    let mut cpu = Cpu::new();
    cpu.registers.a = 0xFF;
    let res = cpu.add_u8(0x1, false);

    assert_eq!(res, 0x0);
    assert!(cpu.registers.f.is_carry());
    assert!(cpu.registers.f.is_zero());
}

#[test]
fn it_add_u8_with_half_overflow_flag() {
    let mut cpu = Cpu::new();
    cpu.registers.a = 0xF;
    let res = cpu.add_u8(0x1, false);

    assert_eq!(res, 0xF + 0x1);
    assert!(cpu.registers.f.is_half_carry());
}

#[test]
fn it_add_u8_with_no_half_overflow_flag() {
    let mut cpu = Cpu::new();
    cpu.registers.a = 0xE;
    cpu.add_u8(0x1, false);

    assert!(!cpu.registers.f.is_half_carry());
}

#[test]
fn it_adds_b_to_a() {
    let mut cpu = Cpu::new();
    cpu.memory.set_byte(0x80, 0);
    cpu.memory.set_byte(0x00, 1);
    cpu.registers.a = 0x03;
    cpu.registers.b = 0x02;
    cpu.run();
    assert_eq!(cpu.registers.a, 0x03 + 0x02);
}

#[test]
fn it_adds_c_to_a() {
    let mut cpu = Cpu::new();
    cpu.memory.set_byte(0x81, 0);
    cpu.memory.set_byte(0x00, 1);
    cpu.registers.a = 0x03;
    cpu.registers.c = 0x02;
    cpu.run();
    assert_eq!(cpu.registers.a, 0x03 + 0x02);
}

#[test]
fn it_adds_d_to_a() {
    let mut cpu = Cpu::new();
    cpu.memory.set_byte(0x82, 0);
    cpu.memory.set_byte(0x00, 1);
    cpu.registers.a = 0x03;
    cpu.registers.d = 0x02;
    cpu.run();
    assert_eq!(cpu.registers.a, 0x03 + 0x02);
}

#[test]
fn it_adds_e_to_a() {
    let mut cpu = Cpu::new();
    cpu.memory.set_byte(0x83, 0);
    cpu.memory.set_byte(0x00, 1);
    cpu.registers.a = 0x03;
    cpu.registers.e = 0x02;
    cpu.run();
    assert_eq!(cpu.registers.a, 0x03 + 0x02);
}

#[test]
fn it_adds_h_to_a() {
    let mut cpu = Cpu::new();
    cpu.memory.set_byte(0x84, 0);
    cpu.memory.set_byte(0x00, 1);
    cpu.registers.a = 0x03;
    cpu.registers.h = 0x02;
    cpu.run();
    assert_eq!(cpu.registers.a, 0x03 + 0x02);
}

#[test]
fn it_adds_l_to_a() {
    let mut cpu = Cpu::new();
    cpu.memory.set_byte(0x85, 0);
    cpu.memory.set_byte(0x00, 1);
    cpu.registers.a = 0x03;
    cpu.registers.l = 0x02;
    cpu.run();
    assert_eq!(cpu.registers.a, 0x03 + 0x02);
}

#[test]
fn it_adds_b_to_a_with_carry() {
    let mut cpu = Cpu::new();
    cpu.memory.set_byte(0x88, 0);
    cpu.memory.set_byte(0x00, 1);
    cpu.registers.a = 0x03;
    cpu.registers.b = 0x02;
    cpu.registers.f.set_carry();
    cpu.run();
    assert_eq!(cpu.registers.a, 0x03 + 0x02 + 0x1);
}

#[test]
fn it_adds_c_to_a_with_carry() {
    let mut cpu = Cpu::new();
    cpu.memory.set_byte(0x89, 0);
    cpu.memory.set_byte(0x00, 1);
    cpu.registers.a = 0x03;
    cpu.registers.c = 0x02;
    cpu.registers.f.set_carry();
    cpu.run();
    assert_eq!(cpu.registers.a, 0x03 + 0x02 + 0x1);
}

#[test]
fn it_adds_d_to_a_with_carry() {
    let mut cpu = Cpu::new();
    cpu.memory.set_byte(0x8A, 0);
    cpu.memory.set_byte(0x00, 1);
    cpu.registers.a = 0x03;
    cpu.registers.d = 0x02;
    cpu.registers.f.set_carry();
    cpu.run();
    assert_eq!(cpu.registers.a, 0x03 + 0x02 + 0x1);
}

#[test]
fn it_adds_e_to_a_with_carry() {
    let mut cpu = Cpu::new();
    cpu.memory.set_byte(0x8B, 0);
    cpu.memory.set_byte(0x00, 1);
    cpu.registers.a = 0x03;
    cpu.registers.e = 0x02;
    cpu.registers.f.set_carry();
    cpu.run();
    assert_eq!(cpu.registers.a, 0x03 + 0x02 + 0x1);
}

#[test]
fn it_adds_h_to_a_with_carry() {
    let mut cpu = Cpu::new();
    cpu.memory.set_byte(0x8C, 0);
    cpu.memory.set_byte(0x00, 1);
    cpu.registers.a = 0x03;
    cpu.registers.h = 0x02;
    cpu.registers.f.set_carry();
    cpu.run();
    assert_eq!(cpu.registers.a, 0x03 + 0x02 + 0x1);
}

#[test]
fn it_adds_l_to_a_with_carry() {
    let mut cpu = Cpu::new();
    cpu.memory.set_byte(0x8D, 0);
    cpu.memory.set_byte(0x00, 1);
    cpu.registers.a = 0x03;
    cpu.registers.l = 0x02;
    cpu.registers.f.set_carry();
    cpu.run();
    assert_eq!(cpu.registers.a, 0x03 + 0x02 + 0x1);
}

#[test]
fn it_adds_hl_to_a() {
    let mut cpu = Cpu::new();
    cpu.memory.set_byte(0x86, 0);
    cpu.memory.set_byte(0x00, 1);

    cpu.memory.set_byte(0x04, 0x2);
    cpu.registers.set_hl(0x02);
    cpu.registers.a = 0x03;
    cpu.run();
    assert_eq!(cpu.registers.a, 0x03 + 0x04);
}

#[test]
fn it_adds_hl_to_a_with_carry() {
    let mut cpu = Cpu::new();
    cpu.memory.set_byte(0x8E, 0);
    cpu.memory.set_byte(0x04, 0x2);
    cpu.memory.set_byte(0x00, 1);
    cpu.registers.set_hl(0x02);
    cpu.registers.a = 0x03;
    cpu.registers.f.set_carry();
    cpu.run();
    assert_eq!(cpu.registers.a, 0x03 + 0x04 + 0x1);
}
