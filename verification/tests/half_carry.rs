use gameboy::processor::cpu::Cpu;
use gameboy::processor::maths::add::half_overflow_u16;
use gameboy::processor::maths::add::half_overflow_u8;

#[test]
fn it_check_half_overflow_u8_true() {
    let a = 0xf;
    let b = 0x1;

    let res = half_overflow_u8(a, b);
    assert!(res);
}

#[test]
fn it_check_half_overflow_u8_false() {
    let a = 0xe;
    let b = 0x1;

    let res = half_overflow_u8(a, b);
    assert!(!res);
}

#[test]
fn it_check_half_overflow_u16_true() {
    let a = 0xfff;
    let b = 0x1;

    let res = half_overflow_u16(a, b);
    assert!(res);
}

#[test]
fn it_check_half_overflow_u16_false() {
    let a = 0xffe;
    let b = 0x1;

    let res = half_overflow_u16(a, b);
    assert!(!res);
}

#[test]
fn it_add_with_no_overflow_flag() {
    let mut cpu = Cpu::new();
    cpu.registers.a = 0x1;
    let res = cpu.add_u8(0x2, false);

    println!("in test result: {}", res);
    assert_eq!(res, 0x1 + 0x2);
    assert!(!cpu.registers.f.is_flag());
}
