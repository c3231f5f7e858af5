use gameboy::processor::flags::Flags;

#[test]
fn set_zero_flag() {
    let mut flags = Flags::new();
    flags.set_zero();

    assert_eq!(0b1000_0000, flags.f);
}

#[test]
fn unset_zero_flag() {
    let mut flags = Flags::new();
    flags.set_zero();
    flags.unset_zero();

    assert_eq!(0b0000_0000, flags.f);
}

#[test]
fn is_zero_flag() {
    let mut flags = Flags::new();
    flags.set_zero();

    assert!(flags.is_zero());
}
