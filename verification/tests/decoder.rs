use gameboy::processor::instructions::{
    ArithmeticTarget, ByteTarget, IncTarget, Instruction, Load16Target, Target, TargetLd8,
};

#[test]
fn control_opcodes() {
    assert_eq!(Instruction::from_byte(0x00), Some(Instruction::Nop));
    assert_eq!(Instruction::from_byte(0x76), Some(Instruction::Halt));
    assert_eq!(Instruction::from_byte(0x27), Some(Instruction::Daa));
    assert_eq!(Instruction::from_byte(0x37), Some(Instruction::Scf));
    assert_eq!(Instruction::from_byte(0xFC), Some(Instruction::End));
}

#[test]
fn opcodes_outside_the_subset_are_unknown() {
    for byte in [
        0x07u8, 0x08, 0x09, 0x0F, 0x10, 0x17, 0x18, 0x19, 0x1F, 0x20, 0x28, 0x29, 0x2F, 0x30, 0x38,
        0x39, 0x3F, 0xC0, 0xC1, 0xC3, 0xC9, 0xCB, 0xCD, 0xD3, 0xE1, 0xE8, 0xF1, 0xF3, 0xF8, 0xF9,
        0xFB, 0xFD, 0xFF,
    ] {
        assert_eq!(Instruction::from_byte(byte), None);
    }
}

#[test]
fn the_decoder_knows_190_opcodes() {
    let known = (0..=255u8).filter(|byte| Instruction::from_byte(*byte).is_some()).count();
    assert_eq!(known, 190);
}

#[test]
fn only_one_opcode_ends_and_only_one_halts() {
    for byte in 0..=255u8 {
        let decoded = Instruction::from_byte(byte);
        assert_eq!(decoded == Some(Instruction::End), byte == 0xFC);
        assert_eq!(decoded == Some(Instruction::Halt), byte == 0x76);
        assert_ne!(decoded, Some(Instruction::LoadHL(Target::HL)));
    }
}

#[test]
fn register_loads_fill_the_second_quarter() {
    let sources = [
        Target::B,
        Target::C,
        Target::D,
        Target::E,
        Target::H,
        Target::L,
        Target::HL,
        Target::A,
    ];
    for (index, source) in sources.iter().enumerate() {
        let low = index as u8;
        assert_eq!(Instruction::from_byte(0x40 + low), Some(Instruction::LoadB(*source)));
        assert_eq!(Instruction::from_byte(0x48 + low), Some(Instruction::LoadC(*source)));
        assert_eq!(Instruction::from_byte(0x50 + low), Some(Instruction::LoadD(*source)));
        assert_eq!(Instruction::from_byte(0x58 + low), Some(Instruction::LoadE(*source)));
        assert_eq!(Instruction::from_byte(0x60 + low), Some(Instruction::LoadH(*source)));
        assert_eq!(Instruction::from_byte(0x68 + low), Some(Instruction::LoadL(*source)));
        assert_eq!(Instruction::from_byte(0x78 + low), Some(Instruction::LoadA(*source)));
        if low != 6 {
            assert_eq!(Instruction::from_byte(0x70 + low), Some(Instruction::LoadHL(*source)));
        }
    }
}

#[test]
fn arithmetic_fills_the_third_quarter() {
    let operands = [
        ArithmeticTarget::B,
        ArithmeticTarget::C,
        ArithmeticTarget::D,
        ArithmeticTarget::E,
        ArithmeticTarget::H,
        ArithmeticTarget::L,
        ArithmeticTarget::HL,
        ArithmeticTarget::A,
    ];
    for (index, operand) in operands.iter().enumerate() {
        let low = index as u8;
        assert_eq!(Instruction::from_byte(0x80 + low), Some(Instruction::Add(*operand)));
        assert_eq!(Instruction::from_byte(0x88 + low), Some(Instruction::AddC(*operand)));
        assert_eq!(Instruction::from_byte(0x90 + low), Some(Instruction::Sub(*operand)));
        assert_eq!(Instruction::from_byte(0x98 + low), Some(Instruction::SubC(*operand)));
        assert_eq!(Instruction::from_byte(0xA0 + low), Some(Instruction::And(*operand)));
        assert_eq!(Instruction::from_byte(0xA8 + low), Some(Instruction::Xor(*operand)));
        assert_eq!(Instruction::from_byte(0xB0 + low), Some(Instruction::Or(*operand)));
        assert_eq!(Instruction::from_byte(0xB8 + low), Some(Instruction::Cp(*operand)));
    }
}

#[test]
fn immediate_arithmetic() {
    let operand = ArithmeticTarget::D8;
    assert_eq!(Instruction::from_byte(0xC6), Some(Instruction::Add(operand)));
    assert_eq!(Instruction::from_byte(0xCE), Some(Instruction::AddC(operand)));
    assert_eq!(Instruction::from_byte(0xD6), Some(Instruction::Sub(operand)));
    assert_eq!(Instruction::from_byte(0xDE), Some(Instruction::SubC(operand)));
    assert_eq!(Instruction::from_byte(0xE6), Some(Instruction::And(operand)));
    assert_eq!(Instruction::from_byte(0xEE), Some(Instruction::Xor(operand)));
    assert_eq!(Instruction::from_byte(0xF6), Some(Instruction::Or(operand)));
    assert_eq!(Instruction::from_byte(0xFE), Some(Instruction::Cp(operand)));
}

#[test]
fn increments_and_decrements() {
    let bytes = [
        (0x04u8, IncTarget::B),
        (0x0C, IncTarget::C),
        (0x14, IncTarget::D),
        (0x1C, IncTarget::E),
        (0x24, IncTarget::H),
        (0x2C, IncTarget::L),
        (0x34, IncTarget::HLFlags),
        (0x3C, IncTarget::A),
    ];
    for (opcode, target) in bytes {
        assert_eq!(Instruction::from_byte(opcode), Some(Instruction::Inc(target)));
        assert_eq!(Instruction::from_byte(opcode + 1), Some(Instruction::Dec(target)));
    }
    let words = [
        (0x03u8, IncTarget::BC),
        (0x13, IncTarget::DE),
        (0x23, IncTarget::HL),
        (0x33, IncTarget::SP),
    ];
    for (opcode, target) in words {
        assert_eq!(Instruction::from_byte(opcode), Some(Instruction::Inc(target)));
        assert_eq!(Instruction::from_byte(opcode + 8), Some(Instruction::Dec(target)));
    }
}

#[test]
fn loads_with_operands_and_addresses() {
    let immediates = [
        (0x06u8, TargetLd8::B),
        (0x0E, TargetLd8::C),
        (0x16, TargetLd8::D),
        (0x1E, TargetLd8::E),
        (0x26, TargetLd8::H),
        (0x2E, TargetLd8::L),
        (0x36, TargetLd8::HL),
        (0x3E, TargetLd8::A),
        (0x0A, TargetLd8::Abc),
        (0x1A, TargetLd8::Ade),
        (0x2A, TargetLd8::AHLp),
        (0x3A, TargetLd8::AHLm),
        (0xE0, TargetLd8::A8A),
        (0xF0, TargetLd8::AA8),
        (0xE2, TargetLd8::C8A),
        (0xF2, TargetLd8::AC8),
    ];
    for (opcode, target) in immediates {
        assert_eq!(Instruction::from_byte(opcode), Some(Instruction::Load8(target)));
    }
    let words = [
        (0x01u8, Load16Target::BC),
        (0x11, Load16Target::DE),
        (0x21, Load16Target::HL),
        (0x31, Load16Target::SP),
        (0xEA, Load16Target::A16A),
        (0xFA, Load16Target::AA16),
    ];
    for (opcode, target) in words {
        assert_eq!(Instruction::from_byte(opcode), Some(Instruction::Load16(target)));
    }
    let stores = [
        (0x02u8, ByteTarget::BC),
        (0x12, ByteTarget::DE),
        (0x22, ByteTarget::HLp),
        (0x32, ByteTarget::HLm),
    ];
    for (opcode, target) in stores {
        assert_eq!(Instruction::from_byte(opcode), Some(Instruction::LoadByteA(target)));
    }
}

#[test]
fn no_two_opcodes_stand_for_the_same_instruction() {
    for first in 0..=255u8 {
        let decoded = Instruction::from_byte(first);
        if decoded.is_none() {
            continue;
        }
        for second in 0..=255u8 {
            if first != second {
                assert_ne!(decoded, Instruction::from_byte(second));
            }
        }
    }
}
