//! Instructions and the decoder that maps one opcode byte to an instruction.
//!
//! Decoding looks at the opcode alone. Operand bytes that follow the opcode
//! in memory are fetched when the instruction executes.

use vstd::prelude::*;

verus! {

/// The opcode of the instruction that ends a program.
pub const END_OPCODE: u8 = 0xFC;

/// The opcode of the instruction that halts the engine.
pub const HALT_OPCODE: u8 = 0x76;

/// Operand of an arithmetic, logic or compare instruction.
#[derive(Debug, Clone, Copy, PartialEq, Eq, Structural)]
pub enum ArithmeticTarget {
    A,
    B,
    C,
    D,
    E,
    H,
    L,
    /// The byte in memory at the address held in HL.
    HL,
    /// The byte that follows the opcode.
    D8,
}

/// Source of a register-to-register load, or of a store through HL.
#[derive(Debug, Clone, Copy, PartialEq, Eq, Structural)]
pub enum Target {
    A,
    B,
    C,
    D,
    E,
    H,
    L,
    /// The byte in memory at the address held in HL.
    HL,
}

/// What an increment or decrement works on.
#[derive(Debug, Clone, Copy, PartialEq, Eq, Structural)]
pub enum IncTarget {
    A,
    B,
    C,
    D,
    E,
    H,
    L,
    /// The 16-bit pair BC; no flag changes.
    BC,
    /// The 16-bit pair DE; no flag changes.
    DE,
    /// The stack pointer; no flag changes.
    SP,
    /// The 16-bit pair HL; no flag changes.
    HL,
    /// The byte in memory at the address held in HL; flags change as for a
    /// register.
    HLFlags,
}

/// The 8-bit loads that take an immediate byte or go through an address.
#[derive(Debug, Clone, Copy, PartialEq, Eq, Structural)]
pub enum TargetLd8 {
    /// The byte that follows the opcode goes to A.
    A,
    /// The byte that follows the opcode goes to B.
    B,
    /// The byte that follows the opcode goes to C.
    C,
    /// The byte that follows the opcode goes to D.
    D,
    /// The byte that follows the opcode goes to E.
    E,
    /// The byte that follows the opcode goes to H.
    H,
    /// The byte that follows the opcode goes to L.
    L,
    /// A is loaded from the high page, at 0xFF00 plus the byte that follows
    /// the opcode.
    AA8,
    /// A is stored to the high page, at 0xFF00 plus the byte that follows
    /// the opcode.
    A8A,
    /// A is loaded from the high page, at 0xFF00 plus C.
    AC8,
    /// A is stored to the high page, at 0xFF00 plus C.
    C8A,
    /// The byte that follows the opcode is stored at the address in HL.
    HL,
    /// A is loaded from the address in HL, and HL goes up by one.
    AHLp,
    /// A is loaded from the address in HL, and HL goes down by one.
    AHLm,
    /// A is loaded from the address in BC.
    Abc,
    /// A is loaded from the address in DE.
    Ade,
}

/// The loads that take an immediate word.
#[derive(Debug, Clone, Copy, PartialEq, Eq, Structural)]
pub enum Load16Target {
    /// The word that follows the opcode goes to BC.
    BC,
    /// The word that follows the opcode goes to DE.
    DE,
    /// The word that follows the opcode goes to HL.
    HL,
    /// The word that follows the opcode goes to the stack pointer.
    SP,
    /// A is stored at the address that follows the opcode.
    A16A,
    /// A is loaded from the address that follows the opcode.
    AA16,
}

/// Where a store of A through a register pair goes.
#[derive(Debug, Clone, Copy, PartialEq, Eq, Structural)]
pub enum ByteTarget {
    /// To the address in BC.
    BC,
    /// To the address in DE.
    DE,
    /// To the address in HL, and HL goes up by one.
    HLp,
    /// To the address in HL, and HL goes down by one.
    HLm,
}

/// One decoded instruction.
#[derive(Debug, Clone, Copy, PartialEq, Eq, Structural)]
pub enum Instruction {
    /// Pauses the engine.
    Halt,
    /// Decimal adjust of A.
    Daa,
    /// Set the carry flag.
    Scf,
    Inc(IncTarget),
    Dec(IncTarget),
    Add(ArithmeticTarget),
    /// Add with the carry flag as carry-in.
    AddC(ArithmeticTarget),
    Sub(ArithmeticTarget),
    /// Subtract with the carry flag as borrow-in.
    SubC(ArithmeticTarget),
    And(ArithmeticTarget),
    Xor(ArithmeticTarget),
    Or(ArithmeticTarget),
    /// Compare: a subtraction whose result is dropped.
    Cp(ArithmeticTarget),
    /// Load A from the source.
    LoadA(Target),
    /// Load B from the source.
    LoadB(Target),
    /// Load C from the source.
    LoadC(Target),
    /// Load D from the source.
    LoadD(Target),
    /// Load E from the source.
    LoadE(Target),
    /// Load H from the source.
    LoadH(Target),
    /// Load L from the source.
    LoadL(Target),
    /// Store the source register at the address in HL.
    LoadHL(Target),
    Load16(Load16Target),
    Load8(TargetLd8),
    /// Store A through a register pair.
    LoadByteA(ByteTarget),
    /// Does nothing.
    Nop,
    /// Ends the program.
    End,
}

/// The register that an operand field of three bits selects, in the order
/// B, C, D, E, H, L, the byte at HL, A.
pub open spec fn source_slot(index: int) -> Target {
    if index == 0 {
        Target::B
    } else if index == 1 {
        Target::C
    } else if index == 2 {
        Target::D
    } else if index == 3 {
        Target::E
    } else if index == 4 {
        Target::H
    } else if index == 5 {
        Target::L
    } else if index == 6 {
        Target::HL
    } else {
        Target::A
    }
}

/// The same operand field, as the operand of an arithmetic instruction.
pub open spec fn arithmetic_slot(index: int) -> ArithmeticTarget {
    match source_slot(index) {
        Target::A => ArithmeticTarget::A,
        Target::B => ArithmeticTarget::B,
        Target::C => ArithmeticTarget::C,
        Target::D => ArithmeticTarget::D,
        Target::E => ArithmeticTarget::E,
        Target::H => ArithmeticTarget::H,
        Target::L => ArithmeticTarget::L,
        Target::HL => ArithmeticTarget::HL,
    }
}

/// The same operand field, as what an 8-bit increment or decrement works
/// on.
pub open spec fn step_slot(index: int) -> IncTarget {
    match source_slot(index) {
        Target::A => IncTarget::A,
        Target::B => IncTarget::B,
        Target::C => IncTarget::C,
        Target::D => IncTarget::D,
        Target::E => IncTarget::E,
        Target::H => IncTarget::H,
        Target::L => IncTarget::L,
        Target::HL => IncTarget::HLFlags,
    }
}

/// The same operand field, as the destination of an immediate byte.
pub open spec fn immediate_slot(index: int) -> TargetLd8 {
    match source_slot(index) {
        Target::A => TargetLd8::A,
        Target::B => TargetLd8::B,
        Target::C => TargetLd8::C,
        Target::D => TargetLd8::D,
        Target::E => TargetLd8::E,
        Target::H => TargetLd8::H,
        Target::L => TargetLd8::L,
        Target::HL => TargetLd8::HL,
    }
}

/// The arithmetic instruction of a family on an operand. The families come
/// in the order add, add with carry, subtract, subtract with carry, and,
/// xor, or, compare.
pub open spec fn arithmetic_family(family: int, operand: ArithmeticTarget) -> Instruction {
    if family == 0 {
        Instruction::Add(operand)
    } else if family == 1 {
        Instruction::AddC(operand)
    } else if family == 2 {
        Instruction::Sub(operand)
    } else if family == 3 {
        Instruction::SubC(operand)
    } else if family == 4 {
        Instruction::And(operand)
    } else if family == 5 {
        Instruction::Xor(operand)
    } else if family == 6 {
        Instruction::Or(operand)
    } else {
        Instruction::Cp(operand)
    }
}

/// The load that moves a source to the destination that a field of three
/// bits selects. The destinations come in the same order as the sources;
/// the field that would store the byte at HL to itself is the halt
/// instruction instead.
pub open spec fn load_family(destination: int, source: int) -> Instruction {
    if destination == 0 {
        Instruction::LoadB(source_slot(source))
    } else if destination == 1 {
        Instruction::LoadC(source_slot(source))
    } else if destination == 2 {
        Instruction::LoadD(source_slot(source))
    } else if destination == 3 {
        Instruction::LoadE(source_slot(source))
    } else if destination == 4 {
        Instruction::LoadH(source_slot(source))
    } else if destination == 5 {
        Instruction::LoadL(source_slot(source))
    } else if destination == 6 {
        if source == 6 {
            Instruction::Halt
        } else {
            Instruction::LoadHL(source_slot(source))
        }
    } else {
        Instruction::LoadA(source_slot(source))
    }
}

/// Opcodes below 0x40. The low three bits pick the column and the next
/// three the row. Columns 4, 5 and 6 increment, decrement and load an
/// immediate byte, with the row as the register. Columns 1, 2 and 3 work
/// on the register pair that the upper two bits of the row select, and
/// the lowest bit of the row tells the two instructions of a column apart.
pub open spec fn decode_first_quarter(byte: u8) -> Option<Instruction> {
    let column = byte % 8;
    let row = byte / 8;
    let pair = row / 2;
    if column == 4 {
        Some(Instruction::Inc(step_slot(row as int)))
    } else if column == 5 {
        Some(Instruction::Dec(step_slot(row as int)))
    } else if column == 6 {
        Some(Instruction::Load8(immediate_slot(row as int)))
    } else if column == 1 && row % 2 == 0 {
        Some(
            Instruction::Load16(
                if pair == 0 {
                    Load16Target::BC
                } else if pair == 1 {
                    Load16Target::DE
                } else if pair == 2 {
                    Load16Target::HL
                } else {
                    Load16Target::SP
                },
            ),
        )
    } else if column == 2 && row % 2 == 0 {
        Some(
            Instruction::LoadByteA(
                if pair == 0 {
                    ByteTarget::BC
                } else if pair == 1 {
                    ByteTarget::DE
                } else if pair == 2 {
                    ByteTarget::HLp
                } else {
                    ByteTarget::HLm
                },
            ),
        )
    } else if column == 2 {
        Some(
            Instruction::Load8(
                if pair == 0 {
                    TargetLd8::Abc
                } else if pair == 1 {
                    TargetLd8::Ade
                } else if pair == 2 {
                    TargetLd8::AHLp
                } else {
                    TargetLd8::AHLm
                },
            ),
        )
    } else if column == 3 {
        let target = if pair == 0 {
            IncTarget::BC
        } else if pair == 1 {
            IncTarget::DE
        } else if pair == 2 {
            IncTarget::HL
        } else {
            IncTarget::SP
        };
        if row % 2 == 0 {
            Some(Instruction::Inc(target))
        } else {
            Some(Instruction::Dec(target))
        }
    } else if byte == 0x00 {
        Some(Instruction::Nop)
    } else if byte == 0x27 {
        Some(Instruction::Daa)
    } else if byte == 0x37 {
        Some(Instruction::Scf)
    } else {
        None
    }
}

/// Opcodes from 0xC0 up. An opcode whose low three bits are 6 is the
/// arithmetic instruction of its row on the byte that follows it. The
/// others are listed one by one.
pub open spec fn decode_last_quarter(byte: u8) -> Option<Instruction> {
    if byte % 8 == 6 {
        Some(arithmetic_family((byte - 0xC0) / 8, ArithmeticTarget::D8))
    } else if byte == 0xE0 {
        Some(Instruction::Load8(TargetLd8::A8A))
    } else if byte == 0xF0 {
        Some(Instruction::Load8(TargetLd8::AA8))
    } else if byte == 0xE2 {
        Some(Instruction::Load8(TargetLd8::C8A))
    } else if byte == 0xF2 {
        Some(Instruction::Load8(TargetLd8::AC8))
    } else if byte == 0xEA {
        Some(Instruction::Load16(Load16Target::A16A))
    } else if byte == 0xFA {
        Some(Instruction::Load16(Load16Target::AA16))
    } else if byte == END_OPCODE {
        Some(Instruction::End)
    } else {
        None
    }
}

/// The instruction that an opcode stands for, or `None` where the opcode is
/// not one of those the engine executes.
pub open spec fn decode(byte: u8) -> Option<Instruction> {
    if byte < 0x40 {
        decode_first_quarter(byte)
    } else if byte < 0x80 {
        Some(load_family((byte - 0x40) / 8, (byte % 8) as int))
    } else if byte < 0xC0 {
        Some(arithmetic_family((byte - 0x80) / 8, arithmetic_slot((byte % 8) as int)))
    } else {
        decode_last_quarter(byte)
    }
}

impl Instruction {
    /// Decodes one opcode. The table below lists every opcode that the
    /// engine executes; any other byte gives `None`.
    pub fn from_byte(byte: u8) -> (instruction: Option<Instruction>)
        ensures
            instruction == decode(byte),
    {
        match byte {
            0x00 => Some(Instruction::Nop),
            0x01 => Some(Instruction::Load16(Load16Target::BC)),
            0x02 => Some(Instruction::LoadByteA(ByteTarget::BC)),
            0x03 => Some(Instruction::Inc(IncTarget::BC)),
            0x04 => Some(Instruction::Inc(IncTarget::B)),
            0x05 => Some(Instruction::Dec(IncTarget::B)),
            0x06 => Some(Instruction::Load8(TargetLd8::B)),
            0x0A => Some(Instruction::Load8(TargetLd8::Abc)),
            0x0B => Some(Instruction::Dec(IncTarget::BC)),
            0x0C => Some(Instruction::Inc(IncTarget::C)),
            0x0D => Some(Instruction::Dec(IncTarget::C)),
            0x0E => Some(Instruction::Load8(TargetLd8::C)),
            0x11 => Some(Instruction::Load16(Load16Target::DE)),
            0x12 => Some(Instruction::LoadByteA(ByteTarget::DE)),
            0x13 => Some(Instruction::Inc(IncTarget::DE)),
            0x14 => Some(Instruction::Inc(IncTarget::D)),
            0x15 => Some(Instruction::Dec(IncTarget::D)),
            0x16 => Some(Instruction::Load8(TargetLd8::D)),
            0x1A => Some(Instruction::Load8(TargetLd8::Ade)),
            0x1B => Some(Instruction::Dec(IncTarget::DE)),
            0x1C => Some(Instruction::Inc(IncTarget::E)),
            0x1D => Some(Instruction::Dec(IncTarget::E)),
            0x1E => Some(Instruction::Load8(TargetLd8::E)),
            0x21 => Some(Instruction::Load16(Load16Target::HL)),
            0x22 => Some(Instruction::LoadByteA(ByteTarget::HLp)),
            0x23 => Some(Instruction::Inc(IncTarget::HL)),
            0x24 => Some(Instruction::Inc(IncTarget::H)),
            0x25 => Some(Instruction::Dec(IncTarget::H)),
            0x26 => Some(Instruction::Load8(TargetLd8::H)),
            0x27 => Some(Instruction::Daa),
            0x2A => Some(Instruction::Load8(TargetLd8::AHLp)),
            0x2B => Some(Instruction::Dec(IncTarget::HL)),
            0x2C => Some(Instruction::Inc(IncTarget::L)),
            0x2D => Some(Instruction::Dec(IncTarget::L)),
            0x2E => Some(Instruction::Load8(TargetLd8::L)),
            0x31 => Some(Instruction::Load16(Load16Target::SP)),
            0x32 => Some(Instruction::LoadByteA(ByteTarget::HLm)),
            0x33 => Some(Instruction::Inc(IncTarget::SP)),
            0x34 => Some(Instruction::Inc(IncTarget::HLFlags)),
            0x35 => Some(Instruction::Dec(IncTarget::HLFlags)),
            0x36 => Some(Instruction::Load8(TargetLd8::HL)),
            0x37 => Some(Instruction::Scf),
            0x3A => Some(Instruction::Load8(TargetLd8::AHLm)),
            0x3B => Some(Instruction::Dec(IncTarget::SP)),
            0x3C => Some(Instruction::Inc(IncTarget::A)),
            0x3D => Some(Instruction::Dec(IncTarget::A)),
            0x3E => Some(Instruction::Load8(TargetLd8::A)),
            0x40 => Some(Instruction::LoadB(Target::B)),
            0x41 => Some(Instruction::LoadB(Target::C)),
            0x42 => Some(Instruction::LoadB(Target::D)),
            0x43 => Some(Instruction::LoadB(Target::E)),
            0x44 => Some(Instruction::LoadB(Target::H)),
            0x45 => Some(Instruction::LoadB(Target::L)),
            0x46 => Some(Instruction::LoadB(Target::HL)),
            0x47 => Some(Instruction::LoadB(Target::A)),
            0x48 => Some(Instruction::LoadC(Target::B)),
            0x49 => Some(Instruction::LoadC(Target::C)),
            0x4A => Some(Instruction::LoadC(Target::D)),
            0x4B => Some(Instruction::LoadC(Target::E)),
            0x4C => Some(Instruction::LoadC(Target::H)),
            0x4D => Some(Instruction::LoadC(Target::L)),
            0x4E => Some(Instruction::LoadC(Target::HL)),
            0x4F => Some(Instruction::LoadC(Target::A)),
            0x50 => Some(Instruction::LoadD(Target::B)),
            0x51 => Some(Instruction::LoadD(Target::C)),
            0x52 => Some(Instruction::LoadD(Target::D)),
            0x53 => Some(Instruction::LoadD(Target::E)),
            0x54 => Some(Instruction::LoadD(Target::H)),
            0x55 => Some(Instruction::LoadD(Target::L)),
            0x56 => Some(Instruction::LoadD(Target::HL)),
            0x57 => Some(Instruction::LoadD(Target::A)),
            0x58 => Some(Instruction::LoadE(Target::B)),
            0x59 => Some(Instruction::LoadE(Target::C)),
            0x5A => Some(Instruction::LoadE(Target::D)),
            0x5B => Some(Instruction::LoadE(Target::E)),
            0x5C => Some(Instruction::LoadE(Target::H)),
            0x5D => Some(Instruction::LoadE(Target::L)),
            0x5E => Some(Instruction::LoadE(Target::HL)),
            0x5F => Some(Instruction::LoadE(Target::A)),
            0x60 => Some(Instruction::LoadH(Target::B)),
            0x61 => Some(Instruction::LoadH(Target::C)),
            0x62 => Some(Instruction::LoadH(Target::D)),
            0x63 => Some(Instruction::LoadH(Target::E)),
            0x64 => Some(Instruction::LoadH(Target::H)),
            0x65 => Some(Instruction::LoadH(Target::L)),
            0x66 => Some(Instruction::LoadH(Target::HL)),
            0x67 => Some(Instruction::LoadH(Target::A)),
            0x68 => Some(Instruction::LoadL(Target::B)),
            0x69 => Some(Instruction::LoadL(Target::C)),
            0x6A => Some(Instruction::LoadL(Target::D)),
            0x6B => Some(Instruction::LoadL(Target::E)),
            0x6C => Some(Instruction::LoadL(Target::H)),
            0x6D => Some(Instruction::LoadL(Target::L)),
            0x6E => Some(Instruction::LoadL(Target::HL)),
            0x6F => Some(Instruction::LoadL(Target::A)),
            0x70 => Some(Instruction::LoadHL(Target::B)),
            0x71 => Some(Instruction::LoadHL(Target::C)),
            0x72 => Some(Instruction::LoadHL(Target::D)),
            0x73 => Some(Instruction::LoadHL(Target::E)),
            0x74 => Some(Instruction::LoadHL(Target::H)),
            0x75 => Some(Instruction::LoadHL(Target::L)),
            0x76 => Some(Instruction::Halt),
            0x77 => Some(Instruction::LoadHL(Target::A)),
            0x78 => Some(Instruction::LoadA(Target::B)),
            0x79 => Some(Instruction::LoadA(Target::C)),
            0x7A => Some(Instruction::LoadA(Target::D)),
            0x7B => Some(Instruction::LoadA(Target::E)),
            0x7C => Some(Instruction::LoadA(Target::H)),
            0x7D => Some(Instruction::LoadA(Target::L)),
            0x7E => Some(Instruction::LoadA(Target::HL)),
            0x7F => Some(Instruction::LoadA(Target::A)),
            0x80 => Some(Instruction::Add(ArithmeticTarget::B)),
            0x81 => Some(Instruction::Add(ArithmeticTarget::C)),
            0x82 => Some(Instruction::Add(ArithmeticTarget::D)),
            0x83 => Some(Instruction::Add(ArithmeticTarget::E)),
            0x84 => Some(Instruction::Add(ArithmeticTarget::H)),
            0x85 => Some(Instruction::Add(ArithmeticTarget::L)),
            0x86 => Some(Instruction::Add(ArithmeticTarget::HL)),
            0x87 => Some(Instruction::Add(ArithmeticTarget::A)),
            0x88 => Some(Instruction::AddC(ArithmeticTarget::B)),
            0x89 => Some(Instruction::AddC(ArithmeticTarget::C)),
            0x8A => Some(Instruction::AddC(ArithmeticTarget::D)),
            0x8B => Some(Instruction::AddC(ArithmeticTarget::E)),
            0x8C => Some(Instruction::AddC(ArithmeticTarget::H)),
            0x8D => Some(Instruction::AddC(ArithmeticTarget::L)),
            0x8E => Some(Instruction::AddC(ArithmeticTarget::HL)),
            0x8F => Some(Instruction::AddC(ArithmeticTarget::A)),
            0x90 => Some(Instruction::Sub(ArithmeticTarget::B)),
            0x91 => Some(Instruction::Sub(ArithmeticTarget::C)),
            0x92 => Some(Instruction::Sub(ArithmeticTarget::D)),
            0x93 => Some(Instruction::Sub(ArithmeticTarget::E)),
            0x94 => Some(Instruction::Sub(ArithmeticTarget::H)),
            0x95 => Some(Instruction::Sub(ArithmeticTarget::L)),
            0x96 => Some(Instruction::Sub(ArithmeticTarget::HL)),
            0x97 => Some(Instruction::Sub(ArithmeticTarget::A)),
            0x98 => Some(Instruction::SubC(ArithmeticTarget::B)),
            0x99 => Some(Instruction::SubC(ArithmeticTarget::C)),
            0x9A => Some(Instruction::SubC(ArithmeticTarget::D)),
            0x9B => Some(Instruction::SubC(ArithmeticTarget::E)),
            0x9C => Some(Instruction::SubC(ArithmeticTarget::H)),
            0x9D => Some(Instruction::SubC(ArithmeticTarget::L)),
            0x9E => Some(Instruction::SubC(ArithmeticTarget::HL)),
            0x9F => Some(Instruction::SubC(ArithmeticTarget::A)),
            0xA0 => Some(Instruction::And(ArithmeticTarget::B)),
            0xA1 => Some(Instruction::And(ArithmeticTarget::C)),
            0xA2 => Some(Instruction::And(ArithmeticTarget::D)),
            0xA3 => Some(Instruction::And(ArithmeticTarget::E)),
            0xA4 => Some(Instruction::And(ArithmeticTarget::H)),
            0xA5 => Some(Instruction::And(ArithmeticTarget::L)),
            0xA6 => Some(Instruction::And(ArithmeticTarget::HL)),
            0xA7 => Some(Instruction::And(ArithmeticTarget::A)),
            0xA8 => Some(Instruction::Xor(ArithmeticTarget::B)),
            0xA9 => Some(Instruction::Xor(ArithmeticTarget::C)),
            0xAA => Some(Instruction::Xor(ArithmeticTarget::D)),
            0xAB => Some(Instruction::Xor(ArithmeticTarget::E)),
            0xAC => Some(Instruction::Xor(ArithmeticTarget::H)),
            0xAD => Some(Instruction::Xor(ArithmeticTarget::L)),
            0xAE => Some(Instruction::Xor(ArithmeticTarget::HL)),
            0xAF => Some(Instruction::Xor(ArithmeticTarget::A)),
            0xB0 => Some(Instruction::Or(ArithmeticTarget::B)),
            0xB1 => Some(Instruction::Or(ArithmeticTarget::C)),
            0xB2 => Some(Instruction::Or(ArithmeticTarget::D)),
            0xB3 => Some(Instruction::Or(ArithmeticTarget::E)),
            0xB4 => Some(Instruction::Or(ArithmeticTarget::H)),
            0xB5 => Some(Instruction::Or(ArithmeticTarget::L)),
            0xB6 => Some(Instruction::Or(ArithmeticTarget::HL)),
            0xB7 => Some(Instruction::Or(ArithmeticTarget::A)),
            0xB8 => Some(Instruction::Cp(ArithmeticTarget::B)),
            0xB9 => Some(Instruction::Cp(ArithmeticTarget::C)),
            0xBA => Some(Instruction::Cp(ArithmeticTarget::D)),
            0xBB => Some(Instruction::Cp(ArithmeticTarget::E)),
            0xBC => Some(Instruction::Cp(ArithmeticTarget::H)),
            0xBD => Some(Instruction::Cp(ArithmeticTarget::L)),
            0xBE => Some(Instruction::Cp(ArithmeticTarget::HL)),
            0xBF => Some(Instruction::Cp(ArithmeticTarget::A)),
            0xC6 => Some(Instruction::Add(ArithmeticTarget::D8)),
            0xCE => Some(Instruction::AddC(ArithmeticTarget::D8)),
            0xD6 => Some(Instruction::Sub(ArithmeticTarget::D8)),
            0xDE => Some(Instruction::SubC(ArithmeticTarget::D8)),
            0xE0 => Some(Instruction::Load8(TargetLd8::A8A)),
            0xE2 => Some(Instruction::Load8(TargetLd8::C8A)),
            0xE6 => Some(Instruction::And(ArithmeticTarget::D8)),
            0xEA => Some(Instruction::Load16(Load16Target::A16A)),
            0xEE => Some(Instruction::Xor(ArithmeticTarget::D8)),
            0xF0 => Some(Instruction::Load8(TargetLd8::AA8)),
            0xF2 => Some(Instruction::Load8(TargetLd8::AC8)),
            0xF6 => Some(Instruction::Or(ArithmeticTarget::D8)),
            0xFA => Some(Instruction::Load16(Load16Target::AA16)),
            0xFC => Some(Instruction::End),
            0xFE => Some(Instruction::Cp(ArithmeticTarget::D8)),
            _ => None,
        }
    }
}

/// The end and halt opcodes decode to the end and halt instructions, and no
/// other opcode does.
pub proof fn lemma_end_and_halt_opcodes(byte: u8)
    ensures
        decode(byte) == Some(Instruction::End) <==> byte == END_OPCODE,
        decode(byte) == Some(Instruction::Halt) <==> byte == HALT_OPCODE,
{
}

/// No two opcodes stand for the same instruction.
pub proof fn lemma_decode_injective(first: u8, second: u8)
    requires
        decode(first) is Some,
        decode(first) == decode(second),
    ensures
        first == second,
{
}

/// No opcode decodes to a store of the byte at HL to its own address.
pub proof fn lemma_no_store_of_hl_to_itself(byte: u8)
    ensures
        decode(byte) != Some(Instruction::LoadHL(Target::HL)),
{
}

} // verus!
