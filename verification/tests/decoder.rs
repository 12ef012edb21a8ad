//! The decoder's two 256-entry tables, held against the documented opcode
//! table entry by entry: every mapped byte resolves to exactly its
//! descriptor, every other byte to `None`, and the prefixed space is empty.

use gb_core::instructions::ADDHLTarget;
use gb_core::instructions::ArithmeticTarget;
use gb_core::instructions::IncDecTarget;
use gb_core::instructions::Indirect;
use gb_core::instructions::Instruction;
use gb_core::instructions::LoadByteSource;
use gb_core::instructions::LoadByteTarget;
use gb_core::instructions::LoadType;
use gb_core::instructions::LoadWordTarget;

fn documented_table() -> Vec<(u8, Instruction)> {
    vec![
        // NOPs
        (0x00, Instruction::NOP),
        // byte loads
        (0x06, Instruction::LD(LoadType::Byte(LoadByteTarget::B, LoadByteSource::D8))),
        (0x16, Instruction::LD(LoadType::Byte(LoadByteTarget::D, LoadByteSource::D8))),
        (0x26, Instruction::LD(LoadType::Byte(LoadByteTarget::H, LoadByteSource::D8))),
        (0x36, Instruction::LD(LoadType::Byte(LoadByteTarget::HLI, LoadByteSource::D8))),
        (0x0E, Instruction::LD(LoadType::Byte(LoadByteTarget::C, LoadByteSource::D8))),
        (0x1E, Instruction::LD(LoadType::Byte(LoadByteTarget::E, LoadByteSource::D8))),
        (0x2E, Instruction::LD(LoadType::Byte(LoadByteTarget::L, LoadByteSource::D8))),
        (0x3E, Instruction::LD(LoadType::Byte(LoadByteTarget::A, LoadByteSource::D8))),
        // direct loads
        (0x40, Instruction::LD(LoadType::Byte(LoadByteTarget::B, LoadByteSource::B))),
        (0x41, Instruction::LD(LoadType::Byte(LoadByteTarget::B, LoadByteSource::C))),
        (0x42, Instruction::LD(LoadType::Byte(LoadByteTarget::B, LoadByteSource::D))),
        (0x43, Instruction::LD(LoadType::Byte(LoadByteTarget::B, LoadByteSource::E))),
        (0x44, Instruction::LD(LoadType::Byte(LoadByteTarget::B, LoadByteSource::L))),
        (0x45, Instruction::LD(LoadType::Byte(LoadByteTarget::B, LoadByteSource::L))),
        (0x46, Instruction::LD(LoadType::Byte(LoadByteTarget::B, LoadByteSource::HLI))),
        (0x47, Instruction::LD(LoadType::Byte(LoadByteTarget::B, LoadByteSource::A))),
        (0x48, Instruction::LD(LoadType::Byte(LoadByteTarget::C, LoadByteSource::B))),
        (0x49, Instruction::LD(LoadType::Byte(LoadByteTarget::C, LoadByteSource::C))),
        (0x4A, Instruction::LD(LoadType::Byte(LoadByteTarget::C, LoadByteSource::H))),
        (0x4B, Instruction::LD(LoadType::Byte(LoadByteTarget::C, LoadByteSource::E))),
        (0x4C, Instruction::LD(LoadType::Byte(LoadByteTarget::C, LoadByteSource::H))),
        (0x4D, Instruction::LD(LoadType::Byte(LoadByteTarget::C, LoadByteSource::L))),
        (0x4E, Instruction::LD(LoadType::Byte(LoadByteTarget::C, LoadByteSource::HLI))),
        (0x4F, Instruction::LD(LoadType::Byte(LoadByteTarget::C, LoadByteSource::A))),
        (0x50, Instruction::LD(LoadType::Byte(LoadByteTarget::D, LoadByteSource::B))),
        (0x51, Instruction::LD(LoadType::Byte(LoadByteTarget::D, LoadByteSource::C))),
        (0x52, Instruction::LD(LoadType::Byte(LoadByteTarget::D, LoadByteSource::D))),
        (0x53, Instruction::LD(LoadType::Byte(LoadByteTarget::D, LoadByteSource::E))),
        (0x54, Instruction::LD(LoadType::Byte(LoadByteTarget::D, LoadByteSource::L))),
        (0x55, Instruction::LD(LoadType::Byte(LoadByteTarget::D, LoadByteSource::L))),
        (0x56, Instruction::LD(LoadType::Byte(LoadByteTarget::D, LoadByteSource::HLI))),
        (0x57, Instruction::LD(LoadType::Byte(LoadByteTarget::D, LoadByteSource::A))),
        (0x58, Instruction::LD(LoadType::Byte(LoadByteTarget::E, LoadByteSource::B))),
        (0x59, Instruction::LD(LoadType::Byte(LoadByteTarget::E, LoadByteSource::C))),
        (0x5A, Instruction::LD(LoadType::Byte(LoadByteTarget::E, LoadByteSource::H))),
        (0x5B, Instruction::LD(LoadType::Byte(LoadByteTarget::E, LoadByteSource::E))),
        (0x5C, Instruction::LD(LoadType::Byte(LoadByteTarget::E, LoadByteSource::H))),
        (0x5D, Instruction::LD(LoadType::Byte(LoadByteTarget::E, LoadByteSource::L))),
        (0x5E, Instruction::LD(LoadType::Byte(LoadByteTarget::E, LoadByteSource::HLI))),
        (0x5F, Instruction::LD(LoadType::Byte(LoadByteTarget::E, LoadByteSource::A))),
        (0x60, Instruction::LD(LoadType::Byte(LoadByteTarget::H, LoadByteSource::B))),
        (0x61, Instruction::LD(LoadType::Byte(LoadByteTarget::H, LoadByteSource::C))),
        (0x62, Instruction::LD(LoadType::Byte(LoadByteTarget::H, LoadByteSource::D))),
        (0x63, Instruction::LD(LoadType::Byte(LoadByteTarget::H, LoadByteSource::E))),
        (0x64, Instruction::LD(LoadType::Byte(LoadByteTarget::H, LoadByteSource::L))),
        (0x65, Instruction::LD(LoadType::Byte(LoadByteTarget::H, LoadByteSource::L))),
        (0x66, Instruction::LD(LoadType::Byte(LoadByteTarget::H, LoadByteSource::HLI))),
        (0x67, Instruction::LD(LoadType::Byte(LoadByteTarget::H, LoadByteSource::A))),
        (0x68, Instruction::LD(LoadType::Byte(LoadByteTarget::L, LoadByteSource::B))),
        (0x69, Instruction::LD(LoadType::Byte(LoadByteTarget::L, LoadByteSource::C))),
        (0x6A, Instruction::LD(LoadType::Byte(LoadByteTarget::L, LoadByteSource::H))),
        (0x6B, Instruction::LD(LoadType::Byte(LoadByteTarget::L, LoadByteSource::E))),
        (0x6C, Instruction::LD(LoadType::Byte(LoadByteTarget::L, LoadByteSource::H))),
        (0x6D, Instruction::LD(LoadType::Byte(LoadByteTarget::L, LoadByteSource::L))),
        (0x6E, Instruction::LD(LoadType::Byte(LoadByteTarget::L, LoadByteSource::HLI))),
        (0x6F, Instruction::LD(LoadType::Byte(LoadByteTarget::L, LoadByteSource::A))),
        (0x70, Instruction::LD(LoadType::Byte(LoadByteTarget::HLI, LoadByteSource::B))),
        (0x71, Instruction::LD(LoadType::Byte(LoadByteTarget::HLI, LoadByteSource::C))),
        (0x72, Instruction::LD(LoadType::Byte(LoadByteTarget::HLI, LoadByteSource::D))),
        (0x73, Instruction::LD(LoadType::Byte(LoadByteTarget::HLI, LoadByteSource::E))),
        (0x74, Instruction::LD(LoadType::Byte(LoadByteTarget::HLI, LoadByteSource::L))),
        (0x75, Instruction::LD(LoadType::Byte(LoadByteTarget::HLI, LoadByteSource::L))),
        (0x77, Instruction::LD(LoadType::Byte(LoadByteTarget::HLI, LoadByteSource::A))),
        (0x78, Instruction::LD(LoadType::Byte(LoadByteTarget::A, LoadByteSource::B))),
        (0x79, Instruction::LD(LoadType::Byte(LoadByteTarget::A, LoadByteSource::C))),
        (0x7A, Instruction::LD(LoadType::Byte(LoadByteTarget::A, LoadByteSource::H))),
        (0x7B, Instruction::LD(LoadType::Byte(LoadByteTarget::A, LoadByteSource::E))),
        (0x7C, Instruction::LD(LoadType::Byte(LoadByteTarget::A, LoadByteSource::H))),
        (0x7D, Instruction::LD(LoadType::Byte(LoadByteTarget::A, LoadByteSource::L))),
        (0x7E, Instruction::LD(LoadType::Byte(LoadByteTarget::A, LoadByteSource::HLI))),
        (0x7F, Instruction::LD(LoadType::Byte(LoadByteTarget::A, LoadByteSource::A))),
        // indirect from A
        (0x02, Instruction::LD(LoadType::IndirectFromA(Indirect::BCIndirect))),
        (0x12, Instruction::LD(LoadType::IndirectFromA(Indirect::DEIndirect))),
        (0x22, Instruction::LD(LoadType::IndirectFromA(Indirect::HLIndirectPlus))),
        (0x32, Instruction::LD(LoadType::IndirectFromA(Indirect::HLIndirectMinus))),
        // A from indirect
        (0x0A, Instruction::LD(LoadType::AFromIndirect(Indirect::BCIndirect))),
        (0x1A, Instruction::LD(LoadType::AFromIndirect(Indirect::DEIndirect))),
        (0x2A, Instruction::LD(LoadType::AFromIndirect(Indirect::HLIndirectMinus))),
        (0x3A, Instruction::LD(LoadType::AFromIndirect(Indirect::HLIndirectPlus))),
        // word loads
        (0x01, Instruction::LD(LoadType::Word(LoadWordTarget::BC))),
        (0x11, Instruction::LD(LoadType::Word(LoadWordTarget::DE))),
        (0x21, Instruction::LD(LoadType::Word(LoadWordTarget::HL))),
        (0x08, Instruction::LD(LoadType::IndirectFromSP)),
        // adds
        (0x80, Instruction::ADD(ArithmeticTarget::B)),
        (0x81, Instruction::ADD(ArithmeticTarget::C)),
        (0x82, Instruction::ADD(ArithmeticTarget::D)),
        (0x83, Instruction::ADD(ArithmeticTarget::E)),
        (0x84, Instruction::ADD(ArithmeticTarget::H)),
        (0x85, Instruction::ADD(ArithmeticTarget::L)),
        (0x87, Instruction::ADD(ArithmeticTarget::A)),
        (0x09, Instruction::ADDHL(ADDHLTarget::BC)),
        // decrements
        (0x0D, Instruction::DEC(IncDecTarget::C)),
        (0x1D, Instruction::DEC(IncDecTarget::E)),
        (0x2D, Instruction::DEC(IncDecTarget::L)),
        (0x3D, Instruction::DEC(IncDecTarget::A)),
        (0x05, Instruction::DEC(IncDecTarget::B)),
        (0x15, Instruction::DEC(IncDecTarget::D)),
        (0x25, Instruction::DEC(IncDecTarget::H)),
        (0x35, Instruction::DEC(IncDecTarget::HL)),
        (0x0B, Instruction::DEC(IncDecTarget::BC)),
        (0x1B, Instruction::DEC(IncDecTarget::DE)),
        (0x2B, Instruction::DEC(IncDecTarget::HL)),
        (0x3B, Instruction::DEC(IncDecTarget::SP)),
        // increments
        (0x04, Instruction::INC(IncDecTarget::B)),
        (0x14, Instruction::INC(IncDecTarget::D)),
        (0x24, Instruction::INC(IncDecTarget::H)),
        (0x34, Instruction::INC(IncDecTarget::HL)),
        (0x0C, Instruction::INC(IncDecTarget::C)),
        (0x1C, Instruction::INC(IncDecTarget::E)),
        (0x2C, Instruction::INC(IncDecTarget::L)),
        (0x3C, Instruction::INC(IncDecTarget::A)),
        (0x03, Instruction::INC(IncDecTarget::BC)),
        (0x13, Instruction::INC(IncDecTarget::DE)),
        (0x23, Instruction::INC(IncDecTarget::HL)),
        (0x33, Instruction::INC(IncDecTarget::SP)),
        // rotates
        (0x07, Instruction::RLCA),
        (0x17, Instruction::RLA),
        (0x0F, Instruction::RRCA),
        (0x1F, Instruction::RRA),
    ]
}

#[test]
fn decoder_matches_documented_table() {
    let mut expected: [Option<Instruction>; 256] = [None; 256];
    for (byte, instruction) in documented_table() {
        assert!(expected[byte as usize].is_none(), "duplicate table entry");
        expected[byte as usize] = Some(instruction);
    }
    for byte in 0..=255u8 {
        assert_eq!(Instruction::from_byte(byte, false), expected[byte as usize]);
    }
}

#[test]
fn prefixed_table_is_empty() {
    for byte in 0..=255u8 {
        assert_eq!(Instruction::from_byte(byte, true), None);
    }
}
