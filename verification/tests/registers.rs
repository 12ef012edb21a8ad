//! Flags encoding and register-pair composition.

use gb_core::registers::FlagsRegister;
use gb_core::registers::Registers;

#[test]
fn can_flags_be_converted_to_u8() {
    let mut flags = FlagsRegister::new();
    flags.zero = true;
    flags.carry = true;
    let result: u8 = flags.to_byte();
    assert_eq!(result, 0b1001_0000u8);
}

#[test]
fn can_set_bc() {
    let mut registers = Registers::new();
    registers.set_bc(0b1010_1111_1100_1100);
    assert_eq!(registers.b, 0b1010_1111);
    assert_eq!(registers.c, 0b1100_1100);
}

#[test]
fn flags_byte_round_trip_keeps_flag_bits_only() {
    assert_eq!(FlagsRegister::from_byte(0xFF).to_byte(), 0xF0);
    assert_eq!(FlagsRegister::from_byte(0xAB).to_byte(), 0xA0);
    assert_eq!(FlagsRegister::from_byte(0x0F).to_byte(), 0x00);
    assert_eq!(FlagsRegister::from_byte(0x00).to_byte(), 0x00);
    for v in 0..=255u8 {
        assert_eq!(FlagsRegister::from_byte(v).to_byte(), v & 0xF0);
    }
}

#[test]
fn flags_from_byte_reads_each_bit() {
    let f = FlagsRegister::from_byte(0b1010_0000);
    assert!(f.zero);
    assert!(!f.subtract);
    assert!(f.half_carry);
    assert!(!f.carry);
}

#[test]
fn pair_round_trips_are_exact_for_bc_de_hl() {
    let mut registers = Registers::new();
    for v in [0x0000u16, 0x0001, 0x00FF, 0x0100, 0x1234, 0xFFFF, 0xA55A] {
        registers.set_bc(v);
        assert_eq!(registers.get_bc(), v);
        registers.set_de(v);
        assert_eq!(registers.get_de(), v);
        registers.set_hl(v);
        assert_eq!(registers.get_hl(), v);
    }
}

#[test]
fn af_round_trip_masks_the_low_nibble_to_zero() {
    let mut registers = Registers::new();
    registers.set_af(0x12FF);
    assert_eq!(registers.get_af(), 0x12F0);
    registers.set_af(0xABCD);
    assert_eq!(registers.get_af(), 0xABC0);
    registers.set_af(0x5500);
    assert_eq!(registers.get_af(), 0x5500);
    for v in [0x0000u16, 0x000F, 0x0010, 0xFFFF, 0x8001] {
        registers.set_af(v);
        assert_eq!(registers.get_af(), v & 0xFFF0);
    }
}

#[test]
fn get_af_composes_a_and_flags() {
    let mut registers = Registers::new();
    registers.a = 0x3C;
    registers.f.zero = true;
    registers.f.carry = true;
    assert_eq!(registers.get_af(), 0x3C90);
}
