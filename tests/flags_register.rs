use mos6502::flags_register::{FlagPosition, FlagsRegister};

#[test]
fn write_flag() {
    let mut flags = FlagsRegister(0);

    flags.write_flag(FlagPosition::Negative, true);
    assert_eq!(flags.0, 0b10000000);
    flags.write_flag(FlagPosition::Negative, false);
    assert_eq!(flags.0, 0);

    flags.write_flag(FlagPosition::Overflow, true);
    assert_eq!(flags.0, 0b01000000);
    flags.write_flag(FlagPosition::Overflow, false);
    assert_eq!(flags.0, 0);

    flags.write_flag(FlagPosition::Zero, true);
    assert_eq!(flags.0, 0b00000010);
    flags.write_flag(FlagPosition::Zero, false);
    assert_eq!(flags.0, 0);

    flags.write_flag(FlagPosition::Carry, true);
    assert_eq!(flags.0, 0b00000001);
    flags.write_flag(FlagPosition::Carry, false);
    assert_eq!(flags.0, 0);
}

#[test]
fn read_flag() {
    let mut flags = FlagsRegister(0);

    flags.write_flag(FlagPosition::Negative, true);
    assert_eq!(flags.0, 0b10000000);
    assert_eq!(flags.read_flag(FlagPosition::Negative), true);
    flags.write_flag(FlagPosition::Negative, false);
    assert_eq!(flags.0, 0);
    assert_eq!(flags.read_flag(FlagPosition::Negative), false);

    flags.write_flag(FlagPosition::Overflow, true);
    assert_eq!(flags.0, 0b01000000);
    assert_eq!(flags.read_flag(FlagPosition::Overflow), true);
    flags.write_flag(FlagPosition::Overflow, false);
    assert_eq!(flags.0, 0);
    assert_eq!(flags.read_flag(FlagPosition::Overflow), false);

    flags.write_flag(FlagPosition::Zero, true);
    assert_eq!(flags.0, 0b00000010);
    assert_eq!(flags.read_flag(FlagPosition::Zero), true);
    flags.write_flag(FlagPosition::Zero, false);
    assert_eq!(flags.0, 0);
    assert_eq!(flags.read_flag(FlagPosition::Zero), false);

    flags.write_flag(FlagPosition::Carry, true);
    assert_eq!(flags.0, 0b00000001);
    assert_eq!(flags.read_flag(FlagPosition::Carry), true);
    flags.write_flag(FlagPosition::Carry, false);
    assert_eq!(flags.0, 0);
    assert_eq!(flags.read_flag(FlagPosition::Carry), false);
}

#[test]
fn flags_into_u8() {
    let flags = FlagsRegister(0b10000001);
    assert_eq!(Into::<u8>::into(&flags), 0b10000001);
}

#[test]
fn every_byte_round_trips() {
    for b in 0..=255u8 {
        assert_eq!(FlagsRegister::from_byte(b).to_byte(), b);
        assert_eq!(FlagsRegister::new(b).to_byte(), b);
    }
}

#[test]
fn writing_one_flag_keeps_the_others() {
    let mut flags = FlagsRegister::new(0b0011_0000);
    flags.write_flag(FlagPosition::DecimalMode, true);
    flags.write_flag(FlagPosition::IrqDisable, true);
    assert_eq!(flags.to_byte(), 0b0011_1100);
    flags.write_flag(FlagPosition::DecimalMode, false);
    assert_eq!(flags.to_byte(), 0b0011_0100);
    assert!(flags.read_flag(FlagPosition::IrqDisable));
    assert!(!flags.read_flag(FlagPosition::DecimalMode));
}

#[test]
fn default_register_is_clear() {
    let flags = FlagsRegister::default();
    assert_eq!(flags.to_byte(), 0);
}

#[test]
fn flag_positions() {
    assert_eq!(FlagPosition::Negative.index(), 7);
    assert_eq!(FlagPosition::Overflow.index(), 6);
    assert_eq!(FlagPosition::DecimalMode.index(), 3);
    assert_eq!(FlagPosition::IrqDisable.index(), 2);
    assert_eq!(FlagPosition::Zero.index(), 1);
    assert_eq!(FlagPosition::Carry.index(), 0);
}
