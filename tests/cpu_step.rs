use mos6502::cpu::{
    bcd_to_u8, dword_from_nibbles, u8_to_bcd, Argument, Cpu, DecodedInstruction,
    FetchOperandResult, IncDecOperand, LdOperand, ShiftOperand,
};
use mos6502::error::{DecodeError, MemoryBusError};
use mos6502::flags_register::FlagPosition;
use mos6502::instruction::{AddressingType, Instruction, Mnemonic};
use mos6502::memory_bus::{load_rom, MemoryBus, MemoryRegion};
use mos6502::opcode_decoders::{argument_type, ArgumentType};

/// A processor whose whole address space is RAM holding `program` at `origin`.
fn cpu_with(origin: u16, program: &[u8]) -> Cpu {
    let mut bus = MemoryBus::new();
    bus.add_region(load_rom(0, 0xFFFF, &[]).unwrap());
    let mut cpu = Cpu::new(bus);
    for (i, b) in program.iter().enumerate() {
        cpu.address_space.write_byte(origin as usize + i, *b);
    }
    cpu.pc = origin;
    cpu
}

fn flag(cpu: &Cpu, f: FlagPosition) -> bool {
    cpu.p.read_flag(f)
}

#[test]
fn new_cpu_state() {
    let cpu = Cpu::new(MemoryBus::new());
    assert_eq!(cpu.a, 1);
    assert_eq!(cpu.x, 0);
    assert_eq!(cpu.y, 0);
    assert_eq!(cpu.s, 0);
    assert_eq!(cpu.pc, 0x0200);
    assert_eq!(cpu.p.to_byte(), 0);
}

#[test]
fn adc_immediate_binary_overflow() {
    let mut cpu = cpu_with(0x0200, &[0x69, 0x01]);
    cpu.a = 0x7F;
    assert_eq!(cpu.step(), Ok(()));
    assert_eq!(cpu.a, 0x80);
    assert!(!flag(&cpu, FlagPosition::Carry));
    assert!(!flag(&cpu, FlagPosition::Zero));
    assert!(flag(&cpu, FlagPosition::Negative));
    assert!(flag(&cpu, FlagPosition::Overflow));
    assert_eq!(cpu.pc, 0x0202);
}

#[test]
fn adc_immediate_carry_out_zero() {
    let mut cpu = cpu_with(0x0200, &[0x69, 0x81]);
    cpu.a = 0x7F;
    cpu.step().unwrap();
    assert_eq!(cpu.a, 0x00);
    assert!(flag(&cpu, FlagPosition::Carry));
    assert!(flag(&cpu, FlagPosition::Zero));
    assert!(!flag(&cpu, FlagPosition::Negative));
    assert!(!flag(&cpu, FlagPosition::Overflow));
}

#[test]
fn adc_decimal() {
    let mut cpu = cpu_with(0x0200, &[0x69, 0x81]);
    cpu.p.write_flag(FlagPosition::DecimalMode, true);
    cpu.a = 0x79;
    cpu.step().unwrap();
    assert_eq!(cpu.a, 0x60);
    assert!(flag(&cpu, FlagPosition::Carry));
    assert!(!flag(&cpu, FlagPosition::Zero));
    assert!(!flag(&cpu, FlagPosition::Negative));
}

#[test]
fn asl_accumulator() {
    let mut cpu = cpu_with(0x0300, &[0x0A]);
    cpu.a = 0b1000_0000;
    cpu.step().unwrap();
    assert_eq!(cpu.a, 0x00);
    assert!(flag(&cpu, FlagPosition::Carry));
    assert!(flag(&cpu, FlagPosition::Zero));
    assert!(!flag(&cpu, FlagPosition::Negative));
    assert_eq!(cpu.pc, 0x0301);
}

#[test]
fn branch_backward_after_stepping_over() {
    let mut cpu = cpu_with(0x0016, &[0x90, 0xFA]);
    cpu.step().unwrap();
    assert_eq!(cpu.pc, 0x0012);
}

#[test]
fn bne_taken_and_not_taken() {
    let mut cpu = cpu_with(0x1000, &[0xD0, 0xF0]);
    cpu.step().unwrap();
    assert_eq!(cpu.pc, 0x0FF2);

    let mut cpu = cpu_with(0x1000, &[0xD0, 0xF0]);
    cpu.p.write_flag(FlagPosition::Zero, true);
    cpu.step().unwrap();
    assert_eq!(cpu.pc, 0x1002);
}

#[test]
fn jsr_then_rts() {
    let mut cpu = cpu_with(0x1000, &[0x20, 0x00, 0x40]);
    cpu.address_space.write_byte(0x4000, 0x60);
    cpu.s = 0xFF;
    cpu.step().unwrap();
    assert_eq!(cpu.pc, 0x4000);
    assert_eq!(cpu.s, 0xFD);
    assert_eq!(cpu.address_space.read_byte(0x01FF), 0x10);
    assert_eq!(cpu.address_space.read_byte(0x01FE), 0x02);
    cpu.step().unwrap();
    assert_eq!(cpu.pc, 0x1003);
    assert_eq!(cpu.s, 0xFF);
}

#[test]
fn adc_binary_carry_for_all_inputs() {
    let mut cpu = Cpu::new(MemoryBus::new());
    for a in 0..=255u8 {
        for m in 0..=255u8 {
            for c in [false, true] {
                cpu.p.write_flag(FlagPosition::DecimalMode, false);
                cpu.p.write_flag(FlagPosition::Carry, c);
                cpu.a = a;
                cpu.adc(m);
                let expected = a as u16 + m as u16 + c as u16 > 0xFF;
                assert_eq!(flag(&cpu, FlagPosition::Carry), expected);
                assert_eq!(cpu.a, (a as u16 + m as u16 + c as u16) as u8);
            }
        }
    }
}

#[test]
fn x_indexed_indirect_reads_pointer_in_zero_page() {
    let mut cpu = cpu_with(0x0200, &[]);
    cpu.x = 0x05;
    cpu.y = 0x33;
    cpu.address_space.write_byte(0x0025, 0x34);
    cpu.address_space.write_byte(0x0026, 0x12);
    cpu.address_space.write_byte(0x1234, 0xAB);
    let r = cpu.fetch_operand(Argument::Byte(0x20), AddressingType::XIndexedZeroIndirect);
    assert_eq!(r, Ok(FetchOperandResult(0xAB, Some(0x1234))));

    // n + X wraps within the zero page, and so does the pointer's high byte.
    cpu.x = 0x10;
    cpu.address_space.write_byte(0x00FF, 0x78);
    cpu.address_space.write_byte(0x0000, 0x56);
    cpu.address_space.write_byte(0x0100, 0x99);
    cpu.address_space.write_byte(0x5678, 0xCD);
    let r = cpu.fetch_operand(Argument::Byte(0xEF), AddressingType::XIndexedZeroIndirect);
    assert_eq!(r, Ok(FetchOperandResult(0xCD, Some(0x5678))));
}

#[test]
fn zero_indirect_indexed_adds_y_to_pointer() {
    let mut cpu = cpu_with(0x0200, &[]);
    cpu.y = 0x10;
    cpu.address_space.write_byte(0x0040, 0xF8);
    cpu.address_space.write_byte(0x0041, 0x12);
    cpu.address_space.write_byte(0x1308, 0x77);
    let r = cpu.fetch_operand(Argument::Byte(0x40), AddressingType::ZeroIndirectIndexed);
    assert_eq!(r, Ok(FetchOperandResult(0x77, Some(0x1308))));
}

#[test]
fn indexed_modes() {
    let mut cpu = cpu_with(0x0200, &[]);
    cpu.x = 0x20;
    cpu.y = 0x02;
    cpu.address_space.write_byte(0x0010, 0x11);
    cpu.address_space.write_byte(0x0001, 0x22);
    cpu.address_space.write_byte(0x0012, 0x33);
    cpu.address_space.write_byte(0x0000, 0x44);
    cpu.address_space.write_byte(0x3001, 0x55);
    assert_eq!(
        cpu.fetch_operand(Argument::Byte(0x10), AddressingType::ZeroPage),
        Ok(FetchOperandResult(0x11, Some(0x0010)))
    );
    assert_eq!(
        cpu.fetch_operand(Argument::Byte(0xE1), AddressingType::XIndexedZero),
        Ok(FetchOperandResult(0x22, Some(0x0001)))
    );
    assert_eq!(
        cpu.fetch_operand(Argument::Byte(0x10), AddressingType::YIndexedZero),
        Ok(FetchOperandResult(0x33, Some(0x0012)))
    );
    assert_eq!(
        cpu.fetch_operand(Argument::Addr(0xFFE0), AddressingType::XIndexedAbsolute),
        Ok(FetchOperandResult(0x44, Some(0x0000)))
    );
    assert_eq!(
        cpu.fetch_operand(Argument::Addr(0x2FFF), AddressingType::YIndexedAbsolute),
        Ok(FetchOperandResult(0x55, Some(0x3001)))
    );
    assert_eq!(
        cpu.fetch_operand(Argument::Byte(0x42), AddressingType::Immediate),
        Ok(FetchOperandResult(0x42, None))
    );
}

#[test]
fn operand_shape_errors() {
    let cpu = cpu_with(0x0200, &[]);
    assert_eq!(
        cpu.fetch_operand(Argument::Void, AddressingType::Immediate),
        Err(DecodeError::ByteExpectedArgumentError)
    );
    assert_eq!(
        cpu.fetch_operand(Argument::Byte(1), AddressingType::Absolute),
        Err(DecodeError::AddrExpectedArgumentError)
    );
    assert_eq!(Argument::Addr(5).byte(), Err(DecodeError::ByteExpectedArgumentError));
    assert_eq!(Argument::Void.addr(), Err(DecodeError::AddrExpectedArgumentError));
    assert_eq!(Argument::Byte(9).byte(), Ok(9));
    assert_eq!(Argument::Addr(0x1234).addr(), Ok(0x1234));
}

#[test]
fn unknown_opcode_is_reported_and_changes_nothing() {
    let mut cpu = cpu_with(0x0200, &[0x02]);
    cpu.a = 0x42;
    assert_eq!(cpu.step(), Err(DecodeError::UnknownOpcodeError(0x02)));
    assert_eq!(cpu.pc, 0x0200);
    assert_eq!(cpu.a, 0x42);
}

#[test]
fn decode_reads_operand_bytes() {
    let cpu = cpu_with(0x0200, &[0x4C, 0x34, 0x12]);
    let d = cpu.decode(0x4C).unwrap();
    assert_eq!(d, DecodedInstruction { instruction: Instruction::Jmp, arg: Argument::Addr(0x1234) });
    let d = cpu.decode(0xA9).unwrap();
    assert_eq!(d.arg, Argument::Byte(0x34));
    let d = cpu.decode(0xEA).unwrap();
    assert_eq!(d.arg, Argument::Void);
    assert_eq!(cpu.decode(0xFF), Err(DecodeError::UnknownOpcodeError(0xFF)));
}

#[test]
fn opcode_catalog() {
    assert_eq!(Instruction::from_byte(0x69), Some(Instruction::AdcImmediate));
    assert_eq!(Instruction::from_byte(0x4C), Some(Instruction::Jmp));
    assert_eq!(Instruction::from_byte(0xEA), Some(Instruction::Nop));
    assert_eq!(Instruction::from_byte(0x00), Some(Instruction::Brk));
    assert_eq!(Instruction::from_byte(0xE9), Some(Instruction::SbcImmediate));
    assert_eq!(Instruction::from_byte(0x9A), Some(Instruction::Txs));
    let mut known = 0;
    for b in 0..=255u8 {
        if let Some(i) = Instruction::from_byte(b) {
            known += 1;
            assert_eq!(i.to_byte(), b);
        }
    }
    assert_eq!(known, 151);
    assert_eq!(Instruction::AdcImmediate.mnemonic(), Mnemonic::Adc);
    assert_eq!(Instruction::JmpIndirect.mnemonic(), Mnemonic::JmpIndirect);
    assert_eq!(Instruction::LdxYIndexedZero.addressing(), Some(AddressingType::YIndexedZero));
    assert_eq!(Instruction::RorAccumulator.addressing(), None);
    assert_eq!(argument_type(Instruction::Nop), ArgumentType::Void);
    assert_eq!(argument_type(Instruction::Bcc), ArgumentType::Byte);
    assert_eq!(argument_type(Instruction::JmpIndirect), ArgumentType::Addr);
    assert_eq!(ArgumentType::Addr.instruction_len(), 3);
    assert_eq!(ArgumentType::Byte.instruction_len(), 2);
    assert_eq!(ArgumentType::Void.instruction_len(), 1);
}

#[test]
fn zero_and_negative_follow_the_result() {
    let mut cpu = cpu_with(0x0200, &[0xA9, 0x00, 0xA2, 0x80, 0xE8, 0xC9, 0x00]);
    cpu.p.write_flag(FlagPosition::Carry, true);
    cpu.p.write_flag(FlagPosition::Overflow, true);
    cpu.step().unwrap();
    assert!(flag(&cpu, FlagPosition::Zero));
    assert!(!flag(&cpu, FlagPosition::Negative));
    cpu.step().unwrap();
    assert_eq!(cpu.x, 0x80);
    assert!(!flag(&cpu, FlagPosition::Zero));
    assert!(flag(&cpu, FlagPosition::Negative));
    cpu.step().unwrap();
    assert_eq!(cpu.x, 0x81);
    // Loads and increments leave Carry and Overflow alone.
    assert!(flag(&cpu, FlagPosition::Carry));
    assert!(flag(&cpu, FlagPosition::Overflow));
    // CMP #0 with A = 0: equal, no borrow.
    cpu.step().unwrap();
    assert!(flag(&cpu, FlagPosition::Zero));
    assert!(flag(&cpu, FlagPosition::Carry));
    assert_eq!(cpu.pc, 0x0207);
}

#[test]
fn pha_pla_round_trip() {
    let mut cpu = cpu_with(0x0200, &[0x48, 0xA9, 0x00, 0x68]);
    cpu.s = 0xFF;
    cpu.a = 0x85;
    cpu.step().unwrap();
    assert_eq!(cpu.s, 0xFE);
    assert_eq!(cpu.address_space.read_byte(0x01FF), 0x85);
    cpu.step().unwrap();
    assert_eq!(cpu.a, 0);
    cpu.step().unwrap();
    assert_eq!(cpu.a, 0x85);
    assert_eq!(cpu.s, 0xFF);
    assert!(flag(&cpu, FlagPosition::Negative));
    assert!(!flag(&cpu, FlagPosition::Zero));
}

#[test]
fn php_plp_restores_status_byte() {
    let mut cpu = cpu_with(0x0200, &[0x08, 0x18, 0x38, 0xF8, 0x28]);
    cpu.p = mos6502::flags_register::FlagsRegister::new(0b1011_0101);
    cpu.step().unwrap();
    cpu.step().unwrap();
    cpu.step().unwrap();
    cpu.step().unwrap();
    assert_ne!(cpu.p.to_byte(), 0b1011_0101);
    cpu.step().unwrap();
    assert_eq!(cpu.p.to_byte(), 0b1011_0101);
    assert_eq!(cpu.s, 0);
}

#[test]
fn stack_wraps_in_page_one() {
    let mut cpu = Cpu::new(MemoryBus::new());
    cpu.address_space.add_region(load_rom(0x0100, 0x01FF, &[]).unwrap());
    cpu.s = 0;
    cpu.push(0xAA);
    assert_eq!(cpu.s, 0xFF);
    assert_eq!(cpu.address_space.read_byte(0x0100), 0xAA);
    cpu.push(0xBB);
    assert_eq!(cpu.address_space.read_byte(0x01FF), 0xBB);
    assert_eq!(cpu.pop(), 0xBB);
    assert_eq!(cpu.pop(), 0xAA);
    assert_eq!(cpu.s, 0);
    cpu.push_dword(0x1234);
    assert_eq!(cpu.pop_dword(), 0x1234);
}

#[test]
fn brk_then_rti() {
    let mut cpu = cpu_with(0x0300, &[0x00]);
    cpu.address_space.write_byte(0xFFFE, 0x00);
    cpu.address_space.write_byte(0xFFFF, 0x80);
    cpu.address_space.write_byte(0x8000, 0x40);
    cpu.s = 0xFF;
    cpu.a = 7;
    cpu.p.write_flag(FlagPosition::Carry, true);
    cpu.step().unwrap();
    assert_eq!(cpu.pc, 0x8000);
    assert_eq!(cpu.s, 0xFC);
    assert!(flag(&cpu, FlagPosition::IrqDisable));
    assert_eq!(cpu.address_space.read_byte(0x01FF), 0x03);
    assert_eq!(cpu.address_space.read_byte(0x01FE), 0x00);
    assert_eq!(cpu.address_space.read_byte(0x01FD), 0b0000_0101);
    cpu.step().unwrap();
    assert_eq!(cpu.pc, 0x0300);
    assert_eq!(cpu.s, 0xFF);
    assert_eq!(cpu.a, 7);
    assert_eq!(cpu.p.to_byte(), 0b0000_0101);
}

#[test]
fn jmp_absolute_and_indirect() {
    let mut cpu = cpu_with(0x0200, &[0x4C, 0x00, 0x30]);
    cpu.step().unwrap();
    assert_eq!(cpu.pc, 0x3000);

    // The high byte of an indirect pointer at the end of a page comes from the start
    // of the same page.
    let mut cpu = cpu_with(0x0200, &[0x6C, 0xFF, 0x10]);
    cpu.address_space.write_byte(0x10FF, 0x34);
    cpu.address_space.write_byte(0x1000, 0x12);
    cpu.address_space.write_byte(0x1100, 0x99);
    cpu.step().unwrap();
    assert_eq!(cpu.pc, 0x1234);
}

#[test]
fn sbc_binary_sets_carry_when_no_borrow() {
    let mut cpu = Cpu::new(MemoryBus::new());
    cpu.p.write_flag(FlagPosition::Carry, true);
    cpu.a = 0x50;
    cpu.sbc(0x10);
    assert_eq!(cpu.a, 0x40);
    assert!(flag(&cpu, FlagPosition::Carry));
    assert!(!flag(&cpu, FlagPosition::Overflow));

    cpu.a = 0x50;
    cpu.sbc(0xB0);
    assert_eq!(cpu.a, 0xA0);
    assert!(!flag(&cpu, FlagPosition::Carry));
    assert!(flag(&cpu, FlagPosition::Overflow));
    assert!(flag(&cpu, FlagPosition::Negative));

    // Carry clear borrows one more.
    cpu.a = 0x05;
    cpu.sbc(0x04);
    assert_eq!(cpu.a, 0x00);
    assert!(flag(&cpu, FlagPosition::Zero));
    assert!(flag(&cpu, FlagPosition::Carry));
}

#[test]
fn sbc_decimal() {
    let mut cpu = Cpu::new(MemoryBus::new());
    cpu.p.write_flag(FlagPosition::DecimalMode, true);
    cpu.p.write_flag(FlagPosition::Carry, true);
    cpu.a = 0x50;
    cpu.sbc(0x25);
    assert_eq!(cpu.a, 0x25);
    assert!(flag(&cpu, FlagPosition::Carry));

    cpu.a = 0x25;
    cpu.sbc(0x50);
    assert_eq!(cpu.a, 0x75);
    assert!(!flag(&cpu, FlagPosition::Carry));
}

#[test]
fn compare_bit_and_logic() {
    let mut cpu = Cpu::new(MemoryBus::new());
    cpu.cmp(0x10, 0x20);
    assert!(!flag(&cpu, FlagPosition::Carry));
    assert!(!flag(&cpu, FlagPosition::Zero));
    assert!(flag(&cpu, FlagPosition::Negative));
    cpu.cmp(0x20, 0x10);
    assert!(flag(&cpu, FlagPosition::Carry));
    assert!(!flag(&cpu, FlagPosition::Negative));

    cpu.a = 0x0F;
    cpu.bit(0xC0);
    assert!(flag(&cpu, FlagPosition::Zero));
    assert!(flag(&cpu, FlagPosition::Overflow));
    assert!(flag(&cpu, FlagPosition::Negative));
    assert_eq!(cpu.a, 0x0F);

    cpu.ora(0xF0);
    assert_eq!(cpu.a, 0xFF);
    cpu.eor(0x0F);
    assert_eq!(cpu.a, 0xF0);
    assert!(flag(&cpu, FlagPosition::Negative));
}

#[test]
fn shifts_and_rotates() {
    let mut cpu = cpu_with(0x0200, &[]);
    cpu.a = 0x81;
    cpu.lsr(ShiftOperand::A, None);
    assert_eq!(cpu.a, 0x40);
    assert!(flag(&cpu, FlagPosition::Carry));
    assert!(!flag(&cpu, FlagPosition::Negative));

    cpu.a = 0x80;
    cpu.rol(ShiftOperand::A, None);
    assert_eq!(cpu.a, 0x01);
    assert!(flag(&cpu, FlagPosition::Carry));

    cpu.a = 0x02;
    cpu.ror(ShiftOperand::A, None);
    assert_eq!(cpu.a, 0x81);
    assert!(!flag(&cpu, FlagPosition::Carry));
    assert!(flag(&cpu, FlagPosition::Negative));

    cpu.address_space.write_byte(0x0040, 0x41);
    cpu.asl(ShiftOperand::Value(0x41), Some(0x0040));
    assert_eq!(cpu.address_space.read_byte(0x0040), 0x82);
    assert!(!flag(&cpu, FlagPosition::Carry));
}

#[test]
fn increments_and_memory_operands() {
    let mut cpu = cpu_with(0x0200, &[0xE6, 0x10, 0xCE, 0x00, 0x20, 0xCA, 0x88, 0xC8]);
    cpu.address_space.write_byte(0x0010, 0xFF);
    cpu.address_space.write_byte(0x2000, 0x00);
    cpu.step().unwrap();
    assert_eq!(cpu.address_space.read_byte(0x0010), 0x00);
    assert!(flag(&cpu, FlagPosition::Zero));
    cpu.step().unwrap();
    assert_eq!(cpu.address_space.read_byte(0x2000), 0xFF);
    assert!(flag(&cpu, FlagPosition::Negative));
    cpu.step().unwrap();
    assert_eq!(cpu.x, 0xFF);
    cpu.step().unwrap();
    assert_eq!(cpu.y, 0xFF);
    cpu.step().unwrap();
    assert_eq!(cpu.y, 0x00);
    assert!(flag(&cpu, FlagPosition::Zero));
    assert_eq!(cpu.pc, 0x0208);

    cpu.inc_dec(true, IncDecOperand::X, None);
    assert_eq!(cpu.x, 0x00);
}

#[test]
fn loads_stores_and_transfers() {
    let mut cpu = cpu_with(
        0x0200,
        &[0xA0, 0x07, 0x8C, 0x00, 0x30, 0xA6, 0x50, 0x9A, 0xBA, 0x8A, 0xA8, 0x98, 0xAA],
    );
    cpu.address_space.write_byte(0x0050, 0x66);
    cpu.step().unwrap();
    assert_eq!(cpu.y, 0x07);
    cpu.step().unwrap();
    assert_eq!(cpu.address_space.read_byte(0x3000), 0x07);
    cpu.step().unwrap();
    assert_eq!(cpu.x, 0x66);
    cpu.step().unwrap();
    assert_eq!(cpu.s, 0x66);
    cpu.x = 0;
    cpu.step().unwrap();
    assert_eq!(cpu.x, 0x66);
    cpu.step().unwrap();
    assert_eq!(cpu.a, 0x66);
    cpu.step().unwrap();
    assert_eq!(cpu.y, 0x66);
    cpu.step().unwrap();
    assert_eq!(cpu.a, 0x66);
    cpu.step().unwrap();
    assert_eq!(cpu.x, 0x66);

    cpu.ld(LdOperand::A, 0x12);
    cpu.st(LdOperand::A, 0x4000);
    assert_eq!(cpu.address_space.read_byte(0x4000), 0x12);
}

#[test]
fn flag_instructions() {
    let mut cpu = cpu_with(0x0200, &[0x38, 0xF8, 0x78, 0x18, 0xD8, 0x58, 0xB8, 0xEA]);
    cpu.p.write_flag(FlagPosition::Overflow, true);
    for _ in 0..3 {
        cpu.step().unwrap();
    }
    assert_eq!(cpu.p.to_byte(), 0b0100_1101);
    for _ in 0..4 {
        cpu.step().unwrap();
    }
    assert_eq!(cpu.p.to_byte(), 0);
    cpu.step().unwrap();
    assert_eq!(cpu.pc, 0x0208);
}

#[test]
fn reset_reads_vector() {
    let mut cpu = cpu_with(0x0200, &[]);
    cpu.address_space.write_byte(0xFFFC, 0x00);
    cpu.address_space.write_byte(0xFFFD, 0xC0);
    cpu.reset();
    assert_eq!(cpu.pc, 0xC000);
    assert!(flag(&cpu, FlagPosition::IrqDisable));
}

#[test]
fn bcd_helpers() {
    assert_eq!(dword_from_nibbles(0x34, 0x12), 0x1234);
    assert_eq!(bcd_to_u8(0x79), 79);
    assert_eq!(bcd_to_u8(0x00), 0);
    assert_eq!(u8_to_bcd(60), 0x60);
    assert_eq!(u8_to_bcd(99), 0x99);
    assert_eq!(u8_to_bcd(100), 0x00);
}

#[test]
fn memory_bus_regions() {
    let mut bus = MemoryBus::new();
    assert_eq!(bus.read_byte(0x1234), 0);
    bus.write_byte(0x1234, 5);
    assert_eq!(bus.read_byte(0x1234), 0);

    bus.add_region(load_rom(0x0200, 0x0203, &[1, 2]).unwrap());
    bus.add_region(MemoryRegion { start: 0x0202, end: 0x0205, data: vec![9, 9, 9, 9] });
    assert_eq!(bus.read_byte(0x0200), 1);
    assert_eq!(bus.read_byte(0x0201), 2);
    assert_eq!(bus.read_byte(0x0202), 0);
    assert_eq!(bus.read_byte(0x0204), 9);
    assert_eq!(bus.read_byte(0x0206), 0);
    bus.write_byte(0x0203, 7);
    assert_eq!(bus.read_byte(0x0203), 7);
    assert_eq!(bus.read_byte(0x10000), 0);
}

#[test]
fn load_rom_errors() {
    assert_eq!(load_rom(0x0200, 0x0201, &[1, 2, 3]).err(), Some(MemoryBusError::ROMLoadOutOfBoundsError));
    assert_eq!(load_rom(0x0200, 0x10000, &[]).err(), Some(MemoryBusError::OffsetOutOfBoundsError(0x10000)));
    assert_eq!(load_rom(0x0300, 0x0200, &[]).err(), Some(MemoryBusError::OffsetOutOfBoundsError(0x0200)));
    let region = load_rom(0x0200, 0x0203, &[1, 2]).unwrap();
    assert_eq!(region.data, vec![1, 2, 0, 0]);
}

#[test]
fn execute_moves_past_instruction() {
    let mut cpu = cpu_with(0x0200, &[]);
    cpu.execute(DecodedInstruction { instruction: Instruction::LdaImmediate, arg: Argument::Byte(0x33) });
    assert_eq!(cpu.a, 0x33);
    assert_eq!(cpu.pc, 0x0202);
    cpu.execute(DecodedInstruction { instruction: Instruction::StaAbsolute, arg: Argument::Addr(0x4444) });
    assert_eq!(cpu.address_space.read_byte(0x4444), 0x33);
    assert_eq!(cpu.pc, 0x0205);
}
