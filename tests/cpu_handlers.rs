use mos6502::cpu::{Cpu, ShiftOperand};
use mos6502::flags_register::FlagPosition;
use mos6502::memory_bus::MemoryBus;

#[test]
fn adc() {
    let memory = MemoryBus::new();
    let mut cpu = Cpu::new(memory);

    cpu.a = 0x01;
    cpu.adc(0x01);
    assert_eq!(cpu.a, 0x02);
    assert_eq!(cpu.p.read_flag(FlagPosition::Carry), false);
    assert_eq!(cpu.p.read_flag(FlagPosition::Zero), false);
    assert_eq!(cpu.p.read_flag(FlagPosition::Negative), false);
    assert_eq!(cpu.p.read_flag(FlagPosition::Overflow), false);

    cpu.a = 0x7F;
    cpu.adc(0x01);
    assert_eq!(cpu.a, 0x80);
    assert_eq!(cpu.p.read_flag(FlagPosition::Carry), false);
    assert_eq!(cpu.p.read_flag(FlagPosition::Zero), false);
    assert_eq!(cpu.p.read_flag(FlagPosition::Negative), true);
    assert_eq!(cpu.p.read_flag(FlagPosition::Overflow), true);

    cpu.a = 0x7F;
    cpu.adc(0x81);
    assert_eq!(cpu.a, 0x00);
    assert_eq!(cpu.p.read_flag(FlagPosition::Carry), true);
    assert_eq!(cpu.p.read_flag(FlagPosition::Zero), true);
    assert_eq!(cpu.p.read_flag(FlagPosition::Negative), false);
    assert_eq!(cpu.p.read_flag(FlagPosition::Overflow), false);

    cpu.p.write_flag(FlagPosition::Carry, false);
    cpu.p.write_flag(FlagPosition::DecimalMode, true);

    cpu.a = 0x01;
    cpu.adc(0x01);
    assert_eq!(cpu.a, 0x02);
    assert_eq!(cpu.p.read_flag(FlagPosition::Carry), false);
    assert_eq!(cpu.p.read_flag(FlagPosition::Zero), false);
    assert_eq!(cpu.p.read_flag(FlagPosition::Negative), false);
    assert_eq!(cpu.p.read_flag(FlagPosition::Overflow), false);

    cpu.a = 0x79;
    cpu.adc(0x01);
    assert_eq!(cpu.a, 0x80);
    assert_eq!(cpu.p.read_flag(FlagPosition::Carry), false);
    assert_eq!(cpu.p.read_flag(FlagPosition::Zero), false);
    assert_eq!(cpu.p.read_flag(FlagPosition::Negative), true);
    assert_eq!(cpu.p.read_flag(FlagPosition::Overflow), false);

    cpu.a = 0x79;
    cpu.adc(0x81);
    assert_eq!(cpu.a, 0x60); // 79 + 81 = 160, subtract 100, result is 60
    assert_eq!(cpu.p.read_flag(FlagPosition::Carry), true);
    assert_eq!(cpu.p.read_flag(FlagPosition::Zero), false);
    assert_eq!(cpu.p.read_flag(FlagPosition::Negative), false);
    assert_eq!(cpu.p.read_flag(FlagPosition::Overflow), false);
}

#[test]
fn and() {
    let memory = MemoryBus::new();
    let mut cpu = Cpu::new(memory);

    cpu.a = 0b1010_1010;
    cpu.and(0b1100_1100);
    assert_eq!(cpu.a, 0b1000_1000);
    assert_eq!(cpu.p.read_flag(FlagPosition::Zero), false);
    assert_eq!(cpu.p.read_flag(FlagPosition::Negative), true);

    cpu.a = 0b1010_1010;
    cpu.and(0b0000_0000);
    assert_eq!(cpu.a, 0b0000_0000);
    assert_eq!(cpu.p.read_flag(FlagPosition::Zero), true);
    assert_eq!(cpu.p.read_flag(FlagPosition::Negative), false);

    cpu.a = 0b1010_1010;
    cpu.and(0b0100_1100);
    assert_eq!(cpu.a, 0b0000_1000);
    assert_eq!(cpu.p.read_flag(FlagPosition::Zero), false);
    assert_eq!(cpu.p.read_flag(FlagPosition::Negative), false);
}

#[test]
fn asl() {
    let memory = MemoryBus::new();
    let mut cpu = Cpu::new(memory);

    cpu.a = 0b1000_0000;
    cpu.asl(ShiftOperand::A, None);
    assert_eq!(cpu.a, 0b0000_0000);
    assert_eq!(cpu.p.read_flag(FlagPosition::Carry), true);
    assert_eq!(cpu.p.read_flag(FlagPosition::Zero), true);
    assert_eq!(cpu.p.read_flag(FlagPosition::Negative), false);

    cpu.a = 0b0100_0000;
    cpu.asl(ShiftOperand::A, None);
    assert_eq!(cpu.a, 0b1000_0000);
    assert_eq!(cpu.p.read_flag(FlagPosition::Carry), false);
    assert_eq!(cpu.p.read_flag(FlagPosition::Zero), false);
    assert_eq!(cpu.p.read_flag(FlagPosition::Negative), true);
}

#[test]
fn bcc() {
    let memory = MemoryBus::new();
    let mut cpu = Cpu::new(memory);

    cpu.pc = 0x00;
    cpu.branch(0x02, FlagPosition::Carry, false);
    assert_eq!(cpu.pc, 0x02);

    cpu.p.write_flag(FlagPosition::Carry, true);
    cpu.pc = 0x00;
    cpu.branch(0x02, FlagPosition::Carry, false);
    assert_eq!(cpu.pc, 0x00);

    cpu.p.write_flag(FlagPosition::Carry, false);
    cpu.pc = 0x16;
    cpu.branch(-6i8, FlagPosition::Carry, false);
    assert_eq!(cpu.pc, 0x10);
}

#[test]
fn bcs() {
    let memory = MemoryBus::new();
    let mut cpu = Cpu::new(memory);

    cpu.pc = 0x00;
    cpu.branch(0x02, FlagPosition::Carry, true);
    assert_eq!(cpu.pc, 0x00);

    cpu.p.write_flag(FlagPosition::Carry, true);
    cpu.pc = 0x00;
    cpu.branch(0x02, FlagPosition::Carry, true);
    assert_eq!(cpu.pc, 0x02);

    cpu.pc = 0x16;
    cpu.branch(-6i8, FlagPosition::Carry, true);
    assert_eq!(cpu.pc, 0x10);
}

#[test]
fn beq() {
    let memory = MemoryBus::new();
    let mut cpu = Cpu::new(memory);

    cpu.pc = 0x00;
    cpu.branch(0x02, FlagPosition::Zero, true);
    assert_eq!(cpu.pc, 0x00);

    cpu.p.write_flag(FlagPosition::Zero, true);
    cpu.pc = 0x00;
    cpu.branch(0x02, FlagPosition::Zero, true);
    assert_eq!(cpu.pc, 0x02);

    cpu.pc = 0x16;
    cpu.branch(-6i8, FlagPosition::Zero, true);
    assert_eq!(cpu.pc, 0x10);
}

#[test]
fn bne() {
    let memory = MemoryBus::new();
    let mut cpu = Cpu::new(memory);

    cpu.pc = 0x00;
    cpu.branch(0x02, FlagPosition::Zero, false);
    assert_eq!(cpu.pc, 0x02);

    cpu.p.write_flag(FlagPosition::Zero, true);
    cpu.pc = 0x00;
    cpu.branch(0x02, FlagPosition::Zero, false);
    assert_eq!(cpu.pc, 0x00);

    cpu.p.write_flag(FlagPosition::Zero, false);
    cpu.pc = 0x16;
    cpu.branch(-6i8, FlagPosition::Zero, false);
    assert_eq!(cpu.pc, 0x10);
}

#[test]
fn bmi() {
    let memory = MemoryBus::new();
    let mut cpu = Cpu::new(memory);

    cpu.pc = 0x00;
    cpu.branch(0x02, FlagPosition::Negative, true);
    assert_eq!(cpu.pc, 0x00);

    cpu.p.write_flag(FlagPosition::Negative, true);
    cpu.pc = 0x00;
    cpu.branch(0x02, FlagPosition::Negative, true);
    assert_eq!(cpu.pc, 0x02);

    cpu.pc = 0x16;
    cpu.branch(-6i8, FlagPosition::Negative, true);
    assert_eq!(cpu.pc, 0x10);
}

#[test]
fn bpl() {
    let memory = MemoryBus::new();
    let mut cpu = Cpu::new(memory);

    cpu.pc = 0x00;
    cpu.branch(0x02, FlagPosition::Negative, false);
    assert_eq!(cpu.pc, 0x02);

    cpu.p.write_flag(FlagPosition::Negative, true);
    cpu.pc = 0x00;
    cpu.branch(0x02, FlagPosition::Negative, false);
    assert_eq!(cpu.pc, 0x00);

    cpu.p.write_flag(FlagPosition::Negative, false);
    cpu.pc = 0x16;
    cpu.branch(-6i8, FlagPosition::Negative, false);
    assert_eq!(cpu.pc, 0x10);
}

#[test]
fn bvc() {
    let memory = MemoryBus::new();
    let mut cpu = Cpu::new(memory);

    cpu.pc = 0x00;
    cpu.branch(0x02, FlagPosition::Overflow, false);
    assert_eq!(cpu.pc, 0x02);

    cpu.p.write_flag(FlagPosition::Overflow, true);
    cpu.pc = 0x00;
    cpu.branch(0x02, FlagPosition::Overflow, false);
    assert_eq!(cpu.pc, 0x00);

    cpu.p.write_flag(FlagPosition::Overflow, false);
    cpu.pc = 0x16;
    cpu.branch(-6i8, FlagPosition::Overflow, false);
    assert_eq!(cpu.pc, 0x10);
}

#[test]
fn bvs() {
    let memory = MemoryBus::new();
    let mut cpu = Cpu::new(memory);

    cpu.pc = 0x00;
    cpu.branch(0x02, FlagPosition::Overflow, true);
    assert_eq!(cpu.pc, 0x00);

    cpu.p.write_flag(FlagPosition::Overflow, true);
    cpu.pc = 0x00;
    cpu.branch(0x02, FlagPosition::Overflow, true);
    assert_eq!(cpu.pc, 0x02);

    cpu.pc = 0x16;
    cpu.branch(-6i8, FlagPosition::Overflow, true);
    assert_eq!(cpu.pc, 0x10);
}
