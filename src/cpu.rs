use vstd::prelude::*;

use crate::error::DecodeError;
use crate::flags_register::{with_flag, FlagPosition, FlagsRegister};
use crate::instruction::{AddressingType, Instruction, Mnemonic};
use crate::machine::{
    adc_spec, advance_pc, and_spec, asl_spec, bcd_byte, bcd_value, bit_spec, branch_spec,
    brk_spec, cmp_spec, decode_spec, eor_spec, execute_spec, inc_dec_spec, jsr_spec, ld_spec,
    lsr_spec, operand_of, operand_spec, ora_spec, pla_spec, plp_spec, pop_spec, popped_byte,
    popped_word, push_spec, push_word_spec, read, read_word, rol_spec, ror_spec, rti_spec,
    rts_spec, sbc_spec, set_zn, st_spec, step_spec, with_p, word, wrap16, Machine,
};
use crate::memory_bus::{MemoryBus, STACK_BOTTOM};
use crate::opcode_decoders::{argument_type, ArgumentType};

verus! {

/// The operand bytes that follow an opcode.
#[derive(Clone, Copy, Debug, PartialEq, Eq, Structural)]
pub enum Argument {
    Void,
    Byte(u8),
    Addr(u16),
}

impl Argument {
    /// The one-byte operand, or the error when the argument is not a byte.
    pub fn byte(&self) -> (r: Result<u8, DecodeError>)
        ensures
            match *self {
                Argument::Byte(b) => r == Ok::<u8, DecodeError>(b),
                _ => r == Err::<u8, DecodeError>(DecodeError::ByteExpectedArgumentError),
            },
    {
        match *self {
            Argument::Byte(b) => Ok(b),
            _ => Err(DecodeError::ByteExpectedArgumentError),
        }
    }

    /// The two-byte address, or the error when the argument is not an address.
    pub fn addr(&self) -> (r: Result<u16, DecodeError>)
        ensures
            match *self {
                Argument::Addr(a) => r == Ok::<u16, DecodeError>(a),
                _ => r == Err::<u16, DecodeError>(DecodeError::AddrExpectedArgumentError),
            },
    {
        match *self {
            Argument::Addr(a) => Ok(a),
            _ => Err(DecodeError::AddrExpectedArgumentError),
        }
    }
}

/// An opcode together with its operand bytes.
#[derive(Clone, Copy, Debug, PartialEq, Eq, Structural)]
pub struct DecodedInstruction {
    pub instruction: Instruction,
    pub arg: Argument,
}

/// The operand value an addressing mode yields, and the effective address it was read
/// from (`None` for an immediate operand).
#[derive(Clone, Copy, Debug, PartialEq, Eq, Structural)]
pub struct FetchOperandResult(pub u8, pub Option<u16>);

/// What a shift or rotate works on: the accumulator, or a byte read from memory.
#[derive(Clone, Copy, Debug, PartialEq, Eq, Structural)]
pub enum ShiftOperand {
    A,
    Value(u8),
}

/// What an increment or decrement works on.
#[derive(Clone, Copy, Debug, PartialEq, Eq, Structural)]
pub enum IncDecOperand {
    X,
    Y,
    Value(u8),
}

/// A register that loads and stores name.
#[derive(Clone, Copy, Debug, PartialEq, Eq, Structural)]
pub enum LdOperand {
    A,
    X,
    Y,
}

/// The 16-bit value with low byte `low_byte` and high byte `high_byte`.
pub fn dword_from_nibbles(low_byte: u8, high_byte: u8) -> (r: u16)
    ensures
        r == word(low_byte, high_byte),
{
    (high_byte as u16) * 0x100 + low_byte as u16
}

/// The number that the two BCD digits of `bcd` stand for.
pub fn bcd_to_u8(bcd: u8) -> (r: u8)
    ensures
        r == bcd_value(bcd),
{
    (bcd / 16) * 10 + bcd % 16
}

/// The BCD byte for `value`, or zero when `value` has more than two digits.
pub fn u8_to_bcd(value: u8) -> (r: u8)
    ensures
        r == bcd_byte(value as int),
{
    if value < 100 {
        (value / 10) * 16 + value % 10
    } else {
        0
    }
}

/// The processor: registers, status flags and the bus it owns.
pub struct Cpu {
    pub address_space: MemoryBus,
    pub a: u8,
    pub x: u8,
    pub y: u8,
    pub pc: u16,
    pub s: u8,
    pub p: FlagsRegister,
}

impl Cpu {
    pub open spec fn view(&self) -> Machine {
        Machine {
            a: self.a,
            x: self.x,
            y: self.y,
            pc: self.pc,
            s: self.s,
            p: self.p.0,
            mem: self.address_space@,
        }
    }

    /// A processor on `mem_bus` with A = 1, X = Y = S = 0, PC = 0x0200 and no flag set.
    pub fn new(mem_bus: MemoryBus) -> (r: Cpu)
        ensures
            r@ == (Machine { a: 1, x: 0, y: 0, pc: 0x200, s: 0, p: 0, mem: mem_bus@ }),
    {
        Cpu { address_space: mem_bus, a: 1, x: 0, y: 0, pc: 0x200, s: 0, p: FlagsRegister::new(0) }
    }

    /// Loads PC from the reset vector at 0xFFFC/0xFFFD and disables interrupts.
    pub fn reset(&mut self)
        ensures
            final(self)@ == (Machine {
                pc: read_word(old(self)@, 0xFFFC, 0xFFFD),
                p: with_flag(old(self)@.p, FlagPosition::IrqDisable, true),
                ..old(self)@
            }),
    {
        self.pc = self.fetch_dword(0xFFFC);
        self.p.write_flag(FlagPosition::IrqDisable, true);
    }

    /// Runs one instruction: fetch the opcode at PC, decode it, execute it. An unknown
    /// opcode leaves the processor as it was and is reported.
    pub fn step(&mut self) -> (r: Result<(), DecodeError>)
        ensures
            match step_spec(old(self)@) {
                Ok(m) => r is Ok && final(self)@ == m,
                Err(e) => r == Err::<(), DecodeError>(e) && final(self)@ == old(self)@,
            },
    {
        let opcode = self.fetch(self.pc);
        match self.decode(opcode) {
            Ok(instr) => {
                self.execute(instr);
                Ok(())
            },
            Err(e) => Err(e),
        }
    }

    /// The byte at `address`.
    pub fn fetch(&self, address: u16) -> (r: u8)
        ensures
            r == read(self@, address as int),
    {
        self.address_space.read_byte(address as usize)
    }

    /// The little-endian 16-bit value at `address` and the address after it.
    pub fn fetch_dword(&self, address: u16) -> (r: u16)
        ensures
            r == read_word(self@, address as int, wrap16(address + 1) as int),
    {
        let low_byte = self.fetch(address);
        let high_byte = self.fetch(((address as u32 + 1) % 0x10000) as u16);
        dword_from_nibbles(low_byte, high_byte)
    }

    /// Decodes the opcode `value` standing at PC, reading the operand bytes after it.
    pub fn decode(&self, value: u8) -> (r: Result<DecodedInstruction, DecodeError>)
        ensures
            r == decode_spec(self@, value),
    {
        let opcode = match Instruction::from_byte(value) {
            Some(i) => i,
            None => {
                return Err(DecodeError::UnknownOpcodeError(value));
            },
        };
        let arg = match argument_type(opcode) {
            ArgumentType::Addr => {
                let low_byte = self.fetch(((self.pc as u32 + 1) % 0x10000) as u16);
                let high_byte = self.fetch(((self.pc as u32 + 2) % 0x10000) as u16);
                Argument::Addr(dword_from_nibbles(low_byte, high_byte))
            },
            ArgumentType::Byte => Argument::Byte(
                self.fetch(((self.pc as u32 + 1) % 0x10000) as u16),
            ),
            ArgumentType::Void => Argument::Void,
        };
        Ok(DecodedInstruction { instruction: opcode, arg })
    }

    /// Resolves an addressing mode: the operand value and its effective address.
    pub fn fetch_operand(&self, arg: Argument, addressing_type: AddressingType) -> (r: Result<
        FetchOperandResult,
        DecodeError,
    >)
        ensures
            r == operand_spec(self@, arg, addressing_type),
    {
        match addressing_type {
            AddressingType::XIndexedZeroIndirect => {
                let n = match arg.byte() {
                    Ok(n) => n,
                    Err(e) => return Err(e),
                };
                let ptr: u8 = ((n as u16 + self.x as u16) % 0x100) as u8;
                let low_byte = self.fetch(ptr as u16);
                let high_byte = self.fetch((ptr as u16 + 1) % 0x100);
                let address = dword_from_nibbles(low_byte, high_byte);
                Ok(FetchOperandResult(self.fetch(address), Some(address)))
            },
            AddressingType::ZeroPage => {
                let n = match arg.byte() {
                    Ok(n) => n,
                    Err(e) => return Err(e),
                };
                Ok(FetchOperandResult(self.fetch(n as u16), Some(n as u16)))
            },
            AddressingType::Immediate => {
                let n = match arg.byte() {
                    Ok(n) => n,
                    Err(e) => return Err(e),
                };
                Ok(FetchOperandResult(n, None))
            },
            AddressingType::Absolute => {
                let address = match arg.addr() {
                    Ok(a) => a,
                    Err(e) => return Err(e),
                };
                Ok(FetchOperandResult(self.fetch(address), Some(address)))
            },
            AddressingType::ZeroIndirectIndexed => {
                let n = match arg.byte() {
                    Ok(n) => n,
                    Err(e) => return Err(e),
                };
                let low_byte = self.fetch(n as u16);
                let high_byte = self.fetch((n as u16 + 1) % 0x100);
                let base = dword_from_nibbles(low_byte, high_byte);
                let address: u16 = ((base as u32 + self.y as u32) % 0x10000) as u16;
                Ok(FetchOperandResult(self.fetch(address), Some(address)))
            },
            AddressingType::XIndexedZero => {
                let n = match arg.byte() {
                    Ok(n) => n,
                    Err(e) => return Err(e),
                };
                let address: u16 = (n as u16 + self.x as u16) % 0x100;
                Ok(FetchOperandResult(self.fetch(address), Some(address)))
            },
            AddressingType::YIndexedZero => {
                let n = match arg.byte() {
                    Ok(n) => n,
                    Err(e) => return Err(e),
                };
                let address: u16 = (n as u16 + self.y as u16) % 0x100;
                Ok(FetchOperandResult(self.fetch(address), Some(address)))
            },
            AddressingType::XIndexedAbsolute => {
                let base = match arg.addr() {
                    Ok(a) => a,
                    Err(e) => return Err(e),
                };
                let address: u16 = ((base as u32 + self.x as u32) % 0x10000) as u16;
                Ok(FetchOperandResult(self.fetch(address), Some(address)))
            },
            AddressingType::YIndexedAbsolute => {
                let base = match arg.addr() {
                    Ok(a) => a,
                    Err(e) => return Err(e),
                };
                let address: u16 = ((base as u32 + self.y as u32) % 0x10000) as u16;
                Ok(FetchOperandResult(self.fetch(address), Some(address)))
            },
        }
    }
}

impl Cpu {
    /// Sets Zero and Negative from the result byte `result`.
    fn set_zn(&mut self, result: u8)
        ensures
            final(self)@ == with_p(old(self)@, set_zn(old(self)@.p, result)),
    {
        self.p.write_flag(FlagPosition::Zero, result == 0);
        self.p.write_flag(FlagPosition::Negative, result >= 0x80);
    }

    /// Moves PC forward by `len` bytes, wrapping at the end of the address space.
    fn advance(&mut self, len: u16)
        ensures
            final(self)@ == advance_pc(old(self)@, len as int),
    {
        self.pc = ((self.pc as u32 + len as u32) % 0x10000) as u16;
    }

    /// The operand value and effective address of `instr`, read through its addressing mode.
    fn operand(&self, instr: DecodedInstruction) -> (r: FetchOperandResult)
        ensures
            r == operand_of(self@, instr),
    {
        match instr.instruction.addressing() {
            None => FetchOperandResult(0, None),
            Some(mode) => match self.fetch_operand(instr.arg, mode) {
                Ok(r) => r,
                Err(_) => FetchOperandResult(0, None),
            },
        }
    }

    /// Add with carry, in binary or, with the decimal flag set, in BCD.
    pub fn adc(&mut self, operand: u8)
        ensures
            final(self)@ == adc_spec(old(self)@, operand),
    {
        let decimal = self.p.read_flag(FlagPosition::DecimalMode);
        let carry: u16 = if self.p.read_flag(FlagPosition::Carry) {
            1
        } else {
            0
        };
        let result: u8;
        if !decimal {
            let a = self.a as u16;
            let r: u16 = a + operand as u16 + carry;
            self.p.write_flag(FlagPosition::Carry, r > 0xFF);
            self.p.write_flag(FlagPosition::Overflow, (a ^ r) & (operand as u16 ^ r) & 0x80 != 0);
            result = (r % 0x100) as u8;
        } else {
            let sum: u16 = bcd_to_u8(self.a) as u16 + bcd_to_u8(operand) as u16 + carry;
            let carry_new = sum > 99;
            let r: u16 = if carry_new {
                sum - 100
            } else {
                sum
            };
            self.p.write_flag(FlagPosition::Carry, carry_new);
            result = u8_to_bcd(r as u8);
        }
        self.a = result;
        self.set_zn(result);
    }

    /// Subtract with borrow, the borrow being the complement of carry; in binary or in BCD.
    pub fn sbc(&mut self, operand: u8)
        ensures
            final(self)@ == sbc_spec(old(self)@, operand),
    {
        let decimal = self.p.read_flag(FlagPosition::DecimalMode);
        let borrow: u16 = if self.p.read_flag(FlagPosition::Carry) {
            0
        } else {
            1
        };
        let result: u8;
        if !decimal {
            let a = self.a as u16;
            let v = operand as u16;
            let no_borrow = a >= v + borrow;
            let r: u16 = if no_borrow {
                a - v - borrow
            } else {
                (0x10000 + a as u32 - v as u32 - borrow as u32) as u16
            };
            assert(r == wrap16(a - v - borrow));
            self.p.write_flag(FlagPosition::Carry, no_borrow);
            self.p.write_flag(FlagPosition::Overflow, (a ^ r) & !(v ^ r) & 0x80 != 0);
            result = (r % 0x100) as u8;
        } else {
            let diff: i16 = bcd_to_u8(self.a) as i16 - bcd_to_u8(operand) as i16 - borrow as i16;
            let r: i16 = if diff < 0 {
                diff + 100
            } else {
                diff
            };
            self.p.write_flag(FlagPosition::Carry, diff >= 0);
            result = if 0 <= r && r < 100 {
                u8_to_bcd(r as u8)
            } else {
                0
            };
        }
        self.a = result;
        self.set_zn(result);
    }

    /// A = A AND operand.
    pub fn and(&mut self, operand: u8)
        ensures
            final(self)@ == and_spec(old(self)@, operand),
    {
        let result = self.a & operand;
        self.a = result;
        self.set_zn(result);
    }

    /// A = A OR operand.
    pub fn ora(&mut self, operand: u8)
        ensures
            final(self)@ == ora_spec(old(self)@, operand),
    {
        let result = self.a | operand;
        self.a = result;
        self.set_zn(result);
    }

    /// A = A exclusive OR operand.
    pub fn eor(&mut self, operand: u8)
        ensures
            final(self)@ == eor_spec(old(self)@, operand),
    {
        let result = self.a ^ operand;
        self.a = result;
        self.set_zn(result);
    }

    /// Tests A against `operand`: Zero from A AND operand, Overflow and Negative from
    /// bits 6 and 7 of the operand.
    pub fn bit(&mut self, operand: u8)
        ensures
            final(self)@ == bit_spec(old(self)@, operand),
    {
        let result = self.a & operand;
        self.p.write_flag(FlagPosition::Zero, result == 0);
        self.p.write_flag(FlagPosition::Overflow, operand & 0x40 != 0);
        self.p.write_flag(FlagPosition::Negative, operand >= 0x80);
    }

    /// Compares `register` with `operand` as `register - operand`; registers are unchanged.
    pub fn cmp(&mut self, register: u8, operand: u8)
        ensures
            final(self)@ == cmp_spec(old(self)@, register, operand),
    {
        let result: u8 = ((register as u16 + 0x100 - operand as u16) % 0x100) as u8;
        self.p.write_flag(FlagPosition::Zero, register == operand);
        self.p.write_flag(FlagPosition::Negative, result >= 0x80);
        self.p.write_flag(FlagPosition::Carry, register >= operand);
    }

    /// Stores the result of a shift or rotate with its flags: into A, or at
    /// `operand_address` for a memory operand.
    fn store_shifted(
        &mut self,
        operand: ShiftOperand,
        operand_address: Option<u16>,
        carry: bool,
        result: u8,
    )
        ensures
            final(self)@ == crate::machine::shift_store(
                old(self)@,
                operand,
                operand_address,
                carry,
                result,
            ),
    {
        self.p.write_flag(FlagPosition::Carry, carry);
        self.set_zn(result);
        match operand {
            ShiftOperand::A => self.a = result,
            ShiftOperand::Value(_) => {
                if let Some(address) = operand_address {
                    self.address_space.write_byte(address as usize, result);
                }
            },
        }
    }

    /// Arithmetic shift left.
    pub fn asl(&mut self, operand: ShiftOperand, operand_address: Option<u16>)
        ensures
            final(self)@ == asl_spec(old(self)@, operand, operand_address),
    {
        let value: u8 = match operand {
            ShiftOperand::A => self.a,
            ShiftOperand::Value(v) => v,
        };
        let result: u8 = ((value as u16 * 2) % 0x100) as u8;
        self.store_shifted(operand, operand_address, value >= 0x80, result);
    }

    /// Logical shift right.
    pub fn lsr(&mut self, operand: ShiftOperand, operand_address: Option<u16>)
        ensures
            final(self)@ == lsr_spec(old(self)@, operand, operand_address),
    {
        let value: u8 = match operand {
            ShiftOperand::A => self.a,
            ShiftOperand::Value(v) => v,
        };
        self.store_shifted(operand, operand_address, value % 2 == 1, value / 2);
    }

    /// Rotate left through carry.
    pub fn rol(&mut self, operand: ShiftOperand, operand_address: Option<u16>)
        ensures
            final(self)@ == rol_spec(old(self)@, operand, operand_address),
    {
        let value: u8 = match operand {
            ShiftOperand::A => self.a,
            ShiftOperand::Value(v) => v,
        };
        let carry: u16 = if self.p.read_flag(FlagPosition::Carry) {
            1
        } else {
            0
        };
        let result: u8 = ((value as u16 * 2 + carry) % 0x100) as u8;
        self.store_shifted(operand, operand_address, value >= 0x80, result);
    }

    /// Rotate right through carry.
    pub fn ror(&mut self, operand: ShiftOperand, operand_address: Option<u16>)
        ensures
            final(self)@ == ror_spec(old(self)@, operand, operand_address),
    {
        let value: u8 = match operand {
            ShiftOperand::A => self.a,
            ShiftOperand::Value(v) => v,
        };
        let carry: u8 = if self.p.read_flag(FlagPosition::Carry) {
            0x80
        } else {
            0
        };
        self.store_shifted(operand, operand_address, value % 2 == 1, value / 2 + carry);
    }

    /// Adds or subtracts one, wrapping at 8 bits, in X, in Y, or at `operand_address`.
    pub fn inc_dec(&mut self, inc: bool, operand: IncDecOperand, operand_address: Option<u16>)
        ensures
            final(self)@ == inc_dec_spec(old(self)@, inc, operand, operand_address),
    {
        let value: u8 = match operand {
            IncDecOperand::X => self.x,
            IncDecOperand::Y => self.y,
            IncDecOperand::Value(v) => v,
        };
        let result: u8 = if inc {
            ((value as u16 + 1) % 0x100) as u8
        } else {
            ((value as u16 + 0xFF) % 0x100) as u8
        };
        self.set_zn(result);
        match operand {
            IncDecOperand::X => self.x = result,
            IncDecOperand::Y => self.y = result,
            IncDecOperand::Value(_) => {
                if let Some(address) = operand_address {
                    self.address_space.write_byte(address as usize, result);
                }
            },
        }
    }

    /// Loads `register` with `operand`.
    pub fn ld(&mut self, register: LdOperand, operand: u8)
        ensures
            final(self)@ == ld_spec(old(self)@, register, operand),
    {
        match register {
            LdOperand::A => self.a = operand,
            LdOperand::X => self.x = operand,
            LdOperand::Y => self.y = operand,
        }
        self.set_zn(operand);
    }

    /// Stores `register` at `address`; flags are unchanged.
    pub fn st(&mut self, register: LdOperand, address: u16)
        ensures
            final(self)@ == st_spec(old(self)@, register, address),
    {
        let value = match register {
            LdOperand::A => self.a,
            LdOperand::X => self.x,
            LdOperand::Y => self.y,
        };
        self.address_space.write_byte(address as usize, value);
    }

    /// Copies A into X.
    pub fn tax(&mut self)
        ensures
            final(self)@ == ld_spec(old(self)@, LdOperand::X, old(self)@.a),
    {
        self.x = self.a;
        self.set_zn(self.x);
    }

    /// Copies A into Y.
    pub fn tay(&mut self)
        ensures
            final(self)@ == ld_spec(old(self)@, LdOperand::Y, old(self)@.a),
    {
        self.y = self.a;
        self.set_zn(self.y);
    }

    /// Copies S into X.
    pub fn tsx(&mut self)
        ensures
            final(self)@ == ld_spec(old(self)@, LdOperand::X, old(self)@.s),
    {
        self.x = self.s;
        self.set_zn(self.x);
    }

    /// Copies X into A.
    pub fn txa(&mut self)
        ensures
            final(self)@ == ld_spec(old(self)@, LdOperand::A, old(self)@.x),
    {
        self.a = self.x;
        self.set_zn(self.a);
    }

    /// Copies Y into A.
    pub fn tya(&mut self)
        ensures
            final(self)@ == ld_spec(old(self)@, LdOperand::A, old(self)@.y),
    {
        self.a = self.y;
        self.set_zn(self.a);
    }

    /// S = X; flags are unchanged.
    pub fn txs(&mut self)
        ensures
            final(self)@ == (Machine { s: old(self)@.x, ..old(self)@ }),
    {
        self.s = self.x;
    }

    /// Adds the signed `offset` to PC when `flag` reads `set`. PC must already point past
    /// the branch instruction.
    pub fn branch(&mut self, offset: i8, flag: FlagPosition, set: bool)
        ensures
            final(self)@ == branch_spec(old(self)@, offset, flag, set),
    {
        if self.p.read_flag(flag) == set {
            self.pc = ((self.pc as i32 + offset as i32 + 0x10000) % 0x10000) as u16;
        }
    }

    /// Clears `flag`.
    pub fn clear_flag(&mut self, flag: FlagPosition)
        ensures
            final(self)@ == with_p(old(self)@, with_flag(old(self)@.p, flag, false)),
    {
        self.p.write_flag(flag, false);
    }

    /// Sets Carry.
    pub fn sec(&mut self)
        ensures
            final(self)@ == with_p(old(self)@, with_flag(old(self)@.p, FlagPosition::Carry, true)),
    {
        self.p.write_flag(FlagPosition::Carry, true);
    }

    /// Sets DecimalMode.
    pub fn sed(&mut self)
        ensures
            final(self)@ == with_p(
                old(self)@,
                with_flag(old(self)@.p, FlagPosition::DecimalMode, true),
            ),
    {
        self.p.write_flag(FlagPosition::DecimalMode, true);
    }

    /// Sets IrqDisable.
    pub fn sei(&mut self)
        ensures
            final(self)@ == with_p(
                old(self)@,
                with_flag(old(self)@.p, FlagPosition::IrqDisable, true),
            ),
    {
        self.p.write_flag(FlagPosition::IrqDisable, true);
    }

    /// Writes `value` at 0x0100 + S, then decrements S.
    pub fn push(&mut self, value: u8)
        ensures
            final(self)@ == push_spec(old(self)@, value),
    {
        self.address_space.write_byte(STACK_BOTTOM + self.s as usize, value);
        self.s = ((self.s as u16 + 0xFF) % 0x100) as u8;
    }

    /// Pushes the high byte of `value`, then its low byte.
    pub fn push_dword(&mut self, value: u16)
        ensures
            final(self)@ == push_word_spec(old(self)@, value),
    {
        self.push((value / 0x100) as u8);
        self.push((value % 0x100) as u8);
    }

    /// Increments S, then reads the byte at 0x0100 + S.
    pub fn pop(&mut self) -> (r: u8)
        ensures
            r == popped_byte(old(self)@),
            final(self)@ == pop_spec(old(self)@),
    {
        self.s = ((self.s as u16 + 1) % 0x100) as u8;
        self.address_space.read_byte(STACK_BOTTOM + self.s as usize)
    }

    /// Pops the low byte, then the high byte.
    pub fn pop_dword(&mut self) -> (r: u16)
        ensures
            r == popped_word(old(self)@),
            final(self)@ == pop_spec(pop_spec(old(self)@)),
    {
        let low_byte = self.pop();
        let high_byte = self.pop();
        dword_from_nibbles(low_byte, high_byte)
    }

    /// Pops A.
    pub fn pla(&mut self)
        ensures
            final(self)@ == pla_spec(old(self)@),
    {
        let value = self.pop();
        self.a = value;
        self.set_zn(value);
    }

    /// Pops the status byte verbatim.
    pub fn plp(&mut self)
        ensures
            final(self)@ == plp_spec(old(self)@),
    {
        let value = self.pop();
        self.p = FlagsRegister::new(value);
    }

    /// Pushes the address of the last byte of the JSR instruction (PC + 2), then jumps.
    pub fn jsr(&mut self, address: u16)
        ensures
            final(self)@ == jsr_spec(old(self)@, address),
    {
        let return_address: u16 = ((self.pc as u32 + 2) % 0x10000) as u16;
        self.push_dword(return_address);
        self.pc = address;
    }

    /// Pops the return address and continues at the byte after it.
    pub fn rts(&mut self)
        ensures
            final(self)@ == rts_spec(old(self)@),
    {
        let return_address = self.pop_dword();
        self.pc = ((return_address as u32 + 1) % 0x10000) as u16;
    }

    /// Pops the status byte, then PC.
    pub fn rti(&mut self)
        ensures
            final(self)@ == rti_spec(old(self)@),
    {
        self.plp();
        self.pc = self.pop_dword();
    }

    /// Software interrupt: disables interrupts, pushes PC and the status byte, and jumps
    /// through the vector at 0xFFFE/0xFFFF.
    pub fn brk(&mut self)
        ensures
            final(self)@ == brk_spec(old(self)@),
    {
        self.p.write_flag(FlagPosition::IrqDisable, true);
        self.push_dword(self.pc);
        let status = self.p.to_byte();
        self.push(status);
        self.pc = self.fetch_dword(0xFFFE);
    }
    /// Executes a decoded instruction and moves PC past it, or to where a jump, branch,
    /// return or interrupt sends it.
    pub fn execute(&mut self, instr: DecodedInstruction)
        ensures
            final(self)@ == execute_spec(old(self)@, instr),
    {
        let len = argument_type(instr.instruction).instruction_len();
        let target: u16 = match instr.arg {
            Argument::Addr(nn) => nn,
            _ => 0,
        };
        let offset: i8 = match instr.arg {
            Argument::Byte(n) => n as i8,
            _ => 0,
        };
        match instr.instruction.mnemonic() {
            Mnemonic::Adc => {
                let FetchOperandResult(v, _) = self.operand(instr);
                self.adc(v);
                self.advance(len);
            },
            Mnemonic::And => {
                let FetchOperandResult(v, _) = self.operand(instr);
                self.and(v);
                self.advance(len);
            },
            Mnemonic::Asl => {
                let FetchOperandResult(v, address) = self.operand(instr);
                let operand = if instr.instruction.addressing().is_none() {
                    ShiftOperand::A
                } else {
                    ShiftOperand::Value(v)
                };
                self.asl(operand, address);
                self.advance(len);
            },
            Mnemonic::Bcc => {
                self.advance(2);
                self.branch(offset, FlagPosition::Carry, false);
            },
            Mnemonic::Bcs => {
                self.advance(2);
                self.branch(offset, FlagPosition::Carry, true);
            },
            Mnemonic::Beq => {
                self.advance(2);
                self.branch(offset, FlagPosition::Zero, true);
            },
            Mnemonic::Bmi => {
                self.advance(2);
                self.branch(offset, FlagPosition::Negative, true);
            },
            Mnemonic::Bne => {
                self.advance(2);
                self.branch(offset, FlagPosition::Zero, false);
            },
            Mnemonic::Bpl => {
                self.advance(2);
                self.branch(offset, FlagPosition::Negative, false);
            },
            Mnemonic::Bvc => {
                self.advance(2);
                self.branch(offset, FlagPosition::Overflow, false);
            },
            Mnemonic::Bvs => {
                self.advance(2);
                self.branch(offset, FlagPosition::Overflow, true);
            },
            Mnemonic::Bit => {
                let FetchOperandResult(v, _) = self.operand(instr);
                self.bit(v);
                self.advance(len);
            },
            Mnemonic::Brk => {
                self.brk();
            },
            Mnemonic::Clc => {
                self.clear_flag(FlagPosition::Carry);
                self.advance(len);
            },
            Mnemonic::Cld => {
                self.clear_flag(FlagPosition::DecimalMode);
                self.advance(len);
            },
            Mnemonic::Cli => {
                self.clear_flag(FlagPosition::IrqDisable);
                self.advance(len);
            },
            Mnemonic::Clv => {
                self.clear_flag(FlagPosition::Overflow);
                self.advance(len);
            },
            Mnemonic::Cmp => {
                let FetchOperandResult(v, _) = self.operand(instr);
                self.cmp(self.a, v);
                self.advance(len);
            },
            Mnemonic::Cpx => {
                let FetchOperandResult(v, _) = self.operand(instr);
                self.cmp(self.x, v);
                self.advance(len);
            },
            Mnemonic::Cpy => {
                let FetchOperandResult(v, _) = self.operand(instr);
                self.cmp(self.y, v);
                self.advance(len);
            },
            Mnemonic::Dec => {
                let FetchOperandResult(v, address) = self.operand(instr);
                self.inc_dec(false, IncDecOperand::Value(v), address);
                self.advance(len);
            },
            Mnemonic::Dex => {
                self.inc_dec(false, IncDecOperand::X, None);
                self.advance(len);
            },
            Mnemonic::Dey => {
                self.inc_dec(false, IncDecOperand::Y, None);
                self.advance(len);
            },
            Mnemonic::Eor => {
                let FetchOperandResult(v, _) = self.operand(instr);
                self.eor(v);
                self.advance(len);
            },
            Mnemonic::Inc => {
                let FetchOperandResult(v, address) = self.operand(instr);
                self.inc_dec(true, IncDecOperand::Value(v), address);
                self.advance(len);
            },
            Mnemonic::Inx => {
                self.inc_dec(true, IncDecOperand::X, None);
                self.advance(len);
            },
            Mnemonic::Iny => {
                self.inc_dec(true, IncDecOperand::Y, None);
                self.advance(len);
            },
            Mnemonic::Jmp => {
                self.pc = target;
            },
            Mnemonic::JmpIndirect => {
                let low_byte = self.fetch(target);
                let high_byte = self.fetch((target / 0x100) * 0x100 + (target % 0x100 + 1) % 0x100);
                self.pc = dword_from_nibbles(low_byte, high_byte);
            },
            Mnemonic::Jsr => {
                self.jsr(target);
            },
            Mnemonic::Lda => {
                let FetchOperandResult(v, _) = self.operand(instr);
                self.ld(LdOperand::A, v);
                self.advance(len);
            },
            Mnemonic::Ldx => {
                let FetchOperandResult(v, _) = self.operand(instr);
                self.ld(LdOperand::X, v);
                self.advance(len);
            },
            Mnemonic::Ldy => {
                let FetchOperandResult(v, _) = self.operand(instr);
                self.ld(LdOperand::Y, v);
                self.advance(len);
            },
            Mnemonic::Lsr => {
                let FetchOperandResult(v, address) = self.operand(instr);
                let operand = if instr.instruction.addressing().is_none() {
                    ShiftOperand::A
                } else {
                    ShiftOperand::Value(v)
                };
                self.lsr(operand, address);
                self.advance(len);
            },
            Mnemonic::Nop => {
                self.advance(len);
            },
            Mnemonic::Ora => {
                let FetchOperandResult(v, _) = self.operand(instr);
                self.ora(v);
                self.advance(len);
            },
            Mnemonic::Pha => {
                self.push(self.a);
                self.advance(len);
            },
            Mnemonic::Php => {
                let status = self.p.to_byte();
                self.push(status);
                self.advance(len);
            },
            Mnemonic::Pla => {
                self.pla();
                self.advance(len);
            },
            Mnemonic::Plp => {
                self.plp();
                self.advance(len);
            },
            Mnemonic::Rol => {
                let FetchOperandResult(v, address) = self.operand(instr);
                let operand = if instr.instruction.addressing().is_none() {
                    ShiftOperand::A
                } else {
                    ShiftOperand::Value(v)
                };
                self.rol(operand, address);
                self.advance(len);
            },
            Mnemonic::Ror => {
                let FetchOperandResult(v, address) = self.operand(instr);
                let operand = if instr.instruction.addressing().is_none() {
                    ShiftOperand::A
                } else {
                    ShiftOperand::Value(v)
                };
                self.ror(operand, address);
                self.advance(len);
            },
            Mnemonic::Rti => {
                self.rti();
            },
            Mnemonic::Rts => {
                self.rts();
            },
            Mnemonic::Sbc => {
                let FetchOperandResult(v, _) = self.operand(instr);
                self.sbc(v);
                self.advance(len);
            },
            Mnemonic::Sec => {
                self.sec();
                self.advance(len);
            },
            Mnemonic::Sed => {
                self.sed();
                self.advance(len);
            },
            Mnemonic::Sei => {
                self.sei();
                self.advance(len);
            },
            Mnemonic::Sta => {
                let FetchOperandResult(_, address) = self.operand(instr);
                if let Some(address) = address {
                    self.st(LdOperand::A, address);
                }
                self.advance(len);
            },
            Mnemonic::Stx => {
                let FetchOperandResult(_, address) = self.operand(instr);
                if let Some(address) = address {
                    self.st(LdOperand::X, address);
                }
                self.advance(len);
            },
            Mnemonic::Sty => {
                let FetchOperandResult(_, address) = self.operand(instr);
                if let Some(address) = address {
                    self.st(LdOperand::Y, address);
                }
                self.advance(len);
            },
            Mnemonic::Tax => {
                self.tax();
                self.advance(len);
            },
            Mnemonic::Tay => {
                self.tay();
                self.advance(len);
            },
            Mnemonic::Tsx => {
                self.tsx();
                self.advance(len);
            },
            Mnemonic::Txa => {
                self.txa();
                self.advance(len);
            },
            Mnemonic::Txs => {
                self.txs();
                self.advance(len);
            },
            Mnemonic::Tya => {
                self.tya();
                self.advance(len);
            },
        }
    }
}

} // verus!
