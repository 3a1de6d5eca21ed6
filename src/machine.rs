use vstd::prelude::*;

use crate::cpu::{
    Argument, DecodedInstruction, FetchOperandResult, IncDecOperand, LdOperand, ShiftOperand,
};
use crate::error::DecodeError;
use crate::flags_register::{flag_set, lemma_read_after_write, with_flag, FlagPosition};
use crate::instruction::{AddressingType, Instruction, Mnemonic};
use crate::memory_bus::{mem_read, mem_write};
use crate::opcode_decoders::{ArgumentType, spec_argument_type};

verus! {

/// The architectural state of the processor together with the memory it sees.
pub ghost struct Machine {
    pub a: u8,
    pub x: u8,
    pub y: u8,
    pub pc: u16,
    pub s: u8,
    pub p: u8,
    pub mem: Map<int, u8>,
}

/// `v` reduced modulo 2^8.
pub open spec fn wrap8(v: int) -> u8 {
    (v % 0x100) as u8
}

/// `v` reduced modulo 2^16.
pub open spec fn wrap16(v: int) -> u16 {
    (v % 0x10000) as u16
}

/// The 16-bit value with low byte `low` and high byte `high`.
pub open spec fn word(low: u8, high: u8) -> u16 {
    (high * 0x100 + low) as u16
}

/// Whether bit 7 of `v` is set.
pub open spec fn negative(v: u8) -> bool {
    v >= 0x80
}

/// The status byte `p` with Zero and Negative set from the result byte `r`.
pub open spec fn set_zn(p: u8, r: u8) -> u8 {
    with_flag(with_flag(p, FlagPosition::Zero, r == 0), FlagPosition::Negative, negative(r))
}

/// After setting Zero and Negative from `r`, Zero reads `r == 0` and Negative reads bit 7
/// of `r`.
pub broadcast proof fn lemma_set_zn(p: u8, r: u8)
    ensures
        flag_set(#[trigger] set_zn(p, r), FlagPosition::Zero) == (r == 0),
        flag_set(set_zn(p, r), FlagPosition::Negative) == negative(r),
{
    lemma_read_after_write(with_flag(p, FlagPosition::Zero, r == 0), FlagPosition::Negative, negative(r), FlagPosition::Zero);
    lemma_read_after_write(p, FlagPosition::Zero, r == 0, FlagPosition::Zero);
    lemma_read_after_write(with_flag(p, FlagPosition::Zero, r == 0), FlagPosition::Negative, negative(r), FlagPosition::Negative);
}

/// The number that the two BCD digits of `b` stand for.
pub open spec fn bcd_value(b: u8) -> int {
    (b / 16) * 10 + b % 16
}

/// The BCD byte for `v` when `v` has two decimal digits, zero otherwise.
pub open spec fn bcd_byte(v: int) -> u8 {
    if 0 <= v < 100 {
        ((v / 10) * 16 + v % 10) as u8
    } else {
        0
    }
}

/// 1 when the carry flag is set in `p`, else 0.
pub open spec fn carry_in(p: u8) -> int {
    if flag_set(p, FlagPosition::Carry) {
        1
    } else {
        0
    }
}

/// The address of the stack slot that `s` points at.
pub open spec fn stack_address(s: u8) -> int {
    0x100 + s
}

pub open spec fn read(m: Machine, a: int) -> u8 {
    mem_read(m.mem, a)
}

pub open spec fn write(m: Machine, a: int, v: u8) -> Machine {
    Machine { mem: mem_write(m.mem, a, v), ..m }
}

pub open spec fn with_p(m: Machine, p: u8) -> Machine {
    Machine { p, ..m }
}

/// `m` with PC moved forward by `n` bytes.
pub open spec fn advance_pc(m: Machine, n: int) -> Machine {
    Machine { pc: wrap16(m.pc + n), ..m }
}

/// Push: store at the slot S points at, then decrement S.
pub open spec fn push_spec(m: Machine, v: u8) -> Machine {
    Machine { s: wrap8(m.s - 1), ..write(m, stack_address(m.s), v) }
}

/// Push a 16-bit value, high byte first, so the low byte sits at the lower address.
pub open spec fn push_word_spec(m: Machine, v: u16) -> Machine {
    push_spec(push_spec(m, (v / 0x100) as u8), (v % 0x100) as u8)
}

/// The byte a pop returns: S is incremented, then the slot is read.
pub open spec fn popped_byte(m: Machine) -> u8 {
    read(m, stack_address(wrap8(m.s + 1)))
}

/// The state after a pop.
pub open spec fn pop_spec(m: Machine) -> Machine {
    Machine { s: wrap8(m.s + 1), ..m }
}

/// The 16-bit value two pops return, low byte first.
pub open spec fn popped_word(m: Machine) -> u16 {
    word(popped_byte(m), popped_byte(pop_spec(m)))
}

/// The 16-bit little-endian value stored at `low` and `high`.
pub open spec fn read_word(m: Machine, low: int, high: int) -> u16 {
    word(read(m, low), read(m, high))
}

/// The operand value and effective address that `mode` gives for `arg`, or the error when
/// the argument does not have the shape the mode needs. Zero-page pointers wrap within
/// the zero page.
pub open spec fn operand_spec(m: Machine, arg: Argument, mode: AddressingType) -> Result<
    FetchOperandResult,
    DecodeError,
> {
    let at = |ea: u16| Ok(FetchOperandResult(read(m, ea as int), Some(ea)));
    match mode {
        AddressingType::Immediate => match arg {
            Argument::Byte(n) => Ok(FetchOperandResult(n, None)),
            _ => Err(DecodeError::ByteExpectedArgumentError),
        },
        AddressingType::ZeroPage => match arg {
            Argument::Byte(n) => at(n as u16),
            _ => Err(DecodeError::ByteExpectedArgumentError),
        },
        AddressingType::XIndexedZero => match arg {
            Argument::Byte(n) => at(wrap8(n + m.x) as u16),
            _ => Err(DecodeError::ByteExpectedArgumentError),
        },
        AddressingType::YIndexedZero => match arg {
            Argument::Byte(n) => at(wrap8(n + m.y) as u16),
            _ => Err(DecodeError::ByteExpectedArgumentError),
        },
        AddressingType::XIndexedZeroIndirect => match arg {
            Argument::Byte(n) => {
                let ptr = wrap8(n + m.x);
                at(read_word(m, ptr as int, wrap8(ptr + 1) as int))
            },
            _ => Err(DecodeError::ByteExpectedArgumentError),
        },
        AddressingType::ZeroIndirectIndexed => match arg {
            Argument::Byte(n) => {
                let base = read_word(m, n as int, wrap8(n + 1) as int);
                at(wrap16(base + m.y))
            },
            _ => Err(DecodeError::ByteExpectedArgumentError),
        },
        AddressingType::Absolute => match arg {
            Argument::Addr(nn) => at(nn),
            _ => Err(DecodeError::AddrExpectedArgumentError),
        },
        AddressingType::XIndexedAbsolute => match arg {
            Argument::Addr(nn) => at(wrap16(nn + m.x)),
            _ => Err(DecodeError::AddrExpectedArgumentError),
        },
        AddressingType::YIndexedAbsolute => match arg {
            Argument::Addr(nn) => at(wrap16(nn + m.y)),
            _ => Err(DecodeError::AddrExpectedArgumentError),
        },
    }
}

// ---- arithmetic and logic ----

pub open spec fn adc_spec(m: Machine, v: u8) -> Machine {
    let c = carry_in(m.p);
    if !flag_set(m.p, FlagPosition::DecimalMode) {
        let r: u16 = (m.a + v + c) as u16;
        let result = wrap8(r as int);
        let overflow = (m.a as u16 ^ r) & (v as u16 ^ r) & 0x80u16 != 0;
        let p = with_flag(with_flag(m.p, FlagPosition::Carry, r > 0xFF), FlagPosition::Overflow, overflow);
        Machine { a: result, p: set_zn(p, result), ..m }
    } else {
        let sum = bcd_value(m.a) + bcd_value(v) + c;
        let carry = sum > 99;
        let result = bcd_byte(if carry { sum - 100 } else { sum });
        Machine { a: result, p: set_zn(with_flag(m.p, FlagPosition::Carry, carry), result), ..m }
    }
}

pub open spec fn sbc_spec(m: Machine, v: u8) -> Machine {
    let borrow = 1 - carry_in(m.p);
    if !flag_set(m.p, FlagPosition::DecimalMode) {
        let diff = m.a - v - borrow;
        let r = wrap16(diff);
        let result = wrap8(r as int);
        let overflow = (m.a as u16 ^ r) & !(v as u16 ^ r) & 0x80u16 != 0;
        let p = with_flag(with_flag(m.p, FlagPosition::Carry, diff >= 0), FlagPosition::Overflow, overflow);
        Machine { a: result, p: set_zn(p, result), ..m }
    } else {
        let diff = bcd_value(m.a) - bcd_value(v) - borrow;
        let result = bcd_byte(if diff < 0 { diff + 100 } else { diff });
        Machine { a: result, p: set_zn(with_flag(m.p, FlagPosition::Carry, diff >= 0), result), ..m }
    }
}

pub open spec fn and_spec(m: Machine, v: u8) -> Machine {
    Machine { a: m.a & v, p: set_zn(m.p, m.a & v), ..m }
}

pub open spec fn ora_spec(m: Machine, v: u8) -> Machine {
    Machine { a: m.a | v, p: set_zn(m.p, m.a | v), ..m }
}

pub open spec fn eor_spec(m: Machine, v: u8) -> Machine {
    Machine { a: m.a ^ v, p: set_zn(m.p, m.a ^ v), ..m }
}

pub open spec fn bit_spec(m: Machine, v: u8) -> Machine {
    let p = with_flag(m.p, FlagPosition::Zero, m.a & v == 0);
    let p = with_flag(p, FlagPosition::Overflow, v & 0x40u8 != 0);
    with_p(m, with_flag(p, FlagPosition::Negative, negative(v)))
}

pub open spec fn cmp_spec(m: Machine, register: u8, v: u8) -> Machine {
    let p = with_flag(m.p, FlagPosition::Zero, register == v);
    let p = with_flag(p, FlagPosition::Negative, negative(wrap8(register - v)));
    with_p(m, with_flag(p, FlagPosition::Carry, register >= v))
}

// ---- shifts and rotates ----

/// The byte a shift or rotate works on.
pub open spec fn shift_source(m: Machine, operand: ShiftOperand) -> u8 {
    match operand {
        ShiftOperand::A => m.a,
        ShiftOperand::Value(v) => v,
    }
}

/// Store the result of a shift and its flags: into A, or at the operand's address.
pub open spec fn shift_store(
    m: Machine,
    operand: ShiftOperand,
    address: Option<u16>,
    carry: bool,
    r: u8,
) -> Machine {
    let m1 = with_p(m, set_zn(with_flag(m.p, FlagPosition::Carry, carry), r));
    match operand {
        ShiftOperand::A => Machine { a: r, ..m1 },
        ShiftOperand::Value(_) => match address {
            Some(ea) => write(m1, ea as int, r),
            None => m1,
        },
    }
}

pub open spec fn asl_spec(m: Machine, operand: ShiftOperand, address: Option<u16>) -> Machine {
    let v = shift_source(m, operand);
    shift_store(m, operand, address, negative(v), wrap8(v * 2))
}

pub open spec fn lsr_spec(m: Machine, operand: ShiftOperand, address: Option<u16>) -> Machine {
    let v = shift_source(m, operand);
    shift_store(m, operand, address, v % 2 == 1, v / 2)
}

pub open spec fn rol_spec(m: Machine, operand: ShiftOperand, address: Option<u16>) -> Machine {
    let v = shift_source(m, operand);
    shift_store(m, operand, address, negative(v), wrap8(v * 2 + carry_in(m.p)))
}

pub open spec fn ror_spec(m: Machine, operand: ShiftOperand, address: Option<u16>) -> Machine {
    let v = shift_source(m, operand);
    shift_store(m, operand, address, v % 2 == 1, (v / 2 + carry_in(m.p) * 0x80) as u8)
}

// ---- increments, loads, stores, transfers ----

pub open spec fn inc_dec_spec(
    m: Machine,
    inc: bool,
    operand: IncDecOperand,
    address: Option<u16>,
) -> Machine {
    let v = match operand {
        IncDecOperand::X => m.x,
        IncDecOperand::Y => m.y,
        IncDecOperand::Value(v) => v,
    };
    let r = if inc {
        wrap8(v + 1)
    } else {
        wrap8(v - 1)
    };
    let m1 = with_p(m, set_zn(m.p, r));
    match operand {
        IncDecOperand::X => Machine { x: r, ..m1 },
        IncDecOperand::Y => Machine { y: r, ..m1 },
        IncDecOperand::Value(_) => match address {
            Some(ea) => write(m1, ea as int, r),
            None => m1,
        },
    }
}

pub open spec fn ld_spec(m: Machine, register: LdOperand, v: u8) -> Machine {
    let m1 = with_p(m, set_zn(m.p, v));
    match register {
        LdOperand::A => Machine { a: v, ..m1 },
        LdOperand::X => Machine { x: v, ..m1 },
        LdOperand::Y => Machine { y: v, ..m1 },
    }
}

pub open spec fn register_value(m: Machine, register: LdOperand) -> u8 {
    match register {
        LdOperand::A => m.a,
        LdOperand::X => m.x,
        LdOperand::Y => m.y,
    }
}

pub open spec fn st_spec(m: Machine, register: LdOperand, address: u16) -> Machine {
    write(m, address as int, register_value(m, register))
}

// ---- stack, jumps and interrupts ----

pub open spec fn pla_spec(m: Machine) -> Machine {
    let v = popped_byte(m);
    Machine { a: v, p: set_zn(m.p, v), ..pop_spec(m) }
}

pub open spec fn plp_spec(m: Machine) -> Machine {
    Machine { p: popped_byte(m), ..pop_spec(m) }
}

pub open spec fn jsr_spec(m: Machine, address: u16) -> Machine {
    Machine { pc: address, ..push_word_spec(m, wrap16(m.pc + 2)) }
}

pub open spec fn rts_spec(m: Machine) -> Machine {
    Machine { pc: wrap16(popped_word(m) + 1), ..pop_spec(pop_spec(m)) }
}

pub open spec fn rti_spec(m: Machine) -> Machine {
    let m1 = plp_spec(m);
    Machine { pc: popped_word(m1), ..pop_spec(pop_spec(m1)) }
}

pub open spec fn brk_spec(m: Machine) -> Machine {
    let m1 = with_p(m, with_flag(m.p, FlagPosition::IrqDisable, true));
    let m2 = push_spec(push_word_spec(m1, m1.pc), m1.p);
    Machine { pc: read_word(m2, 0xFFFE, 0xFFFF), ..m2 }
}

/// PC after a branch whose instruction has already been stepped over.
pub open spec fn branch_spec(m: Machine, offset: i8, flag: FlagPosition, set: bool) -> Machine {
    if flag_set(m.p, flag) == set {
        Machine { pc: wrap16(m.pc + offset), ..m }
    } else {
        m
    }
}

/// The address from which an indirect jump through `nn` reads its high byte: the
/// increment does not carry into the page number.
pub open spec fn indirect_high(nn: u16) -> int {
    (nn / 0x100) * 0x100 + wrap8(nn % 0x100 + 1)
}

// ---- decoding and one step ----

/// The instruction that the opcode `value` at PC starts, with its operand bytes read from
/// the addresses after PC; the error when `value` is no opcode.
pub open spec fn decode_spec(m: Machine, value: u8) -> Result<DecodedInstruction, DecodeError> {
    match Instruction::spec_from_byte(value) {
        None => Err(DecodeError::UnknownOpcodeError(value)),
        Some(instruction) => {
            let low = read(m, wrap16(m.pc + 1) as int);
            let high = read(m, wrap16(m.pc + 2) as int);
            let arg = match spec_argument_type(instruction) {
                ArgumentType::Void => Argument::Void,
                ArgumentType::Byte => Argument::Byte(low),
                ArgumentType::Addr => Argument::Addr(word(low, high)),
            };
            Ok(DecodedInstruction { instruction, arg })
        },
    }
}

/// The operand value and address of a decoded instruction; zero and no address for the
/// forms without an operand in memory.
pub open spec fn operand_of(m: Machine, d: DecodedInstruction) -> FetchOperandResult {
    match d.instruction.addressing() {
        None => FetchOperandResult(0, None),
        Some(mode) => match operand_spec(m, d.arg, mode) {
            Ok(r) => r,
            Err(_) => FetchOperandResult(0, None),
        },
    }
}

/// The target address that a jump carries.
pub open spec fn target_of(d: DecodedInstruction) -> u16 {
    match d.arg {
        Argument::Addr(nn) => nn,
        _ => 0,
    }
}

/// The branch offset that a branch carries.
pub open spec fn offset_of(d: DecodedInstruction) -> i8 {
    match d.arg {
        Argument::Byte(n) => n as i8,
        _ => 0,
    }
}

/// The shift operand of a shift or rotate: A in accumulator form, else the byte read.
pub open spec fn shift_operand_of(m: Machine, d: DecodedInstruction) -> ShiftOperand {
    if d.instruction.addressing() is None {
        ShiftOperand::A
    } else {
        ShiftOperand::Value(operand_of(m, d).0)
    }
}

/// The effect of executing a decoded, well-formed instruction on `m`.
pub open spec fn execute_spec(m: Machine, d: DecodedInstruction) -> Machine {
    let len = spec_argument_type(d.instruction).spec_instruction_len() as int;
    let v = operand_of(m, d).0;
    let ea = operand_of(m, d).1;
    match d.instruction.mnemonic() {
        Mnemonic::Adc => advance_pc(adc_spec(m, v), len),
        Mnemonic::And => advance_pc(and_spec(m, v), len),
        Mnemonic::Asl => advance_pc(asl_spec(m, shift_operand_of(m, d), ea), len),
        Mnemonic::Bcc => branch_spec(advance_pc(m, 2), offset_of(d), FlagPosition::Carry, false),
        Mnemonic::Bcs => branch_spec(advance_pc(m, 2), offset_of(d), FlagPosition::Carry, true),
        Mnemonic::Beq => branch_spec(advance_pc(m, 2), offset_of(d), FlagPosition::Zero, true),
        Mnemonic::Bmi => branch_spec(advance_pc(m, 2), offset_of(d), FlagPosition::Negative, true),
        Mnemonic::Bne => branch_spec(advance_pc(m, 2), offset_of(d), FlagPosition::Zero, false),
        Mnemonic::Bpl => branch_spec(advance_pc(m, 2), offset_of(d), FlagPosition::Negative, false),
        Mnemonic::Bvc => branch_spec(advance_pc(m, 2), offset_of(d), FlagPosition::Overflow, false),
        Mnemonic::Bvs => branch_spec(advance_pc(m, 2), offset_of(d), FlagPosition::Overflow, true),
        Mnemonic::Bit => advance_pc(bit_spec(m, v), len),
        Mnemonic::Brk => brk_spec(m),
        Mnemonic::Clc => advance_pc(with_p(m, with_flag(m.p, FlagPosition::Carry, false)), len),
        Mnemonic::Cld => advance_pc(with_p(m, with_flag(m.p, FlagPosition::DecimalMode, false)), len),
        Mnemonic::Cli => advance_pc(with_p(m, with_flag(m.p, FlagPosition::IrqDisable, false)), len),
        Mnemonic::Clv => advance_pc(with_p(m, with_flag(m.p, FlagPosition::Overflow, false)), len),
        Mnemonic::Cmp => advance_pc(cmp_spec(m, m.a, v), len),
        Mnemonic::Cpx => advance_pc(cmp_spec(m, m.x, v), len),
        Mnemonic::Cpy => advance_pc(cmp_spec(m, m.y, v), len),
        Mnemonic::Dec => advance_pc(inc_dec_spec(m, false, IncDecOperand::Value(v), ea), len),
        Mnemonic::Dex => advance_pc(inc_dec_spec(m, false, IncDecOperand::X, None), len),
        Mnemonic::Dey => advance_pc(inc_dec_spec(m, false, IncDecOperand::Y, None), len),
        Mnemonic::Eor => advance_pc(eor_spec(m, v), len),
        Mnemonic::Inc => advance_pc(inc_dec_spec(m, true, IncDecOperand::Value(v), ea), len),
        Mnemonic::Inx => advance_pc(inc_dec_spec(m, true, IncDecOperand::X, None), len),
        Mnemonic::Iny => advance_pc(inc_dec_spec(m, true, IncDecOperand::Y, None), len),
        Mnemonic::Jmp => Machine { pc: target_of(d), ..m },
        Mnemonic::JmpIndirect => Machine {
            pc: read_word(m, target_of(d) as int, indirect_high(target_of(d))),
            ..m
        },
        Mnemonic::Jsr => jsr_spec(m, target_of(d)),
        Mnemonic::Lda => advance_pc(ld_spec(m, LdOperand::A, v), len),
        Mnemonic::Ldx => advance_pc(ld_spec(m, LdOperand::X, v), len),
        Mnemonic::Ldy => advance_pc(ld_spec(m, LdOperand::Y, v), len),
        Mnemonic::Lsr => advance_pc(lsr_spec(m, shift_operand_of(m, d), ea), len),
        Mnemonic::Nop => advance_pc(m, len),
        Mnemonic::Ora => advance_pc(ora_spec(m, v), len),
        Mnemonic::Pha => advance_pc(push_spec(m, m.a), len),
        Mnemonic::Php => advance_pc(push_spec(m, m.p), len),
        Mnemonic::Pla => advance_pc(pla_spec(m), len),
        Mnemonic::Plp => advance_pc(plp_spec(m), len),
        Mnemonic::Rol => advance_pc(rol_spec(m, shift_operand_of(m, d), ea), len),
        Mnemonic::Ror => advance_pc(ror_spec(m, shift_operand_of(m, d), ea), len),
        Mnemonic::Rti => rti_spec(m),
        Mnemonic::Rts => rts_spec(m),
        Mnemonic::Sbc => advance_pc(sbc_spec(m, v), len),
        Mnemonic::Sec => advance_pc(with_p(m, with_flag(m.p, FlagPosition::Carry, true)), len),
        Mnemonic::Sed => advance_pc(with_p(m, with_flag(m.p, FlagPosition::DecimalMode, true)), len),
        Mnemonic::Sei => advance_pc(with_p(m, with_flag(m.p, FlagPosition::IrqDisable, true)), len),
        Mnemonic::Sta => match ea {
            Some(ea) => advance_pc(st_spec(m, LdOperand::A, ea), len),
            None => advance_pc(m, len),
        },
        Mnemonic::Stx => match ea {
            Some(ea) => advance_pc(st_spec(m, LdOperand::X, ea), len),
            None => advance_pc(m, len),
        },
        Mnemonic::Sty => match ea {
            Some(ea) => advance_pc(st_spec(m, LdOperand::Y, ea), len),
            None => advance_pc(m, len),
        },
        Mnemonic::Tax => advance_pc(ld_spec(m, LdOperand::X, m.a), len),
        Mnemonic::Tay => advance_pc(ld_spec(m, LdOperand::Y, m.a), len),
        Mnemonic::Tsx => advance_pc(ld_spec(m, LdOperand::X, m.s), len),
        Mnemonic::Txa => advance_pc(ld_spec(m, LdOperand::A, m.x), len),
        Mnemonic::Txs => advance_pc(Machine { s: m.x, ..m }, len),
        Mnemonic::Tya => advance_pc(ld_spec(m, LdOperand::A, m.y), len),
    }
}

/// One fetch-decode-execute step: the next state, or the error for an unknown opcode.
pub open spec fn step_spec(m: Machine) -> Result<Machine, DecodeError> {
    match decode_spec(m, read(m, m.pc as int)) {
        Err(e) => Err(e),
        Ok(d) => Ok(execute_spec(m, d)),
    }
}

} // verus!
