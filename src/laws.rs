use vstd::prelude::*;

use crate::cpu::{Argument, DecodedInstruction, FetchOperandResult};
use crate::error::DecodeError;
use crate::flags_register::{bit_of, flag_set, lemma_bit_after_write, with_flag, FlagPosition};
use crate::instruction::{AddressingType, Mnemonic};
use crate::machine::{
    adc_spec, carry_in, cmp_spec, execute_spec, jsr_spec, lemma_set_zn, negative, operand_of,
    operand_spec, popped_word, read, read_word, rts_spec, set_zn, stack_address, step_spec, word,
    wrap16, wrap8, Machine,
};

verus! {

/// Whether executing an operation may change bit `i` of the status byte.
pub open spec fn flag_affected(mnemonic: Mnemonic, i: u8) -> bool {
    match mnemonic {
        Mnemonic::Adc | Mnemonic::Sbc => i == 0 || i == 1 || i == 6 || i == 7,
        Mnemonic::Asl | Mnemonic::Lsr | Mnemonic::Rol | Mnemonic::Ror => i == 0 || i == 1 || i == 7,
        Mnemonic::Cmp | Mnemonic::Cpx | Mnemonic::Cpy => i == 0 || i == 1 || i == 7,
        Mnemonic::Bit => i == 1 || i == 6 || i == 7,
        Mnemonic::And | Mnemonic::Ora | Mnemonic::Eor => i == 1 || i == 7,
        Mnemonic::Lda | Mnemonic::Ldx | Mnemonic::Ldy => i == 1 || i == 7,
        Mnemonic::Inc | Mnemonic::Dec | Mnemonic::Inx | Mnemonic::Dex => i == 1 || i == 7,
        Mnemonic::Iny | Mnemonic::Dey | Mnemonic::Pla => i == 1 || i == 7,
        Mnemonic::Tax | Mnemonic::Tay | Mnemonic::Tsx | Mnemonic::Txa | Mnemonic::Tya => i == 1 || i == 7,
        Mnemonic::Clc | Mnemonic::Sec => i == 0,
        Mnemonic::Cld | Mnemonic::Sed => i == 3,
        Mnemonic::Cli | Mnemonic::Sei | Mnemonic::Brk => i == 2,
        Mnemonic::Clv => i == 6,
        Mnemonic::Plp | Mnemonic::Rti => true,
        _ => false,
    }
}

/// An operation leaves alone every status bit that it is not defined to affect, the two
/// unused bits included.
pub proof fn lemma_unaffected_flags_kept(m: Machine, d: DecodedInstruction, i: u8)
    requires
        i < 8,
        !flag_affected(d.instruction.mnemonic(), i),
    ensures
        bit_of(execute_spec(m, d).p, i) == bit_of(m.p, i),
{
    broadcast use lemma_bit_after_write;

    match d.instruction.mnemonic() {
        Mnemonic::Adc => {},
        Mnemonic::And => {},
        Mnemonic::Asl => {},
        Mnemonic::Bcc => {},
        Mnemonic::Bcs => {},
        Mnemonic::Beq => {},
        Mnemonic::Bit => {},
        Mnemonic::Bmi => {},
        Mnemonic::Bne => {},
        Mnemonic::Bpl => {},
        Mnemonic::Brk => {},
        Mnemonic::Bvc => {},
        Mnemonic::Bvs => {},
        Mnemonic::Clc => {},
        Mnemonic::Cld => {},
        Mnemonic::Cli => {},
        Mnemonic::Clv => {},
        Mnemonic::Cmp => lemma_compare_flags(m, m.a, operand_of(m, d).0),
        Mnemonic::Cpx => lemma_compare_flags(m, m.x, operand_of(m, d).0),
        Mnemonic::Cpy => lemma_compare_flags(m, m.y, operand_of(m, d).0),
        Mnemonic::Dec => {},
        Mnemonic::Dex => {},
        Mnemonic::Dey => {},
        Mnemonic::Eor => {},
        Mnemonic::Inc => {},
        Mnemonic::Inx => {},
        Mnemonic::Iny => {},
        Mnemonic::Jmp => {},
        Mnemonic::JmpIndirect => {},
        Mnemonic::Jsr => {},
        Mnemonic::Lda => {},
        Mnemonic::Ldx => {},
        Mnemonic::Ldy => {},
        Mnemonic::Lsr => {},
        Mnemonic::Nop => {},
        Mnemonic::Ora => {},
        Mnemonic::Pha => {},
        Mnemonic::Php => {},
        Mnemonic::Pla => {},
        Mnemonic::Plp => {},
        Mnemonic::Rol => {},
        Mnemonic::Ror => {},
        Mnemonic::Rti => {},
        Mnemonic::Rts => {},
        Mnemonic::Sbc => {},
        Mnemonic::Sec => {},
        Mnemonic::Sed => {},
        Mnemonic::Sei => {},
        Mnemonic::Sta => {},
        Mnemonic::Stx => {},
        Mnemonic::Sty => {},
        Mnemonic::Tax => {},
        Mnemonic::Tay => {},
        Mnemonic::Tsx => {},
        Mnemonic::Txa => {},
        Mnemonic::Txs => {},
        Mnemonic::Tya => {},
    }
}

/// The result byte from which an operation sets Zero and Negative, for the operations
/// that set them so: the register or memory byte written, or for a compare the low byte
/// of the difference.
pub open spec fn zn_result(m: Machine, d: DecodedInstruction) -> Option<u8> {
    let after = execute_spec(m, d);
    let v = operand_of(m, d).0;
    let accumulator = d.instruction.addressing() is None;
    match d.instruction.mnemonic() {
        Mnemonic::Adc | Mnemonic::Sbc | Mnemonic::And | Mnemonic::Ora | Mnemonic::Eor => Some(after.a),
        Mnemonic::Lda | Mnemonic::Pla | Mnemonic::Txa | Mnemonic::Tya => Some(after.a),
        Mnemonic::Ldx | Mnemonic::Tax | Mnemonic::Tsx | Mnemonic::Inx | Mnemonic::Dex => Some(after.x),
        Mnemonic::Ldy | Mnemonic::Tay | Mnemonic::Iny | Mnemonic::Dey => Some(after.y),
        Mnemonic::Inc => Some(wrap8(v + 1)),
        Mnemonic::Dec => Some(wrap8(v - 1)),
        Mnemonic::Asl => Some(if accumulator { after.a } else { wrap8(v * 2) }),
        Mnemonic::Lsr => Some(if accumulator { after.a } else { v / 2 }),
        Mnemonic::Rol => Some(if accumulator { after.a } else { wrap8(v * 2 + carry_in(m.p)) }),
        Mnemonic::Ror => Some(
            if accumulator {
                after.a
            } else {
                (v / 2 + carry_in(m.p) * 0x80) as u8
            },
        ),
        Mnemonic::Cmp => Some(wrap8(m.a - v)),
        Mnemonic::Cpx => Some(wrap8(m.x - v)),
        Mnemonic::Cpy => Some(wrap8(m.y - v)),
        _ => None,
    }
}

proof fn lemma_compare_flags(m: Machine, register: u8, v: u8)
    ensures
        flag_set(cmp_spec(m, register, v).p, FlagPosition::Zero) == (wrap8(register - v) == 0),
        flag_set(cmp_spec(m, register, v).p, FlagPosition::Negative) == negative(
            wrap8(register - v),
        ),
{
    broadcast use lemma_bit_after_write;

    assert((register == v) == (wrap8(register - v) == 0));
}

/// Zero is set exactly when the result byte is zero, and Negative equals its bit 7.
pub proof fn lemma_zero_negative_follow_result(m: Machine, d: DecodedInstruction)
    ensures
        zn_result(m, d) matches Some(r) ==> {
            &&& flag_set(execute_spec(m, d).p, FlagPosition::Zero) == (r == 0)
            &&& flag_set(execute_spec(m, d).p, FlagPosition::Negative) == negative(r)
        },
{
    broadcast use lemma_set_zn;

    match d.instruction.mnemonic() {
        Mnemonic::Adc => {},
        Mnemonic::And => {},
        Mnemonic::Asl => {},
        Mnemonic::Bcc => {},
        Mnemonic::Bcs => {},
        Mnemonic::Beq => {},
        Mnemonic::Bit => {},
        Mnemonic::Bmi => {},
        Mnemonic::Bne => {},
        Mnemonic::Bpl => {},
        Mnemonic::Brk => {},
        Mnemonic::Bvc => {},
        Mnemonic::Bvs => {},
        Mnemonic::Clc => {},
        Mnemonic::Cld => {},
        Mnemonic::Cli => {},
        Mnemonic::Clv => {},
        Mnemonic::Cmp => lemma_compare_flags(m, m.a, operand_of(m, d).0),
        Mnemonic::Cpx => lemma_compare_flags(m, m.x, operand_of(m, d).0),
        Mnemonic::Cpy => lemma_compare_flags(m, m.y, operand_of(m, d).0),
        Mnemonic::Dec => {},
        Mnemonic::Dex => {},
        Mnemonic::Dey => {},
        Mnemonic::Eor => {},
        Mnemonic::Inc => {},
        Mnemonic::Inx => {},
        Mnemonic::Iny => {},
        Mnemonic::Jmp => {},
        Mnemonic::JmpIndirect => {},
        Mnemonic::Jsr => {},
        Mnemonic::Lda => {},
        Mnemonic::Ldx => {},
        Mnemonic::Ldy => {},
        Mnemonic::Lsr => {},
        Mnemonic::Nop => {},
        Mnemonic::Ora => {},
        Mnemonic::Pha => {},
        Mnemonic::Php => {},
        Mnemonic::Pla => {},
        Mnemonic::Plp => {},
        Mnemonic::Rol => {},
        Mnemonic::Ror => {},
        Mnemonic::Rti => {},
        Mnemonic::Rts => {},
        Mnemonic::Sbc => {},
        Mnemonic::Sec => {},
        Mnemonic::Sed => {},
        Mnemonic::Sei => {},
        Mnemonic::Sta => {},
        Mnemonic::Stx => {},
        Mnemonic::Sty => {},
        Mnemonic::Tax => {},
        Mnemonic::Tay => {},
        Mnemonic::Tsx => {},
        Mnemonic::Txa => {},
        Mnemonic::Txs => {},
        Mnemonic::Tya => {},
    }
}

/// The state after one step, or `m` itself when the opcode at PC is unknown.
pub open spec fn next(m: Machine) -> Machine {
    match step_spec(m) {
        Ok(n) => n,
        Err(_) => m,
    }
}

/// Every step leaves S within 0..=0xFF, PC within 0..=0xFFFF and every register a byte.
pub proof fn lemma_step_registers_in_range(m: Machine)
    ensures
        step_spec(m) matches Ok(n) ==> {
            &&& 0 <= n.s <= 0xFF
            &&& 0 <= n.pc <= 0xFFFF
            &&& 0 <= n.a <= 0xFF
            &&& 0 <= n.x <= 0xFF
            &&& 0 <= n.y <= 0xFF
            &&& 0 <= n.p <= 0xFF
        },
{
}

proof fn lemma_stack_pointer_wraps(s: u8)
    ensures
        wrap8(wrap8(s - 1) + 1) == s,
        wrap8(wrap8(wrap8(s - 1) - 1) + 1) == wrap8(s - 1),
        wrap8(wrap8(wrap8(wrap8(s - 1) - 1) - 1) + 1) == wrap8(wrap8(s - 1) - 1),
        wrap8(s - 1) != s,
        wrap8(wrap8(s - 1) - 1) != s,
        wrap8(wrap8(s - 1) - 1) != wrap8(s - 1),
{
}

/// PHA followed by PLA gives back A, X, Y and S; PLA sets Zero and Negative from A and
/// leaves the other flags as they were. The stack slot must be mapped to memory.
pub proof fn lemma_pha_pla(m: Machine)
    requires
        read(m, m.pc as int) == 0x48,
        m.mem.dom().contains(stack_address(m.s)),
        read(next(m), next(m).pc as int) == 0x68,
    ensures
        step_spec(m) is Ok,
        step_spec(next(m)) is Ok,
        next(next(m)).a == m.a,
        next(next(m)).x == m.x,
        next(next(m)).y == m.y,
        next(next(m)).s == m.s,
        next(next(m)).p == set_zn(m.p, m.a),
{
    lemma_stack_pointer_wraps(m.s);
}

/// PHP followed by PLP restores the status byte exactly, and S; A, X and Y are untouched.
/// The stack slot must be mapped to memory.
pub proof fn lemma_php_plp(m: Machine)
    requires
        read(m, m.pc as int) == 0x08,
        m.mem.dom().contains(stack_address(m.s)),
        read(next(m), next(m).pc as int) == 0x28,
    ensures
        step_spec(m) is Ok,
        step_spec(next(m)) is Ok,
        next(next(m)).p == m.p,
        next(next(m)).a == m.a,
        next(next(m)).x == m.x,
        next(next(m)).y == m.y,
        next(next(m)).s == m.s,
{
    lemma_stack_pointer_wraps(m.s);
}

proof fn lemma_word_split(v: u16)
    ensures
        word((v % 0x100) as u8, (v / 0x100) as u8) == v,
{
}

proof fn lemma_jsr_then_rts(m: Machine, target: u16)
    requires
        m.mem.dom().contains(stack_address(m.s)),
        m.mem.dom().contains(stack_address(wrap8(m.s - 1))),
    ensures
        rts_spec(jsr_spec(m, target)).pc == wrap16(m.pc + 3),
        rts_spec(jsr_spec(m, target)).s == m.s,
{
    lemma_stack_pointer_wraps(m.s);
    let ret = wrap16(m.pc + 2);
    let m1 = jsr_spec(m, target);
    assert(m1.s == wrap8(wrap8(m.s - 1) - 1));
    assert(read(m1, stack_address(m.s) as int) == (ret / 0x100) as u8);
    assert(read(m1, stack_address(wrap8(m.s - 1)) as int) == (ret % 0x100) as u8);
    assert(popped_word(m1) == word((ret % 0x100) as u8, (ret / 0x100) as u8));
    lemma_word_split(ret);
    assert(wrap16(ret + 1) == wrap16(m.pc + 3));
}

/// JSR followed by RTS at its target continues at the instruction after the JSR, with S,
/// A, X, Y and the status byte as before. The two stack slots must be mapped to memory.
pub proof fn lemma_jsr_rts(m: Machine)
    requires
        read(m, m.pc as int) == 0x20,
        m.mem.dom().contains(stack_address(m.s)),
        m.mem.dom().contains(stack_address(wrap8(m.s - 1))),
        read(next(m), next(m).pc as int) == 0x60,
    ensures
        step_spec(m) is Ok,
        step_spec(next(m)) is Ok,
        next(next(m)).pc == wrap16(m.pc + 3),
        next(next(m)).s == m.s,
        next(next(m)).a == m.a,
        next(next(m)).x == m.x,
        next(next(m)).y == m.y,
        next(next(m)).p == m.p,
{
    let target = word(read(m, wrap16(m.pc + 1) as int), read(m, wrap16(m.pc + 2) as int));
    assert(next(m) == jsr_spec(m, target));
    assert(next(next(m)) == rts_spec(next(m)));
    lemma_jsr_then_rts(m, target);
}

/// BRK followed by RTI at the interrupt vector's target returns to the BRK's address with
/// S, A, X and Y as before and the status byte that BRK pushed: the old one with
/// interrupts disabled. The three stack slots must be mapped to memory.
pub proof fn lemma_brk_rti(m: Machine)
    requires
        read(m, m.pc as int) == 0x00,
        m.mem.dom().contains(stack_address(m.s)),
        m.mem.dom().contains(stack_address(wrap8(m.s - 1))),
        m.mem.dom().contains(stack_address(wrap8(wrap8(m.s - 1) - 1))),
        read(next(m), next(m).pc as int) == 0x40,
    ensures
        step_spec(m) is Ok,
        step_spec(next(m)) is Ok,
        next(next(m)).pc == m.pc,
        next(next(m)).s == m.s,
        next(next(m)).a == m.a,
        next(next(m)).x == m.x,
        next(next(m)).y == m.y,
        next(next(m)).p == with_flag(m.p, FlagPosition::IrqDisable, true),
{
    lemma_stack_pointer_wraps(m.s);
}

/// In binary mode the carry out of ADC is set exactly when A + M + C exceeds 0xFF.
pub proof fn lemma_adc_binary_carry(m: Machine, v: u8)
    requires
        !flag_set(m.p, FlagPosition::DecimalMode),
    ensures
        flag_set(adc_spec(m, v).p, FlagPosition::Carry) == (m.a + v + carry_in(m.p) > 0xFF),
{
    broadcast use lemma_bit_after_write;

}

/// The (n,X) mode reads its pointer from the zero page at (n + X) mod 256, low byte first
/// and high byte from the next zero-page address, and the operand from that pointer.
pub proof fn lemma_x_indexed_indirect_address(m: Machine, n: u8)
    ensures
        operand_spec(m, Argument::Byte(n), AddressingType::XIndexedZeroIndirect) == Ok::<
            FetchOperandResult,
            DecodeError,
        >(
            FetchOperandResult(
                read(m, read_word(m, wrap8(n + m.x) as int, wrap8(wrap8(n + m.x) + 1) as int) as int),
                Some(read_word(m, wrap8(n + m.x) as int, wrap8(wrap8(n + m.x) + 1) as int)),
            ),
        ),
{
}

} // verus!
