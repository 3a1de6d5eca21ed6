use vstd::prelude::*;

use crate::instruction::{AddressingType, Instruction};

verus! {

/// How many operand bytes follow an opcode.
#[derive(Clone, Copy, Debug, PartialEq, Eq, Structural)]
pub enum ArgumentType {
    /// No operand byte: the instruction is one byte long.
    Void,
    /// One operand byte: the instruction is two bytes long.
    Byte,
    /// A little-endian address in two bytes: the instruction is three bytes long.
    Addr,
}

impl ArgumentType {
    pub open spec fn spec_instruction_len(self) -> u16 {
        match self {
            ArgumentType::Void => 1,
            ArgumentType::Byte => 2,
            ArgumentType::Addr => 3,
        }
    }

    /// The length in bytes of an instruction whose operand has this shape.
    #[verifier::when_used_as_spec(spec_instruction_len)]
    pub fn instruction_len(self) -> (r: u16)
        ensures
            r == self.spec_instruction_len(),
    {
        match self {
            ArgumentType::Void => 1,
            ArgumentType::Byte => 2,
            ArgumentType::Addr => 3,
        }
    }
}

pub open spec fn spec_argument_type(instr: Instruction) -> ArgumentType {
    match instr.addressing() {
        None => ArgumentType::Void,
        Some(AddressingType::Absolute) => ArgumentType::Addr,
        Some(AddressingType::XIndexedAbsolute) => ArgumentType::Addr,
        Some(AddressingType::YIndexedAbsolute) => ArgumentType::Addr,
        Some(_) => ArgumentType::Byte,
    }
}

/// The operand shape of `instr`, fixed by its addressing mode.
#[verifier::when_used_as_spec(spec_argument_type)]
pub fn argument_type(instr: Instruction) -> (r: ArgumentType)
    ensures
        r == spec_argument_type(instr),
{
    match instr.addressing() {
        None => ArgumentType::Void,
        Some(AddressingType::Absolute) => ArgumentType::Addr,
        Some(AddressingType::XIndexedAbsolute) => ArgumentType::Addr,
        Some(AddressingType::YIndexedAbsolute) => ArgumentType::Addr,
        Some(_) => ArgumentType::Byte,
    }
}

} // verus!
