use vstd::prelude::*;

verus! {

/// How an instruction finds the byte it works on.
#[derive(Clone, Copy, Debug, PartialEq, Eq, Hash, Structural)]
pub enum AddressingType {
    XIndexedZeroIndirect,
    ZeroPage,
    Immediate,
    Absolute,
    ZeroIndirectIndexed,
    XIndexedZero,
    YIndexedZero,
    XIndexedAbsolute,
    YIndexedAbsolute,
}

/// The operation of an instruction, whatever its addressing mode.
#[derive(Clone, Copy, Debug, PartialEq, Eq, Hash, Structural)]
pub enum Mnemonic {
    Adc,
    And,
    Asl,
    Bcc,
    Bcs,
    Beq,
    Bit,
    Bmi,
    Bne,
    Bpl,
    Brk,
    Bvc,
    Bvs,
    Clc,
    Cld,
    Cli,
    Clv,
    Cmp,
    Cpx,
    Cpy,
    Dec,
    Dex,
    Dey,
    Eor,
    Inc,
    Inx,
    Iny,
    Jmp,
    JmpIndirect,
    Jsr,
    Lda,
    Ldx,
    Ldy,
    Lsr,
    Nop,
    Ora,
    Pha,
    Php,
    Pla,
    Plp,
    Rol,
    Ror,
    Rti,
    Rts,
    Sbc,
    Sec,
    Sed,
    Sei,
    Sta,
    Stx,
    Sty,
    Tax,
    Tay,
    Tsx,
    Txa,
    Txs,
    Tya,
}

/// Every opcode of the instruction set: one variant for each pair of operation and
/// addressing mode.
#[derive(Clone, Copy, Debug, PartialEq, Eq, Hash, Structural)]
pub enum Instruction {
    AdcXIndexedZeroIndirect,
    AdcZeroPage,
    AdcImmediate,
    AdcAbsolute,
    AdcZeroIndirectIndexed,
    AdcXIndexedZero,
    AdcYIndexedAbsolute,
    AdcXIndexedAbsolute,

    AndXIndexedZeroIndirect,
    AndZeroPage,
    AndImmediate,
    AndAbsolute,
    AndZeroIndirectIndexed,
    AndXIndexedZero,
    AndYIndexedAbsolute,
    AndXIndexedAbsolute,

    AslZeroPage,
    AslAccumulator,
    AslAbsolute,
    AslXIndexedZero,
    AslXIndexedAbsolute,

    Bcc,

    Bcs,

    Beq,

    BitZeroPage,
    BitAbsolute,

    Bmi,

    Bne,

    Bpl,

    Brk,

    Bvc,

    Bvs,

    Clc,

    Cld,

    Cli,

    Clv,

    CmpXIndexedZeroIndirect,
    CmpZeroPage,
    CmpImmediate,
    CmpAbsolute,
    CmpZeroIndirectIndexed,
    CmpXIndexedZero,
    CmpYIndexedAbsolute,
    CmpXIndexedAbsolute,

    CpxImmediate,
    CpxZeroPage,
    CpxAbsolute,

    CpyImmediate,
    CpyZeroPage,
    CpyAbsolute,

    DecZeroPage,
    DecAbsolute,
    DecXIndexedZero,
    DecXIndexedAbsolute,

    Dex,

    Dey,

    EorXIndexedZeroIndirect,
    EorZeroPage,
    EorImmediate,
    EorAbsolute,
    EorZeroIndirectIndexed,
    EorXIndexedZero,
    EorYIndexedAbsolute,
    EorXIndexedAbsolute,

    IncZeroPage,
    IncAbsolute,
    IncXIndexedZero,
    IncXIndexedAbsolute,

    Inx,

    Iny,

    Jmp,

    JmpIndirect,

    Jsr,

    LdaXIndexedZeroIndirect,
    LdaZeroPage,
    LdaImmediate,
    LdaAbsolute,
    LdaZeroIndirectIndexed,
    LdaXIndexedZero,
    LdaYIndexedAbsolute,
    LdaXIndexedAbsolute,

    LdxImmediate,
    LdxZeroPage,
    LdxAbsolute,
    LdxYIndexedZero,
    LdxYIndexedAbsolute,

    LdyImmediate,
    LdyZeroPage,
    LdyAbsolute,
    LdyXIndexedZero,
    LdyXIndexedAbsolute,

    LsrZeroPage,
    LsrAccumulator,
    LsrAbsolute,
    LsrXIndexedZero,
    LsrXIndexedAbsolute,

    Nop,

    OraXIndexedZeroIndirect,
    OraZeroPage,
    OraImmediate,
    OraAbsolute,
    OraZeroIndirectIndexed,
    OraXIndexedZero,
    OraYIndexedAbsolute,
    OraXIndexedAbsolute,

    Pha,

    Php,

    Pla,

    Plp,

    RolZeroPage,
    RolAccumulator,
    RolAbsolute,
    RolXIndexedZero,
    RolXIndexedAbsolute,

    RorZeroPage,
    RorAccumulator,
    RorAbsolute,
    RorXIndexedZero,
    RorXIndexedAbsolute,

    Rti,

    Rts,

    SbcXIndexedZeroIndirect,
    SbcZeroPage,
    SbcImmediate,
    SbcAbsolute,
    SbcZeroIndirectIndexed,
    SbcXIndexedZero,
    SbcYIndexedAbsolute,
    SbcXIndexedAbsolute,

    Sec,

    Sed,

    Sei,

    StaXIndexedZeroIndirect,
    StaZeroPage,
    StaAbsolute,
    StaZeroIndirectIndexed,
    StaXIndexedZero,
    StaYIndexedAbsolute,
    StaXIndexedAbsolute,

    StxZeroPage,
    StxAbsolute,
    StxYIndexedZero,

    StyZeroPage,
    StyAbsolute,
    StyXIndexedZero,

    Tax,

    Tay,

    Tsx,

    Txa,

    Txs,

    Tya,
}

impl Instruction {
    pub open spec fn spec_from_byte(value: u8) -> Option<Instruction> {
        match value {
            0x00 => Some(Instruction::Brk),
            0x01 => Some(Instruction::OraXIndexedZeroIndirect),
            0x05 => Some(Instruction::OraZeroPage),
            0x06 => Some(Instruction::AslZeroPage),
            0x08 => Some(Instruction::Php),
            0x09 => Some(Instruction::OraImmediate),
            0x0A => Some(Instruction::AslAccumulator),
            0x0D => Some(Instruction::OraAbsolute),
            0x0E => Some(Instruction::AslAbsolute),
            0x10 => Some(Instruction::Bpl),
            0x11 => Some(Instruction::OraZeroIndirectIndexed),
            0x15 => Some(Instruction::OraXIndexedZero),
            0x16 => Some(Instruction::AslXIndexedZero),
            0x18 => Some(Instruction::Clc),
            0x19 => Some(Instruction::OraYIndexedAbsolute),
            0x1D => Some(Instruction::OraXIndexedAbsolute),
            0x1E => Some(Instruction::AslXIndexedAbsolute),
            0x20 => Some(Instruction::Jsr),
            0x21 => Some(Instruction::AndXIndexedZeroIndirect),
            0x24 => Some(Instruction::BitZeroPage),
            0x25 => Some(Instruction::AndZeroPage),
            0x26 => Some(Instruction::RolZeroPage),
            0x28 => Some(Instruction::Plp),
            0x29 => Some(Instruction::AndImmediate),
            0x2A => Some(Instruction::RolAccumulator),
            0x2C => Some(Instruction::BitAbsolute),
            0x2D => Some(Instruction::AndAbsolute),
            0x2E => Some(Instruction::RolAbsolute),
            0x30 => Some(Instruction::Bmi),
            0x31 => Some(Instruction::AndZeroIndirectIndexed),
            0x35 => Some(Instruction::AndXIndexedZero),
            0x36 => Some(Instruction::RolXIndexedZero),
            0x38 => Some(Instruction::Sec),
            0x39 => Some(Instruction::AndYIndexedAbsolute),
            0x3D => Some(Instruction::AndXIndexedAbsolute),
            0x3E => Some(Instruction::RolXIndexedAbsolute),
            0x40 => Some(Instruction::Rti),
            0x41 => Some(Instruction::EorXIndexedZeroIndirect),
            0x45 => Some(Instruction::EorZeroPage),
            0x46 => Some(Instruction::LsrZeroPage),
            0x48 => Some(Instruction::Pha),
            0x49 => Some(Instruction::EorImmediate),
            0x4A => Some(Instruction::LsrAccumulator),
            0x4C => Some(Instruction::Jmp),
            0x4D => Some(Instruction::EorAbsolute),
            0x4E => Some(Instruction::LsrAbsolute),
            0x50 => Some(Instruction::Bvc),
            0x51 => Some(Instruction::EorZeroIndirectIndexed),
            0x55 => Some(Instruction::EorXIndexedZero),
            0x56 => Some(Instruction::LsrXIndexedZero),
            0x58 => Some(Instruction::Cli),
            0x59 => Some(Instruction::EorYIndexedAbsolute),
            0x5D => Some(Instruction::EorXIndexedAbsolute),
            0x5E => Some(Instruction::LsrXIndexedAbsolute),
            0x60 => Some(Instruction::Rts),
            0x61 => Some(Instruction::AdcXIndexedZeroIndirect),
            0x65 => Some(Instruction::AdcZeroPage),
            0x66 => Some(Instruction::RorZeroPage),
            0x68 => Some(Instruction::Pla),
            0x69 => Some(Instruction::AdcImmediate),
            0x6A => Some(Instruction::RorAccumulator),
            0x6C => Some(Instruction::JmpIndirect),
            0x6D => Some(Instruction::AdcAbsolute),
            0x6E => Some(Instruction::RorAbsolute),
            0x70 => Some(Instruction::Bvs),
            0x71 => Some(Instruction::AdcZeroIndirectIndexed),
            0x75 => Some(Instruction::AdcXIndexedZero),
            0x76 => Some(Instruction::RorXIndexedZero),
            0x78 => Some(Instruction::Sei),
            0x79 => Some(Instruction::AdcYIndexedAbsolute),
            0x7D => Some(Instruction::AdcXIndexedAbsolute),
            0x7E => Some(Instruction::RorXIndexedAbsolute),
            0x81 => Some(Instruction::StaXIndexedZeroIndirect),
            0x84 => Some(Instruction::StyZeroPage),
            0x85 => Some(Instruction::StaZeroPage),
            0x86 => Some(Instruction::StxZeroPage),
            0x88 => Some(Instruction::Dey),
            0x8A => Some(Instruction::Txa),
            0x8C => Some(Instruction::StyAbsolute),
            0x8D => Some(Instruction::StaAbsolute),
            0x8E => Some(Instruction::StxAbsolute),
            0x90 => Some(Instruction::Bcc),
            0x91 => Some(Instruction::StaZeroIndirectIndexed),
            0x94 => Some(Instruction::StyXIndexedZero),
            0x95 => Some(Instruction::StaXIndexedZero),
            0x96 => Some(Instruction::StxYIndexedZero),
            0x98 => Some(Instruction::Tya),
            0x99 => Some(Instruction::StaYIndexedAbsolute),
            0x9A => Some(Instruction::Txs),
            0x9D => Some(Instruction::StaXIndexedAbsolute),
            0xA0 => Some(Instruction::LdyImmediate),
            0xA1 => Some(Instruction::LdaXIndexedZeroIndirect),
            0xA2 => Some(Instruction::LdxImmediate),
            0xA4 => Some(Instruction::LdyZeroPage),
            0xA5 => Some(Instruction::LdaZeroPage),
            0xA6 => Some(Instruction::LdxZeroPage),
            0xA8 => Some(Instruction::Tay),
            0xA9 => Some(Instruction::LdaImmediate),
            0xAA => Some(Instruction::Tax),
            0xAC => Some(Instruction::LdyAbsolute),
            0xAD => Some(Instruction::LdaAbsolute),
            0xAE => Some(Instruction::LdxAbsolute),
            0xB0 => Some(Instruction::Bcs),
            0xB1 => Some(Instruction::LdaZeroIndirectIndexed),
            0xB4 => Some(Instruction::LdyXIndexedZero),
            0xB5 => Some(Instruction::LdaXIndexedZero),
            0xB6 => Some(Instruction::LdxYIndexedZero),
            0xB8 => Some(Instruction::Clv),
            0xB9 => Some(Instruction::LdaYIndexedAbsolute),
            0xBA => Some(Instruction::Tsx),
            0xBC => Some(Instruction::LdyXIndexedAbsolute),
            0xBD => Some(Instruction::LdaXIndexedAbsolute),
            0xBE => Some(Instruction::LdxYIndexedAbsolute),
            0xC0 => Some(Instruction::CpyImmediate),
            0xC1 => Some(Instruction::CmpXIndexedZeroIndirect),
            0xC4 => Some(Instruction::CpyZeroPage),
            0xC5 => Some(Instruction::CmpZeroPage),
            0xC6 => Some(Instruction::DecZeroPage),
            0xC8 => Some(Instruction::Iny),
            0xC9 => Some(Instruction::CmpImmediate),
            0xCA => Some(Instruction::Dex),
            0xCC => Some(Instruction::CpyAbsolute),
            0xCD => Some(Instruction::CmpAbsolute),
            0xCE => Some(Instruction::DecAbsolute),
            0xD0 => Some(Instruction::Bne),
            0xD1 => Some(Instruction::CmpZeroIndirectIndexed),
            0xD5 => Some(Instruction::CmpXIndexedZero),
            0xD6 => Some(Instruction::DecXIndexedZero),
            0xD8 => Some(Instruction::Cld),
            0xD9 => Some(Instruction::CmpYIndexedAbsolute),
            0xDD => Some(Instruction::CmpXIndexedAbsolute),
            0xDE => Some(Instruction::DecXIndexedAbsolute),
            0xE0 => Some(Instruction::CpxImmediate),
            0xE1 => Some(Instruction::SbcXIndexedZeroIndirect),
            0xE4 => Some(Instruction::CpxZeroPage),
            0xE5 => Some(Instruction::SbcZeroPage),
            0xE6 => Some(Instruction::IncZeroPage),
            0xE8 => Some(Instruction::Inx),
            0xE9 => Some(Instruction::SbcImmediate),
            0xEA => Some(Instruction::Nop),
            0xEC => Some(Instruction::CpxAbsolute),
            0xED => Some(Instruction::SbcAbsolute),
            0xEE => Some(Instruction::IncAbsolute),
            0xF0 => Some(Instruction::Beq),
            0xF1 => Some(Instruction::SbcZeroIndirectIndexed),
            0xF5 => Some(Instruction::SbcXIndexedZero),
            0xF6 => Some(Instruction::IncXIndexedZero),
            0xF8 => Some(Instruction::Sed),
            0xF9 => Some(Instruction::SbcYIndexedAbsolute),
            0xFD => Some(Instruction::SbcXIndexedAbsolute),
            0xFE => Some(Instruction::IncXIndexedAbsolute),
            _ => None,
        }
    }

    /// The instruction whose opcode is `value`, if there is one.
    #[verifier::when_used_as_spec(spec_from_byte)]
    pub fn from_byte(value: u8) -> (r: Option<Instruction>)
        ensures
            r == Self::spec_from_byte(value),
            r matches Some(i) ==> i.to_byte() == value,
    {
        match value {
            0x00 => Some(Instruction::Brk),
            0x01 => Some(Instruction::OraXIndexedZeroIndirect),
            0x05 => Some(Instruction::OraZeroPage),
            0x06 => Some(Instruction::AslZeroPage),
            0x08 => Some(Instruction::Php),
            0x09 => Some(Instruction::OraImmediate),
            0x0A => Some(Instruction::AslAccumulator),
            0x0D => Some(Instruction::OraAbsolute),
            0x0E => Some(Instruction::AslAbsolute),
            0x10 => Some(Instruction::Bpl),
            0x11 => Some(Instruction::OraZeroIndirectIndexed),
            0x15 => Some(Instruction::OraXIndexedZero),
            0x16 => Some(Instruction::AslXIndexedZero),
            0x18 => Some(Instruction::Clc),
            0x19 => Some(Instruction::OraYIndexedAbsolute),
            0x1D => Some(Instruction::OraXIndexedAbsolute),
            0x1E => Some(Instruction::AslXIndexedAbsolute),
            0x20 => Some(Instruction::Jsr),
            0x21 => Some(Instruction::AndXIndexedZeroIndirect),
            0x24 => Some(Instruction::BitZeroPage),
            0x25 => Some(Instruction::AndZeroPage),
            0x26 => Some(Instruction::RolZeroPage),
            0x28 => Some(Instruction::Plp),
            0x29 => Some(Instruction::AndImmediate),
            0x2A => Some(Instruction::RolAccumulator),
            0x2C => Some(Instruction::BitAbsolute),
            0x2D => Some(Instruction::AndAbsolute),
            0x2E => Some(Instruction::RolAbsolute),
            0x30 => Some(Instruction::Bmi),
            0x31 => Some(Instruction::AndZeroIndirectIndexed),
            0x35 => Some(Instruction::AndXIndexedZero),
            0x36 => Some(Instruction::RolXIndexedZero),
            0x38 => Some(Instruction::Sec),
            0x39 => Some(Instruction::AndYIndexedAbsolute),
            0x3D => Some(Instruction::AndXIndexedAbsolute),
            0x3E => Some(Instruction::RolXIndexedAbsolute),
            0x40 => Some(Instruction::Rti),
            0x41 => Some(Instruction::EorXIndexedZeroIndirect),
            0x45 => Some(Instruction::EorZeroPage),
            0x46 => Some(Instruction::LsrZeroPage),
            0x48 => Some(Instruction::Pha),
            0x49 => Some(Instruction::EorImmediate),
            0x4A => Some(Instruction::LsrAccumulator),
            0x4C => Some(Instruction::Jmp),
            0x4D => Some(Instruction::EorAbsolute),
            0x4E => Some(Instruction::LsrAbsolute),
            0x50 => Some(Instruction::Bvc),
            0x51 => Some(Instruction::EorZeroIndirectIndexed),
            0x55 => Some(Instruction::EorXIndexedZero),
            0x56 => Some(Instruction::LsrXIndexedZero),
            0x58 => Some(Instruction::Cli),
            0x59 => Some(Instruction::EorYIndexedAbsolute),
            0x5D => Some(Instruction::EorXIndexedAbsolute),
            0x5E => Some(Instruction::LsrXIndexedAbsolute),
            0x60 => Some(Instruction::Rts),
            0x61 => Some(Instruction::AdcXIndexedZeroIndirect),
            0x65 => Some(Instruction::AdcZeroPage),
            0x66 => Some(Instruction::RorZeroPage),
            0x68 => Some(Instruction::Pla),
            0x69 => Some(Instruction::AdcImmediate),
            0x6A => Some(Instruction::RorAccumulator),
            0x6C => Some(Instruction::JmpIndirect),
            0x6D => Some(Instruction::AdcAbsolute),
            0x6E => Some(Instruction::RorAbsolute),
            0x70 => Some(Instruction::Bvs),
            0x71 => Some(Instruction::AdcZeroIndirectIndexed),
            0x75 => Some(Instruction::AdcXIndexedZero),
            0x76 => Some(Instruction::RorXIndexedZero),
            0x78 => Some(Instruction::Sei),
            0x79 => Some(Instruction::AdcYIndexedAbsolute),
            0x7D => Some(Instruction::AdcXIndexedAbsolute),
            0x7E => Some(Instruction::RorXIndexedAbsolute),
            0x81 => Some(Instruction::StaXIndexedZeroIndirect),
            0x84 => Some(Instruction::StyZeroPage),
            0x85 => Some(Instruction::StaZeroPage),
            0x86 => Some(Instruction::StxZeroPage),
            0x88 => Some(Instruction::Dey),
            0x8A => Some(Instruction::Txa),
            0x8C => Some(Instruction::StyAbsolute),
            0x8D => Some(Instruction::StaAbsolute),
            0x8E => Some(Instruction::StxAbsolute),
            0x90 => Some(Instruction::Bcc),
            0x91 => Some(Instruction::StaZeroIndirectIndexed),
            0x94 => Some(Instruction::StyXIndexedZero),
            0x95 => Some(Instruction::StaXIndexedZero),
            0x96 => Some(Instruction::StxYIndexedZero),
            0x98 => Some(Instruction::Tya),
            0x99 => Some(Instruction::StaYIndexedAbsolute),
            0x9A => Some(Instruction::Txs),
            0x9D => Some(Instruction::StaXIndexedAbsolute),
            0xA0 => Some(Instruction::LdyImmediate),
            0xA1 => Some(Instruction::LdaXIndexedZeroIndirect),
            0xA2 => Some(Instruction::LdxImmediate),
            0xA4 => Some(Instruction::LdyZeroPage),
            0xA5 => Some(Instruction::LdaZeroPage),
            0xA6 => Some(Instruction::LdxZeroPage),
            0xA8 => Some(Instruction::Tay),
            0xA9 => Some(Instruction::LdaImmediate),
            0xAA => Some(Instruction::Tax),
            0xAC => Some(Instruction::LdyAbsolute),
            0xAD => Some(Instruction::LdaAbsolute),
            0xAE => Some(Instruction::LdxAbsolute),
            0xB0 => Some(Instruction::Bcs),
            0xB1 => Some(Instruction::LdaZeroIndirectIndexed),
            0xB4 => Some(Instruction::LdyXIndexedZero),
            0xB5 => Some(Instruction::LdaXIndexedZero),
            0xB6 => Some(Instruction::LdxYIndexedZero),
            0xB8 => Some(Instruction::Clv),
            0xB9 => Some(Instruction::LdaYIndexedAbsolute),
            0xBA => Some(Instruction::Tsx),
            0xBC => Some(Instruction::LdyXIndexedAbsolute),
            0xBD => Some(Instruction::LdaXIndexedAbsolute),
            0xBE => Some(Instruction::LdxYIndexedAbsolute),
            0xC0 => Some(Instruction::CpyImmediate),
            0xC1 => Some(Instruction::CmpXIndexedZeroIndirect),
            0xC4 => Some(Instruction::CpyZeroPage),
            0xC5 => Some(Instruction::CmpZeroPage),
            0xC6 => Some(Instruction::DecZeroPage),
            0xC8 => Some(Instruction::Iny),
            0xC9 => Some(Instruction::CmpImmediate),
            0xCA => Some(Instruction::Dex),
            0xCC => Some(Instruction::CpyAbsolute),
            0xCD => Some(Instruction::CmpAbsolute),
            0xCE => Some(Instruction::DecAbsolute),
            0xD0 => Some(Instruction::Bne),
            0xD1 => Some(Instruction::CmpZeroIndirectIndexed),
            0xD5 => Some(Instruction::CmpXIndexedZero),
            0xD6 => Some(Instruction::DecXIndexedZero),
            0xD8 => Some(Instruction::Cld),
            0xD9 => Some(Instruction::CmpYIndexedAbsolute),
            0xDD => Some(Instruction::CmpXIndexedAbsolute),
            0xDE => Some(Instruction::DecXIndexedAbsolute),
            0xE0 => Some(Instruction::CpxImmediate),
            0xE1 => Some(Instruction::SbcXIndexedZeroIndirect),
            0xE4 => Some(Instruction::CpxZeroPage),
            0xE5 => Some(Instruction::SbcZeroPage),
            0xE6 => Some(Instruction::IncZeroPage),
            0xE8 => Some(Instruction::Inx),
            0xE9 => Some(Instruction::SbcImmediate),
            0xEA => Some(Instruction::Nop),
            0xEC => Some(Instruction::CpxAbsolute),
            0xED => Some(Instruction::SbcAbsolute),
            0xEE => Some(Instruction::IncAbsolute),
            0xF0 => Some(Instruction::Beq),
            0xF1 => Some(Instruction::SbcZeroIndirectIndexed),
            0xF5 => Some(Instruction::SbcXIndexedZero),
            0xF6 => Some(Instruction::IncXIndexedZero),
            0xF8 => Some(Instruction::Sed),
            0xF9 => Some(Instruction::SbcYIndexedAbsolute),
            0xFD => Some(Instruction::SbcXIndexedAbsolute),
            0xFE => Some(Instruction::IncXIndexedAbsolute),
            _ => None,
        }
    }

    pub open spec fn spec_to_byte(self) -> u8 {
        match self {
            Instruction::AdcXIndexedZeroIndirect => 0x61,
            Instruction::AdcZeroPage => 0x65,
            Instruction::AdcImmediate => 0x69,
            Instruction::AdcAbsolute => 0x6D,
            Instruction::AdcZeroIndirectIndexed => 0x71,
            Instruction::AdcXIndexedZero => 0x75,
            Instruction::AdcYIndexedAbsolute => 0x79,
            Instruction::AdcXIndexedAbsolute => 0x7D,
            Instruction::AndXIndexedZeroIndirect => 0x21,
            Instruction::AndZeroPage => 0x25,
            Instruction::AndImmediate => 0x29,
            Instruction::AndAbsolute => 0x2D,
            Instruction::AndZeroIndirectIndexed => 0x31,
            Instruction::AndXIndexedZero => 0x35,
            Instruction::AndYIndexedAbsolute => 0x39,
            Instruction::AndXIndexedAbsolute => 0x3D,
            Instruction::AslZeroPage => 0x06,
            Instruction::AslAccumulator => 0x0A,
            Instruction::AslAbsolute => 0x0E,
            Instruction::AslXIndexedZero => 0x16,
            Instruction::AslXIndexedAbsolute => 0x1E,
            Instruction::Bcc => 0x90,
            Instruction::Bcs => 0xB0,
            Instruction::Beq => 0xF0,
            Instruction::BitZeroPage => 0x24,
            Instruction::BitAbsolute => 0x2C,
            Instruction::Bmi => 0x30,
            Instruction::Bne => 0xD0,
            Instruction::Bpl => 0x10,
            Instruction::Brk => 0x00,
            Instruction::Bvc => 0x50,
            Instruction::Bvs => 0x70,
            Instruction::Clc => 0x18,
            Instruction::Cld => 0xD8,
            Instruction::Cli => 0x58,
            Instruction::Clv => 0xB8,
            Instruction::CmpXIndexedZeroIndirect => 0xC1,
            Instruction::CmpZeroPage => 0xC5,
            Instruction::CmpImmediate => 0xC9,
            Instruction::CmpAbsolute => 0xCD,
            Instruction::CmpZeroIndirectIndexed => 0xD1,
            Instruction::CmpXIndexedZero => 0xD5,
            Instruction::CmpYIndexedAbsolute => 0xD9,
            Instruction::CmpXIndexedAbsolute => 0xDD,
            Instruction::CpxImmediate => 0xE0,
            Instruction::CpxZeroPage => 0xE4,
            Instruction::CpxAbsolute => 0xEC,
            Instruction::CpyImmediate => 0xC0,
            Instruction::CpyZeroPage => 0xC4,
            Instruction::CpyAbsolute => 0xCC,
            Instruction::DecZeroPage => 0xC6,
            Instruction::DecAbsolute => 0xCE,
            Instruction::DecXIndexedZero => 0xD6,
            Instruction::DecXIndexedAbsolute => 0xDE,
            Instruction::Dex => 0xCA,
            Instruction::Dey => 0x88,
            Instruction::EorXIndexedZeroIndirect => 0x41,
            Instruction::EorZeroPage => 0x45,
            Instruction::EorImmediate => 0x49,
            Instruction::EorAbsolute => 0x4D,
            Instruction::EorZeroIndirectIndexed => 0x51,
            Instruction::EorXIndexedZero => 0x55,
            Instruction::EorYIndexedAbsolute => 0x59,
            Instruction::EorXIndexedAbsolute => 0x5D,
            Instruction::IncZeroPage => 0xE6,
            Instruction::IncAbsolute => 0xEE,
            Instruction::IncXIndexedZero => 0xF6,
            Instruction::IncXIndexedAbsolute => 0xFE,
            Instruction::Inx => 0xE8,
            Instruction::Iny => 0xC8,
            Instruction::Jmp => 0x4C,
            Instruction::JmpIndirect => 0x6C,
            Instruction::Jsr => 0x20,
            Instruction::LdaXIndexedZeroIndirect => 0xA1,
            Instruction::LdaZeroPage => 0xA5,
            Instruction::LdaImmediate => 0xA9,
            Instruction::LdaAbsolute => 0xAD,
            Instruction::LdaZeroIndirectIndexed => 0xB1,
            Instruction::LdaXIndexedZero => 0xB5,
            Instruction::LdaYIndexedAbsolute => 0xB9,
            Instruction::LdaXIndexedAbsolute => 0xBD,
            Instruction::LdxImmediate => 0xA2,
            Instruction::LdxZeroPage => 0xA6,
            Instruction::LdxAbsolute => 0xAE,
            Instruction::LdxYIndexedZero => 0xB6,
            Instruction::LdxYIndexedAbsolute => 0xBE,
            Instruction::LdyImmediate => 0xA0,
            Instruction::LdyZeroPage => 0xA4,
            Instruction::LdyAbsolute => 0xAC,
            Instruction::LdyXIndexedZero => 0xB4,
            Instruction::LdyXIndexedAbsolute => 0xBC,
            Instruction::LsrZeroPage => 0x46,
            Instruction::LsrAccumulator => 0x4A,
            Instruction::LsrAbsolute => 0x4E,
            Instruction::LsrXIndexedZero => 0x56,
            Instruction::LsrXIndexedAbsolute => 0x5E,
            Instruction::Nop => 0xEA,
            Instruction::OraXIndexedZeroIndirect => 0x01,
            Instruction::OraZeroPage => 0x05,
            Instruction::OraImmediate => 0x09,
            Instruction::OraAbsolute => 0x0D,
            Instruction::OraZeroIndirectIndexed => 0x11,
            Instruction::OraXIndexedZero => 0x15,
            Instruction::OraYIndexedAbsolute => 0x19,
            Instruction::OraXIndexedAbsolute => 0x1D,
            Instruction::Pha => 0x48,
            Instruction::Php => 0x08,
            Instruction::Pla => 0x68,
            Instruction::Plp => 0x28,
            Instruction::RolZeroPage => 0x26,
            Instruction::RolAccumulator => 0x2A,
            Instruction::RolAbsolute => 0x2E,
            Instruction::RolXIndexedZero => 0x36,
            Instruction::RolXIndexedAbsolute => 0x3E,
            Instruction::RorZeroPage => 0x66,
            Instruction::RorAccumulator => 0x6A,
            Instruction::RorAbsolute => 0x6E,
            Instruction::RorXIndexedZero => 0x76,
            Instruction::RorXIndexedAbsolute => 0x7E,
            Instruction::Rti => 0x40,
            Instruction::Rts => 0x60,
            Instruction::SbcXIndexedZeroIndirect => 0xE1,
            Instruction::SbcZeroPage => 0xE5,
            Instruction::SbcImmediate => 0xE9,
            Instruction::SbcAbsolute => 0xED,
            Instruction::SbcZeroIndirectIndexed => 0xF1,
            Instruction::SbcXIndexedZero => 0xF5,
            Instruction::SbcYIndexedAbsolute => 0xF9,
            Instruction::SbcXIndexedAbsolute => 0xFD,
            Instruction::Sec => 0x38,
            Instruction::Sed => 0xF8,
            Instruction::Sei => 0x78,
            Instruction::StaXIndexedZeroIndirect => 0x81,
            Instruction::StaZeroPage => 0x85,
            Instruction::StaAbsolute => 0x8D,
            Instruction::StaZeroIndirectIndexed => 0x91,
            Instruction::StaXIndexedZero => 0x95,
            Instruction::StaYIndexedAbsolute => 0x99,
            Instruction::StaXIndexedAbsolute => 0x9D,
            Instruction::StxZeroPage => 0x86,
            Instruction::StxAbsolute => 0x8E,
            Instruction::StxYIndexedZero => 0x96,
            Instruction::StyZeroPage => 0x84,
            Instruction::StyAbsolute => 0x8C,
            Instruction::StyXIndexedZero => 0x94,
            Instruction::Tax => 0xAA,
            Instruction::Tay => 0xA8,
            Instruction::Tsx => 0xBA,
            Instruction::Txa => 0x8A,
            Instruction::Txs => 0x9A,
            Instruction::Tya => 0x98,
        }
    }

    /// The opcode of this instruction.
    #[verifier::when_used_as_spec(spec_to_byte)]
    pub fn to_byte(self) -> (r: u8)
        ensures
            r == self.spec_to_byte(),
            Self::spec_from_byte(r) == Some(self),
    {
        match self {
            Instruction::AdcXIndexedZeroIndirect => 0x61,
            Instruction::AdcZeroPage => 0x65,
            Instruction::AdcImmediate => 0x69,
            Instruction::AdcAbsolute => 0x6D,
            Instruction::AdcZeroIndirectIndexed => 0x71,
            Instruction::AdcXIndexedZero => 0x75,
            Instruction::AdcYIndexedAbsolute => 0x79,
            Instruction::AdcXIndexedAbsolute => 0x7D,
            Instruction::AndXIndexedZeroIndirect => 0x21,
            Instruction::AndZeroPage => 0x25,
            Instruction::AndImmediate => 0x29,
            Instruction::AndAbsolute => 0x2D,
            Instruction::AndZeroIndirectIndexed => 0x31,
            Instruction::AndXIndexedZero => 0x35,
            Instruction::AndYIndexedAbsolute => 0x39,
            Instruction::AndXIndexedAbsolute => 0x3D,
            Instruction::AslZeroPage => 0x06,
            Instruction::AslAccumulator => 0x0A,
            Instruction::AslAbsolute => 0x0E,
            Instruction::AslXIndexedZero => 0x16,
            Instruction::AslXIndexedAbsolute => 0x1E,
            Instruction::Bcc => 0x90,
            Instruction::Bcs => 0xB0,
            Instruction::Beq => 0xF0,
            Instruction::BitZeroPage => 0x24,
            Instruction::BitAbsolute => 0x2C,
            Instruction::Bmi => 0x30,
            Instruction::Bne => 0xD0,
            Instruction::Bpl => 0x10,
            Instruction::Brk => 0x00,
            Instruction::Bvc => 0x50,
            Instruction::Bvs => 0x70,
            Instruction::Clc => 0x18,
            Instruction::Cld => 0xD8,
            Instruction::Cli => 0x58,
            Instruction::Clv => 0xB8,
            Instruction::CmpXIndexedZeroIndirect => 0xC1,
            Instruction::CmpZeroPage => 0xC5,
            Instruction::CmpImmediate => 0xC9,
            Instruction::CmpAbsolute => 0xCD,
            Instruction::CmpZeroIndirectIndexed => 0xD1,
            Instruction::CmpXIndexedZero => 0xD5,
            Instruction::CmpYIndexedAbsolute => 0xD9,
            Instruction::CmpXIndexedAbsolute => 0xDD,
            Instruction::CpxImmediate => 0xE0,
            Instruction::CpxZeroPage => 0xE4,
            Instruction::CpxAbsolute => 0xEC,
            Instruction::CpyImmediate => 0xC0,
            Instruction::CpyZeroPage => 0xC4,
            Instruction::CpyAbsolute => 0xCC,
            Instruction::DecZeroPage => 0xC6,
            Instruction::DecAbsolute => 0xCE,
            Instruction::DecXIndexedZero => 0xD6,
            Instruction::DecXIndexedAbsolute => 0xDE,
            Instruction::Dex => 0xCA,
            Instruction::Dey => 0x88,
            Instruction::EorXIndexedZeroIndirect => 0x41,
            Instruction::EorZeroPage => 0x45,
            Instruction::EorImmediate => 0x49,
            Instruction::EorAbsolute => 0x4D,
            Instruction::EorZeroIndirectIndexed => 0x51,
            Instruction::EorXIndexedZero => 0x55,
            Instruction::EorYIndexedAbsolute => 0x59,
            Instruction::EorXIndexedAbsolute => 0x5D,
            Instruction::IncZeroPage => 0xE6,
            Instruction::IncAbsolute => 0xEE,
            Instruction::IncXIndexedZero => 0xF6,
            Instruction::IncXIndexedAbsolute => 0xFE,
            Instruction::Inx => 0xE8,
            Instruction::Iny => 0xC8,
            Instruction::Jmp => 0x4C,
            Instruction::JmpIndirect => 0x6C,
            Instruction::Jsr => 0x20,
            Instruction::LdaXIndexedZeroIndirect => 0xA1,
            Instruction::LdaZeroPage => 0xA5,
            Instruction::LdaImmediate => 0xA9,
            Instruction::LdaAbsolute => 0xAD,
            Instruction::LdaZeroIndirectIndexed => 0xB1,
            Instruction::LdaXIndexedZero => 0xB5,
            Instruction::LdaYIndexedAbsolute => 0xB9,
            Instruction::LdaXIndexedAbsolute => 0xBD,
            Instruction::LdxImmediate => 0xA2,
            Instruction::LdxZeroPage => 0xA6,
            Instruction::LdxAbsolute => 0xAE,
            Instruction::LdxYIndexedZero => 0xB6,
            Instruction::LdxYIndexedAbsolute => 0xBE,
            Instruction::LdyImmediate => 0xA0,
            Instruction::LdyZeroPage => 0xA4,
            Instruction::LdyAbsolute => 0xAC,
            Instruction::LdyXIndexedZero => 0xB4,
            Instruction::LdyXIndexedAbsolute => 0xBC,
            Instruction::LsrZeroPage => 0x46,
            Instruction::LsrAccumulator => 0x4A,
            Instruction::LsrAbsolute => 0x4E,
            Instruction::LsrXIndexedZero => 0x56,
            Instruction::LsrXIndexedAbsolute => 0x5E,
            Instruction::Nop => 0xEA,
            Instruction::OraXIndexedZeroIndirect => 0x01,
            Instruction::OraZeroPage => 0x05,
            Instruction::OraImmediate => 0x09,
            Instruction::OraAbsolute => 0x0D,
            Instruction::OraZeroIndirectIndexed => 0x11,
            Instruction::OraXIndexedZero => 0x15,
            Instruction::OraYIndexedAbsolute => 0x19,
            Instruction::OraXIndexedAbsolute => 0x1D,
            Instruction::Pha => 0x48,
            Instruction::Php => 0x08,
            Instruction::Pla => 0x68,
            Instruction::Plp => 0x28,
            Instruction::RolZeroPage => 0x26,
            Instruction::RolAccumulator => 0x2A,
            Instruction::RolAbsolute => 0x2E,
            Instruction::RolXIndexedZero => 0x36,
            Instruction::RolXIndexedAbsolute => 0x3E,
            Instruction::RorZeroPage => 0x66,
            Instruction::RorAccumulator => 0x6A,
            Instruction::RorAbsolute => 0x6E,
            Instruction::RorXIndexedZero => 0x76,
            Instruction::RorXIndexedAbsolute => 0x7E,
            Instruction::Rti => 0x40,
            Instruction::Rts => 0x60,
            Instruction::SbcXIndexedZeroIndirect => 0xE1,
            Instruction::SbcZeroPage => 0xE5,
            Instruction::SbcImmediate => 0xE9,
            Instruction::SbcAbsolute => 0xED,
            Instruction::SbcZeroIndirectIndexed => 0xF1,
            Instruction::SbcXIndexedZero => 0xF5,
            Instruction::SbcYIndexedAbsolute => 0xF9,
            Instruction::SbcXIndexedAbsolute => 0xFD,
            Instruction::Sec => 0x38,
            Instruction::Sed => 0xF8,
            Instruction::Sei => 0x78,
            Instruction::StaXIndexedZeroIndirect => 0x81,
            Instruction::StaZeroPage => 0x85,
            Instruction::StaAbsolute => 0x8D,
            Instruction::StaZeroIndirectIndexed => 0x91,
            Instruction::StaXIndexedZero => 0x95,
            Instruction::StaYIndexedAbsolute => 0x99,
            Instruction::StaXIndexedAbsolute => 0x9D,
            Instruction::StxZeroPage => 0x86,
            Instruction::StxAbsolute => 0x8E,
            Instruction::StxYIndexedZero => 0x96,
            Instruction::StyZeroPage => 0x84,
            Instruction::StyAbsolute => 0x8C,
            Instruction::StyXIndexedZero => 0x94,
            Instruction::Tax => 0xAA,
            Instruction::Tay => 0xA8,
            Instruction::Tsx => 0xBA,
            Instruction::Txa => 0x8A,
            Instruction::Txs => 0x9A,
            Instruction::Tya => 0x98,
        }
    }

    pub open spec fn spec_mnemonic(self) -> Mnemonic {
        match self {
            Instruction::AdcXIndexedZeroIndirect => Mnemonic::Adc,
            Instruction::AdcZeroPage => Mnemonic::Adc,
            Instruction::AdcImmediate => Mnemonic::Adc,
            Instruction::AdcAbsolute => Mnemonic::Adc,
            Instruction::AdcZeroIndirectIndexed => Mnemonic::Adc,
            Instruction::AdcXIndexedZero => Mnemonic::Adc,
            Instruction::AdcYIndexedAbsolute => Mnemonic::Adc,
            Instruction::AdcXIndexedAbsolute => Mnemonic::Adc,
            Instruction::AndXIndexedZeroIndirect => Mnemonic::And,
            Instruction::AndZeroPage => Mnemonic::And,
            Instruction::AndImmediate => Mnemonic::And,
            Instruction::AndAbsolute => Mnemonic::And,
            Instruction::AndZeroIndirectIndexed => Mnemonic::And,
            Instruction::AndXIndexedZero => Mnemonic::And,
            Instruction::AndYIndexedAbsolute => Mnemonic::And,
            Instruction::AndXIndexedAbsolute => Mnemonic::And,
            Instruction::AslZeroPage => Mnemonic::Asl,
            Instruction::AslAccumulator => Mnemonic::Asl,
            Instruction::AslAbsolute => Mnemonic::Asl,
            Instruction::AslXIndexedZero => Mnemonic::Asl,
            Instruction::AslXIndexedAbsolute => Mnemonic::Asl,
            Instruction::Bcc => Mnemonic::Bcc,
            Instruction::Bcs => Mnemonic::Bcs,
            Instruction::Beq => Mnemonic::Beq,
            Instruction::BitZeroPage => Mnemonic::Bit,
            Instruction::BitAbsolute => Mnemonic::Bit,
            Instruction::Bmi => Mnemonic::Bmi,
            Instruction::Bne => Mnemonic::Bne,
            Instruction::Bpl => Mnemonic::Bpl,
            Instruction::Brk => Mnemonic::Brk,
            Instruction::Bvc => Mnemonic::Bvc,
            Instruction::Bvs => Mnemonic::Bvs,
            Instruction::Clc => Mnemonic::Clc,
            Instruction::Cld => Mnemonic::Cld,
            Instruction::Cli => Mnemonic::Cli,
            Instruction::Clv => Mnemonic::Clv,
            Instruction::CmpXIndexedZeroIndirect => Mnemonic::Cmp,
            Instruction::CmpZeroPage => Mnemonic::Cmp,
            Instruction::CmpImmediate => Mnemonic::Cmp,
            Instruction::CmpAbsolute => Mnemonic::Cmp,
            Instruction::CmpZeroIndirectIndexed => Mnemonic::Cmp,
            Instruction::CmpXIndexedZero => Mnemonic::Cmp,
            Instruction::CmpYIndexedAbsolute => Mnemonic::Cmp,
            Instruction::CmpXIndexedAbsolute => Mnemonic::Cmp,
            Instruction::CpxImmediate => Mnemonic::Cpx,
            Instruction::CpxZeroPage => Mnemonic::Cpx,
            Instruction::CpxAbsolute => Mnemonic::Cpx,
            Instruction::CpyImmediate => Mnemonic::Cpy,
            Instruction::CpyZeroPage => Mnemonic::Cpy,
            Instruction::CpyAbsolute => Mnemonic::Cpy,
            Instruction::DecZeroPage => Mnemonic::Dec,
            Instruction::DecAbsolute => Mnemonic::Dec,
            Instruction::DecXIndexedZero => Mnemonic::Dec,
            Instruction::DecXIndexedAbsolute => Mnemonic::Dec,
            Instruction::Dex => Mnemonic::Dex,
            Instruction::Dey => Mnemonic::Dey,
            Instruction::EorXIndexedZeroIndirect => Mnemonic::Eor,
            Instruction::EorZeroPage => Mnemonic::Eor,
            Instruction::EorImmediate => Mnemonic::Eor,
            Instruction::EorAbsolute => Mnemonic::Eor,
            Instruction::EorZeroIndirectIndexed => Mnemonic::Eor,
            Instruction::EorXIndexedZero => Mnemonic::Eor,
            Instruction::EorYIndexedAbsolute => Mnemonic::Eor,
            Instruction::EorXIndexedAbsolute => Mnemonic::Eor,
            Instruction::IncZeroPage => Mnemonic::Inc,
            Instruction::IncAbsolute => Mnemonic::Inc,
            Instruction::IncXIndexedZero => Mnemonic::Inc,
            Instruction::IncXIndexedAbsolute => Mnemonic::Inc,
            Instruction::Inx => Mnemonic::Inx,
            Instruction::Iny => Mnemonic::Iny,
            Instruction::Jmp => Mnemonic::Jmp,
            Instruction::JmpIndirect => Mnemonic::JmpIndirect,
            Instruction::Jsr => Mnemonic::Jsr,
            Instruction::LdaXIndexedZeroIndirect => Mnemonic::Lda,
            Instruction::LdaZeroPage => Mnemonic::Lda,
            Instruction::LdaImmediate => Mnemonic::Lda,
            Instruction::LdaAbsolute => Mnemonic::Lda,
            Instruction::LdaZeroIndirectIndexed => Mnemonic::Lda,
            Instruction::LdaXIndexedZero => Mnemonic::Lda,
            Instruction::LdaYIndexedAbsolute => Mnemonic::Lda,
            Instruction::LdaXIndexedAbsolute => Mnemonic::Lda,
            Instruction::LdxImmediate => Mnemonic::Ldx,
            Instruction::LdxZeroPage => Mnemonic::Ldx,
            Instruction::LdxAbsolute => Mnemonic::Ldx,
            Instruction::LdxYIndexedZero => Mnemonic::Ldx,
            Instruction::LdxYIndexedAbsolute => Mnemonic::Ldx,
            Instruction::LdyImmediate => Mnemonic::Ldy,
            Instruction::LdyZeroPage => Mnemonic::Ldy,
            Instruction::LdyAbsolute => Mnemonic::Ldy,
            Instruction::LdyXIndexedZero => Mnemonic::Ldy,
            Instruction::LdyXIndexedAbsolute => Mnemonic::Ldy,
            Instruction::LsrZeroPage => Mnemonic::Lsr,
            Instruction::LsrAccumulator => Mnemonic::Lsr,
            Instruction::LsrAbsolute => Mnemonic::Lsr,
            Instruction::LsrXIndexedZero => Mnemonic::Lsr,
            Instruction::LsrXIndexedAbsolute => Mnemonic::Lsr,
            Instruction::Nop => Mnemonic::Nop,
            Instruction::OraXIndexedZeroIndirect => Mnemonic::Ora,
            Instruction::OraZeroPage => Mnemonic::Ora,
            Instruction::OraImmediate => Mnemonic::Ora,
            Instruction::OraAbsolute => Mnemonic::Ora,
            Instruction::OraZeroIndirectIndexed => Mnemonic::Ora,
            Instruction::OraXIndexedZero => Mnemonic::Ora,
            Instruction::OraYIndexedAbsolute => Mnemonic::Ora,
            Instruction::OraXIndexedAbsolute => Mnemonic::Ora,
            Instruction::Pha => Mnemonic::Pha,
            Instruction::Php => Mnemonic::Php,
            Instruction::Pla => Mnemonic::Pla,
            Instruction::Plp => Mnemonic::Plp,
            Instruction::RolZeroPage => Mnemonic::Rol,
            Instruction::RolAccumulator => Mnemonic::Rol,
            Instruction::RolAbsolute => Mnemonic::Rol,
            Instruction::RolXIndexedZero => Mnemonic::Rol,
            Instruction::RolXIndexedAbsolute => Mnemonic::Rol,
            Instruction::RorZeroPage => Mnemonic::Ror,
            Instruction::RorAccumulator => Mnemonic::Ror,
            Instruction::RorAbsolute => Mnemonic::Ror,
            Instruction::RorXIndexedZero => Mnemonic::Ror,
            Instruction::RorXIndexedAbsolute => Mnemonic::Ror,
            Instruction::Rti => Mnemonic::Rti,
            Instruction::Rts => Mnemonic::Rts,
            Instruction::SbcXIndexedZeroIndirect => Mnemonic::Sbc,
            Instruction::SbcZeroPage => Mnemonic::Sbc,
            Instruction::SbcImmediate => Mnemonic::Sbc,
            Instruction::SbcAbsolute => Mnemonic::Sbc,
            Instruction::SbcZeroIndirectIndexed => Mnemonic::Sbc,
            Instruction::SbcXIndexedZero => Mnemonic::Sbc,
            Instruction::SbcYIndexedAbsolute => Mnemonic::Sbc,
            Instruction::SbcXIndexedAbsolute => Mnemonic::Sbc,
            Instruction::Sec => Mnemonic::Sec,
            Instruction::Sed => Mnemonic::Sed,
            Instruction::Sei => Mnemonic::Sei,
            Instruction::StaXIndexedZeroIndirect => Mnemonic::Sta,
            Instruction::StaZeroPage => Mnemonic::Sta,
            Instruction::StaAbsolute => Mnemonic::Sta,
            Instruction::StaZeroIndirectIndexed => Mnemonic::Sta,
            Instruction::StaXIndexedZero => Mnemonic::Sta,
            Instruction::StaYIndexedAbsolute => Mnemonic::Sta,
            Instruction::StaXIndexedAbsolute => Mnemonic::Sta,
            Instruction::StxZeroPage => Mnemonic::Stx,
            Instruction::StxAbsolute => Mnemonic::Stx,
            Instruction::StxYIndexedZero => Mnemonic::Stx,
            Instruction::StyZeroPage => Mnemonic::Sty,
            Instruction::StyAbsolute => Mnemonic::Sty,
            Instruction::StyXIndexedZero => Mnemonic::Sty,
            Instruction::Tax => Mnemonic::Tax,
            Instruction::Tay => Mnemonic::Tay,
            Instruction::Tsx => Mnemonic::Tsx,
            Instruction::Txa => Mnemonic::Txa,
            Instruction::Txs => Mnemonic::Txs,
            Instruction::Tya => Mnemonic::Tya,
        }
    }

    /// The operation this instruction performs.
    #[verifier::when_used_as_spec(spec_mnemonic)]
    pub fn mnemonic(self) -> (r: Mnemonic)
        ensures
            r == self.spec_mnemonic(),
    {
        match self {
            Instruction::AdcXIndexedZeroIndirect => Mnemonic::Adc,
            Instruction::AdcZeroPage => Mnemonic::Adc,
            Instruction::AdcImmediate => Mnemonic::Adc,
            Instruction::AdcAbsolute => Mnemonic::Adc,
            Instruction::AdcZeroIndirectIndexed => Mnemonic::Adc,
            Instruction::AdcXIndexedZero => Mnemonic::Adc,
            Instruction::AdcYIndexedAbsolute => Mnemonic::Adc,
            Instruction::AdcXIndexedAbsolute => Mnemonic::Adc,
            Instruction::AndXIndexedZeroIndirect => Mnemonic::And,
            Instruction::AndZeroPage => Mnemonic::And,
            Instruction::AndImmediate => Mnemonic::And,
            Instruction::AndAbsolute => Mnemonic::And,
            Instruction::AndZeroIndirectIndexed => Mnemonic::And,
            Instruction::AndXIndexedZero => Mnemonic::And,
            Instruction::AndYIndexedAbsolute => Mnemonic::And,
            Instruction::AndXIndexedAbsolute => Mnemonic::And,
            Instruction::AslZeroPage => Mnemonic::Asl,
            Instruction::AslAccumulator => Mnemonic::Asl,
            Instruction::AslAbsolute => Mnemonic::Asl,
            Instruction::AslXIndexedZero => Mnemonic::Asl,
            Instruction::AslXIndexedAbsolute => Mnemonic::Asl,
            Instruction::Bcc => Mnemonic::Bcc,
            Instruction::Bcs => Mnemonic::Bcs,
            Instruction::Beq => Mnemonic::Beq,
            Instruction::BitZeroPage => Mnemonic::Bit,
            Instruction::BitAbsolute => Mnemonic::Bit,
            Instruction::Bmi => Mnemonic::Bmi,
            Instruction::Bne => Mnemonic::Bne,
            Instruction::Bpl => Mnemonic::Bpl,
            Instruction::Brk => Mnemonic::Brk,
            Instruction::Bvc => Mnemonic::Bvc,
            Instruction::Bvs => Mnemonic::Bvs,
            Instruction::Clc => Mnemonic::Clc,
            Instruction::Cld => Mnemonic::Cld,
            Instruction::Cli => Mnemonic::Cli,
            Instruction::Clv => Mnemonic::Clv,
            Instruction::CmpXIndexedZeroIndirect => Mnemonic::Cmp,
            Instruction::CmpZeroPage => Mnemonic::Cmp,
            Instruction::CmpImmediate => Mnemonic::Cmp,
            Instruction::CmpAbsolute => Mnemonic::Cmp,
            Instruction::CmpZeroIndirectIndexed => Mnemonic::Cmp,
            Instruction::CmpXIndexedZero => Mnemonic::Cmp,
            Instruction::CmpYIndexedAbsolute => Mnemonic::Cmp,
            Instruction::CmpXIndexedAbsolute => Mnemonic::Cmp,
            Instruction::CpxImmediate => Mnemonic::Cpx,
            Instruction::CpxZeroPage => Mnemonic::Cpx,
            Instruction::CpxAbsolute => Mnemonic::Cpx,
            Instruction::CpyImmediate => Mnemonic::Cpy,
            Instruction::CpyZeroPage => Mnemonic::Cpy,
            Instruction::CpyAbsolute => Mnemonic::Cpy,
            Instruction::DecZeroPage => Mnemonic::Dec,
            Instruction::DecAbsolute => Mnemonic::Dec,
            Instruction::DecXIndexedZero => Mnemonic::Dec,
            Instruction::DecXIndexedAbsolute => Mnemonic::Dec,
            Instruction::Dex => Mnemonic::Dex,
            Instruction::Dey => Mnemonic::Dey,
            Instruction::EorXIndexedZeroIndirect => Mnemonic::Eor,
            Instruction::EorZeroPage => Mnemonic::Eor,
            Instruction::EorImmediate => Mnemonic::Eor,
            Instruction::EorAbsolute => Mnemonic::Eor,
            Instruction::EorZeroIndirectIndexed => Mnemonic::Eor,
            Instruction::EorXIndexedZero => Mnemonic::Eor,
            Instruction::EorYIndexedAbsolute => Mnemonic::Eor,
            Instruction::EorXIndexedAbsolute => Mnemonic::Eor,
            Instruction::IncZeroPage => Mnemonic::Inc,
            Instruction::IncAbsolute => Mnemonic::Inc,
            Instruction::IncXIndexedZero => Mnemonic::Inc,
            Instruction::IncXIndexedAbsolute => Mnemonic::Inc,
            Instruction::Inx => Mnemonic::Inx,
            Instruction::Iny => Mnemonic::Iny,
            Instruction::Jmp => Mnemonic::Jmp,
            Instruction::JmpIndirect => Mnemonic::JmpIndirect,
            Instruction::Jsr => Mnemonic::Jsr,
            Instruction::LdaXIndexedZeroIndirect => Mnemonic::Lda,
            Instruction::LdaZeroPage => Mnemonic::Lda,
            Instruction::LdaImmediate => Mnemonic::Lda,
            Instruction::LdaAbsolute => Mnemonic::Lda,
            Instruction::LdaZeroIndirectIndexed => Mnemonic::Lda,
            Instruction::LdaXIndexedZero => Mnemonic::Lda,
            Instruction::LdaYIndexedAbsolute => Mnemonic::Lda,
            Instruction::LdaXIndexedAbsolute => Mnemonic::Lda,
            Instruction::LdxImmediate => Mnemonic::Ldx,
            Instruction::LdxZeroPage => Mnemonic::Ldx,
            Instruction::LdxAbsolute => Mnemonic::Ldx,
            Instruction::LdxYIndexedZero => Mnemonic::Ldx,
            Instruction::LdxYIndexedAbsolute => Mnemonic::Ldx,
            Instruction::LdyImmediate => Mnemonic::Ldy,
            Instruction::LdyZeroPage => Mnemonic::Ldy,
            Instruction::LdyAbsolute => Mnemonic::Ldy,
            Instruction::LdyXIndexedZero => Mnemonic::Ldy,
            Instruction::LdyXIndexedAbsolute => Mnemonic::Ldy,
            Instruction::LsrZeroPage => Mnemonic::Lsr,
            Instruction::LsrAccumulator => Mnemonic::Lsr,
            Instruction::LsrAbsolute => Mnemonic::Lsr,
            Instruction::LsrXIndexedZero => Mnemonic::Lsr,
            Instruction::LsrXIndexedAbsolute => Mnemonic::Lsr,
            Instruction::Nop => Mnemonic::Nop,
            Instruction::OraXIndexedZeroIndirect => Mnemonic::Ora,
            Instruction::OraZeroPage => Mnemonic::Ora,
            Instruction::OraImmediate => Mnemonic::Ora,
            Instruction::OraAbsolute => Mnemonic::Ora,
            Instruction::OraZeroIndirectIndexed => Mnemonic::Ora,
            Instruction::OraXIndexedZero => Mnemonic::Ora,
            Instruction::OraYIndexedAbsolute => Mnemonic::Ora,
            Instruction::OraXIndexedAbsolute => Mnemonic::Ora,
            Instruction::Pha => Mnemonic::Pha,
            Instruction::Php => Mnemonic::Php,
            Instruction::Pla => Mnemonic::Pla,
            Instruction::Plp => Mnemonic::Plp,
            Instruction::RolZeroPage => Mnemonic::Rol,
            Instruction::RolAccumulator => Mnemonic::Rol,
            Instruction::RolAbsolute => Mnemonic::Rol,
            Instruction::RolXIndexedZero => Mnemonic::Rol,
            Instruction::RolXIndexedAbsolute => Mnemonic::Rol,
            Instruction::RorZeroPage => Mnemonic::Ror,
            Instruction::RorAccumulator => Mnemonic::Ror,
            Instruction::RorAbsolute => Mnemonic::Ror,
            Instruction::RorXIndexedZero => Mnemonic::Ror,
            Instruction::RorXIndexedAbsolute => Mnemonic::Ror,
            Instruction::Rti => Mnemonic::Rti,
            Instruction::Rts => Mnemonic::Rts,
            Instruction::SbcXIndexedZeroIndirect => Mnemonic::Sbc,
            Instruction::SbcZeroPage => Mnemonic::Sbc,
            Instruction::SbcImmediate => Mnemonic::Sbc,
            Instruction::SbcAbsolute => Mnemonic::Sbc,
            Instruction::SbcZeroIndirectIndexed => Mnemonic::Sbc,
            Instruction::SbcXIndexedZero => Mnemonic::Sbc,
            Instruction::SbcYIndexedAbsolute => Mnemonic::Sbc,
            Instruction::SbcXIndexedAbsolute => Mnemonic::Sbc,
            Instruction::Sec => Mnemonic::Sec,
            Instruction::Sed => Mnemonic::Sed,
            Instruction::Sei => Mnemonic::Sei,
            Instruction::StaXIndexedZeroIndirect => Mnemonic::Sta,
            Instruction::StaZeroPage => Mnemonic::Sta,
            Instruction::StaAbsolute => Mnemonic::Sta,
            Instruction::StaZeroIndirectIndexed => Mnemonic::Sta,
            Instruction::StaXIndexedZero => Mnemonic::Sta,
            Instruction::StaYIndexedAbsolute => Mnemonic::Sta,
            Instruction::StaXIndexedAbsolute => Mnemonic::Sta,
            Instruction::StxZeroPage => Mnemonic::Stx,
            Instruction::StxAbsolute => Mnemonic::Stx,
            Instruction::StxYIndexedZero => Mnemonic::Stx,
            Instruction::StyZeroPage => Mnemonic::Sty,
            Instruction::StyAbsolute => Mnemonic::Sty,
            Instruction::StyXIndexedZero => Mnemonic::Sty,
            Instruction::Tax => Mnemonic::Tax,
            Instruction::Tay => Mnemonic::Tay,
            Instruction::Tsx => Mnemonic::Tsx,
            Instruction::Txa => Mnemonic::Txa,
            Instruction::Txs => Mnemonic::Txs,
            Instruction::Tya => Mnemonic::Tya,
        }
    }

    pub open spec fn spec_addressing(self) -> Option<AddressingType> {
        match self {
            Instruction::AdcXIndexedZeroIndirect => Some(AddressingType::XIndexedZeroIndirect),
            Instruction::AdcZeroPage => Some(AddressingType::ZeroPage),
            Instruction::AdcImmediate => Some(AddressingType::Immediate),
            Instruction::AdcAbsolute => Some(AddressingType::Absolute),
            Instruction::AdcZeroIndirectIndexed => Some(AddressingType::ZeroIndirectIndexed),
            Instruction::AdcXIndexedZero => Some(AddressingType::XIndexedZero),
            Instruction::AdcYIndexedAbsolute => Some(AddressingType::YIndexedAbsolute),
            Instruction::AdcXIndexedAbsolute => Some(AddressingType::XIndexedAbsolute),
            Instruction::AndXIndexedZeroIndirect => Some(AddressingType::XIndexedZeroIndirect),
            Instruction::AndZeroPage => Some(AddressingType::ZeroPage),
            Instruction::AndImmediate => Some(AddressingType::Immediate),
            Instruction::AndAbsolute => Some(AddressingType::Absolute),
            Instruction::AndZeroIndirectIndexed => Some(AddressingType::ZeroIndirectIndexed),
            Instruction::AndXIndexedZero => Some(AddressingType::XIndexedZero),
            Instruction::AndYIndexedAbsolute => Some(AddressingType::YIndexedAbsolute),
            Instruction::AndXIndexedAbsolute => Some(AddressingType::XIndexedAbsolute),
            Instruction::AslZeroPage => Some(AddressingType::ZeroPage),
            Instruction::AslAccumulator => None,
            Instruction::AslAbsolute => Some(AddressingType::Absolute),
            Instruction::AslXIndexedZero => Some(AddressingType::XIndexedZero),
            Instruction::AslXIndexedAbsolute => Some(AddressingType::XIndexedAbsolute),
            Instruction::Bcc => Some(AddressingType::Immediate),
            Instruction::Bcs => Some(AddressingType::Immediate),
            Instruction::Beq => Some(AddressingType::Immediate),
            Instruction::BitZeroPage => Some(AddressingType::ZeroPage),
            Instruction::BitAbsolute => Some(AddressingType::Absolute),
            Instruction::Bmi => Some(AddressingType::Immediate),
            Instruction::Bne => Some(AddressingType::Immediate),
            Instruction::Bpl => Some(AddressingType::Immediate),
            Instruction::Brk => None,
            Instruction::Bvc => Some(AddressingType::Immediate),
            Instruction::Bvs => Some(AddressingType::Immediate),
            Instruction::Clc => None,
            Instruction::Cld => None,
            Instruction::Cli => None,
            Instruction::Clv => None,
            Instruction::CmpXIndexedZeroIndirect => Some(AddressingType::XIndexedZeroIndirect),
            Instruction::CmpZeroPage => Some(AddressingType::ZeroPage),
            Instruction::CmpImmediate => Some(AddressingType::Immediate),
            Instruction::CmpAbsolute => Some(AddressingType::Absolute),
            Instruction::CmpZeroIndirectIndexed => Some(AddressingType::ZeroIndirectIndexed),
            Instruction::CmpXIndexedZero => Some(AddressingType::XIndexedZero),
            Instruction::CmpYIndexedAbsolute => Some(AddressingType::YIndexedAbsolute),
            Instruction::CmpXIndexedAbsolute => Some(AddressingType::XIndexedAbsolute),
            Instruction::CpxImmediate => Some(AddressingType::Immediate),
            Instruction::CpxZeroPage => Some(AddressingType::ZeroPage),
            Instruction::CpxAbsolute => Some(AddressingType::Absolute),
            Instruction::CpyImmediate => Some(AddressingType::Immediate),
            Instruction::CpyZeroPage => Some(AddressingType::ZeroPage),
            Instruction::CpyAbsolute => Some(AddressingType::Absolute),
            Instruction::DecZeroPage => Some(AddressingType::ZeroPage),
            Instruction::DecAbsolute => Some(AddressingType::Absolute),
            Instruction::DecXIndexedZero => Some(AddressingType::XIndexedZero),
            Instruction::DecXIndexedAbsolute => Some(AddressingType::XIndexedAbsolute),
            Instruction::Dex => None,
            Instruction::Dey => None,
            Instruction::EorXIndexedZeroIndirect => Some(AddressingType::XIndexedZeroIndirect),
            Instruction::EorZeroPage => Some(AddressingType::ZeroPage),
            Instruction::EorImmediate => Some(AddressingType::Immediate),
            Instruction::EorAbsolute => Some(AddressingType::Absolute),
            Instruction::EorZeroIndirectIndexed => Some(AddressingType::ZeroIndirectIndexed),
            Instruction::EorXIndexedZero => Some(AddressingType::XIndexedZero),
            Instruction::EorYIndexedAbsolute => Some(AddressingType::YIndexedAbsolute),
            Instruction::EorXIndexedAbsolute => Some(AddressingType::XIndexedAbsolute),
            Instruction::IncZeroPage => Some(AddressingType::ZeroPage),
            Instruction::IncAbsolute => Some(AddressingType::Absolute),
            Instruction::IncXIndexedZero => Some(AddressingType::XIndexedZero),
            Instruction::IncXIndexedAbsolute => Some(AddressingType::XIndexedAbsolute),
            Instruction::Inx => None,
            Instruction::Iny => None,
            Instruction::Jmp => Some(AddressingType::Absolute),
            Instruction::JmpIndirect => Some(AddressingType::Absolute),
            Instruction::Jsr => Some(AddressingType::Absolute),
            Instruction::LdaXIndexedZeroIndirect => Some(AddressingType::XIndexedZeroIndirect),
            Instruction::LdaZeroPage => Some(AddressingType::ZeroPage),
            Instruction::LdaImmediate => Some(AddressingType::Immediate),
            Instruction::LdaAbsolute => Some(AddressingType::Absolute),
            Instruction::LdaZeroIndirectIndexed => Some(AddressingType::ZeroIndirectIndexed),
            Instruction::LdaXIndexedZero => Some(AddressingType::XIndexedZero),
            Instruction::LdaYIndexedAbsolute => Some(AddressingType::YIndexedAbsolute),
            Instruction::LdaXIndexedAbsolute => Some(AddressingType::XIndexedAbsolute),
            Instruction::LdxImmediate => Some(AddressingType::Immediate),
            Instruction::LdxZeroPage => Some(AddressingType::ZeroPage),
            Instruction::LdxAbsolute => Some(AddressingType::Absolute),
            Instruction::LdxYIndexedZero => Some(AddressingType::YIndexedZero),
            Instruction::LdxYIndexedAbsolute => Some(AddressingType::YIndexedAbsolute),
            Instruction::LdyImmediate => Some(AddressingType::Immediate),
            Instruction::LdyZeroPage => Some(AddressingType::ZeroPage),
            Instruction::LdyAbsolute => Some(AddressingType::Absolute),
            Instruction::LdyXIndexedZero => Some(AddressingType::XIndexedZero),
            Instruction::LdyXIndexedAbsolute => Some(AddressingType::XIndexedAbsolute),
            Instruction::LsrZeroPage => Some(AddressingType::ZeroPage),
            Instruction::LsrAccumulator => None,
            Instruction::LsrAbsolute => Some(AddressingType::Absolute),
            Instruction::LsrXIndexedZero => Some(AddressingType::XIndexedZero),
            Instruction::LsrXIndexedAbsolute => Some(AddressingType::XIndexedAbsolute),
            Instruction::Nop => None,
            Instruction::OraXIndexedZeroIndirect => Some(AddressingType::XIndexedZeroIndirect),
            Instruction::OraZeroPage => Some(AddressingType::ZeroPage),
            Instruction::OraImmediate => Some(AddressingType::Immediate),
            Instruction::OraAbsolute => Some(AddressingType::Absolute),
            Instruction::OraZeroIndirectIndexed => Some(AddressingType::ZeroIndirectIndexed),
            Instruction::OraXIndexedZero => Some(AddressingType::XIndexedZero),
            Instruction::OraYIndexedAbsolute => Some(AddressingType::YIndexedAbsolute),
            Instruction::OraXIndexedAbsolute => Some(AddressingType::XIndexedAbsolute),
            Instruction::Pha => None,
            Instruction::Php => None,
            Instruction::Pla => None,
            Instruction::Plp => None,
            Instruction::RolZeroPage => Some(AddressingType::ZeroPage),
            Instruction::RolAccumulator => None,
            Instruction::RolAbsolute => Some(AddressingType::Absolute),
            Instruction::RolXIndexedZero => Some(AddressingType::XIndexedZero),
            Instruction::RolXIndexedAbsolute => Some(AddressingType::XIndexedAbsolute),
            Instruction::RorZeroPage => Some(AddressingType::ZeroPage),
            Instruction::RorAccumulator => None,
            Instruction::RorAbsolute => Some(AddressingType::Absolute),
            Instruction::RorXIndexedZero => Some(AddressingType::XIndexedZero),
            Instruction::RorXIndexedAbsolute => Some(AddressingType::XIndexedAbsolute),
            Instruction::Rti => None,
            Instruction::Rts => None,
            Instruction::SbcXIndexedZeroIndirect => Some(AddressingType::XIndexedZeroIndirect),
            Instruction::SbcZeroPage => Some(AddressingType::ZeroPage),
            Instruction::SbcImmediate => Some(AddressingType::Immediate),
            Instruction::SbcAbsolute => Some(AddressingType::Absolute),
            Instruction::SbcZeroIndirectIndexed => Some(AddressingType::ZeroIndirectIndexed),
            Instruction::SbcXIndexedZero => Some(AddressingType::XIndexedZero),
            Instruction::SbcYIndexedAbsolute => Some(AddressingType::YIndexedAbsolute),
            Instruction::SbcXIndexedAbsolute => Some(AddressingType::XIndexedAbsolute),
            Instruction::Sec => None,
            Instruction::Sed => None,
            Instruction::Sei => None,
            Instruction::StaXIndexedZeroIndirect => Some(AddressingType::XIndexedZeroIndirect),
            Instruction::StaZeroPage => Some(AddressingType::ZeroPage),
            Instruction::StaAbsolute => Some(AddressingType::Absolute),
            Instruction::StaZeroIndirectIndexed => Some(AddressingType::ZeroIndirectIndexed),
            Instruction::StaXIndexedZero => Some(AddressingType::XIndexedZero),
            Instruction::StaYIndexedAbsolute => Some(AddressingType::YIndexedAbsolute),
            Instruction::StaXIndexedAbsolute => Some(AddressingType::XIndexedAbsolute),
            Instruction::StxZeroPage => Some(AddressingType::ZeroPage),
            Instruction::StxAbsolute => Some(AddressingType::Absolute),
            Instruction::StxYIndexedZero => Some(AddressingType::YIndexedZero),
            Instruction::StyZeroPage => Some(AddressingType::ZeroPage),
            Instruction::StyAbsolute => Some(AddressingType::Absolute),
            Instruction::StyXIndexedZero => Some(AddressingType::XIndexedZero),
            Instruction::Tax => None,
            Instruction::Tay => None,
            Instruction::Tsx => None,
            Instruction::Txa => None,
            Instruction::Txs => None,
            Instruction::Tya => None,
        }
    }

    /// The addressing mode through which the operand is read; `None` for instructions
    /// that work on registers alone (implied and accumulator forms). Branches carry their
    /// offset as an immediate byte; jumps carry their target as an absolute address.
    #[verifier::when_used_as_spec(spec_addressing)]
    pub fn addressing(self) -> (r: Option<AddressingType>)
        ensures
            r == self.spec_addressing(),
    {
        match self {
            Instruction::AdcXIndexedZeroIndirect => Some(AddressingType::XIndexedZeroIndirect),
            Instruction::AdcZeroPage => Some(AddressingType::ZeroPage),
            Instruction::AdcImmediate => Some(AddressingType::Immediate),
            Instruction::AdcAbsolute => Some(AddressingType::Absolute),
            Instruction::AdcZeroIndirectIndexed => Some(AddressingType::ZeroIndirectIndexed),
            Instruction::AdcXIndexedZero => Some(AddressingType::XIndexedZero),
            Instruction::AdcYIndexedAbsolute => Some(AddressingType::YIndexedAbsolute),
            Instruction::AdcXIndexedAbsolute => Some(AddressingType::XIndexedAbsolute),
            Instruction::AndXIndexedZeroIndirect => Some(AddressingType::XIndexedZeroIndirect),
            Instruction::AndZeroPage => Some(AddressingType::ZeroPage),
            Instruction::AndImmediate => Some(AddressingType::Immediate),
            Instruction::AndAbsolute => Some(AddressingType::Absolute),
            Instruction::AndZeroIndirectIndexed => Some(AddressingType::ZeroIndirectIndexed),
            Instruction::AndXIndexedZero => Some(AddressingType::XIndexedZero),
            Instruction::AndYIndexedAbsolute => Some(AddressingType::YIndexedAbsolute),
            Instruction::AndXIndexedAbsolute => Some(AddressingType::XIndexedAbsolute),
            Instruction::AslZeroPage => Some(AddressingType::ZeroPage),
            Instruction::AslAccumulator => None,
            Instruction::AslAbsolute => Some(AddressingType::Absolute),
            Instruction::AslXIndexedZero => Some(AddressingType::XIndexedZero),
            Instruction::AslXIndexedAbsolute => Some(AddressingType::XIndexedAbsolute),
            Instruction::Bcc => Some(AddressingType::Immediate),
            Instruction::Bcs => Some(AddressingType::Immediate),
            Instruction::Beq => Some(AddressingType::Immediate),
            Instruction::BitZeroPage => Some(AddressingType::ZeroPage),
            Instruction::BitAbsolute => Some(AddressingType::Absolute),
            Instruction::Bmi => Some(AddressingType::Immediate),
            Instruction::Bne => Some(AddressingType::Immediate),
            Instruction::Bpl => Some(AddressingType::Immediate),
            Instruction::Brk => None,
            Instruction::Bvc => Some(AddressingType::Immediate),
            Instruction::Bvs => Some(AddressingType::Immediate),
            Instruction::Clc => None,
            Instruction::Cld => None,
            Instruction::Cli => None,
            Instruction::Clv => None,
            Instruction::CmpXIndexedZeroIndirect => Some(AddressingType::XIndexedZeroIndirect),
            Instruction::CmpZeroPage => Some(AddressingType::ZeroPage),
            Instruction::CmpImmediate => Some(AddressingType::Immediate),
            Instruction::CmpAbsolute => Some(AddressingType::Absolute),
            Instruction::CmpZeroIndirectIndexed => Some(AddressingType::ZeroIndirectIndexed),
            Instruction::CmpXIndexedZero => Some(AddressingType::XIndexedZero),
            Instruction::CmpYIndexedAbsolute => Some(AddressingType::YIndexedAbsolute),
            Instruction::CmpXIndexedAbsolute => Some(AddressingType::XIndexedAbsolute),
            Instruction::CpxImmediate => Some(AddressingType::Immediate),
            Instruction::CpxZeroPage => Some(AddressingType::ZeroPage),
            Instruction::CpxAbsolute => Some(AddressingType::Absolute),
            Instruction::CpyImmediate => Some(AddressingType::Immediate),
            Instruction::CpyZeroPage => Some(AddressingType::ZeroPage),
            Instruction::CpyAbsolute => Some(AddressingType::Absolute),
            Instruction::DecZeroPage => Some(AddressingType::ZeroPage),
            Instruction::DecAbsolute => Some(AddressingType::Absolute),
            Instruction::DecXIndexedZero => Some(AddressingType::XIndexedZero),
            Instruction::DecXIndexedAbsolute => Some(AddressingType::XIndexedAbsolute),
            Instruction::Dex => None,
            Instruction::Dey => None,
            Instruction::EorXIndexedZeroIndirect => Some(AddressingType::XIndexedZeroIndirect),
            Instruction::EorZeroPage => Some(AddressingType::ZeroPage),
            Instruction::EorImmediate => Some(AddressingType::Immediate),
            Instruction::EorAbsolute => Some(AddressingType::Absolute),
            Instruction::EorZeroIndirectIndexed => Some(AddressingType::ZeroIndirectIndexed),
            Instruction::EorXIndexedZero => Some(AddressingType::XIndexedZero),
            Instruction::EorYIndexedAbsolute => Some(AddressingType::YIndexedAbsolute),
            Instruction::EorXIndexedAbsolute => Some(AddressingType::XIndexedAbsolute),
            Instruction::IncZeroPage => Some(AddressingType::ZeroPage),
            Instruction::IncAbsolute => Some(AddressingType::Absolute),
            Instruction::IncXIndexedZero => Some(AddressingType::XIndexedZero),
            Instruction::IncXIndexedAbsolute => Some(AddressingType::XIndexedAbsolute),
            Instruction::Inx => None,
            Instruction::Iny => None,
            Instruction::Jmp => Some(AddressingType::Absolute),
            Instruction::JmpIndirect => Some(AddressingType::Absolute),
            Instruction::Jsr => Some(AddressingType::Absolute),
            Instruction::LdaXIndexedZeroIndirect => Some(AddressingType::XIndexedZeroIndirect),
            Instruction::LdaZeroPage => Some(AddressingType::ZeroPage),
            Instruction::LdaImmediate => Some(AddressingType::Immediate),
            Instruction::LdaAbsolute => Some(AddressingType::Absolute),
            Instruction::LdaZeroIndirectIndexed => Some(AddressingType::ZeroIndirectIndexed),
            Instruction::LdaXIndexedZero => Some(AddressingType::XIndexedZero),
            Instruction::LdaYIndexedAbsolute => Some(AddressingType::YIndexedAbsolute),
            Instruction::LdaXIndexedAbsolute => Some(AddressingType::XIndexedAbsolute),
            Instruction::LdxImmediate => Some(AddressingType::Immediate),
            Instruction::LdxZeroPage => Some(AddressingType::ZeroPage),
            Instruction::LdxAbsolute => Some(AddressingType::Absolute),
            Instruction::LdxYIndexedZero => Some(AddressingType::YIndexedZero),
            Instruction::LdxYIndexedAbsolute => Some(AddressingType::YIndexedAbsolute),
            Instruction::LdyImmediate => Some(AddressingType::Immediate),
            Instruction::LdyZeroPage => Some(AddressingType::ZeroPage),
            Instruction::LdyAbsolute => Some(AddressingType::Absolute),
            Instruction::LdyXIndexedZero => Some(AddressingType::XIndexedZero),
            Instruction::LdyXIndexedAbsolute => Some(AddressingType::XIndexedAbsolute),
            Instruction::LsrZeroPage => Some(AddressingType::ZeroPage),
            Instruction::LsrAccumulator => None,
            Instruction::LsrAbsolute => Some(AddressingType::Absolute),
            Instruction::LsrXIndexedZero => Some(AddressingType::XIndexedZero),
            Instruction::LsrXIndexedAbsolute => Some(AddressingType::XIndexedAbsolute),
            Instruction::Nop => None,
            Instruction::OraXIndexedZeroIndirect => Some(AddressingType::XIndexedZeroIndirect),
            Instruction::OraZeroPage => Some(AddressingType::ZeroPage),
            Instruction::OraImmediate => Some(AddressingType::Immediate),
            Instruction::OraAbsolute => Some(AddressingType::Absolute),
            Instruction::OraZeroIndirectIndexed => Some(AddressingType::ZeroIndirectIndexed),
            Instruction::OraXIndexedZero => Some(AddressingType::XIndexedZero),
            Instruction::OraYIndexedAbsolute => Some(AddressingType::YIndexedAbsolute),
            Instruction::OraXIndexedAbsolute => Some(AddressingType::XIndexedAbsolute),
            Instruction::Pha => None,
            Instruction::Php => None,
            Instruction::Pla => None,
            Instruction::Plp => None,
            Instruction::RolZeroPage => Some(AddressingType::ZeroPage),
            Instruction::RolAccumulator => None,
            Instruction::RolAbsolute => Some(AddressingType::Absolute),
            Instruction::RolXIndexedZero => Some(AddressingType::XIndexedZero),
            Instruction::RolXIndexedAbsolute => Some(AddressingType::XIndexedAbsolute),
            Instruction::RorZeroPage => Some(AddressingType::ZeroPage),
            Instruction::RorAccumulator => None,
            Instruction::RorAbsolute => Some(AddressingType::Absolute),
            Instruction::RorXIndexedZero => Some(AddressingType::XIndexedZero),
            Instruction::RorXIndexedAbsolute => Some(AddressingType::XIndexedAbsolute),
            Instruction::Rti => None,
            Instruction::Rts => None,
            Instruction::SbcXIndexedZeroIndirect => Some(AddressingType::XIndexedZeroIndirect),
            Instruction::SbcZeroPage => Some(AddressingType::ZeroPage),
            Instruction::SbcImmediate => Some(AddressingType::Immediate),
            Instruction::SbcAbsolute => Some(AddressingType::Absolute),
            Instruction::SbcZeroIndirectIndexed => Some(AddressingType::ZeroIndirectIndexed),
            Instruction::SbcXIndexedZero => Some(AddressingType::XIndexedZero),
            Instruction::SbcYIndexedAbsolute => Some(AddressingType::YIndexedAbsolute),
            Instruction::SbcXIndexedAbsolute => Some(AddressingType::XIndexedAbsolute),
            Instruction::Sec => None,
            Instruction::Sed => None,
            Instruction::Sei => None,
            Instruction::StaXIndexedZeroIndirect => Some(AddressingType::XIndexedZeroIndirect),
            Instruction::StaZeroPage => Some(AddressingType::ZeroPage),
            Instruction::StaAbsolute => Some(AddressingType::Absolute),
            Instruction::StaZeroIndirectIndexed => Some(AddressingType::ZeroIndirectIndexed),
            Instruction::StaXIndexedZero => Some(AddressingType::XIndexedZero),
            Instruction::StaYIndexedAbsolute => Some(AddressingType::YIndexedAbsolute),
            Instruction::StaXIndexedAbsolute => Some(AddressingType::XIndexedAbsolute),
            Instruction::StxZeroPage => Some(AddressingType::ZeroPage),
            Instruction::StxAbsolute => Some(AddressingType::Absolute),
            Instruction::StxYIndexedZero => Some(AddressingType::YIndexedZero),
            Instruction::StyZeroPage => Some(AddressingType::ZeroPage),
            Instruction::StyAbsolute => Some(AddressingType::Absolute),
            Instruction::StyXIndexedZero => Some(AddressingType::XIndexedZero),
            Instruction::Tax => None,
            Instruction::Tay => None,
            Instruction::Tsx => None,
            Instruction::Txa => None,
            Instruction::Txs => None,
            Instruction::Tya => None,
        }
    }
}

} // verus!
