use vstd::prelude::*;

verus! {

/// Why an instruction could not be decoded.
#[derive(Clone, Copy, Debug, PartialEq, Eq, Structural)]
pub enum DecodeError {
    /// The fetched byte is not an opcode of the instruction set.
    UnknownOpcodeError(u8),
    /// An addressing mode that takes a one-byte operand was given something else.
    ByteExpectedArgumentError,
    /// An addressing mode that takes a two-byte address was given something else.
    AddrExpectedArgumentError,
}

/// Why a memory region could not be built.
#[derive(Clone, Copy, Debug, PartialEq, Eq, Structural)]
pub enum MemoryBusError {
    /// The data is longer than the region that should hold it.
    ROMLoadOutOfBoundsError,
    /// The region does not lie within the address space; carries its last address.
    OffsetOutOfBoundsError(usize),
}

} // verus!
