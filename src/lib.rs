//! An interpreter for the MOS 6502: one verified fetch-decode-execute step at a time.
//!
//! `machine` states what each instruction does as spec functions over the processor
//! state; `cpu` executes instructions and is proved to match it; `laws` proves properties
//! that relate several instructions or hold of all of them.
pub mod cpu;
pub mod error;
pub mod flags_register;
pub mod instruction;
pub mod laws;
pub mod machine;
pub mod memory_bus;
pub mod opcode_decoders;
