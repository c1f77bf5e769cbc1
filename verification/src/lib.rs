//! Instruction-fetch front end of a 6502-class processor: the catalog of
//! addressing modes, the operand resolver that reads and writes through them,
//! and the table that decodes an opcode byte.

pub mod addressing_modes;
pub mod cpu;
pub mod decode;
pub mod memory;
pub mod opcodes;
