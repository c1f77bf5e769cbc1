//! The addressing modes of the processor and what each one stands for.

use vstd::prelude::*;

verus! {

/// How an instruction locates its operand.
#[derive(Clone, Copy, Debug, PartialEq, Eq, Structural)]
pub enum AddressingMode {
    Implicit,
    Accumulator,
    Immediate,
    ZeroPage,
    ZeroPageX,
    ZeroPageY,
    Relative,
    Absolute,
    AbsoluteX,
    AbsoluteY,
    Indirect,
    IndirectX,
    IndirectY,
}

/// What a mode designates as the operand of a data access.
#[derive(Clone, Copy, Debug, PartialEq, Eq, Structural)]
pub enum OperandKind {
    /// No operand: the instruction supplies its own, or (for a branch
    /// displacement or a jump pointer) interprets the operand bytes itself.
    Absent,
    /// The `A` register.
    Accumulator,
    /// A byte of memory, found at the mode's effective address.
    Memory,
}

impl AddressingMode {
    /// Number of bytes after the opcode that the mode takes from the
    /// instruction stream.
    pub open spec fn spec_operand_len(self) -> u8 {
        match self {
            AddressingMode::Implicit | AddressingMode::Accumulator => 0,
            AddressingMode::Absolute
            | AddressingMode::AbsoluteX
            | AddressingMode::AbsoluteY
            | AddressingMode::Indirect => 2,
            _ => 1,
        }
    }

    /// What the mode designates: a byte of memory, the accumulator, or nothing.
    pub open spec fn spec_operand_kind(self) -> OperandKind {
        match self {
            AddressingMode::Accumulator => OperandKind::Accumulator,
            AddressingMode::Implicit
            | AddressingMode::Relative
            | AddressingMode::Indirect => OperandKind::Absent,
            _ => OperandKind::Memory,
        }
    }

    /// Whether the mode indexes within the first 256 bytes of memory, so that
    /// its effective address never leaves that page.
    pub open spec fn is_zero_page(self) -> bool {
        self == AddressingMode::ZeroPage || self == AddressingMode::ZeroPageX || self
            == AddressingMode::ZeroPageY
    }

    /// Whether a store through the mode changes a byte of memory. An immediate
    /// operand is part of the instruction stream and is never overwritten.
    pub open spec fn is_store_target(self) -> bool {
        self.spec_operand_kind() == OperandKind::Memory && self != AddressingMode::Immediate
    }

    #[verifier::when_used_as_spec(spec_operand_len)]
    pub fn operand_len(self) -> (len: u8)
        ensures
            len == self.spec_operand_len(),
            len <= 2,
    {
        match self {
            AddressingMode::Implicit => 0,
            AddressingMode::Accumulator => 0,
            AddressingMode::Immediate => 1,
            AddressingMode::ZeroPage => 1,
            AddressingMode::ZeroPageX => 1,
            AddressingMode::ZeroPageY => 1,
            AddressingMode::Relative => 1,
            AddressingMode::Absolute => 2,
            AddressingMode::AbsoluteX => 2,
            AddressingMode::AbsoluteY => 2,
            AddressingMode::Indirect => 2,
            AddressingMode::IndirectX => 1,
            AddressingMode::IndirectY => 1,
        }
    }

    #[verifier::when_used_as_spec(spec_operand_kind)]
    pub fn operand_kind(self) -> (kind: OperandKind)
        ensures
            kind == self.spec_operand_kind(),
    {
        match self {
            AddressingMode::Implicit => OperandKind::Absent,
            AddressingMode::Accumulator => OperandKind::Accumulator,
            AddressingMode::Immediate => OperandKind::Memory,
            AddressingMode::ZeroPage => OperandKind::Memory,
            AddressingMode::ZeroPageX => OperandKind::Memory,
            AddressingMode::ZeroPageY => OperandKind::Memory,
            AddressingMode::Relative => OperandKind::Absent,
            AddressingMode::Absolute => OperandKind::Memory,
            AddressingMode::AbsoluteX => OperandKind::Memory,
            AddressingMode::AbsoluteY => OperandKind::Memory,
            AddressingMode::Indirect => OperandKind::Absent,
            AddressingMode::IndirectX => OperandKind::Memory,
            AddressingMode::IndirectY => OperandKind::Memory,
        }
    }
}

} // verus!
