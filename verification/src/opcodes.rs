//! The instruction set: its mnemonics and the byte that encodes each of them
//! in each addressing mode it supports.

use crate::addressing_modes::AddressingMode;
use vstd::prelude::*;

verus! {

/// A mnemonic of the instruction set.
#[derive(Clone, Copy, Debug, PartialEq, Eq, Structural)]
pub enum Instruction {
    /// Add memory to accumulator with carry.
    Adc,
    /// Bitwise AND memory with accumulator.
    And,
    /// Shift left one bit.
    Asl,
    /// Branch on carry clear.
    Bcc,
    /// Branch on carry set.
    Bcs,
    /// Branch on result zero.
    Beq,
    /// Test bits in memory with accumulator.
    Bit,
    /// Branch on result minus.
    Bmi,
    /// Branch on result not zero.
    Bne,
    /// Branch on result plus.
    Bpl,
    /// Force break.
    Brk,
    /// Branch on overflow clear.
    Bvc,
    /// Branch on overflow set.
    Bvs,
    /// Clear carry flag.
    Clc,
    /// Clear decimal mode.
    Cld,
    /// Clear interrupt disable.
    Cli,
    /// Clear overflow flag.
    Clv,
    /// Compare memory with accumulator.
    Cmp,
    /// Compare memory with `X`.
    Cpx,
    /// Compare memory with `Y`.
    Cpy,
    /// Decrement memory by one.
    Dec,
    /// Decrement `X` by one.
    Dex,
    /// Decrement `Y` by one.
    Dey,
    /// Bitwise exclusive OR memory with accumulator.
    Eor,
    /// Increment memory by one.
    Inc,
    /// Increment `X` by one.
    Inx,
    /// Increment `Y` by one.
    Iny,
    /// Jump to new location.
    Jmp,
    /// Jump to subroutine.
    Jsr,
    /// Load accumulator.
    Lda,
    /// Load `X`.
    Ldx,
    /// Load `Y`.
    Ldy,
    /// Shift right one bit.
    Lsr,
    /// No operation.
    Nop,
    /// Bitwise OR memory with accumulator.
    Ora,
    /// Push accumulator on stack.
    Pha,
    /// Push processor status on stack.
    Php,
    /// Pull accumulator from stack.
    Pla,
    /// Pull processor status from stack.
    Plp,
    /// Rotate left one bit.
    Rol,
    /// Rotate right one bit.
    Ror,
    /// Return from interrupt.
    Rti,
    /// Return from subroutine.
    Rts,
    /// Subtract memory from accumulator with borrow.
    Sbc,
    /// Set carry flag.
    Sec,
    /// Set decimal mode.
    Sed,
    /// Set interrupt disable.
    Sei,
    /// Store accumulator.
    Sta,
    /// Store `X`.
    Stx,
    /// Store `Y`.
    Sty,
    /// Transfer accumulator to `X`.
    Tax,
    /// Transfer accumulator to `Y`.
    Tay,
    /// Transfer stack pointer to `X`.
    Tsx,
    /// Transfer `X` to accumulator.
    Txa,
    /// Transfer `X` to stack pointer.
    Txs,
    /// Transfer `Y` to accumulator.
    Tya,
}

/// The encoding of an instruction that exists in one mode alone: `byte` in the
/// mode `sole`, and none in any other.
pub open spec fn sole_encoding(mode: AddressingMode, sole: AddressingMode, byte: u8) -> Option<u8> {
    if mode == sole {
        Some(byte)
    } else {
        None
    }
}

impl Instruction {
    /// The opcode byte that encodes this instruction in the given addressing
    /// mode, or `None` where the instruction set has no such combination.
    pub open spec fn encoding(self, mode: AddressingMode) -> Option<u8> {
        match self {
            Instruction::Adc => match mode {
                AddressingMode::Immediate => Some(0x69),
                AddressingMode::ZeroPage => Some(0x65),
                AddressingMode::ZeroPageX => Some(0x75),
                AddressingMode::Absolute => Some(0x6D),
                AddressingMode::AbsoluteX => Some(0x7D),
                AddressingMode::AbsoluteY => Some(0x79),
                AddressingMode::IndirectX => Some(0x61),
                AddressingMode::IndirectY => Some(0x71),
                _ => None,
            },
            Instruction::And => match mode {
                AddressingMode::Immediate => Some(0x29),
                AddressingMode::ZeroPage => Some(0x25),
                AddressingMode::ZeroPageX => Some(0x35),
                AddressingMode::Absolute => Some(0x2D),
                AddressingMode::AbsoluteX => Some(0x3D),
                AddressingMode::AbsoluteY => Some(0x39),
                AddressingMode::IndirectX => Some(0x21),
                AddressingMode::IndirectY => Some(0x31),
                _ => None,
            },
            Instruction::Asl => match mode {
                AddressingMode::Accumulator => Some(0x0A),
                AddressingMode::ZeroPage => Some(0x06),
                AddressingMode::ZeroPageX => Some(0x16),
                AddressingMode::Absolute => Some(0x0E),
                AddressingMode::AbsoluteX => Some(0x1E),
                _ => None,
            },
            Instruction::Bcc => sole_encoding(mode, AddressingMode::Relative, 0x90),
            Instruction::Bcs => sole_encoding(mode, AddressingMode::Relative, 0xB0),
            Instruction::Beq => sole_encoding(mode, AddressingMode::Relative, 0xF0),
            Instruction::Bit => match mode {
                AddressingMode::ZeroPage => Some(0x24),
                AddressingMode::Absolute => Some(0x2C),
                _ => None,
            },
            Instruction::Bmi => sole_encoding(mode, AddressingMode::Relative, 0x30),
            Instruction::Bne => sole_encoding(mode, AddressingMode::Relative, 0xD0),
            Instruction::Bpl => sole_encoding(mode, AddressingMode::Relative, 0x10),
            Instruction::Brk => sole_encoding(mode, AddressingMode::Implicit, 0x00),
            Instruction::Bvc => sole_encoding(mode, AddressingMode::Relative, 0x50),
            Instruction::Bvs => sole_encoding(mode, AddressingMode::Relative, 0x70),
            Instruction::Clc => sole_encoding(mode, AddressingMode::Implicit, 0x18),
            Instruction::Cld => sole_encoding(mode, AddressingMode::Implicit, 0xD8),
            Instruction::Cli => sole_encoding(mode, AddressingMode::Implicit, 0x58),
            Instruction::Clv => sole_encoding(mode, AddressingMode::Implicit, 0xB8),
            Instruction::Cmp => match mode {
                AddressingMode::Immediate => Some(0xC9),
                AddressingMode::ZeroPage => Some(0xC5),
                AddressingMode::ZeroPageX => Some(0xD5),
                AddressingMode::Absolute => Some(0xCD),
                AddressingMode::AbsoluteX => Some(0xDD),
                AddressingMode::AbsoluteY => Some(0xD9),
                AddressingMode::IndirectX => Some(0xC1),
                AddressingMode::IndirectY => Some(0xD1),
                _ => None,
            },
            Instruction::Cpx => match mode {
                AddressingMode::Immediate => Some(0xE0),
                AddressingMode::ZeroPage => Some(0xE4),
                AddressingMode::Absolute => Some(0xEC),
                _ => None,
            },
            Instruction::Cpy => match mode {
                AddressingMode::Immediate => Some(0xC0),
                AddressingMode::ZeroPage => Some(0xC4),
                AddressingMode::Absolute => Some(0xCC),
                _ => None,
            },
            Instruction::Dec => match mode {
                AddressingMode::ZeroPage => Some(0xC6),
                AddressingMode::ZeroPageX => Some(0xD6),
                AddressingMode::Absolute => Some(0xCE),
                AddressingMode::AbsoluteX => Some(0xDE),
                _ => None,
            },
            Instruction::Dex => sole_encoding(mode, AddressingMode::Implicit, 0xCA),
            Instruction::Dey => sole_encoding(mode, AddressingMode::Implicit, 0x88),
            Instruction::Eor => match mode {
                AddressingMode::Immediate => Some(0x49),
                AddressingMode::ZeroPage => Some(0x45),
                AddressingMode::ZeroPageX => Some(0x55),
                AddressingMode::Absolute => Some(0x4D),
                AddressingMode::AbsoluteX => Some(0x5D),
                AddressingMode::AbsoluteY => Some(0x59),
                AddressingMode::IndirectX => Some(0x41),
                AddressingMode::IndirectY => Some(0x51),
                _ => None,
            },
            Instruction::Inc => match mode {
                AddressingMode::ZeroPage => Some(0xE6),
                AddressingMode::ZeroPageX => Some(0xF6),
                AddressingMode::Absolute => Some(0xEE),
                AddressingMode::AbsoluteX => Some(0xFE),
                _ => None,
            },
            Instruction::Inx => sole_encoding(mode, AddressingMode::Implicit, 0xE8),
            Instruction::Iny => sole_encoding(mode, AddressingMode::Implicit, 0xC8),
            Instruction::Jmp => match mode {
                AddressingMode::Absolute => Some(0x4C),
                AddressingMode::Indirect => Some(0x6C),
                _ => None,
            },
            Instruction::Jsr => sole_encoding(mode, AddressingMode::Absolute, 0x20),
            Instruction::Lda => match mode {
                AddressingMode::Immediate => Some(0xA9),
                AddressingMode::ZeroPage => Some(0xA5),
                AddressingMode::ZeroPageX => Some(0xB5),
                AddressingMode::Absolute => Some(0xAD),
                AddressingMode::AbsoluteX => Some(0xBD),
                AddressingMode::AbsoluteY => Some(0xB9),
                AddressingMode::IndirectX => Some(0xA1),
                AddressingMode::IndirectY => Some(0xB1),
                _ => None,
            },
            Instruction::Ldx => match mode {
                AddressingMode::Immediate => Some(0xA2),
                AddressingMode::ZeroPage => Some(0xA6),
                AddressingMode::ZeroPageY => Some(0xB6),
                AddressingMode::Absolute => Some(0xAE),
                AddressingMode::AbsoluteY => Some(0xBE),
                _ => None,
            },
            Instruction::Ldy => match mode {
                AddressingMode::Immediate => Some(0xA0),
                AddressingMode::ZeroPage => Some(0xA4),
                AddressingMode::ZeroPageX => Some(0xB4),
                AddressingMode::Absolute => Some(0xAC),
                AddressingMode::AbsoluteX => Some(0xBC),
                _ => None,
            },
            Instruction::Lsr => match mode {
                AddressingMode::Accumulator => Some(0x4A),
                AddressingMode::ZeroPage => Some(0x46),
                AddressingMode::ZeroPageX => Some(0x56),
                AddressingMode::Absolute => Some(0x4E),
                AddressingMode::AbsoluteX => Some(0x5E),
                _ => None,
            },
            Instruction::Nop => sole_encoding(mode, AddressingMode::Implicit, 0xEA),
            Instruction::Ora => match mode {
                AddressingMode::Immediate => Some(0x09),
                AddressingMode::ZeroPage => Some(0x05),
                AddressingMode::ZeroPageX => Some(0x15),
                AddressingMode::Absolute => Some(0x0D),
                AddressingMode::AbsoluteX => Some(0x1D),
                AddressingMode::AbsoluteY => Some(0x19),
                AddressingMode::IndirectX => Some(0x01),
                AddressingMode::IndirectY => Some(0x11),
                _ => None,
            },
            Instruction::Pha => sole_encoding(mode, AddressingMode::Implicit, 0x48),
            Instruction::Php => sole_encoding(mode, AddressingMode::Implicit, 0x08),
            Instruction::Pla => sole_encoding(mode, AddressingMode::Implicit, 0x68),
            Instruction::Plp => sole_encoding(mode, AddressingMode::Implicit, 0x28),
            Instruction::Rol => match mode {
                AddressingMode::Accumulator => Some(0x2A),
                AddressingMode::ZeroPage => Some(0x26),
                AddressingMode::ZeroPageX => Some(0x36),
                AddressingMode::Absolute => Some(0x2E),
                AddressingMode::AbsoluteX => Some(0x3E),
                _ => None,
            },
            Instruction::Ror => match mode {
                AddressingMode::Accumulator => Some(0x6A),
                AddressingMode::ZeroPage => Some(0x66),
                AddressingMode::ZeroPageX => Some(0x76),
                AddressingMode::Absolute => Some(0x6E),
                AddressingMode::AbsoluteX => Some(0x7E),
                _ => None,
            },
            Instruction::Rti => sole_encoding(mode, AddressingMode::Implicit, 0x40),
            Instruction::Rts => sole_encoding(mode, AddressingMode::Implicit, 0x60),
            Instruction::Sbc => match mode {
                AddressingMode::Immediate => Some(0xE9),
                AddressingMode::ZeroPage => Some(0xE5),
                AddressingMode::ZeroPageX => Some(0xF5),
                AddressingMode::Absolute => Some(0xED),
                AddressingMode::AbsoluteX => Some(0xFD),
                AddressingMode::AbsoluteY => Some(0xF9),
                AddressingMode::IndirectX => Some(0xE1),
                AddressingMode::IndirectY => Some(0xF1),
                _ => None,
            },
            Instruction::Sec => sole_encoding(mode, AddressingMode::Implicit, 0x38),
            Instruction::Sed => sole_encoding(mode, AddressingMode::Implicit, 0xF8),
            Instruction::Sei => sole_encoding(mode, AddressingMode::Implicit, 0x78),
            Instruction::Sta => match mode {
                AddressingMode::ZeroPage => Some(0x85),
                AddressingMode::ZeroPageX => Some(0x95),
                AddressingMode::Absolute => Some(0x8D),
                AddressingMode::AbsoluteX => Some(0x9D),
                AddressingMode::AbsoluteY => Some(0x99),
                AddressingMode::IndirectX => Some(0x81),
                AddressingMode::IndirectY => Some(0x91),
                _ => None,
            },
            Instruction::Stx => match mode {
                AddressingMode::ZeroPage => Some(0x86),
                AddressingMode::ZeroPageY => Some(0x96),
                AddressingMode::Absolute => Some(0x8E),
                _ => None,
            },
            Instruction::Sty => match mode {
                AddressingMode::ZeroPage => Some(0x84),
                AddressingMode::ZeroPageX => Some(0x94),
                AddressingMode::Absolute => Some(0x8C),
                _ => None,
            },
            Instruction::Tax => sole_encoding(mode, AddressingMode::Implicit, 0xAA),
            Instruction::Tay => sole_encoding(mode, AddressingMode::Implicit, 0xA8),
            Instruction::Tsx => sole_encoding(mode, AddressingMode::Implicit, 0xBA),
            Instruction::Txa => sole_encoding(mode, AddressingMode::Implicit, 0x8A),
            Instruction::Txs => sole_encoding(mode, AddressingMode::Implicit, 0x9A),
            Instruction::Tya => sole_encoding(mode, AddressingMode::Implicit, 0x98),
        }
    }
}

} // verus!
