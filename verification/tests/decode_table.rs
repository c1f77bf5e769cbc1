use mos6502::addressing_modes::AddressingMode;
use mos6502::addressing_modes::AddressingMode::{
    Absolute, AbsoluteX, AbsoluteY, Accumulator, Immediate, Implicit, Indirect, IndirectX,
    IndirectY, Relative, ZeroPage, ZeroPageX, ZeroPageY,
};
use mos6502::decode::decode;
use mos6502::opcodes::Instruction;
use mos6502::opcodes::Instruction::{
    Adc, And, Asl, Bcc, Bcs, Beq, Bit, Bmi, Bne, Bpl, Brk, Bvc, Bvs, Clc, Cld, Cli, Clv, Cmp, Cpx,
    Cpy, Dec, Dex, Dey, Eor, Inc, Inx, Iny, Jmp, Jsr, Lda, Ldx, Ldy, Lsr, Nop, Ora, Pha, Php, Pla,
    Plp, Rol, Ror, Rti, Rts, Sbc, Sec, Sed, Sei, Sta, Stx, Sty, Tax, Tay, Tsx, Txa, Txs, Tya,
};

/// Every documented opcode with the entry it stands for.
fn documented() -> Vec<(u8, Instruction, AddressingMode)> {
    vec![
        (0x00, Brk, Implicit),
        (0x01, Ora, IndirectX),
        (0x05, Ora, ZeroPage),
        (0x06, Asl, ZeroPage),
        (0x08, Php, Implicit),
        (0x09, Ora, Immediate),
        (0x0A, Asl, Accumulator),
        (0x0D, Ora, Absolute),
        (0x0E, Asl, Absolute),
        (0x10, Bpl, Relative),
        (0x11, Ora, IndirectY),
        (0x15, Ora, ZeroPageX),
        (0x16, Asl, ZeroPageX),
        (0x18, Clc, Implicit),
        (0x19, Ora, AbsoluteY),
        (0x1D, Ora, AbsoluteX),
        (0x1E, Asl, AbsoluteX),
        (0x20, Jsr, Absolute),
        (0x21, And, IndirectX),
        (0x24, Bit, ZeroPage),
        (0x25, And, ZeroPage),
        (0x26, Rol, ZeroPage),
        (0x28, Plp, Implicit),
        (0x29, And, Immediate),
        (0x2A, Rol, Accumulator),
        (0x2C, Bit, Absolute),
        (0x2D, And, Absolute),
        (0x2E, Rol, Absolute),
        (0x30, Bmi, Relative),
        (0x31, And, IndirectY),
        (0x35, And, ZeroPageX),
        (0x36, Rol, ZeroPageX),
        (0x38, Sec, Implicit),
        (0x39, And, AbsoluteY),
        (0x3D, And, AbsoluteX),
        (0x3E, Rol, AbsoluteX),
        (0x40, Rti, Implicit),
        (0x41, Eor, IndirectX),
        (0x45, Eor, ZeroPage),
        (0x46, Lsr, ZeroPage),
        (0x48, Pha, Implicit),
        (0x49, Eor, Immediate),
        (0x4A, Lsr, Accumulator),
        (0x4C, Jmp, Absolute),
        (0x4D, Eor, Absolute),
        (0x4E, Lsr, Absolute),
        (0x50, Bvc, Relative),
        (0x51, Eor, IndirectY),
        (0x55, Eor, ZeroPageX),
        (0x56, Lsr, ZeroPageX),
        (0x58, Cli, Implicit),
        (0x59, Eor, AbsoluteY),
        (0x5D, Eor, AbsoluteX),
        (0x5E, Lsr, AbsoluteX),
        (0x60, Rts, Implicit),
        (0x61, Adc, IndirectX),
        (0x65, Adc, ZeroPage),
        (0x66, Ror, ZeroPage),
        (0x68, Pla, Implicit),
        (0x69, Adc, Immediate),
        (0x6A, Ror, Accumulator),
        (0x6C, Jmp, Indirect),
        (0x6D, Adc, Absolute),
        (0x6E, Ror, Absolute),
        (0x70, Bvs, Relative),
        (0x71, Adc, IndirectY),
        (0x75, Adc, ZeroPageX),
        (0x76, Ror, ZeroPageX),
        (0x78, Sei, Implicit),
        (0x79, Adc, AbsoluteY),
        (0x7D, Adc, AbsoluteX),
        (0x7E, Ror, AbsoluteX),
        (0x81, Sta, IndirectX),
        (0x84, Sty, ZeroPage),
        (0x85, Sta, ZeroPage),
        (0x86, Stx, ZeroPage),
        (0x88, Dey, Implicit),
        (0x8A, Txa, Implicit),
        (0x8C, Sty, Absolute),
        (0x8D, Sta, Absolute),
        (0x8E, Stx, Absolute),
        (0x90, Bcc, Relative),
        (0x91, Sta, IndirectY),
        (0x94, Sty, ZeroPageX),
        (0x95, Sta, ZeroPageX),
        (0x96, Stx, ZeroPageY),
        (0x98, Tya, Implicit),
        (0x99, Sta, AbsoluteY),
        (0x9A, Txs, Implicit),
        (0x9D, Sta, AbsoluteX),
        (0xA0, Ldy, Immediate),
        (0xA1, Lda, IndirectX),
        (0xA2, Ldx, Immediate),
        (0xA4, Ldy, ZeroPage),
        (0xA5, Lda, ZeroPage),
        (0xA6, Ldx, ZeroPage),
        (0xA8, Tay, Implicit),
        (0xA9, Lda, Immediate),
        (0xAA, Tax, Implicit),
        (0xAC, Ldy, Absolute),
        (0xAD, Lda, Absolute),
        (0xAE, Ldx, Absolute),
        (0xB0, Bcs, Relative),
        (0xB1, Lda, IndirectY),
        (0xB4, Ldy, ZeroPageX),
        (0xB5, Lda, ZeroPageX),
        (0xB6, Ldx, ZeroPageY),
        (0xB8, Clv, Implicit),
        (0xB9, Lda, AbsoluteY),
        (0xBA, Tsx, Implicit),
        (0xBC, Ldy, AbsoluteX),
        (0xBD, Lda, AbsoluteX),
        (0xBE, Ldx, AbsoluteY),
        (0xC0, Cpy, Immediate),
        (0xC1, Cmp, IndirectX),
        (0xC4, Cpy, ZeroPage),
        (0xC5, Cmp, ZeroPage),
        (0xC6, Dec, ZeroPage),
        (0xC8, Iny, Implicit),
        (0xC9, Cmp, Immediate),
        (0xCA, Dex, Implicit),
        (0xCC, Cpy, Absolute),
        (0xCD, Cmp, Absolute),
        (0xCE, Dec, Absolute),
        (0xD0, Bne, Relative),
        (0xD1, Cmp, IndirectY),
        (0xD5, Cmp, ZeroPageX),
        (0xD6, Dec, ZeroPageX),
        (0xD8, Cld, Implicit),
        (0xD9, Cmp, AbsoluteY),
        (0xDD, Cmp, AbsoluteX),
        (0xDE, Dec, AbsoluteX),
        (0xE0, Cpx, Immediate),
        (0xE1, Sbc, IndirectX),
        (0xE4, Cpx, ZeroPage),
        (0xE5, Sbc, ZeroPage),
        (0xE6, Inc, ZeroPage),
        (0xE8, Inx, Implicit),
        (0xE9, Sbc, Immediate),
        (0xEA, Nop, Implicit),
        (0xEC, Cpx, Absolute),
        (0xED, Sbc, Absolute),
        (0xEE, Inc, Absolute),
        (0xF0, Beq, Relative),
        (0xF1, Sbc, IndirectY),
        (0xF5, Sbc, ZeroPageX),
        (0xF6, Inc, ZeroPageX),
        (0xF8, Sed, Implicit),
        (0xF9, Sbc, AbsoluteY),
        (0xFD, Sbc, AbsoluteX),
        (0xFE, Inc, AbsoluteX),
    ]
}

#[test]
fn documented_opcodes_decode_to_their_entries() {
    let table = documented();
    assert_eq!(table.len(), 151);
    for (opcode, instruction, mode) in table {
        assert_eq!(decode(opcode), (instruction, mode), "opcode {:#04x}", opcode);
    }
}

#[test]
fn undocumented_opcodes_decode_to_nop_implicit() {
    let table = documented();
    let mut undocumented = 0;
    for opcode in 0..=255u8 {
        if table.iter().all(|entry| entry.0 != opcode) {
            undocumented += 1;
            assert_eq!(decode(opcode), (Nop, Implicit), "opcode {:#04x}", opcode);
        }
    }
    assert_eq!(undocumented, 105);
}

#[test]
fn chosen_undocumented_opcodes_fall_back() {
    for opcode in [0x02u8, 0x03, 0x1A, 0x80, 0x9E, 0xCB, 0xEB, 0xFF] {
        assert_eq!(decode(opcode), (Nop, Implicit));
    }
}

#[test]
fn every_byte_decodes() {
    let mut decoded = 0;
    for opcode in 0..=255u8 {
        let (_instruction, _mode) = decode(opcode);
        decoded += 1;
    }
    assert_eq!(decoded, 256);
}

#[test]
fn decoding_twice_gives_the_same_entry() {
    for opcode in 0..=255u8 {
        assert_eq!(decode(opcode), decode(opcode));
    }
}

#[test]
fn distinct_bytes_share_only_the_fallback_entry() {
    for a in 0..=255u8 {
        for b in 0..=255u8 {
            if a != b && decode(a) == decode(b) {
                assert_eq!(decode(a), (Nop, Implicit));
            }
        }
    }
}

#[test]
fn one_mnemonic_has_one_opcode_per_mode() {
    assert_eq!(decode(0xA9), (Lda, Immediate));
    assert_eq!(decode(0xA5), (Lda, ZeroPage));
    assert_eq!(decode(0xB5), (Lda, ZeroPageX));
    assert_eq!(decode(0xAD), (Lda, Absolute));
    assert_eq!(decode(0xBD), (Lda, AbsoluteX));
    assert_eq!(decode(0xB9), (Lda, AbsoluteY));
    assert_eq!(decode(0xA1), (Lda, IndirectX));
    assert_eq!(decode(0xB1), (Lda, IndirectY));
}

#[test]
fn shifts_and_logical_and_have_their_own_mnemonics() {
    assert_eq!(decode(0x0A), (Asl, Accumulator));
    assert_eq!(decode(0x06), (Asl, ZeroPage));
    assert_eq!(decode(0x16), (Asl, ZeroPageX));
    assert_eq!(decode(0x0E), (Asl, Absolute));
    assert_eq!(decode(0x1E), (Asl, AbsoluteX));
    assert_eq!(decode(0x29), (And, Immediate));
    assert_eq!(decode(0x31), (And, IndirectY));
}

#[test]
fn jump_is_the_only_indirect_instruction() {
    assert_eq!(decode(0x6C), (Jmp, Indirect));
    for opcode in 0..=255u8 {
        if opcode != 0x6C {
            assert_ne!(decode(opcode).1, Indirect);
        }
    }
}
