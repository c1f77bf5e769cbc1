use mos6502::addressing_modes::{AddressingMode, OperandKind};

fn all_modes() -> Vec<AddressingMode> {
    vec![
        AddressingMode::Implicit,
        AddressingMode::Accumulator,
        AddressingMode::Immediate,
        AddressingMode::ZeroPage,
        AddressingMode::ZeroPageX,
        AddressingMode::ZeroPageY,
        AddressingMode::Relative,
        AddressingMode::Absolute,
        AddressingMode::AbsoluteX,
        AddressingMode::AbsoluteY,
        AddressingMode::Indirect,
        AddressingMode::IndirectX,
        AddressingMode::IndirectY,
    ]
}

#[test]
fn there_are_thirteen_distinct_modes() {
    let modes = all_modes();
    assert_eq!(modes.len(), 13);
    for (i, a) in modes.iter().enumerate() {
        for (j, b) in modes.iter().enumerate() {
            assert_eq!(a == b, i == j);
        }
    }
}

#[test]
fn operand_lengths_follow_the_catalog() {
    assert_eq!(AddressingMode::Implicit.operand_len(), 0);
    assert_eq!(AddressingMode::Accumulator.operand_len(), 0);
    assert_eq!(AddressingMode::Immediate.operand_len(), 1);
    assert_eq!(AddressingMode::ZeroPage.operand_len(), 1);
    assert_eq!(AddressingMode::ZeroPageX.operand_len(), 1);
    assert_eq!(AddressingMode::ZeroPageY.operand_len(), 1);
    assert_eq!(AddressingMode::Relative.operand_len(), 1);
    assert_eq!(AddressingMode::Absolute.operand_len(), 2);
    assert_eq!(AddressingMode::AbsoluteX.operand_len(), 2);
    assert_eq!(AddressingMode::AbsoluteY.operand_len(), 2);
    assert_eq!(AddressingMode::Indirect.operand_len(), 2);
    assert_eq!(AddressingMode::IndirectX.operand_len(), 1);
    assert_eq!(AddressingMode::IndirectY.operand_len(), 1);
}

#[test]
fn operand_kinds_follow_the_catalog() {
    assert_eq!(AddressingMode::Implicit.operand_kind(), OperandKind::Absent);
    assert_eq!(AddressingMode::Accumulator.operand_kind(), OperandKind::Accumulator);
    assert_eq!(AddressingMode::Immediate.operand_kind(), OperandKind::Memory);
    assert_eq!(AddressingMode::ZeroPage.operand_kind(), OperandKind::Memory);
    assert_eq!(AddressingMode::ZeroPageX.operand_kind(), OperandKind::Memory);
    assert_eq!(AddressingMode::ZeroPageY.operand_kind(), OperandKind::Memory);
    assert_eq!(AddressingMode::Relative.operand_kind(), OperandKind::Absent);
    assert_eq!(AddressingMode::Absolute.operand_kind(), OperandKind::Memory);
    assert_eq!(AddressingMode::AbsoluteX.operand_kind(), OperandKind::Memory);
    assert_eq!(AddressingMode::AbsoluteY.operand_kind(), OperandKind::Memory);
    assert_eq!(AddressingMode::Indirect.operand_kind(), OperandKind::Absent);
    assert_eq!(AddressingMode::IndirectX.operand_kind(), OperandKind::Memory);
    assert_eq!(AddressingMode::IndirectY.operand_kind(), OperandKind::Memory);
}

#[test]
fn no_mode_takes_more_than_two_bytes() {
    for mode in all_modes() {
        assert!(mode.operand_len() <= 2);
    }
}
