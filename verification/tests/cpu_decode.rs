//! Instruction decoding.
use genesoxide::cpu::{decode, Instruction};

#[test]
fn decode_nop() {
    assert_eq!(decode(0x4E71), Instruction::Nop);
}

#[test]
fn decode_rts() {
    assert_eq!(decode(0x4E75), Instruction::Rts);
}

#[test]
fn decode_rte() {
    assert_eq!(decode(0x4E73), Instruction::Rte);
}

#[test]
fn decode_moveq() {
    // MOVEQ #0, D0 = 0x7000
    assert_eq!(decode(0x7000), Instruction::MoveQ);
    // MOVEQ #42, D3 = 0x762A
    assert_eq!(decode(0x762A), Instruction::MoveQ);
}

#[test]
fn unknown_decodes_to_illegal() {
    // Unimplemented opcodes should return Illegal, not panic
    let _ = decode(0x0000);
    let _ = decode(0xFFFF);
}
