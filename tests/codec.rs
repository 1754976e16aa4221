use std::convert::TryFrom;
use flisp::addressing::{AddrTypeFive, AddrTypeTwo, LdaAddr};
use flisp::{FlispError, Instruction};

#[test]
fn encode_of_decode_is_the_byte() {
    for b in 0..=255u8 {
        if let Ok(inst) = Instruction::decode(b) {
            assert_eq!(inst.encode(), b, "byte {:02X}", b);
        }
    }
}

#[test]
fn decode_of_encode_is_the_instruction() {
    for b in 0..=255u8 {
        if let Ok(inst) = Instruction::decode(b) {
            assert_eq!(Instruction::decode(inst.encode()), Ok(inst));
        }
    }
}

#[test]
fn six_bytes_are_no_instruction() {
    let invalid: Vec<u8> = (0..=255u8).filter(|b| Instruction::decode(*b).is_err()).collect();
    assert_eq!(invalid, vec![0x03, 0x04, 0xDF, 0xE0, 0xEF, 0xFF]);
    assert_eq!(Instruction::decode(0x03), Err(FlispError::InvalidOpCode(0x03)));
}

#[test]
fn known_encodings() {
    assert_eq!(Instruction::decode(0x96), Ok(Instruction::ADDA(AddrTypeTwo::Data)));
    assert_eq!(Instruction::ADDA(AddrTypeTwo::nY).encode(), 0xD6);
    assert_eq!(Instruction::decode(0xF5), Ok(Instruction::LDA(LdaAddr::Xplus)));
    assert_eq!(Instruction::NOP.encode(), 0x00);
}

#[test]
fn sizes() {
    assert_eq!(Instruction::NOP.size(), 1);
    assert_eq!(Instruction::BRA.size(), 2);
    assert_eq!(Instruction::JMP(AddrTypeFive::Addr).size(), 2);
    assert_eq!(Instruction::JMP(AddrTypeFive::AX).size(), 1);
    assert_eq!(Instruction::LDA(LdaAddr::Data).size(), 2);
    assert_eq!(Instruction::LDA(LdaAddr::minusY).size(), 1);
    assert_eq!(Instruction::ANDCC.size(), 2);
}

#[test]
fn conversion_traits() {
    assert_eq!(Instruction::try_from(0x43u8), Ok(Instruction::RTS));
    assert_eq!(Instruction::try_from(0xDFu8), Err(FlispError::InvalidOpCode(0xDF)));
    assert_eq!(u8::from(Instruction::RTI), 0x44);
}
