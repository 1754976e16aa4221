//! The instruction set: decoding bytes, encoding instructions and their sizes.
use crate::addressing::{
    AddrTypeFive, AddrTypeFour, AddrTypeOne, AddrTypeThree, AddrTypeTwo, CmpspAddr, ExgAddr,
    LdaAddr, LeaspAddr, LeaxAddr, LeayAddr, StaAddr, TfrAddr,
};
use crate::error::FlispError;
use vstd::prelude::*;

verus! {

/// One instruction: a mnemonic with, where it has several, its addressing mode.
#[allow(non_camel_case_types, clippy::upper_case_acronyms)]
#[derive(Debug, Copy, Clone, PartialEq, Eq, Structural)]
pub enum Instruction {
    ADCA(AddrTypeTwo),
    ADDA(AddrTypeTwo),
    ANDA(AddrTypeTwo),
    ANDCC,
    ASLA,
    ASL(AddrTypeThree),
    ASRA,
    ASR(AddrTypeThree),
    BITA(AddrTypeTwo),
    BLE,
    BLS,
    BLT,
    BMI,
    BNE,
    BPL,
    BRA,
    BSR,
    BVC,
    BVS,
    BCC,
    BCS,
    BEQ,
    BGE,
    BGT,
    BHI,
    CLRA,
    CLR(AddrTypeThree),
    CMPA(AddrTypeTwo),
    CMPX(AddrTypeFour),
    CMPY(AddrTypeFour),
    CMPSP(CmpspAddr),
    COMA,
    COM(AddrTypeThree),
    DECA,
    DEC(AddrTypeThree),
    EORA(AddrTypeTwo),
    EXG(ExgAddr),
    INCA,
    INC(AddrTypeThree),
    JMP(AddrTypeFive),
    JSR(AddrTypeFive),
    LDA(LdaAddr),
    LDX(AddrTypeTwo),
    LDY(AddrTypeTwo),
    LDSP(AddrTypeTwo),
    LEAX(LeaxAddr),
    LEAY(LeayAddr),
    LEASP(LeaspAddr),
    LSRA,
    LSR(AddrTypeThree),
    NEGA,
    NEG(AddrTypeThree),
    NOP,
    ORA(AddrTypeTwo),
    ORCC,
    PSHA,
    PSHX,
    PSHY,
    PSHCC,
    PULA,
    PULX,
    PULY,
    PULCC,
    ROLA,
    ROL(AddrTypeThree),
    RORA,
    ROR(AddrTypeThree),
    RTS,
    RTI,
    SBCA(AddrTypeTwo),
    STA(StaAddr),
    STX(AddrTypeOne),
    STY(AddrTypeOne),
    STSP(AddrTypeOne),
    SUBA(AddrTypeTwo),
    TFR(TfrAddr),
    TSTA,
    TST(AddrTypeOne),
}

impl Instruction {
    /// The instruction a byte encodes, if any.
    pub open spec fn spec_decode(b: u8) -> Option<Instruction> {
        match b {
            0x95 => Some(Instruction::ADCA(AddrTypeTwo::Data)),
            0xA5 => Some(Instruction::ADCA(AddrTypeTwo::Addr)),
            0xB5 => Some(Instruction::ADCA(AddrTypeTwo::nSP)),
            0xC5 => Some(Instruction::ADCA(AddrTypeTwo::nX)),
            0xD5 => Some(Instruction::ADCA(AddrTypeTwo::nY)),
            0x96 => Some(Instruction::ADDA(AddrTypeTwo::Data)),
            0xA6 => Some(Instruction::ADDA(AddrTypeTwo::Addr)),
            0xB6 => Some(Instruction::ADDA(AddrTypeTwo::nSP)),
            0xC6 => Some(Instruction::ADDA(AddrTypeTwo::nX)),
            0xD6 => Some(Instruction::ADDA(AddrTypeTwo::nY)),
            0x99 => Some(Instruction::ANDA(AddrTypeTwo::Data)),
            0xA9 => Some(Instruction::ANDA(AddrTypeTwo::Addr)),
            0xB9 => Some(Instruction::ANDA(AddrTypeTwo::nSP)),
            0xC9 => Some(Instruction::ANDA(AddrTypeTwo::nX)),
            0xD9 => Some(Instruction::ANDA(AddrTypeTwo::nY)),
            0x01 => Some(Instruction::ANDCC),
            0x0B => Some(Instruction::ASLA),
            0x3B => Some(Instruction::ASL(AddrTypeThree::Addr)),
            0x4B => Some(Instruction::ASL(AddrTypeThree::nSP)),
            0x5B => Some(Instruction::ASL(AddrTypeThree::nX)),
            0x6B => Some(Instruction::ASL(AddrTypeThree::AX)),
            0x7B => Some(Instruction::ASL(AddrTypeThree::nY)),
            0x8B => Some(Instruction::ASL(AddrTypeThree::AY)),
            0x0F => Some(Instruction::ASRA),
            0x3F => Some(Instruction::ASR(AddrTypeThree::Addr)),
            0x4F => Some(Instruction::ASR(AddrTypeThree::nSP)),
            0x5F => Some(Instruction::ASR(AddrTypeThree::nX)),
            0x6F => Some(Instruction::ASR(AddrTypeThree::AX)),
            0x7F => Some(Instruction::ASR(AddrTypeThree::nY)),
            0x8F => Some(Instruction::ASR(AddrTypeThree::AY)),
            0x29 => Some(Instruction::BCC),
            0x28 => Some(Instruction::BCS),
            0x24 => Some(Instruction::BEQ),
            0x2D => Some(Instruction::BGE),
            0x2C => Some(Instruction::BGT),
            0x2A => Some(Instruction::BHI),
            0x98 => Some(Instruction::BITA(AddrTypeTwo::Data)),
            0xA8 => Some(Instruction::BITA(AddrTypeTwo::Addr)),
            0xB8 => Some(Instruction::BITA(AddrTypeTwo::nSP)),
            0xC8 => Some(Instruction::BITA(AddrTypeTwo::nX)),
            0xD8 => Some(Instruction::BITA(AddrTypeTwo::nY)),
            0x2E => Some(Instruction::BLE),
            0x2B => Some(Instruction::BLS),
            0x2F => Some(Instruction::BLT),
            0x22 => Some(Instruction::BMI),
            0x25 => Some(Instruction::BNE),
            0x23 => Some(Instruction::BPL),
            0x21 => Some(Instruction::BRA),
            0x20 => Some(Instruction::BSR),
            0x27 => Some(Instruction::BVC),
            0x26 => Some(Instruction::BVS),
            0x05 => Some(Instruction::CLRA),
            0x35 => Some(Instruction::CLR(AddrTypeThree::Addr)),
            0x45 => Some(Instruction::CLR(AddrTypeThree::nSP)),
            0x55 => Some(Instruction::CLR(AddrTypeThree::nX)),
            0x65 => Some(Instruction::CLR(AddrTypeThree::AX)),
            0x75 => Some(Instruction::CLR(AddrTypeThree::nY)),
            0x85 => Some(Instruction::CLR(AddrTypeThree::AY)),
            0x97 => Some(Instruction::CMPA(AddrTypeTwo::Data)),
            0xA7 => Some(Instruction::CMPA(AddrTypeTwo::Addr)),
            0xB7 => Some(Instruction::CMPA(AddrTypeTwo::nSP)),
            0xC7 => Some(Instruction::CMPA(AddrTypeTwo::nX)),
            0xD7 => Some(Instruction::CMPA(AddrTypeTwo::nY)),
            0x9C => Some(Instruction::CMPX(AddrTypeFour::Data)),
            0xAC => Some(Instruction::CMPX(AddrTypeFour::Addr)),
            0xBC => Some(Instruction::CMPX(AddrTypeFour::nSP)),
            0x9D => Some(Instruction::CMPY(AddrTypeFour::Data)),
            0xAD => Some(Instruction::CMPY(AddrTypeFour::Addr)),
            0xBD => Some(Instruction::CMPY(AddrTypeFour::nSP)),
            0x9E => Some(Instruction::CMPSP(CmpspAddr::Data)),
            0xAE => Some(Instruction::CMPSP(CmpspAddr::Addr)),
            0x0A => Some(Instruction::COMA),
            0x3A => Some(Instruction::COM(AddrTypeThree::Addr)),
            0x4A => Some(Instruction::COM(AddrTypeThree::nSP)),
            0x5A => Some(Instruction::COM(AddrTypeThree::nX)),
            0x6A => Some(Instruction::COM(AddrTypeThree::AX)),
            0x7A => Some(Instruction::COM(AddrTypeThree::nY)),
            0x8A => Some(Instruction::COM(AddrTypeThree::AY)),
            0x08 => Some(Instruction::DECA),
            0x38 => Some(Instruction::DEC(AddrTypeThree::Addr)),
            0x48 => Some(Instruction::DEC(AddrTypeThree::nSP)),
            0x58 => Some(Instruction::DEC(AddrTypeThree::nX)),
            0x68 => Some(Instruction::DEC(AddrTypeThree::AX)),
            0x78 => Some(Instruction::DEC(AddrTypeThree::nY)),
            0x88 => Some(Instruction::DEC(AddrTypeThree::AY)),
            0x9B => Some(Instruction::EORA(AddrTypeTwo::Data)),
            0xAB => Some(Instruction::EORA(AddrTypeTwo::Addr)),
            0xBB => Some(Instruction::EORA(AddrTypeTwo::nSP)),
            0xCB => Some(Instruction::EORA(AddrTypeTwo::nX)),
            0xDB => Some(Instruction::EORA(AddrTypeTwo::nY)),
            0x9F => Some(Instruction::EXG(ExgAddr::ACC)),
            0xAF => Some(Instruction::EXG(ExgAddr::XY)),
            0xBF => Some(Instruction::EXG(ExgAddr::XSP)),
            0xCF => Some(Instruction::EXG(ExgAddr::YSP)),
            0x07 => Some(Instruction::INCA),
            0x37 => Some(Instruction::INC(AddrTypeThree::Addr)),
            0x47 => Some(Instruction::INC(AddrTypeThree::nSP)),
            0x57 => Some(Instruction::INC(AddrTypeThree::nX)),
            0x67 => Some(Instruction::INC(AddrTypeThree::AX)),
            0x77 => Some(Instruction::INC(AddrTypeThree::nY)),
            0x87 => Some(Instruction::INC(AddrTypeThree::AY)),
            0x33 => Some(Instruction::JMP(AddrTypeFive::Addr)),
            0x53 => Some(Instruction::JMP(AddrTypeFive::nX)),
            0x63 => Some(Instruction::JMP(AddrTypeFive::AX)),
            0x73 => Some(Instruction::JMP(AddrTypeFive::nY)),
            0x83 => Some(Instruction::JMP(AddrTypeFive::AY)),
            0x34 => Some(Instruction::JSR(AddrTypeFive::Addr)),
            0x54 => Some(Instruction::JSR(AddrTypeFive::nX)),
            0x64 => Some(Instruction::JSR(AddrTypeFive::AX)),
            0x74 => Some(Instruction::JSR(AddrTypeFive::nY)),
            0x84 => Some(Instruction::JSR(AddrTypeFive::AY)),
            0xF0 => Some(Instruction::LDA(LdaAddr::Data)),
            0xF1 => Some(Instruction::LDA(LdaAddr::Addr)),
            0xF2 => Some(Instruction::LDA(LdaAddr::nSP)),
            0xF3 => Some(Instruction::LDA(LdaAddr::nX)),
            0xF4 => Some(Instruction::LDA(LdaAddr::AX)),
            0xF5 => Some(Instruction::LDA(LdaAddr::Xplus)),
            0xF6 => Some(Instruction::LDA(LdaAddr::Xminus)),
            0xF7 => Some(Instruction::LDA(LdaAddr::plusX)),
            0xF8 => Some(Instruction::LDA(LdaAddr::minusX)),
            0xF9 => Some(Instruction::LDA(LdaAddr::nY)),
            0xFA => Some(Instruction::LDA(LdaAddr::AY)),
            0xFB => Some(Instruction::LDA(LdaAddr::Yplus)),
            0xFC => Some(Instruction::LDA(LdaAddr::Yminus)),
            0xFD => Some(Instruction::LDA(LdaAddr::plusY)),
            0xFE => Some(Instruction::LDA(LdaAddr::minusY)),
            0x90 => Some(Instruction::LDX(AddrTypeTwo::Data)),
            0xA0 => Some(Instruction::LDX(AddrTypeTwo::Addr)),
            0xB0 => Some(Instruction::LDX(AddrTypeTwo::nSP)),
            0xC0 => Some(Instruction::LDX(AddrTypeTwo::nX)),
            0xD0 => Some(Instruction::LDX(AddrTypeTwo::nY)),
            0x91 => Some(Instruction::LDY(AddrTypeTwo::Data)),
            0xA1 => Some(Instruction::LDY(AddrTypeTwo::Addr)),
            0xB1 => Some(Instruction::LDY(AddrTypeTwo::nSP)),
            0xC1 => Some(Instruction::LDY(AddrTypeTwo::nX)),
            0xD1 => Some(Instruction::LDY(AddrTypeTwo::nY)),
            0x92 => Some(Instruction::LDSP(AddrTypeTwo::Data)),
            0xA2 => Some(Instruction::LDSP(AddrTypeTwo::Addr)),
            0xB2 => Some(Instruction::LDSP(AddrTypeTwo::nSP)),
            0xC2 => Some(Instruction::LDSP(AddrTypeTwo::nX)),
            0xD2 => Some(Instruction::LDSP(AddrTypeTwo::nY)),
            0xCC => Some(Instruction::LEAX(LeaxAddr::nX)),
            0xDC => Some(Instruction::LEAX(LeaxAddr::nSP)),
            0xCD => Some(Instruction::LEAY(LeayAddr::nY)),
            0xDD => Some(Instruction::LEAY(LeayAddr::nSP)),
            0xBE => Some(Instruction::LEASP(LeaspAddr::nSP)),
            0xCE => Some(Instruction::LEASP(LeaspAddr::nX)),
            0xDE => Some(Instruction::LEASP(LeaspAddr::nY)),
            0x0C => Some(Instruction::LSRA),
            0x3C => Some(Instruction::LSR(AddrTypeThree::Addr)),
            0x4C => Some(Instruction::LSR(AddrTypeThree::nSP)),
            0x5C => Some(Instruction::LSR(AddrTypeThree::nX)),
            0x6C => Some(Instruction::LSR(AddrTypeThree::AX)),
            0x7C => Some(Instruction::LSR(AddrTypeThree::nY)),
            0x8C => Some(Instruction::LSR(AddrTypeThree::AY)),
            0x06 => Some(Instruction::NEGA),
            0x36 => Some(Instruction::NEG(AddrTypeThree::Addr)),
            0x46 => Some(Instruction::NEG(AddrTypeThree::nSP)),
            0x56 => Some(Instruction::NEG(AddrTypeThree::nX)),
            0x66 => Some(Instruction::NEG(AddrTypeThree::AX)),
            0x76 => Some(Instruction::NEG(AddrTypeThree::nY)),
            0x86 => Some(Instruction::NEG(AddrTypeThree::AY)),
            0x00 => Some(Instruction::NOP),
            0x9A => Some(Instruction::ORA(AddrTypeTwo::Data)),
            0xAA => Some(Instruction::ORA(AddrTypeTwo::Addr)),
            0xBA => Some(Instruction::ORA(AddrTypeTwo::nSP)),
            0xCA => Some(Instruction::ORA(AddrTypeTwo::nX)),
            0xDA => Some(Instruction::ORA(AddrTypeTwo::nY)),
            0x02 => Some(Instruction::ORCC),
            0x10 => Some(Instruction::PSHA),
            0x11 => Some(Instruction::PSHX),
            0x12 => Some(Instruction::PSHY),
            0x13 => Some(Instruction::PSHCC),
            0x14 => Some(Instruction::PULA),
            0x15 => Some(Instruction::PULX),
            0x16 => Some(Instruction::PULY),
            0x17 => Some(Instruction::PULCC),
            0x0D => Some(Instruction::ROLA),
            0x3D => Some(Instruction::ROL(AddrTypeThree::Addr)),
            0x4D => Some(Instruction::ROL(AddrTypeThree::nSP)),
            0x5D => Some(Instruction::ROL(AddrTypeThree::nX)),
            0x6D => Some(Instruction::ROL(AddrTypeThree::AX)),
            0x7D => Some(Instruction::ROL(AddrTypeThree::nY)),
            0x8D => Some(Instruction::ROL(AddrTypeThree::AY)),
            0x0E => Some(Instruction::RORA),
            0x3E => Some(Instruction::ROR(AddrTypeThree::Addr)),
            0x4E => Some(Instruction::ROR(AddrTypeThree::nSP)),
            0x5E => Some(Instruction::ROR(AddrTypeThree::nX)),
            0x6E => Some(Instruction::ROR(AddrTypeThree::AX)),
            0x7E => Some(Instruction::ROR(AddrTypeThree::nY)),
            0x8E => Some(Instruction::ROR(AddrTypeThree::AY)),
            0x43 => Some(Instruction::RTS),
            0x44 => Some(Instruction::RTI),
            0x93 => Some(Instruction::SBCA(AddrTypeTwo::Data)),
            0xA3 => Some(Instruction::SBCA(AddrTypeTwo::Addr)),
            0xB3 => Some(Instruction::SBCA(AddrTypeTwo::nSP)),
            0xC3 => Some(Instruction::SBCA(AddrTypeTwo::nX)),
            0xD3 => Some(Instruction::SBCA(AddrTypeTwo::nY)),
            0xE1 => Some(Instruction::STA(StaAddr::Addr)),
            0xE2 => Some(Instruction::STA(StaAddr::nSP)),
            0xE3 => Some(Instruction::STA(StaAddr::nX)),
            0xE4 => Some(Instruction::STA(StaAddr::AX)),
            0xE5 => Some(Instruction::STA(StaAddr::Xplus)),
            0xE6 => Some(Instruction::STA(StaAddr::Xminus)),
            0xE7 => Some(Instruction::STA(StaAddr::plusX)),
            0xE8 => Some(Instruction::STA(StaAddr::minusX)),
            0xE9 => Some(Instruction::STA(StaAddr::nY)),
            0xEA => Some(Instruction::STA(StaAddr::AY)),
            0xEB => Some(Instruction::STA(StaAddr::Yplus)),
            0xEC => Some(Instruction::STA(StaAddr::Yminus)),
            0xED => Some(Instruction::STA(StaAddr::plusY)),
            0xEE => Some(Instruction::STA(StaAddr::minusY)),
            0x30 => Some(Instruction::STX(AddrTypeOne::Addr)),
            0x40 => Some(Instruction::STX(AddrTypeOne::nSP)),
            0x50 => Some(Instruction::STX(AddrTypeOne::nX)),
            0x60 => Some(Instruction::STX(AddrTypeOne::AX)),
            0x70 => Some(Instruction::STX(AddrTypeOne::nY)),
            0x80 => Some(Instruction::STX(AddrTypeOne::AY)),
            0x31 => Some(Instruction::STY(AddrTypeOne::Addr)),
            0x41 => Some(Instruction::STY(AddrTypeOne::nSP)),
            0x51 => Some(Instruction::STY(AddrTypeOne::nX)),
            0x61 => Some(Instruction::STY(AddrTypeOne::AX)),
            0x71 => Some(Instruction::STY(AddrTypeOne::nY)),
            0x81 => Some(Instruction::STY(AddrTypeOne::AY)),
            0x32 => Some(Instruction::STSP(AddrTypeOne::Addr)),
            0x42 => Some(Instruction::STSP(AddrTypeOne::nSP)),
            0x52 => Some(Instruction::STSP(AddrTypeOne::nX)),
            0x62 => Some(Instruction::STSP(AddrTypeOne::AX)),
            0x72 => Some(Instruction::STSP(AddrTypeOne::nY)),
            0x82 => Some(Instruction::STSP(AddrTypeOne::AY)),
            0x94 => Some(Instruction::SUBA(AddrTypeTwo::Data)),
            0xA4 => Some(Instruction::SUBA(AddrTypeTwo::Addr)),
            0xB4 => Some(Instruction::SUBA(AddrTypeTwo::nSP)),
            0xC4 => Some(Instruction::SUBA(AddrTypeTwo::nX)),
            0xD4 => Some(Instruction::SUBA(AddrTypeTwo::nY)),
            0x18 => Some(Instruction::TFR(TfrAddr::ACC)),
            0x19 => Some(Instruction::TFR(TfrAddr::CCA)),
            0x1A => Some(Instruction::TFR(TfrAddr::XY)),
            0x1B => Some(Instruction::TFR(TfrAddr::YX)),
            0x1C => Some(Instruction::TFR(TfrAddr::XSP)),
            0x1D => Some(Instruction::TFR(TfrAddr::SPX)),
            0x1E => Some(Instruction::TFR(TfrAddr::YSP)),
            0x1F => Some(Instruction::TFR(TfrAddr::SPY)),
            0x09 => Some(Instruction::TSTA),
            0x39 => Some(Instruction::TST(AddrTypeOne::Addr)),
            0x49 => Some(Instruction::TST(AddrTypeOne::nSP)),
            0x59 => Some(Instruction::TST(AddrTypeOne::nX)),
            0x69 => Some(Instruction::TST(AddrTypeOne::AX)),
            0x79 => Some(Instruction::TST(AddrTypeOne::nY)),
            0x89 => Some(Instruction::TST(AddrTypeOne::AY)),
            _ => None,
        }
    }

    /// The byte that encodes an instruction.
    pub open spec fn spec_encode(self) -> u8 {
        match self {
            Instruction::ADCA(AddrTypeTwo::Data) => 0x95,
            Instruction::ADCA(AddrTypeTwo::Addr) => 0xA5,
            Instruction::ADCA(AddrTypeTwo::nSP) => 0xB5,
            Instruction::ADCA(AddrTypeTwo::nX) => 0xC5,
            Instruction::ADCA(AddrTypeTwo::nY) => 0xD5,
            Instruction::ADDA(AddrTypeTwo::Data) => 0x96,
            Instruction::ADDA(AddrTypeTwo::Addr) => 0xA6,
            Instruction::ADDA(AddrTypeTwo::nSP) => 0xB6,
            Instruction::ADDA(AddrTypeTwo::nX) => 0xC6,
            Instruction::ADDA(AddrTypeTwo::nY) => 0xD6,
            Instruction::ANDA(AddrTypeTwo::Data) => 0x99,
            Instruction::ANDA(AddrTypeTwo::Addr) => 0xA9,
            Instruction::ANDA(AddrTypeTwo::nSP) => 0xB9,
            Instruction::ANDA(AddrTypeTwo::nX) => 0xC9,
            Instruction::ANDA(AddrTypeTwo::nY) => 0xD9,
            Instruction::ANDCC => 0x01,
            Instruction::ASLA => 0x0B,
            Instruction::ASL(AddrTypeThree::Addr) => 0x3B,
            Instruction::ASL(AddrTypeThree::nSP) => 0x4B,
            Instruction::ASL(AddrTypeThree::nX) => 0x5B,
            Instruction::ASL(AddrTypeThree::AX) => 0x6B,
            Instruction::ASL(AddrTypeThree::nY) => 0x7B,
            Instruction::ASL(AddrTypeThree::AY) => 0x8B,
            Instruction::ASRA => 0x0F,
            Instruction::ASR(AddrTypeThree::Addr) => 0x3F,
            Instruction::ASR(AddrTypeThree::nSP) => 0x4F,
            Instruction::ASR(AddrTypeThree::nX) => 0x5F,
            Instruction::ASR(AddrTypeThree::AX) => 0x6F,
            Instruction::ASR(AddrTypeThree::nY) => 0x7F,
            Instruction::ASR(AddrTypeThree::AY) => 0x8F,
            Instruction::BCC => 0x29,
            Instruction::BCS => 0x28,
            Instruction::BEQ => 0x24,
            Instruction::BGE => 0x2D,
            Instruction::BGT => 0x2C,
            Instruction::BHI => 0x2A,
            Instruction::BITA(AddrTypeTwo::Data) => 0x98,
            Instruction::BITA(AddrTypeTwo::Addr) => 0xA8,
            Instruction::BITA(AddrTypeTwo::nSP) => 0xB8,
            Instruction::BITA(AddrTypeTwo::nX) => 0xC8,
            Instruction::BITA(AddrTypeTwo::nY) => 0xD8,
            Instruction::BLE => 0x2E,
            Instruction::BLS => 0x2B,
            Instruction::BLT => 0x2F,
            Instruction::BMI => 0x22,
            Instruction::BNE => 0x25,
            Instruction::BPL => 0x23,
            Instruction::BRA => 0x21,
            Instruction::BSR => 0x20,
            Instruction::BVC => 0x27,
            Instruction::BVS => 0x26,
            Instruction::CLRA => 0x05,
            Instruction::CLR(AddrTypeThree::Addr) => 0x35,
            Instruction::CLR(AddrTypeThree::nSP) => 0x45,
            Instruction::CLR(AddrTypeThree::nX) => 0x55,
            Instruction::CLR(AddrTypeThree::AX) => 0x65,
            Instruction::CLR(AddrTypeThree::nY) => 0x75,
            Instruction::CLR(AddrTypeThree::AY) => 0x85,
            Instruction::CMPA(AddrTypeTwo::Data) => 0x97,
            Instruction::CMPA(AddrTypeTwo::Addr) => 0xA7,
            Instruction::CMPA(AddrTypeTwo::nSP) => 0xB7,
            Instruction::CMPA(AddrTypeTwo::nX) => 0xC7,
            Instruction::CMPA(AddrTypeTwo::nY) => 0xD7,
            Instruction::CMPX(AddrTypeFour::Data) => 0x9C,
            Instruction::CMPX(AddrTypeFour::Addr) => 0xAC,
            Instruction::CMPX(AddrTypeFour::nSP) => 0xBC,
            Instruction::CMPY(AddrTypeFour::Data) => 0x9D,
            Instruction::CMPY(AddrTypeFour::Addr) => 0xAD,
            Instruction::CMPY(AddrTypeFour::nSP) => 0xBD,
            Instruction::CMPSP(CmpspAddr::Data) => 0x9E,
            Instruction::CMPSP(CmpspAddr::Addr) => 0xAE,
            Instruction::COMA => 0x0A,
            Instruction::COM(AddrTypeThree::Addr) => 0x3A,
            Instruction::COM(AddrTypeThree::nSP) => 0x4A,
            Instruction::COM(AddrTypeThree::nX) => 0x5A,
            Instruction::COM(AddrTypeThree::AX) => 0x6A,
            Instruction::COM(AddrTypeThree::nY) => 0x7A,
            Instruction::COM(AddrTypeThree::AY) => 0x8A,
            Instruction::DECA => 0x08,
            Instruction::DEC(AddrTypeThree::Addr) => 0x38,
            Instruction::DEC(AddrTypeThree::nSP) => 0x48,
            Instruction::DEC(AddrTypeThree::nX) => 0x58,
            Instruction::DEC(AddrTypeThree::AX) => 0x68,
            Instruction::DEC(AddrTypeThree::nY) => 0x78,
            Instruction::DEC(AddrTypeThree::AY) => 0x88,
            Instruction::EORA(AddrTypeTwo::Data) => 0x9B,
            Instruction::EORA(AddrTypeTwo::Addr) => 0xAB,
            Instruction::EORA(AddrTypeTwo::nSP) => 0xBB,
            Instruction::EORA(AddrTypeTwo::nX) => 0xCB,
            Instruction::EORA(AddrTypeTwo::nY) => 0xDB,
            Instruction::EXG(ExgAddr::ACC) => 0x9F,
            Instruction::EXG(ExgAddr::XY) => 0xAF,
            Instruction::EXG(ExgAddr::XSP) => 0xBF,
            Instruction::EXG(ExgAddr::YSP) => 0xCF,
            Instruction::INCA => 0x07,
            Instruction::INC(AddrTypeThree::Addr) => 0x37,
            Instruction::INC(AddrTypeThree::nSP) => 0x47,
            Instruction::INC(AddrTypeThree::nX) => 0x57,
            Instruction::INC(AddrTypeThree::AX) => 0x67,
            Instruction::INC(AddrTypeThree::nY) => 0x77,
            Instruction::INC(AddrTypeThree::AY) => 0x87,
            Instruction::JMP(AddrTypeFive::Addr) => 0x33,
            Instruction::JMP(AddrTypeFive::nX) => 0x53,
            Instruction::JMP(AddrTypeFive::AX) => 0x63,
            Instruction::JMP(AddrTypeFive::nY) => 0x73,
            Instruction::JMP(AddrTypeFive::AY) => 0x83,
            Instruction::JSR(AddrTypeFive::Addr) => 0x34,
            Instruction::JSR(AddrTypeFive::nX) => 0x54,
            Instruction::JSR(AddrTypeFive::AX) => 0x64,
            Instruction::JSR(AddrTypeFive::nY) => 0x74,
            Instruction::JSR(AddrTypeFive::AY) => 0x84,
            Instruction::LDA(LdaAddr::Data) => 0xF0,
            Instruction::LDA(LdaAddr::Addr) => 0xF1,
            Instruction::LDA(LdaAddr::nSP) => 0xF2,
            Instruction::LDA(LdaAddr::nX) => 0xF3,
            Instruction::LDA(LdaAddr::AX) => 0xF4,
            Instruction::LDA(LdaAddr::Xplus) => 0xF5,
            Instruction::LDA(LdaAddr::Xminus) => 0xF6,
            Instruction::LDA(LdaAddr::plusX) => 0xF7,
            Instruction::LDA(LdaAddr::minusX) => 0xF8,
            Instruction::LDA(LdaAddr::nY) => 0xF9,
            Instruction::LDA(LdaAddr::AY) => 0xFA,
            Instruction::LDA(LdaAddr::Yplus) => 0xFB,
            Instruction::LDA(LdaAddr::Yminus) => 0xFC,
            Instruction::LDA(LdaAddr::plusY) => 0xFD,
            Instruction::LDA(LdaAddr::minusY) => 0xFE,
            Instruction::LDX(AddrTypeTwo::Data) => 0x90,
            Instruction::LDX(AddrTypeTwo::Addr) => 0xA0,
            Instruction::LDX(AddrTypeTwo::nSP) => 0xB0,
            Instruction::LDX(AddrTypeTwo::nX) => 0xC0,
            Instruction::LDX(AddrTypeTwo::nY) => 0xD0,
            Instruction::LDY(AddrTypeTwo::Data) => 0x91,
            Instruction::LDY(AddrTypeTwo::Addr) => 0xA1,
            Instruction::LDY(AddrTypeTwo::nSP) => 0xB1,
            Instruction::LDY(AddrTypeTwo::nX) => 0xC1,
            Instruction::LDY(AddrTypeTwo::nY) => 0xD1,
            Instruction::LDSP(AddrTypeTwo::Data) => 0x92,
            Instruction::LDSP(AddrTypeTwo::Addr) => 0xA2,
            Instruction::LDSP(AddrTypeTwo::nSP) => 0xB2,
            Instruction::LDSP(AddrTypeTwo::nX) => 0xC2,
            Instruction::LDSP(AddrTypeTwo::nY) => 0xD2,
            Instruction::LEAX(LeaxAddr::nX) => 0xCC,
            Instruction::LEAX(LeaxAddr::nSP) => 0xDC,
            Instruction::LEAY(LeayAddr::nY) => 0xCD,
            Instruction::LEAY(LeayAddr::nSP) => 0xDD,
            Instruction::LEASP(LeaspAddr::nSP) => 0xBE,
            Instruction::LEASP(LeaspAddr::nX) => 0xCE,
            Instruction::LEASP(LeaspAddr::nY) => 0xDE,
            Instruction::LSRA => 0x0C,
            Instruction::LSR(AddrTypeThree::Addr) => 0x3C,
            Instruction::LSR(AddrTypeThree::nSP) => 0x4C,
            Instruction::LSR(AddrTypeThree::nX) => 0x5C,
            Instruction::LSR(AddrTypeThree::AX) => 0x6C,
            Instruction::LSR(AddrTypeThree::nY) => 0x7C,
            Instruction::LSR(AddrTypeThree::AY) => 0x8C,
            Instruction::NEGA => 0x06,
            Instruction::NEG(AddrTypeThree::Addr) => 0x36,
            Instruction::NEG(AddrTypeThree::nSP) => 0x46,
            Instruction::NEG(AddrTypeThree::nX) => 0x56,
            Instruction::NEG(AddrTypeThree::AX) => 0x66,
            Instruction::NEG(AddrTypeThree::nY) => 0x76,
            Instruction::NEG(AddrTypeThree::AY) => 0x86,
            Instruction::NOP => 0x00,
            Instruction::ORA(AddrTypeTwo::Data) => 0x9A,
            Instruction::ORA(AddrTypeTwo::Addr) => 0xAA,
            Instruction::ORA(AddrTypeTwo::nSP) => 0xBA,
            Instruction::ORA(AddrTypeTwo::nX) => 0xCA,
            Instruction::ORA(AddrTypeTwo::nY) => 0xDA,
            Instruction::ORCC => 0x02,
            Instruction::PSHA => 0x10,
            Instruction::PSHX => 0x11,
            Instruction::PSHY => 0x12,
            Instruction::PSHCC => 0x13,
            Instruction::PULA => 0x14,
            Instruction::PULX => 0x15,
            Instruction::PULY => 0x16,
            Instruction::PULCC => 0x17,
            Instruction::ROLA => 0x0D,
            Instruction::ROL(AddrTypeThree::Addr) => 0x3D,
            Instruction::ROL(AddrTypeThree::nSP) => 0x4D,
            Instruction::ROL(AddrTypeThree::nX) => 0x5D,
            Instruction::ROL(AddrTypeThree::AX) => 0x6D,
            Instruction::ROL(AddrTypeThree::nY) => 0x7D,
            Instruction::ROL(AddrTypeThree::AY) => 0x8D,
            Instruction::RORA => 0x0E,
            Instruction::ROR(AddrTypeThree::Addr) => 0x3E,
            Instruction::ROR(AddrTypeThree::nSP) => 0x4E,
            Instruction::ROR(AddrTypeThree::nX) => 0x5E,
            Instruction::ROR(AddrTypeThree::AX) => 0x6E,
            Instruction::ROR(AddrTypeThree::nY) => 0x7E,
            Instruction::ROR(AddrTypeThree::AY) => 0x8E,
            Instruction::RTS => 0x43,
            Instruction::RTI => 0x44,
            Instruction::SBCA(AddrTypeTwo::Data) => 0x93,
            Instruction::SBCA(AddrTypeTwo::Addr) => 0xA3,
            Instruction::SBCA(AddrTypeTwo::nSP) => 0xB3,
            Instruction::SBCA(AddrTypeTwo::nX) => 0xC3,
            Instruction::SBCA(AddrTypeTwo::nY) => 0xD3,
            Instruction::STA(StaAddr::Addr) => 0xE1,
            Instruction::STA(StaAddr::nSP) => 0xE2,
            Instruction::STA(StaAddr::nX) => 0xE3,
            Instruction::STA(StaAddr::AX) => 0xE4,
            Instruction::STA(StaAddr::Xplus) => 0xE5,
            Instruction::STA(StaAddr::Xminus) => 0xE6,
            Instruction::STA(StaAddr::plusX) => 0xE7,
            Instruction::STA(StaAddr::minusX) => 0xE8,
            Instruction::STA(StaAddr::nY) => 0xE9,
            Instruction::STA(StaAddr::AY) => 0xEA,
            Instruction::STA(StaAddr::Yplus) => 0xEB,
            Instruction::STA(StaAddr::Yminus) => 0xEC,
            Instruction::STA(StaAddr::plusY) => 0xED,
            Instruction::STA(StaAddr::minusY) => 0xEE,
            Instruction::STX(AddrTypeOne::Addr) => 0x30,
            Instruction::STX(AddrTypeOne::nSP) => 0x40,
            Instruction::STX(AddrTypeOne::nX) => 0x50,
            Instruction::STX(AddrTypeOne::AX) => 0x60,
            Instruction::STX(AddrTypeOne::nY) => 0x70,
            Instruction::STX(AddrTypeOne::AY) => 0x80,
            Instruction::STY(AddrTypeOne::Addr) => 0x31,
            Instruction::STY(AddrTypeOne::nSP) => 0x41,
            Instruction::STY(AddrTypeOne::nX) => 0x51,
            Instruction::STY(AddrTypeOne::AX) => 0x61,
            Instruction::STY(AddrTypeOne::nY) => 0x71,
            Instruction::STY(AddrTypeOne::AY) => 0x81,
            Instruction::STSP(AddrTypeOne::Addr) => 0x32,
            Instruction::STSP(AddrTypeOne::nSP) => 0x42,
            Instruction::STSP(AddrTypeOne::nX) => 0x52,
            Instruction::STSP(AddrTypeOne::AX) => 0x62,
            Instruction::STSP(AddrTypeOne::nY) => 0x72,
            Instruction::STSP(AddrTypeOne::AY) => 0x82,
            Instruction::SUBA(AddrTypeTwo::Data) => 0x94,
            Instruction::SUBA(AddrTypeTwo::Addr) => 0xA4,
            Instruction::SUBA(AddrTypeTwo::nSP) => 0xB4,
            Instruction::SUBA(AddrTypeTwo::nX) => 0xC4,
            Instruction::SUBA(AddrTypeTwo::nY) => 0xD4,
            Instruction::TFR(TfrAddr::ACC) => 0x18,
            Instruction::TFR(TfrAddr::CCA) => 0x19,
            Instruction::TFR(TfrAddr::XY) => 0x1A,
            Instruction::TFR(TfrAddr::YX) => 0x1B,
            Instruction::TFR(TfrAddr::XSP) => 0x1C,
            Instruction::TFR(TfrAddr::SPX) => 0x1D,
            Instruction::TFR(TfrAddr::YSP) => 0x1E,
            Instruction::TFR(TfrAddr::SPY) => 0x1F,
            Instruction::TSTA => 0x09,
            Instruction::TST(AddrTypeOne::Addr) => 0x39,
            Instruction::TST(AddrTypeOne::nSP) => 0x49,
            Instruction::TST(AddrTypeOne::nX) => 0x59,
            Instruction::TST(AddrTypeOne::AX) => 0x69,
            Instruction::TST(AddrTypeOne::nY) => 0x79,
            Instruction::TST(AddrTypeOne::AY) => 0x89,
        }
    }

    /// Decodes one opcode byte.
    pub fn decode(b: u8) -> (r: Result<Instruction, FlispError>)
        ensures
            match Self::spec_decode(b) {
                Some(i) => r == Ok::<Instruction, FlispError>(i),
                None => r == Err::<Instruction, FlispError>(FlispError::InvalidOpCode(b as u32)),
            },
    {
        let decoded = if b < 0x40 {
            Self::decode_below_40(b)
        } else if b < 0x80 {
            Self::decode_below_80(b)
        } else if b < 0xC0 {
            Self::decode_below_c0(b)
        } else {
            Self::decode_from_c0(b)
        };
        match decoded {
            Some(i) => Ok(i),
            None => Err(FlispError::InvalidOpCode(b as u32)),
        }
    }

    /// Decodes a byte in 0x00..=0x3F.
    fn decode_below_40(b: u8) -> (r: Option<Instruction>)
        requires
            b < 0x40,
        ensures
            r == Self::spec_decode(b),
    {
        match b {
            0x01 => Some(Instruction::ANDCC),
            0x0B => Some(Instruction::ASLA),
            0x3B => Some(Instruction::ASL(AddrTypeThree::Addr)),
            0x0F => Some(Instruction::ASRA),
            0x3F => Some(Instruction::ASR(AddrTypeThree::Addr)),
            0x29 => Some(Instruction::BCC),
            0x28 => Some(Instruction::BCS),
            0x24 => Some(Instruction::BEQ),
            0x2D => Some(Instruction::BGE),
            0x2C => Some(Instruction::BGT),
            0x2A => Some(Instruction::BHI),
            0x2E => Some(Instruction::BLE),
            0x2B => Some(Instruction::BLS),
            0x2F => Some(Instruction::BLT),
            0x22 => Some(Instruction::BMI),
            0x25 => Some(Instruction::BNE),
            0x23 => Some(Instruction::BPL),
            0x21 => Some(Instruction::BRA),
            0x20 => Some(Instruction::BSR),
            0x27 => Some(Instruction::BVC),
            0x26 => Some(Instruction::BVS),
            0x05 => Some(Instruction::CLRA),
            0x35 => Some(Instruction::CLR(AddrTypeThree::Addr)),
            0x0A => Some(Instruction::COMA),
            0x3A => Some(Instruction::COM(AddrTypeThree::Addr)),
            0x08 => Some(Instruction::DECA),
            0x38 => Some(Instruction::DEC(AddrTypeThree::Addr)),
            0x07 => Some(Instruction::INCA),
            0x37 => Some(Instruction::INC(AddrTypeThree::Addr)),
            0x33 => Some(Instruction::JMP(AddrTypeFive::Addr)),
            0x34 => Some(Instruction::JSR(AddrTypeFive::Addr)),
            0x0C => Some(Instruction::LSRA),
            0x3C => Some(Instruction::LSR(AddrTypeThree::Addr)),
            0x06 => Some(Instruction::NEGA),
            0x36 => Some(Instruction::NEG(AddrTypeThree::Addr)),
            0x00 => Some(Instruction::NOP),
            0x02 => Some(Instruction::ORCC),
            0x10 => Some(Instruction::PSHA),
            0x11 => Some(Instruction::PSHX),
            0x12 => Some(Instruction::PSHY),
            0x13 => Some(Instruction::PSHCC),
            0x14 => Some(Instruction::PULA),
            0x15 => Some(Instruction::PULX),
            0x16 => Some(Instruction::PULY),
            0x17 => Some(Instruction::PULCC),
            0x0D => Some(Instruction::ROLA),
            0x3D => Some(Instruction::ROL(AddrTypeThree::Addr)),
            0x0E => Some(Instruction::RORA),
            0x3E => Some(Instruction::ROR(AddrTypeThree::Addr)),
            0x30 => Some(Instruction::STX(AddrTypeOne::Addr)),
            0x31 => Some(Instruction::STY(AddrTypeOne::Addr)),
            0x32 => Some(Instruction::STSP(AddrTypeOne::Addr)),
            0x18 => Some(Instruction::TFR(TfrAddr::ACC)),
            0x19 => Some(Instruction::TFR(TfrAddr::CCA)),
            0x1A => Some(Instruction::TFR(TfrAddr::XY)),
            0x1B => Some(Instruction::TFR(TfrAddr::YX)),
            0x1C => Some(Instruction::TFR(TfrAddr::XSP)),
            0x1D => Some(Instruction::TFR(TfrAddr::SPX)),
            0x1E => Some(Instruction::TFR(TfrAddr::YSP)),
            0x1F => Some(Instruction::TFR(TfrAddr::SPY)),
            0x09 => Some(Instruction::TSTA),
            0x39 => Some(Instruction::TST(AddrTypeOne::Addr)),
            _ => None,
        }
    }

    /// Decodes a byte in 0x40..=0x7F.
    fn decode_below_80(b: u8) -> (r: Option<Instruction>)
        requires
            0x40 <= b,
            b < 0x80,
        ensures
            r == Self::spec_decode(b),
    {
        match b {
            0x4B => Some(Instruction::ASL(AddrTypeThree::nSP)),
            0x5B => Some(Instruction::ASL(AddrTypeThree::nX)),
            0x6B => Some(Instruction::ASL(AddrTypeThree::AX)),
            0x7B => Some(Instruction::ASL(AddrTypeThree::nY)),
            0x4F => Some(Instruction::ASR(AddrTypeThree::nSP)),
            0x5F => Some(Instruction::ASR(AddrTypeThree::nX)),
            0x6F => Some(Instruction::ASR(AddrTypeThree::AX)),
            0x7F => Some(Instruction::ASR(AddrTypeThree::nY)),
            0x45 => Some(Instruction::CLR(AddrTypeThree::nSP)),
            0x55 => Some(Instruction::CLR(AddrTypeThree::nX)),
            0x65 => Some(Instruction::CLR(AddrTypeThree::AX)),
            0x75 => Some(Instruction::CLR(AddrTypeThree::nY)),
            0x4A => Some(Instruction::COM(AddrTypeThree::nSP)),
            0x5A => Some(Instruction::COM(AddrTypeThree::nX)),
            0x6A => Some(Instruction::COM(AddrTypeThree::AX)),
            0x7A => Some(Instruction::COM(AddrTypeThree::nY)),
            0x48 => Some(Instruction::DEC(AddrTypeThree::nSP)),
            0x58 => Some(Instruction::DEC(AddrTypeThree::nX)),
            0x68 => Some(Instruction::DEC(AddrTypeThree::AX)),
            0x78 => Some(Instruction::DEC(AddrTypeThree::nY)),
            0x47 => Some(Instruction::INC(AddrTypeThree::nSP)),
            0x57 => Some(Instruction::INC(AddrTypeThree::nX)),
            0x67 => Some(Instruction::INC(AddrTypeThree::AX)),
            0x77 => Some(Instruction::INC(AddrTypeThree::nY)),
            0x53 => Some(Instruction::JMP(AddrTypeFive::nX)),
            0x63 => Some(Instruction::JMP(AddrTypeFive::AX)),
            0x73 => Some(Instruction::JMP(AddrTypeFive::nY)),
            0x54 => Some(Instruction::JSR(AddrTypeFive::nX)),
            0x64 => Some(Instruction::JSR(AddrTypeFive::AX)),
            0x74 => Some(Instruction::JSR(AddrTypeFive::nY)),
            0x4C => Some(Instruction::LSR(AddrTypeThree::nSP)),
            0x5C => Some(Instruction::LSR(AddrTypeThree::nX)),
            0x6C => Some(Instruction::LSR(AddrTypeThree::AX)),
            0x7C => Some(Instruction::LSR(AddrTypeThree::nY)),
            0x46 => Some(Instruction::NEG(AddrTypeThree::nSP)),
            0x56 => Some(Instruction::NEG(AddrTypeThree::nX)),
            0x66 => Some(Instruction::NEG(AddrTypeThree::AX)),
            0x76 => Some(Instruction::NEG(AddrTypeThree::nY)),
            0x4D => Some(Instruction::ROL(AddrTypeThree::nSP)),
            0x5D => Some(Instruction::ROL(AddrTypeThree::nX)),
            0x6D => Some(Instruction::ROL(AddrTypeThree::AX)),
            0x7D => Some(Instruction::ROL(AddrTypeThree::nY)),
            0x4E => Some(Instruction::ROR(AddrTypeThree::nSP)),
            0x5E => Some(Instruction::ROR(AddrTypeThree::nX)),
            0x6E => Some(Instruction::ROR(AddrTypeThree::AX)),
            0x7E => Some(Instruction::ROR(AddrTypeThree::nY)),
            0x43 => Some(Instruction::RTS),
            0x44 => Some(Instruction::RTI),
            0x40 => Some(Instruction::STX(AddrTypeOne::nSP)),
            0x50 => Some(Instruction::STX(AddrTypeOne::nX)),
            0x60 => Some(Instruction::STX(AddrTypeOne::AX)),
            0x70 => Some(Instruction::STX(AddrTypeOne::nY)),
            0x41 => Some(Instruction::STY(AddrTypeOne::nSP)),
            0x51 => Some(Instruction::STY(AddrTypeOne::nX)),
            0x61 => Some(Instruction::STY(AddrTypeOne::AX)),
            0x71 => Some(Instruction::STY(AddrTypeOne::nY)),
            0x42 => Some(Instruction::STSP(AddrTypeOne::nSP)),
            0x52 => Some(Instruction::STSP(AddrTypeOne::nX)),
            0x62 => Some(Instruction::STSP(AddrTypeOne::AX)),
            0x72 => Some(Instruction::STSP(AddrTypeOne::nY)),
            0x49 => Some(Instruction::TST(AddrTypeOne::nSP)),
            0x59 => Some(Instruction::TST(AddrTypeOne::nX)),
            0x69 => Some(Instruction::TST(AddrTypeOne::AX)),
            0x79 => Some(Instruction::TST(AddrTypeOne::nY)),
            _ => None,
        }
    }

    /// Decodes a byte in 0x80..=0xBF.
    fn decode_below_c0(b: u8) -> (r: Option<Instruction>)
        requires
            0x80 <= b,
            b < 0xC0,
        ensures
            r == Self::spec_decode(b),
    {
        match b {
            0x95 => Some(Instruction::ADCA(AddrTypeTwo::Data)),
            0xA5 => Some(Instruction::ADCA(AddrTypeTwo::Addr)),
            0xB5 => Some(Instruction::ADCA(AddrTypeTwo::nSP)),
            0x96 => Some(Instruction::ADDA(AddrTypeTwo::Data)),
            0xA6 => Some(Instruction::ADDA(AddrTypeTwo::Addr)),
            0xB6 => Some(Instruction::ADDA(AddrTypeTwo::nSP)),
            0x99 => Some(Instruction::ANDA(AddrTypeTwo::Data)),
            0xA9 => Some(Instruction::ANDA(AddrTypeTwo::Addr)),
            0xB9 => Some(Instruction::ANDA(AddrTypeTwo::nSP)),
            0x8B => Some(Instruction::ASL(AddrTypeThree::AY)),
            0x8F => Some(Instruction::ASR(AddrTypeThree::AY)),
            0x98 => Some(Instruction::BITA(AddrTypeTwo::Data)),
            0xA8 => Some(Instruction::BITA(AddrTypeTwo::Addr)),
            0xB8 => Some(Instruction::BITA(AddrTypeTwo::nSP)),
            0x85 => Some(Instruction::CLR(AddrTypeThree::AY)),
            0x97 => Some(Instruction::CMPA(AddrTypeTwo::Data)),
            0xA7 => Some(Instruction::CMPA(AddrTypeTwo::Addr)),
            0xB7 => Some(Instruction::CMPA(AddrTypeTwo::nSP)),
            0x9C => Some(Instruction::CMPX(AddrTypeFour::Data)),
            0xAC => Some(Instruction::CMPX(AddrTypeFour::Addr)),
            0xBC => Some(Instruction::CMPX(AddrTypeFour::nSP)),
            0x9D => Some(Instruction::CMPY(AddrTypeFour::Data)),
            0xAD => Some(Instruction::CMPY(AddrTypeFour::Addr)),
            0xBD => Some(Instruction::CMPY(AddrTypeFour::nSP)),
            0x9E => Some(Instruction::CMPSP(CmpspAddr::Data)),
            0xAE => Some(Instruction::CMPSP(CmpspAddr::Addr)),
            0x8A => Some(Instruction::COM(AddrTypeThree::AY)),
            0x88 => Some(Instruction::DEC(AddrTypeThree::AY)),
            0x9B => Some(Instruction::EORA(AddrTypeTwo::Data)),
            0xAB => Some(Instruction::EORA(AddrTypeTwo::Addr)),
            0xBB => Some(Instruction::EORA(AddrTypeTwo::nSP)),
            0x9F => Some(Instruction::EXG(ExgAddr::ACC)),
            0xAF => Some(Instruction::EXG(ExgAddr::XY)),
            0xBF => Some(Instruction::EXG(ExgAddr::XSP)),
            0x87 => Some(Instruction::INC(AddrTypeThree::AY)),
            0x83 => Some(Instruction::JMP(AddrTypeFive::AY)),
            0x84 => Some(Instruction::JSR(AddrTypeFive::AY)),
            0x90 => Some(Instruction::LDX(AddrTypeTwo::Data)),
            0xA0 => Some(Instruction::LDX(AddrTypeTwo::Addr)),
            0xB0 => Some(Instruction::LDX(AddrTypeTwo::nSP)),
            0x91 => Some(Instruction::LDY(AddrTypeTwo::Data)),
            0xA1 => Some(Instruction::LDY(AddrTypeTwo::Addr)),
            0xB1 => Some(Instruction::LDY(AddrTypeTwo::nSP)),
            0x92 => Some(Instruction::LDSP(AddrTypeTwo::Data)),
            0xA2 => Some(Instruction::LDSP(AddrTypeTwo::Addr)),
            0xB2 => Some(Instruction::LDSP(AddrTypeTwo::nSP)),
            0xBE => Some(Instruction::LEASP(LeaspAddr::nSP)),
            0x8C => Some(Instruction::LSR(AddrTypeThree::AY)),
            0x86 => Some(Instruction::NEG(AddrTypeThree::AY)),
            0x9A => Some(Instruction::ORA(AddrTypeTwo::Data)),
            0xAA => Some(Instruction::ORA(AddrTypeTwo::Addr)),
            0xBA => Some(Instruction::ORA(AddrTypeTwo::nSP)),
            0x8D => Some(Instruction::ROL(AddrTypeThree::AY)),
            0x8E => Some(Instruction::ROR(AddrTypeThree::AY)),
            0x93 => Some(Instruction::SBCA(AddrTypeTwo::Data)),
            0xA3 => Some(Instruction::SBCA(AddrTypeTwo::Addr)),
            0xB3 => Some(Instruction::SBCA(AddrTypeTwo::nSP)),
            0x80 => Some(Instruction::STX(AddrTypeOne::AY)),
            0x81 => Some(Instruction::STY(AddrTypeOne::AY)),
            0x82 => Some(Instruction::STSP(AddrTypeOne::AY)),
            0x94 => Some(Instruction::SUBA(AddrTypeTwo::Data)),
            0xA4 => Some(Instruction::SUBA(AddrTypeTwo::Addr)),
            0xB4 => Some(Instruction::SUBA(AddrTypeTwo::nSP)),
            0x89 => Some(Instruction::TST(AddrTypeOne::AY)),
            _ => None,
        }
    }

    /// Decodes a byte in 0xC0..=0xFF.
    fn decode_from_c0(b: u8) -> (r: Option<Instruction>)
        requires
            0xC0 <= b,
        ensures
            r == Self::spec_decode(b),
    {
        match b {
            0xC5 => Some(Instruction::ADCA(AddrTypeTwo::nX)),
            0xD5 => Some(Instruction::ADCA(AddrTypeTwo::nY)),
            0xC6 => Some(Instruction::ADDA(AddrTypeTwo::nX)),
            0xD6 => Some(Instruction::ADDA(AddrTypeTwo::nY)),
            0xC9 => Some(Instruction::ANDA(AddrTypeTwo::nX)),
            0xD9 => Some(Instruction::ANDA(AddrTypeTwo::nY)),
            0xC8 => Some(Instruction::BITA(AddrTypeTwo::nX)),
            0xD8 => Some(Instruction::BITA(AddrTypeTwo::nY)),
            0xC7 => Some(Instruction::CMPA(AddrTypeTwo::nX)),
            0xD7 => Some(Instruction::CMPA(AddrTypeTwo::nY)),
            0xCB => Some(Instruction::EORA(AddrTypeTwo::nX)),
            0xDB => Some(Instruction::EORA(AddrTypeTwo::nY)),
            0xCF => Some(Instruction::EXG(ExgAddr::YSP)),
            0xF0 => Some(Instruction::LDA(LdaAddr::Data)),
            0xF1 => Some(Instruction::LDA(LdaAddr::Addr)),
            0xF2 => Some(Instruction::LDA(LdaAddr::nSP)),
            0xF3 => Some(Instruction::LDA(LdaAddr::nX)),
            0xF4 => Some(Instruction::LDA(LdaAddr::AX)),
            0xF5 => Some(Instruction::LDA(LdaAddr::Xplus)),
            0xF6 => Some(Instruction::LDA(LdaAddr::Xminus)),
            0xF7 => Some(Instruction::LDA(LdaAddr::plusX)),
            0xF8 => Some(Instruction::LDA(LdaAddr::minusX)),
            0xF9 => Some(Instruction::LDA(LdaAddr::nY)),
            0xFA => Some(Instruction::LDA(LdaAddr::AY)),
            0xFB => Some(Instruction::LDA(LdaAddr::Yplus)),
            0xFC => Some(Instruction::LDA(LdaAddr::Yminus)),
            0xFD => Some(Instruction::LDA(LdaAddr::plusY)),
            0xFE => Some(Instruction::LDA(LdaAddr::minusY)),
            0xC0 => Some(Instruction::LDX(AddrTypeTwo::nX)),
            0xD0 => Some(Instruction::LDX(AddrTypeTwo::nY)),
            0xC1 => Some(Instruction::LDY(AddrTypeTwo::nX)),
            0xD1 => Some(Instruction::LDY(AddrTypeTwo::nY)),
            0xC2 => Some(Instruction::LDSP(AddrTypeTwo::nX)),
            0xD2 => Some(Instruction::LDSP(AddrTypeTwo::nY)),
            0xCC => Some(Instruction::LEAX(LeaxAddr::nX)),
            0xDC => Some(Instruction::LEAX(LeaxAddr::nSP)),
            0xCD => Some(Instruction::LEAY(LeayAddr::nY)),
            0xDD => Some(Instruction::LEAY(LeayAddr::nSP)),
            0xCE => Some(Instruction::LEASP(LeaspAddr::nX)),
            0xDE => Some(Instruction::LEASP(LeaspAddr::nY)),
            0xCA => Some(Instruction::ORA(AddrTypeTwo::nX)),
            0xDA => Some(Instruction::ORA(AddrTypeTwo::nY)),
            0xC3 => Some(Instruction::SBCA(AddrTypeTwo::nX)),
            0xD3 => Some(Instruction::SBCA(AddrTypeTwo::nY)),
            0xE1 => Some(Instruction::STA(StaAddr::Addr)),
            0xE2 => Some(Instruction::STA(StaAddr::nSP)),
            0xE3 => Some(Instruction::STA(StaAddr::nX)),
            0xE4 => Some(Instruction::STA(StaAddr::AX)),
            0xE5 => Some(Instruction::STA(StaAddr::Xplus)),
            0xE6 => Some(Instruction::STA(StaAddr::Xminus)),
            0xE7 => Some(Instruction::STA(StaAddr::plusX)),
            0xE8 => Some(Instruction::STA(StaAddr::minusX)),
            0xE9 => Some(Instruction::STA(StaAddr::nY)),
            0xEA => Some(Instruction::STA(StaAddr::AY)),
            0xEB => Some(Instruction::STA(StaAddr::Yplus)),
            0xEC => Some(Instruction::STA(StaAddr::Yminus)),
            0xED => Some(Instruction::STA(StaAddr::plusY)),
            0xEE => Some(Instruction::STA(StaAddr::minusY)),
            0xC4 => Some(Instruction::SUBA(AddrTypeTwo::nX)),
            0xD4 => Some(Instruction::SUBA(AddrTypeTwo::nY)),
            _ => None,
        }
    }

    /// The opcode byte of this instruction.
    pub fn encode(&self) -> (r: u8)
        ensures
            r == self.spec_encode(),
    {
        match self {
            Instruction::ADCA(AddrTypeTwo::Data) => 0x95,
            Instruction::ADCA(AddrTypeTwo::Addr) => 0xA5,
            Instruction::ADCA(AddrTypeTwo::nSP) => 0xB5,
            Instruction::ADCA(AddrTypeTwo::nX) => 0xC5,
            Instruction::ADCA(AddrTypeTwo::nY) => 0xD5,
            Instruction::ADDA(AddrTypeTwo::Data) => 0x96,
            Instruction::ADDA(AddrTypeTwo::Addr) => 0xA6,
            Instruction::ADDA(AddrTypeTwo::nSP) => 0xB6,
            Instruction::ADDA(AddrTypeTwo::nX) => 0xC6,
            Instruction::ADDA(AddrTypeTwo::nY) => 0xD6,
            Instruction::ANDA(AddrTypeTwo::Data) => 0x99,
            Instruction::ANDA(AddrTypeTwo::Addr) => 0xA9,
            Instruction::ANDA(AddrTypeTwo::nSP) => 0xB9,
            Instruction::ANDA(AddrTypeTwo::nX) => 0xC9,
            Instruction::ANDA(AddrTypeTwo::nY) => 0xD9,
            Instruction::ANDCC => 0x01,
            Instruction::ASLA => 0x0B,
            Instruction::ASL(AddrTypeThree::Addr) => 0x3B,
            Instruction::ASL(AddrTypeThree::nSP) => 0x4B,
            Instruction::ASL(AddrTypeThree::nX) => 0x5B,
            Instruction::ASL(AddrTypeThree::AX) => 0x6B,
            Instruction::ASL(AddrTypeThree::nY) => 0x7B,
            Instruction::ASL(AddrTypeThree::AY) => 0x8B,
            Instruction::ASRA => 0x0F,
            Instruction::ASR(AddrTypeThree::Addr) => 0x3F,
            Instruction::ASR(AddrTypeThree::nSP) => 0x4F,
            Instruction::ASR(AddrTypeThree::nX) => 0x5F,
            Instruction::ASR(AddrTypeThree::AX) => 0x6F,
            Instruction::ASR(AddrTypeThree::nY) => 0x7F,
            Instruction::ASR(AddrTypeThree::AY) => 0x8F,
            Instruction::BCC => 0x29,
            Instruction::BCS => 0x28,
            Instruction::BEQ => 0x24,
            Instruction::BGE => 0x2D,
            Instruction::BGT => 0x2C,
            Instruction::BHI => 0x2A,
            Instruction::BITA(AddrTypeTwo::Data) => 0x98,
            Instruction::BITA(AddrTypeTwo::Addr) => 0xA8,
            Instruction::BITA(AddrTypeTwo::nSP) => 0xB8,
            Instruction::BITA(AddrTypeTwo::nX) => 0xC8,
            Instruction::BITA(AddrTypeTwo::nY) => 0xD8,
            Instruction::BLE => 0x2E,
            Instruction::BLS => 0x2B,
            Instruction::BLT => 0x2F,
            Instruction::BMI => 0x22,
            Instruction::BNE => 0x25,
            Instruction::BPL => 0x23,
            Instruction::BRA => 0x21,
            Instruction::BSR => 0x20,
            Instruction::BVC => 0x27,
            Instruction::BVS => 0x26,
            Instruction::CLRA => 0x05,
            Instruction::CLR(AddrTypeThree::Addr) => 0x35,
            Instruction::CLR(AddrTypeThree::nSP) => 0x45,
            Instruction::CLR(AddrTypeThree::nX) => 0x55,
            Instruction::CLR(AddrTypeThree::AX) => 0x65,
            Instruction::CLR(AddrTypeThree::nY) => 0x75,
            Instruction::CLR(AddrTypeThree::AY) => 0x85,
            Instruction::CMPA(AddrTypeTwo::Data) => 0x97,
            Instruction::CMPA(AddrTypeTwo::Addr) => 0xA7,
            Instruction::CMPA(AddrTypeTwo::nSP) => 0xB7,
            Instruction::CMPA(AddrTypeTwo::nX) => 0xC7,
            Instruction::CMPA(AddrTypeTwo::nY) => 0xD7,
            Instruction::CMPX(AddrTypeFour::Data) => 0x9C,
            Instruction::CMPX(AddrTypeFour::Addr) => 0xAC,
            Instruction::CMPX(AddrTypeFour::nSP) => 0xBC,
            Instruction::CMPY(AddrTypeFour::Data) => 0x9D,
            Instruction::CMPY(AddrTypeFour::Addr) => 0xAD,
            Instruction::CMPY(AddrTypeFour::nSP) => 0xBD,
            Instruction::CMPSP(CmpspAddr::Data) => 0x9E,
            Instruction::CMPSP(CmpspAddr::Addr) => 0xAE,
            Instruction::COMA => 0x0A,
            Instruction::COM(AddrTypeThree::Addr) => 0x3A,
            Instruction::COM(AddrTypeThree::nSP) => 0x4A,
            Instruction::COM(AddrTypeThree::nX) => 0x5A,
            Instruction::COM(AddrTypeThree::AX) => 0x6A,
            Instruction::COM(AddrTypeThree::nY) => 0x7A,
            Instruction::COM(AddrTypeThree::AY) => 0x8A,
            Instruction::DECA => 0x08,
            Instruction::DEC(AddrTypeThree::Addr) => 0x38,
            Instruction::DEC(AddrTypeThree::nSP) => 0x48,
            Instruction::DEC(AddrTypeThree::nX) => 0x58,
            Instruction::DEC(AddrTypeThree::AX) => 0x68,
            Instruction::DEC(AddrTypeThree::nY) => 0x78,
            Instruction::DEC(AddrTypeThree::AY) => 0x88,
            Instruction::EORA(AddrTypeTwo::Data) => 0x9B,
            Instruction::EORA(AddrTypeTwo::Addr) => 0xAB,
            Instruction::EORA(AddrTypeTwo::nSP) => 0xBB,
            Instruction::EORA(AddrTypeTwo::nX) => 0xCB,
            Instruction::EORA(AddrTypeTwo::nY) => 0xDB,
            Instruction::EXG(ExgAddr::ACC) => 0x9F,
            Instruction::EXG(ExgAddr::XY) => 0xAF,
            Instruction::EXG(ExgAddr::XSP) => 0xBF,
            Instruction::EXG(ExgAddr::YSP) => 0xCF,
            Instruction::INCA => 0x07,
            Instruction::INC(AddrTypeThree::Addr) => 0x37,
            Instruction::INC(AddrTypeThree::nSP) => 0x47,
            Instruction::INC(AddrTypeThree::nX) => 0x57,
            Instruction::INC(AddrTypeThree::AX) => 0x67,
            Instruction::INC(AddrTypeThree::nY) => 0x77,
            Instruction::INC(AddrTypeThree::AY) => 0x87,
            Instruction::JMP(AddrTypeFive::Addr) => 0x33,
            Instruction::JMP(AddrTypeFive::nX) => 0x53,
            Instruction::JMP(AddrTypeFive::AX) => 0x63,
            Instruction::JMP(AddrTypeFive::nY) => 0x73,
            Instruction::JMP(AddrTypeFive::AY) => 0x83,
            Instruction::JSR(AddrTypeFive::Addr) => 0x34,
            Instruction::JSR(AddrTypeFive::nX) => 0x54,
            Instruction::JSR(AddrTypeFive::AX) => 0x64,
            Instruction::JSR(AddrTypeFive::nY) => 0x74,
            Instruction::JSR(AddrTypeFive::AY) => 0x84,
            Instruction::LDA(LdaAddr::Data) => 0xF0,
            Instruction::LDA(LdaAddr::Addr) => 0xF1,
            Instruction::LDA(LdaAddr::nSP) => 0xF2,
            Instruction::LDA(LdaAddr::nX) => 0xF3,
            Instruction::LDA(LdaAddr::AX) => 0xF4,
            Instruction::LDA(LdaAddr::Xplus) => 0xF5,
            Instruction::LDA(LdaAddr::Xminus) => 0xF6,
            Instruction::LDA(LdaAddr::plusX) => 0xF7,
            Instruction::LDA(LdaAddr::minusX) => 0xF8,
            Instruction::LDA(LdaAddr::nY) => 0xF9,
            Instruction::LDA(LdaAddr::AY) => 0xFA,
            Instruction::LDA(LdaAddr::Yplus) => 0xFB,
            Instruction::LDA(LdaAddr::Yminus) => 0xFC,
            Instruction::LDA(LdaAddr::plusY) => 0xFD,
            Instruction::LDA(LdaAddr::minusY) => 0xFE,
            Instruction::LDX(AddrTypeTwo::Data) => 0x90,
            Instruction::LDX(AddrTypeTwo::Addr) => 0xA0,
            Instruction::LDX(AddrTypeTwo::nSP) => 0xB0,
            Instruction::LDX(AddrTypeTwo::nX) => 0xC0,
            Instruction::LDX(AddrTypeTwo::nY) => 0xD0,
            Instruction::LDY(AddrTypeTwo::Data) => 0x91,
            Instruction::LDY(AddrTypeTwo::Addr) => 0xA1,
            Instruction::LDY(AddrTypeTwo::nSP) => 0xB1,
            Instruction::LDY(AddrTypeTwo::nX) => 0xC1,
            Instruction::LDY(AddrTypeTwo::nY) => 0xD1,
            Instruction::LDSP(AddrTypeTwo::Data) => 0x92,
            Instruction::LDSP(AddrTypeTwo::Addr) => 0xA2,
            Instruction::LDSP(AddrTypeTwo::nSP) => 0xB2,
            Instruction::LDSP(AddrTypeTwo::nX) => 0xC2,
            Instruction::LDSP(AddrTypeTwo::nY) => 0xD2,
            Instruction::LEAX(LeaxAddr::nX) => 0xCC,
            Instruction::LEAX(LeaxAddr::nSP) => 0xDC,
            Instruction::LEAY(LeayAddr::nY) => 0xCD,
            Instruction::LEAY(LeayAddr::nSP) => 0xDD,
            Instruction::LEASP(LeaspAddr::nSP) => 0xBE,
            Instruction::LEASP(LeaspAddr::nX) => 0xCE,
            Instruction::LEASP(LeaspAddr::nY) => 0xDE,
            Instruction::LSRA => 0x0C,
            Instruction::LSR(AddrTypeThree::Addr) => 0x3C,
            Instruction::LSR(AddrTypeThree::nSP) => 0x4C,
            Instruction::LSR(AddrTypeThree::nX) => 0x5C,
            Instruction::LSR(AddrTypeThree::AX) => 0x6C,
            Instruction::LSR(AddrTypeThree::nY) => 0x7C,
            Instruction::LSR(AddrTypeThree::AY) => 0x8C,
            Instruction::NEGA => 0x06,
            Instruction::NEG(AddrTypeThree::Addr) => 0x36,
            Instruction::NEG(AddrTypeThree::nSP) => 0x46,
            Instruction::NEG(AddrTypeThree::nX) => 0x56,
            Instruction::NEG(AddrTypeThree::AX) => 0x66,
            Instruction::NEG(AddrTypeThree::nY) => 0x76,
            Instruction::NEG(AddrTypeThree::AY) => 0x86,
            Instruction::NOP => 0x00,
            Instruction::ORA(AddrTypeTwo::Data) => 0x9A,
            Instruction::ORA(AddrTypeTwo::Addr) => 0xAA,
            Instruction::ORA(AddrTypeTwo::nSP) => 0xBA,
            Instruction::ORA(AddrTypeTwo::nX) => 0xCA,
            Instruction::ORA(AddrTypeTwo::nY) => 0xDA,
            Instruction::ORCC => 0x02,
            Instruction::PSHA => 0x10,
            Instruction::PSHX => 0x11,
            Instruction::PSHY => 0x12,
            Instruction::PSHCC => 0x13,
            Instruction::PULA => 0x14,
            Instruction::PULX => 0x15,
            Instruction::PULY => 0x16,
            Instruction::PULCC => 0x17,
            Instruction::ROLA => 0x0D,
            Instruction::ROL(AddrTypeThree::Addr) => 0x3D,
            Instruction::ROL(AddrTypeThree::nSP) => 0x4D,
            Instruction::ROL(AddrTypeThree::nX) => 0x5D,
            Instruction::ROL(AddrTypeThree::AX) => 0x6D,
            Instruction::ROL(AddrTypeThree::nY) => 0x7D,
            Instruction::ROL(AddrTypeThree::AY) => 0x8D,
            Instruction::RORA => 0x0E,
            Instruction::ROR(AddrTypeThree::Addr) => 0x3E,
            Instruction::ROR(AddrTypeThree::nSP) => 0x4E,
            Instruction::ROR(AddrTypeThree::nX) => 0x5E,
            Instruction::ROR(AddrTypeThree::AX) => 0x6E,
            Instruction::ROR(AddrTypeThree::nY) => 0x7E,
            Instruction::ROR(AddrTypeThree::AY) => 0x8E,
            Instruction::RTS => 0x43,
            Instruction::RTI => 0x44,
            Instruction::SBCA(AddrTypeTwo::Data) => 0x93,
            Instruction::SBCA(AddrTypeTwo::Addr) => 0xA3,
            Instruction::SBCA(AddrTypeTwo::nSP) => 0xB3,
            Instruction::SBCA(AddrTypeTwo::nX) => 0xC3,
            Instruction::SBCA(AddrTypeTwo::nY) => 0xD3,
            Instruction::STA(StaAddr::Addr) => 0xE1,
            Instruction::STA(StaAddr::nSP) => 0xE2,
            Instruction::STA(StaAddr::nX) => 0xE3,
            Instruction::STA(StaAddr::AX) => 0xE4,
            Instruction::STA(StaAddr::Xplus) => 0xE5,
            Instruction::STA(StaAddr::Xminus) => 0xE6,
            Instruction::STA(StaAddr::plusX) => 0xE7,
            Instruction::STA(StaAddr::minusX) => 0xE8,
            Instruction::STA(StaAddr::nY) => 0xE9,
            Instruction::STA(StaAddr::AY) => 0xEA,
            Instruction::STA(StaAddr::Yplus) => 0xEB,
            Instruction::STA(StaAddr::Yminus) => 0xEC,
            Instruction::STA(StaAddr::plusY) => 0xED,
            Instruction::STA(StaAddr::minusY) => 0xEE,
            Instruction::STX(AddrTypeOne::Addr) => 0x30,
            Instruction::STX(AddrTypeOne::nSP) => 0x40,
            Instruction::STX(AddrTypeOne::nX) => 0x50,
            Instruction::STX(AddrTypeOne::AX) => 0x60,
            Instruction::STX(AddrTypeOne::nY) => 0x70,
            Instruction::STX(AddrTypeOne::AY) => 0x80,
            Instruction::STY(AddrTypeOne::Addr) => 0x31,
            Instruction::STY(AddrTypeOne::nSP) => 0x41,
            Instruction::STY(AddrTypeOne::nX) => 0x51,
            Instruction::STY(AddrTypeOne::AX) => 0x61,
            Instruction::STY(AddrTypeOne::nY) => 0x71,
            Instruction::STY(AddrTypeOne::AY) => 0x81,
            Instruction::STSP(AddrTypeOne::Addr) => 0x32,
            Instruction::STSP(AddrTypeOne::nSP) => 0x42,
            Instruction::STSP(AddrTypeOne::nX) => 0x52,
            Instruction::STSP(AddrTypeOne::AX) => 0x62,
            Instruction::STSP(AddrTypeOne::nY) => 0x72,
            Instruction::STSP(AddrTypeOne::AY) => 0x82,
            Instruction::SUBA(AddrTypeTwo::Data) => 0x94,
            Instruction::SUBA(AddrTypeTwo::Addr) => 0xA4,
            Instruction::SUBA(AddrTypeTwo::nSP) => 0xB4,
            Instruction::SUBA(AddrTypeTwo::nX) => 0xC4,
            Instruction::SUBA(AddrTypeTwo::nY) => 0xD4,
            Instruction::TFR(TfrAddr::ACC) => 0x18,
            Instruction::TFR(TfrAddr::CCA) => 0x19,
            Instruction::TFR(TfrAddr::XY) => 0x1A,
            Instruction::TFR(TfrAddr::YX) => 0x1B,
            Instruction::TFR(TfrAddr::XSP) => 0x1C,
            Instruction::TFR(TfrAddr::SPX) => 0x1D,
            Instruction::TFR(TfrAddr::YSP) => 0x1E,
            Instruction::TFR(TfrAddr::SPY) => 0x1F,
            Instruction::TSTA => 0x09,
            Instruction::TST(AddrTypeOne::Addr) => 0x39,
            Instruction::TST(AddrTypeOne::nSP) => 0x49,
            Instruction::TST(AddrTypeOne::nX) => 0x59,
            Instruction::TST(AddrTypeOne::AX) => 0x69,
            Instruction::TST(AddrTypeOne::nY) => 0x79,
            Instruction::TST(AddrTypeOne::AY) => 0x89,
        }
    }

    /// Number of bytes the instruction occupies: 2 when it reads an operand
    /// byte, 1 when its operands come from registers alone.
    pub open spec fn spec_size(self) -> u8 {
        match self {
            Instruction::ASL(adr)
            | Instruction::ASR(adr)
            | Instruction::CLR(adr)
            | Instruction::COM(adr)
            | Instruction::DEC(adr)
            | Instruction::INC(adr)
            | Instruction::LSR(adr)
            | Instruction::NEG(adr)
            | Instruction::ROL(adr)
            | Instruction::ROR(adr) => adr.spec_size(),
            Instruction::STX(adr)
            | Instruction::STY(adr)
            | Instruction::STSP(adr)
            | Instruction::TST(adr) => adr.spec_size(),
            Instruction::JMP(adr) | Instruction::JSR(adr) => adr.spec_size(),
            Instruction::STA(adr) => match adr {
                StaAddr::Addr | StaAddr::nSP | StaAddr::nX | StaAddr::nY => 2,
                _ => 1,
            },
            Instruction::LDA(adr) => match adr {
                LdaAddr::Data | LdaAddr::Addr | LdaAddr::nSP | LdaAddr::nX | LdaAddr::nY => 2,
                _ => 1,
            },
            Instruction::ADCA(_)
            | Instruction::ADDA(_)
            | Instruction::ANDA(_)
            | Instruction::ANDCC
            | Instruction::BITA(_)
            | Instruction::CMPA(_)
            | Instruction::CMPX(_)
            | Instruction::CMPY(_)
            | Instruction::CMPSP(_)
            | Instruction::EORA(_)
            | Instruction::LEAX(_)
            | Instruction::LEAY(_)
            | Instruction::LEASP(_)
            | Instruction::ORA(_)
            | Instruction::ORCC
            | Instruction::SBCA(_)
            | Instruction::SUBA(_)
            | Instruction::LDX(_)
            | Instruction::LDY(_)
            | Instruction::LDSP(_) => 2,
            Instruction::BLE
            | Instruction::BLS
            | Instruction::BLT
            | Instruction::BMI
            | Instruction::BNE
            | Instruction::BPL
            | Instruction::BRA
            | Instruction::BSR
            | Instruction::BVC
            | Instruction::BVS
            | Instruction::BCC
            | Instruction::BCS
            | Instruction::BEQ
            | Instruction::BGE
            | Instruction::BGT
            | Instruction::BHI => 2,
            _ => 1,
        }
    }

    /// Number of bytes the instruction occupies.
    pub fn size(&self) -> (r: u8)
        ensures
            r == self.spec_size(),
            r == 1 || r == 2,
    {
        match self {
            Instruction::ASL(adr)
            | Instruction::ASR(adr)
            | Instruction::CLR(adr)
            | Instruction::COM(adr)
            | Instruction::DEC(adr)
            | Instruction::INC(adr)
            | Instruction::LSR(adr)
            | Instruction::NEG(adr)
            | Instruction::ROL(adr)
            | Instruction::ROR(adr) => match adr {
                AddrTypeThree::AY | AddrTypeThree::AX => 1,
                _ => 2,
            },
            Instruction::STX(adr)
            | Instruction::STY(adr)
            | Instruction::STSP(adr)
            | Instruction::TST(adr) => match adr {
                AddrTypeOne::AX | AddrTypeOne::AY => 1,
                _ => 2,
            },
            Instruction::JMP(adr) | Instruction::JSR(adr) => match adr {
                AddrTypeFive::AY | AddrTypeFive::AX => 1,
                _ => 2,
            },
            Instruction::STA(adr) => match adr {
                StaAddr::Addr | StaAddr::nSP | StaAddr::nX | StaAddr::nY => 2,
                _ => 1,
            },
            Instruction::LDA(adr) => match adr {
                LdaAddr::Data | LdaAddr::Addr | LdaAddr::nSP | LdaAddr::nX | LdaAddr::nY => 2,
                _ => 1,
            },
            Instruction::ADCA(_)
            | Instruction::ADDA(_)
            | Instruction::ANDA(_)
            | Instruction::ANDCC
            | Instruction::BITA(_)
            | Instruction::CMPA(_)
            | Instruction::CMPX(_)
            | Instruction::CMPY(_)
            | Instruction::CMPSP(_)
            | Instruction::EORA(_)
            | Instruction::LEAX(_)
            | Instruction::LEAY(_)
            | Instruction::LEASP(_)
            | Instruction::ORA(_)
            | Instruction::ORCC
            | Instruction::SBCA(_)
            | Instruction::SUBA(_)
            | Instruction::LDX(_)
            | Instruction::LDY(_)
            | Instruction::LDSP(_) => 2,
            Instruction::BLE
            | Instruction::BLS
            | Instruction::BLT
            | Instruction::BMI
            | Instruction::BNE
            | Instruction::BPL
            | Instruction::BRA
            | Instruction::BSR
            | Instruction::BVC
            | Instruction::BVS
            | Instruction::BCC
            | Instruction::BCS
            | Instruction::BEQ
            | Instruction::BGE
            | Instruction::BGT
            | Instruction::BHI => 2,
            _ => 1,
        }
    }
}

impl TryFrom<u8> for Instruction {
    type Error = FlispError;

    fn try_from(b: u8) -> Result<Instruction, FlispError> {
        Instruction::decode(b)
    }
}

impl vstd::std_specs::convert::TryFromSpecImpl<u8> for Instruction {
    open spec fn obeys_try_from_spec() -> bool {
        true
    }

    open spec fn try_from_spec(b: u8) -> Result<Instruction, FlispError> {
        match Instruction::spec_decode(b) {
            Some(i) => Ok(i),
            None => Err(FlispError::InvalidOpCode(b as u32)),
        }
    }
}

impl From<Instruction> for u8 {
    fn from(i: Instruction) -> u8 {
        i.encode()
    }
}

impl vstd::std_specs::convert::FromSpecImpl<Instruction> for u8 {
    open spec fn obeys_from_spec() -> bool {
        true
    }

    open spec fn from_spec(i: Instruction) -> u8 {
        i.spec_encode()
    }
}

/// Every byte that decodes to an instruction is that instruction's encoding.
#[verifier::rlimit(100)]
pub proof fn lemma_encode_of_decode(b: u8)
    ensures
        Instruction::spec_decode(b) matches Some(i) ==> i.spec_encode() == b,
{
    match b {
        0x00 => {},
        0x01 => {},
        0x02 => {},
        0x03 => {},
        0x04 => {},
        0x05 => {},
        0x06 => {},
        0x07 => {},
        0x08 => {},
        0x09 => {},
        0x0A => {},
        0x0B => {},
        0x0C => {},
        0x0D => {},
        0x0E => {},
        0x0F => {},
        0x10 => {},
        0x11 => {},
        0x12 => {},
        0x13 => {},
        0x14 => {},
        0x15 => {},
        0x16 => {},
        0x17 => {},
        0x18 => {},
        0x19 => {},
        0x1A => {},
        0x1B => {},
        0x1C => {},
        0x1D => {},
        0x1E => {},
        0x1F => {},
        0x20 => {},
        0x21 => {},
        0x22 => {},
        0x23 => {},
        0x24 => {},
        0x25 => {},
        0x26 => {},
        0x27 => {},
        0x28 => {},
        0x29 => {},
        0x2A => {},
        0x2B => {},
        0x2C => {},
        0x2D => {},
        0x2E => {},
        0x2F => {},
        0x30 => {},
        0x31 => {},
        0x32 => {},
        0x33 => {},
        0x34 => {},
        0x35 => {},
        0x36 => {},
        0x37 => {},
        0x38 => {},
        0x39 => {},
        0x3A => {},
        0x3B => {},
        0x3C => {},
        0x3D => {},
        0x3E => {},
        0x3F => {},
        0x40 => {},
        0x41 => {},
        0x42 => {},
        0x43 => {},
        0x44 => {},
        0x45 => {},
        0x46 => {},
        0x47 => {},
        0x48 => {},
        0x49 => {},
        0x4A => {},
        0x4B => {},
        0x4C => {},
        0x4D => {},
        0x4E => {},
        0x4F => {},
        0x50 => {},
        0x51 => {},
        0x52 => {},
        0x53 => {},
        0x54 => {},
        0x55 => {},
        0x56 => {},
        0x57 => {},
        0x58 => {},
        0x59 => {},
        0x5A => {},
        0x5B => {},
        0x5C => {},
        0x5D => {},
        0x5E => {},
        0x5F => {},
        0x60 => {},
        0x61 => {},
        0x62 => {},
        0x63 => {},
        0x64 => {},
        0x65 => {},
        0x66 => {},
        0x67 => {},
        0x68 => {},
        0x69 => {},
        0x6A => {},
        0x6B => {},
        0x6C => {},
        0x6D => {},
        0x6E => {},
        0x6F => {},
        0x70 => {},
        0x71 => {},
        0x72 => {},
        0x73 => {},
        0x74 => {},
        0x75 => {},
        0x76 => {},
        0x77 => {},
        0x78 => {},
        0x79 => {},
        0x7A => {},
        0x7B => {},
        0x7C => {},
        0x7D => {},
        0x7E => {},
        0x7F => {},
        0x80 => {},
        0x81 => {},
        0x82 => {},
        0x83 => {},
        0x84 => {},
        0x85 => {},
        0x86 => {},
        0x87 => {},
        0x88 => {},
        0x89 => {},
        0x8A => {},
        0x8B => {},
        0x8C => {},
        0x8D => {},
        0x8E => {},
        0x8F => {},
        0x90 => {},
        0x91 => {},
        0x92 => {},
        0x93 => {},
        0x94 => {},
        0x95 => {},
        0x96 => {},
        0x97 => {},
        0x98 => {},
        0x99 => {},
        0x9A => {},
        0x9B => {},
        0x9C => {},
        0x9D => {},
        0x9E => {},
        0x9F => {},
        0xA0 => {},
        0xA1 => {},
        0xA2 => {},
        0xA3 => {},
        0xA4 => {},
        0xA5 => {},
        0xA6 => {},
        0xA7 => {},
        0xA8 => {},
        0xA9 => {},
        0xAA => {},
        0xAB => {},
        0xAC => {},
        0xAD => {},
        0xAE => {},
        0xAF => {},
        0xB0 => {},
        0xB1 => {},
        0xB2 => {},
        0xB3 => {},
        0xB4 => {},
        0xB5 => {},
        0xB6 => {},
        0xB7 => {},
        0xB8 => {},
        0xB9 => {},
        0xBA => {},
        0xBB => {},
        0xBC => {},
        0xBD => {},
        0xBE => {},
        0xBF => {},
        0xC0 => {},
        0xC1 => {},
        0xC2 => {},
        0xC3 => {},
        0xC4 => {},
        0xC5 => {},
        0xC6 => {},
        0xC7 => {},
        0xC8 => {},
        0xC9 => {},
        0xCA => {},
        0xCB => {},
        0xCC => {},
        0xCD => {},
        0xCE => {},
        0xCF => {},
        0xD0 => {},
        0xD1 => {},
        0xD2 => {},
        0xD3 => {},
        0xD4 => {},
        0xD5 => {},
        0xD6 => {},
        0xD7 => {},
        0xD8 => {},
        0xD9 => {},
        0xDA => {},
        0xDB => {},
        0xDC => {},
        0xDD => {},
        0xDE => {},
        0xDF => {},
        0xE0 => {},
        0xE1 => {},
        0xE2 => {},
        0xE3 => {},
        0xE4 => {},
        0xE5 => {},
        0xE6 => {},
        0xE7 => {},
        0xE8 => {},
        0xE9 => {},
        0xEA => {},
        0xEB => {},
        0xEC => {},
        0xED => {},
        0xEE => {},
        0xEF => {},
        0xF0 => {},
        0xF1 => {},
        0xF2 => {},
        0xF3 => {},
        0xF4 => {},
        0xF5 => {},
        0xF6 => {},
        0xF7 => {},
        0xF8 => {},
        0xF9 => {},
        0xFA => {},
        0xFB => {},
        0xFC => {},
        0xFD => {},
        0xFE => {},
        0xFF => {},
    }
}

/// Decoding the encoding of any instruction gives the instruction back.
pub proof fn lemma_decode_of_encode(i: Instruction)
    ensures
        Instruction::spec_decode(i.spec_encode()) == Some(i),
{
    match i {
        Instruction::ANDCC | Instruction::ASLA | Instruction::ASL(_) | Instruction::ASRA
        | Instruction::ASR(_) | Instruction::BCC | Instruction::BCS | Instruction::BEQ
        | Instruction::BGE | Instruction::BGT | Instruction::BHI | Instruction::BLE
        | Instruction::BLS | Instruction::BLT | Instruction::BMI | Instruction::BNE
        | Instruction::BPL | Instruction::BRA | Instruction::BSR | Instruction::BVC
        | Instruction::BVS | Instruction::CLRA => lemma_decode_of_encode_part0(i),
        Instruction::CLR(_) | Instruction::COMA | Instruction::COM(_) | Instruction::DECA
        | Instruction::DEC(_) | Instruction::INCA | Instruction::INC(_)
        | Instruction::JMP(_) => lemma_decode_of_encode_part1(i),
        Instruction::JSR(_) | Instruction::LSRA | Instruction::LSR(_) | Instruction::NEGA
        | Instruction::NEG(_) | Instruction::NOP | Instruction::ORCC | Instruction::PSHA
        | Instruction::PSHX | Instruction::PSHY | Instruction::PSHCC | Instruction::PULA
        | Instruction::PULX | Instruction::PULY | Instruction::PULCC | Instruction::ROLA
        | Instruction::ROL(_) => lemma_decode_of_encode_part2(i),
        Instruction::RORA | Instruction::ROR(_) | Instruction::STX(_) | Instruction::STY(_)
        | Instruction::STSP(_) | Instruction::TFR(_) => lemma_decode_of_encode_part3(i),
        Instruction::TSTA | Instruction::TST(_) | Instruction::RTS | Instruction::RTI
        | Instruction::ADCA(_) | Instruction::ADDA(_) | Instruction::ANDA(_) | Instruction::BITA(_)
        | Instruction::CMPA(_) => lemma_decode_of_encode_part4(i),
        Instruction::CMPX(_) | Instruction::CMPY(_) | Instruction::CMPSP(_) | Instruction::EORA(_)
        | Instruction::EXG(_) | Instruction::LDX(_) | Instruction::LDY(_)
        | Instruction::LDSP(_) => lemma_decode_of_encode_part5(i),
        Instruction::LEASP(_) | Instruction::ORA(_) | Instruction::SBCA(_) | Instruction::SUBA(_)
        | Instruction::LDA(_) => lemma_decode_of_encode_part6(i),
        Instruction::LEAX(_) | Instruction::LEAY(_)
        | Instruction::STA(_) => lemma_decode_of_encode_part7(i),
    }
}

/// `lemma_decode_of_encode` for one group of mnemonics, kept apart to keep
/// each proof small.
#[verifier::spinoff_prover]
proof fn lemma_decode_of_encode_part0(i: Instruction)
    requires
        i is ANDCC || i is ASLA || i is ASL || i is ASRA || i is ASR || i is BCC || i is BCS
        || i is BEQ || i is BGE || i is BGT || i is BHI || i is BLE || i is BLS || i is BLT
        || i is BMI || i is BNE || i is BPL || i is BRA || i is BSR || i is BVC || i is BVS
        || i is CLRA,
    ensures
        Instruction::spec_decode(i.spec_encode()) == Some(i),
{
    match i {
        Instruction::ANDCC => {},
        Instruction::ASLA => {},
        Instruction::ASL(AddrTypeThree::Addr) => {},
        Instruction::ASL(AddrTypeThree::nSP) => {},
        Instruction::ASL(AddrTypeThree::nX) => {},
        Instruction::ASL(AddrTypeThree::AX) => {},
        Instruction::ASL(AddrTypeThree::nY) => {},
        Instruction::ASL(AddrTypeThree::AY) => {},
        Instruction::ASRA => {},
        Instruction::ASR(AddrTypeThree::Addr) => {},
        Instruction::ASR(AddrTypeThree::nSP) => {},
        Instruction::ASR(AddrTypeThree::nX) => {},
        Instruction::ASR(AddrTypeThree::AX) => {},
        Instruction::ASR(AddrTypeThree::nY) => {},
        Instruction::ASR(AddrTypeThree::AY) => {},
        Instruction::BCC => {},
        Instruction::BCS => {},
        Instruction::BEQ => {},
        Instruction::BGE => {},
        Instruction::BGT => {},
        Instruction::BHI => {},
        Instruction::BLE => {},
        Instruction::BLS => {},
        Instruction::BLT => {},
        Instruction::BMI => {},
        Instruction::BNE => {},
        Instruction::BPL => {},
        Instruction::BRA => {},
        Instruction::BSR => {},
        Instruction::BVC => {},
        Instruction::BVS => {},
        Instruction::CLRA => {},
        _ => {},
    }
}

/// `lemma_decode_of_encode` for one group of mnemonics, kept apart to keep
/// each proof small.
#[verifier::spinoff_prover]
proof fn lemma_decode_of_encode_part1(i: Instruction)
    requires
        i is CLR || i is COMA || i is COM || i is DECA || i is DEC || i is INCA || i is INC
        || i is JMP,
    ensures
        Instruction::spec_decode(i.spec_encode()) == Some(i),
{
    match i {
        Instruction::CLR(AddrTypeThree::Addr) => {},
        Instruction::CLR(AddrTypeThree::nSP) => {},
        Instruction::CLR(AddrTypeThree::nX) => {},
        Instruction::CLR(AddrTypeThree::AX) => {},
        Instruction::CLR(AddrTypeThree::nY) => {},
        Instruction::CLR(AddrTypeThree::AY) => {},
        Instruction::COMA => {},
        Instruction::COM(AddrTypeThree::Addr) => {},
        Instruction::COM(AddrTypeThree::nSP) => {},
        Instruction::COM(AddrTypeThree::nX) => {},
        Instruction::COM(AddrTypeThree::AX) => {},
        Instruction::COM(AddrTypeThree::nY) => {},
        Instruction::COM(AddrTypeThree::AY) => {},
        Instruction::DECA => {},
        Instruction::DEC(AddrTypeThree::Addr) => {},
        Instruction::DEC(AddrTypeThree::nSP) => {},
        Instruction::DEC(AddrTypeThree::nX) => {},
        Instruction::DEC(AddrTypeThree::AX) => {},
        Instruction::DEC(AddrTypeThree::nY) => {},
        Instruction::DEC(AddrTypeThree::AY) => {},
        Instruction::INCA => {},
        Instruction::INC(AddrTypeThree::Addr) => {},
        Instruction::INC(AddrTypeThree::nSP) => {},
        Instruction::INC(AddrTypeThree::nX) => {},
        Instruction::INC(AddrTypeThree::AX) => {},
        Instruction::INC(AddrTypeThree::nY) => {},
        Instruction::INC(AddrTypeThree::AY) => {},
        Instruction::JMP(AddrTypeFive::Addr) => {},
        Instruction::JMP(AddrTypeFive::nX) => {},
        Instruction::JMP(AddrTypeFive::AX) => {},
        Instruction::JMP(AddrTypeFive::nY) => {},
        Instruction::JMP(AddrTypeFive::AY) => {},
        _ => {},
    }
}

/// `lemma_decode_of_encode` for one group of mnemonics, kept apart to keep
/// each proof small.
#[verifier::spinoff_prover]
proof fn lemma_decode_of_encode_part2(i: Instruction)
    requires
        i is JSR || i is LSRA || i is LSR || i is NEGA || i is NEG || i is NOP || i is ORCC
        || i is PSHA || i is PSHX || i is PSHY || i is PSHCC || i is PULA || i is PULX || i is PULY
        || i is PULCC || i is ROLA || i is ROL,
    ensures
        Instruction::spec_decode(i.spec_encode()) == Some(i),
{
    match i {
        Instruction::JSR(AddrTypeFive::Addr) => {},
        Instruction::JSR(AddrTypeFive::nX) => {},
        Instruction::JSR(AddrTypeFive::AX) => {},
        Instruction::JSR(AddrTypeFive::nY) => {},
        Instruction::JSR(AddrTypeFive::AY) => {},
        Instruction::LSRA => {},
        Instruction::LSR(AddrTypeThree::Addr) => {},
        Instruction::LSR(AddrTypeThree::nSP) => {},
        Instruction::LSR(AddrTypeThree::nX) => {},
        Instruction::LSR(AddrTypeThree::AX) => {},
        Instruction::LSR(AddrTypeThree::nY) => {},
        Instruction::LSR(AddrTypeThree::AY) => {},
        Instruction::NEGA => {},
        Instruction::NEG(AddrTypeThree::Addr) => {},
        Instruction::NEG(AddrTypeThree::nSP) => {},
        Instruction::NEG(AddrTypeThree::nX) => {},
        Instruction::NEG(AddrTypeThree::AX) => {},
        Instruction::NEG(AddrTypeThree::nY) => {},
        Instruction::NEG(AddrTypeThree::AY) => {},
        Instruction::NOP => {},
        Instruction::ORCC => {},
        Instruction::PSHA => {},
        Instruction::PSHX => {},
        Instruction::PSHY => {},
        Instruction::PSHCC => {},
        Instruction::PULA => {},
        Instruction::PULX => {},
        Instruction::PULY => {},
        Instruction::PULCC => {},
        Instruction::ROLA => {},
        Instruction::ROL(AddrTypeThree::Addr) => {},
        Instruction::ROL(AddrTypeThree::nSP) => {},
        Instruction::ROL(AddrTypeThree::nX) => {},
        Instruction::ROL(AddrTypeThree::AX) => {},
        Instruction::ROL(AddrTypeThree::nY) => {},
        Instruction::ROL(AddrTypeThree::AY) => {},
        _ => {},
    }
}

/// `lemma_decode_of_encode` for one group of mnemonics, kept apart to keep
/// each proof small.
#[verifier::spinoff_prover]
proof fn lemma_decode_of_encode_part3(i: Instruction)
    requires
        i is RORA || i is ROR || i is STX || i is STY || i is STSP || i is TFR,
    ensures
        Instruction::spec_decode(i.spec_encode()) == Some(i),
{
    match i {
        Instruction::RORA => {},
        Instruction::ROR(AddrTypeThree::Addr) => {},
        Instruction::ROR(AddrTypeThree::nSP) => {},
        Instruction::ROR(AddrTypeThree::nX) => {},
        Instruction::ROR(AddrTypeThree::AX) => {},
        Instruction::ROR(AddrTypeThree::nY) => {},
        Instruction::ROR(AddrTypeThree::AY) => {},
        Instruction::STX(AddrTypeOne::Addr) => {},
        Instruction::STX(AddrTypeOne::nSP) => {},
        Instruction::STX(AddrTypeOne::nX) => {},
        Instruction::STX(AddrTypeOne::AX) => {},
        Instruction::STX(AddrTypeOne::nY) => {},
        Instruction::STX(AddrTypeOne::AY) => {},
        Instruction::STY(AddrTypeOne::Addr) => {},
        Instruction::STY(AddrTypeOne::nSP) => {},
        Instruction::STY(AddrTypeOne::nX) => {},
        Instruction::STY(AddrTypeOne::AX) => {},
        Instruction::STY(AddrTypeOne::nY) => {},
        Instruction::STY(AddrTypeOne::AY) => {},
        Instruction::STSP(AddrTypeOne::Addr) => {},
        Instruction::STSP(AddrTypeOne::nSP) => {},
        Instruction::STSP(AddrTypeOne::nX) => {},
        Instruction::STSP(AddrTypeOne::AX) => {},
        Instruction::STSP(AddrTypeOne::nY) => {},
        Instruction::STSP(AddrTypeOne::AY) => {},
        Instruction::TFR(TfrAddr::ACC) => {},
        Instruction::TFR(TfrAddr::CCA) => {},
        Instruction::TFR(TfrAddr::XY) => {},
        Instruction::TFR(TfrAddr::YX) => {},
        Instruction::TFR(TfrAddr::XSP) => {},
        Instruction::TFR(TfrAddr::SPX) => {},
        Instruction::TFR(TfrAddr::YSP) => {},
        Instruction::TFR(TfrAddr::SPY) => {},
        _ => {},
    }
}

/// `lemma_decode_of_encode` for one group of mnemonics, kept apart to keep
/// each proof small.
#[verifier::spinoff_prover]
proof fn lemma_decode_of_encode_part4(i: Instruction)
    requires
        i is TSTA || i is TST || i is RTS || i is RTI || i is ADCA || i is ADDA || i is ANDA
        || i is BITA || i is CMPA,
    ensures
        Instruction::spec_decode(i.spec_encode()) == Some(i),
{
    match i {
        Instruction::TSTA => {},
        Instruction::TST(AddrTypeOne::Addr) => {},
        Instruction::TST(AddrTypeOne::nSP) => {},
        Instruction::TST(AddrTypeOne::nX) => {},
        Instruction::TST(AddrTypeOne::AX) => {},
        Instruction::TST(AddrTypeOne::nY) => {},
        Instruction::TST(AddrTypeOne::AY) => {},
        Instruction::RTS => {},
        Instruction::RTI => {},
        Instruction::ADCA(AddrTypeTwo::Data) => {},
        Instruction::ADCA(AddrTypeTwo::Addr) => {},
        Instruction::ADCA(AddrTypeTwo::nSP) => {},
        Instruction::ADCA(AddrTypeTwo::nX) => {},
        Instruction::ADCA(AddrTypeTwo::nY) => {},
        Instruction::ADDA(AddrTypeTwo::Data) => {},
        Instruction::ADDA(AddrTypeTwo::Addr) => {},
        Instruction::ADDA(AddrTypeTwo::nSP) => {},
        Instruction::ADDA(AddrTypeTwo::nX) => {},
        Instruction::ADDA(AddrTypeTwo::nY) => {},
        Instruction::ANDA(AddrTypeTwo::Data) => {},
        Instruction::ANDA(AddrTypeTwo::Addr) => {},
        Instruction::ANDA(AddrTypeTwo::nSP) => {},
        Instruction::ANDA(AddrTypeTwo::nX) => {},
        Instruction::ANDA(AddrTypeTwo::nY) => {},
        Instruction::BITA(AddrTypeTwo::Data) => {},
        Instruction::BITA(AddrTypeTwo::Addr) => {},
        Instruction::BITA(AddrTypeTwo::nSP) => {},
        Instruction::BITA(AddrTypeTwo::nX) => {},
        Instruction::BITA(AddrTypeTwo::nY) => {},
        Instruction::CMPA(AddrTypeTwo::Data) => {},
        Instruction::CMPA(AddrTypeTwo::Addr) => {},
        Instruction::CMPA(AddrTypeTwo::nSP) => {},
        Instruction::CMPA(AddrTypeTwo::nX) => {},
        Instruction::CMPA(AddrTypeTwo::nY) => {},
        _ => {},
    }
}

/// `lemma_decode_of_encode` for one group of mnemonics, kept apart to keep
/// each proof small.
#[verifier::spinoff_prover]
proof fn lemma_decode_of_encode_part5(i: Instruction)
    requires
        i is CMPX || i is CMPY || i is CMPSP || i is EORA || i is EXG || i is LDX || i is LDY
        || i is LDSP,
    ensures
        Instruction::spec_decode(i.spec_encode()) == Some(i),
{
    match i {
        Instruction::CMPX(AddrTypeFour::Data) => {},
        Instruction::CMPX(AddrTypeFour::Addr) => {},
        Instruction::CMPX(AddrTypeFour::nSP) => {},
        Instruction::CMPY(AddrTypeFour::Data) => {},
        Instruction::CMPY(AddrTypeFour::Addr) => {},
        Instruction::CMPY(AddrTypeFour::nSP) => {},
        Instruction::CMPSP(CmpspAddr::Data) => {},
        Instruction::CMPSP(CmpspAddr::Addr) => {},
        Instruction::EORA(AddrTypeTwo::Data) => {},
        Instruction::EORA(AddrTypeTwo::Addr) => {},
        Instruction::EORA(AddrTypeTwo::nSP) => {},
        Instruction::EORA(AddrTypeTwo::nX) => {},
        Instruction::EORA(AddrTypeTwo::nY) => {},
        Instruction::EXG(ExgAddr::ACC) => {},
        Instruction::EXG(ExgAddr::XY) => {},
        Instruction::EXG(ExgAddr::XSP) => {},
        Instruction::EXG(ExgAddr::YSP) => {},
        Instruction::LDX(AddrTypeTwo::Data) => {},
        Instruction::LDX(AddrTypeTwo::Addr) => {},
        Instruction::LDX(AddrTypeTwo::nSP) => {},
        Instruction::LDX(AddrTypeTwo::nX) => {},
        Instruction::LDX(AddrTypeTwo::nY) => {},
        Instruction::LDY(AddrTypeTwo::Data) => {},
        Instruction::LDY(AddrTypeTwo::Addr) => {},
        Instruction::LDY(AddrTypeTwo::nSP) => {},
        Instruction::LDY(AddrTypeTwo::nX) => {},
        Instruction::LDY(AddrTypeTwo::nY) => {},
        Instruction::LDSP(AddrTypeTwo::Data) => {},
        Instruction::LDSP(AddrTypeTwo::Addr) => {},
        Instruction::LDSP(AddrTypeTwo::nSP) => {},
        Instruction::LDSP(AddrTypeTwo::nX) => {},
        Instruction::LDSP(AddrTypeTwo::nY) => {},
        _ => {},
    }
}

/// `lemma_decode_of_encode` for one group of mnemonics, kept apart to keep
/// each proof small.
#[verifier::spinoff_prover]
proof fn lemma_decode_of_encode_part6(i: Instruction)
    requires
        i is LEASP || i is ORA || i is SBCA || i is SUBA || i is LDA,
    ensures
        Instruction::spec_decode(i.spec_encode()) == Some(i),
{
    match i {
        Instruction::LEASP(LeaspAddr::nSP) => {},
        Instruction::LEASP(LeaspAddr::nX) => {},
        Instruction::LEASP(LeaspAddr::nY) => {},
        Instruction::ORA(AddrTypeTwo::Data) => {},
        Instruction::ORA(AddrTypeTwo::Addr) => {},
        Instruction::ORA(AddrTypeTwo::nSP) => {},
        Instruction::ORA(AddrTypeTwo::nX) => {},
        Instruction::ORA(AddrTypeTwo::nY) => {},
        Instruction::SBCA(AddrTypeTwo::Data) => {},
        Instruction::SBCA(AddrTypeTwo::Addr) => {},
        Instruction::SBCA(AddrTypeTwo::nSP) => {},
        Instruction::SBCA(AddrTypeTwo::nX) => {},
        Instruction::SBCA(AddrTypeTwo::nY) => {},
        Instruction::SUBA(AddrTypeTwo::Data) => {},
        Instruction::SUBA(AddrTypeTwo::Addr) => {},
        Instruction::SUBA(AddrTypeTwo::nSP) => {},
        Instruction::SUBA(AddrTypeTwo::nX) => {},
        Instruction::SUBA(AddrTypeTwo::nY) => {},
        Instruction::LDA(LdaAddr::Data) => {},
        Instruction::LDA(LdaAddr::Addr) => {},
        Instruction::LDA(LdaAddr::nSP) => {},
        Instruction::LDA(LdaAddr::nX) => {},
        Instruction::LDA(LdaAddr::AX) => {},
        Instruction::LDA(LdaAddr::Xplus) => {},
        Instruction::LDA(LdaAddr::Xminus) => {},
        Instruction::LDA(LdaAddr::plusX) => {},
        Instruction::LDA(LdaAddr::minusX) => {},
        Instruction::LDA(LdaAddr::nY) => {},
        Instruction::LDA(LdaAddr::AY) => {},
        Instruction::LDA(LdaAddr::Yplus) => {},
        Instruction::LDA(LdaAddr::Yminus) => {},
        Instruction::LDA(LdaAddr::plusY) => {},
        Instruction::LDA(LdaAddr::minusY) => {},
        _ => {},
    }
}

/// `lemma_decode_of_encode` for one group of mnemonics, kept apart to keep
/// each proof small.
#[verifier::spinoff_prover]
proof fn lemma_decode_of_encode_part7(i: Instruction)
    requires
        i is LEAX || i is LEAY || i is STA,
    ensures
        Instruction::spec_decode(i.spec_encode()) == Some(i),
{
    match i {
        Instruction::LEAX(LeaxAddr::nX) => {},
        Instruction::LEAX(LeaxAddr::nSP) => {},
        Instruction::LEAY(LeayAddr::nY) => {},
        Instruction::LEAY(LeayAddr::nSP) => {},
        Instruction::STA(StaAddr::Addr) => {},
        Instruction::STA(StaAddr::nSP) => {},
        Instruction::STA(StaAddr::nX) => {},
        Instruction::STA(StaAddr::AX) => {},
        Instruction::STA(StaAddr::Xplus) => {},
        Instruction::STA(StaAddr::Xminus) => {},
        Instruction::STA(StaAddr::plusX) => {},
        Instruction::STA(StaAddr::minusX) => {},
        Instruction::STA(StaAddr::nY) => {},
        Instruction::STA(StaAddr::AY) => {},
        Instruction::STA(StaAddr::Yplus) => {},
        Instruction::STA(StaAddr::Yminus) => {},
        Instruction::STA(StaAddr::plusY) => {},
        Instruction::STA(StaAddr::minusY) => {},
        _ => {},
    }
}

} // verus!
