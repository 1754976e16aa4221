//! The disassembler: one instruction of memory rendered as assembly text.
use crate::addressing::{
    AddrTypeFive, AddrTypeFour, AddrTypeOne, AddrTypeThree, AddrTypeTwo, CmpspAddr, ExgAddr,
    LdaAddr, LeaspAddr, LeaxAddr, LeayAddr, StaAddr, TfrAddr,
};
use crate::instructions::Instruction;
use crate::processor::{is_control, step_spec, Flisp, MachineState};
use crate::text::{dollar_hex, hex2, push_dollar_hex, push_hex};
use vstd::prelude::*;

verus! {

/// The mnemonic of an instruction.
pub open spec fn mnemonic(i: Instruction) -> &'static str {
    match i {
        Instruction::ADCA(_) => "ADCA",
        Instruction::ADDA(_) => "ADDA",
        Instruction::ANDA(_) => "ANDA",
        Instruction::ANDCC => "ANDCC",
        Instruction::ASLA => "ASLA",
        Instruction::ASL(_) => "ASL",
        Instruction::ASRA => "ASRA",
        Instruction::ASR(_) => "ASR",
        Instruction::BITA(_) => "BITA",
        Instruction::BLE => "BLE",
        Instruction::BLS => "BLS",
        Instruction::BLT => "BLT",
        Instruction::BMI => "BMI",
        Instruction::BNE => "BNE",
        Instruction::BPL => "BPL",
        Instruction::BRA => "BRA",
        Instruction::BSR => "BSR",
        Instruction::BVC => "BVC",
        Instruction::BVS => "BVS",
        Instruction::BCC => "BCC",
        Instruction::BCS => "BCS",
        Instruction::BEQ => "BEQ",
        Instruction::BGE => "BGE",
        Instruction::BGT => "BGT",
        Instruction::BHI => "BHI",
        Instruction::CLRA => "CLRA",
        Instruction::CLR(_) => "CLR",
        Instruction::CMPA(_) => "CMPA",
        Instruction::CMPX(_) => "CMPX",
        Instruction::CMPY(_) => "CMPY",
        Instruction::CMPSP(_) => "CMPSP",
        Instruction::COMA => "COMA",
        Instruction::COM(_) => "COM",
        Instruction::DECA => "DECA",
        Instruction::DEC(_) => "DEC",
        Instruction::EORA(_) => "EORA",
        Instruction::EXG(_) => "EXG",
        Instruction::INCA => "INCA",
        Instruction::INC(_) => "INC",
        Instruction::JMP(_) => "JMP",
        Instruction::JSR(_) => "JSR",
        Instruction::LDA(_) => "LDA",
        Instruction::LDX(_) => "LDX",
        Instruction::LDY(_) => "LDY",
        Instruction::LDSP(_) => "LDSP",
        Instruction::LEAX(_) => "LEAX",
        Instruction::LEAY(_) => "LEAY",
        Instruction::LEASP(_) => "LEASP",
        Instruction::LSRA => "LSRA",
        Instruction::LSR(_) => "LSR",
        Instruction::NEGA => "NEGA",
        Instruction::NEG(_) => "NEG",
        Instruction::NOP => "NOP",
        Instruction::ORA(_) => "ORA",
        Instruction::ORCC => "ORCC",
        Instruction::PSHA => "PSHA",
        Instruction::PSHX => "PSHX",
        Instruction::PSHY => "PSHY",
        Instruction::PSHCC => "PSHCC",
        Instruction::PULA => "PULA",
        Instruction::PULX => "PULX",
        Instruction::PULY => "PULY",
        Instruction::PULCC => "PULCC",
        Instruction::ROLA => "ROLA",
        Instruction::ROL(_) => "ROL",
        Instruction::RORA => "RORA",
        Instruction::ROR(_) => "ROR",
        Instruction::RTS => "RTS",
        Instruction::RTI => "RTI",
        Instruction::SBCA(_) => "SBCA",
        Instruction::STA(_) => "STA",
        Instruction::STX(_) => "STX",
        Instruction::STY(_) => "STY",
        Instruction::STSP(_) => "STSP",
        Instruction::SUBA(_) => "SUBA",
        Instruction::TFR(_) => "TFR",
        Instruction::TSTA => "TSTA",
        Instruction::TST(_) => "TST",
    }
}

/// The operand text of an instruction whose operand byte is `next`: a tab and
/// the operand, or nothing for an instruction without one.
pub open spec fn operand_text(i: Instruction, next: u8) -> Seq<char> {
    match i {
        Instruction::ADCA(adr) | Instruction::ADDA(adr) | Instruction::ANDA(adr)
        | Instruction::BITA(adr) | Instruction::CMPA(adr) | Instruction::EORA(adr)
        | Instruction::LDX(adr) | Instruction::LDY(adr) | Instruction::LDSP(adr)
        | Instruction::ORA(adr) | Instruction::SBCA(adr)
        | Instruction::SUBA(adr) => "\t"@ + adr.spec_text(next),
        Instruction::ASL(adr) | Instruction::ASR(adr) | Instruction::CLR(adr)
        | Instruction::COM(adr) | Instruction::DEC(adr) | Instruction::INC(adr)
        | Instruction::LSR(adr) | Instruction::NEG(adr) | Instruction::ROL(adr)
        | Instruction::ROR(adr) => "\t"@ + adr.spec_text(next),
        Instruction::CMPX(adr) | Instruction::CMPY(adr) => "\t"@ + adr.spec_text(next),
        Instruction::JMP(adr) | Instruction::JSR(adr) => "\t"@ + adr.spec_text(next),
        Instruction::LDA(adr) => "\t"@ + adr.spec_text(next),
        Instruction::STA(adr) => "\t"@ + adr.spec_text(next),
        Instruction::STX(adr) | Instruction::STY(adr) | Instruction::STSP(adr)
        | Instruction::TST(adr) => "\t"@ + adr.spec_text(next),
        Instruction::ANDCC | Instruction::ORCC => "\t#"@ + dollar_hex(next, ""),
        Instruction::BLE | Instruction::BLS | Instruction::BLT | Instruction::BMI | Instruction::BNE
        | Instruction::BPL | Instruction::BRA | Instruction::BSR | Instruction::BVC
        | Instruction::BVS | Instruction::BCC | Instruction::BCS | Instruction::BEQ
        | Instruction::BGE | Instruction::BGT | Instruction::BHI => "\t"@ + hex2(next),
        Instruction::CMPSP(adr) => match adr {
            CmpspAddr::Data => "\t#"@ + dollar_hex(next, ""),
            CmpspAddr::Addr => "\t"@ + dollar_hex(next, ""),
        },
        Instruction::LEAX(adr) => match adr {
            LeaxAddr::nX => "\t"@ + dollar_hex(next, ",X"),
            LeaxAddr::nSP => "\t"@ + dollar_hex(next, ",SP"),
        },
        Instruction::LEAY(adr) => match adr {
            LeayAddr::nY => "\t"@ + dollar_hex(next, ",Y"),
            LeayAddr::nSP => "\t"@ + dollar_hex(next, ",SP"),
        },
        Instruction::LEASP(adr) => match adr {
            LeaspAddr::nX => "\t"@ + dollar_hex(next, ",X"),
            LeaspAddr::nY => "\t"@ + dollar_hex(next, ",Y"),
            LeaspAddr::nSP => "\t"@ + dollar_hex(next, ",SP"),
        },
        Instruction::EXG(adr) => match adr {
            ExgAddr::XY => "\tX,Y"@,
            ExgAddr::ACC => "\tA,CC"@,
            ExgAddr::XSP => "\tX,SP"@,
            ExgAddr::YSP => "\tY,SP"@,
        },
        Instruction::TFR(adr) => match adr {
            TfrAddr::ACC => "\tA,CC"@,
            TfrAddr::CCA => "\tCC,A"@,
            TfrAddr::XY => "\tX,Y"@,
            TfrAddr::YX => "\tY,X"@,
            TfrAddr::XSP => "\tX,SP"@,
            TfrAddr::SPX => "\tSP,X"@,
            TfrAddr::YSP => "\tY,SP"@,
            TfrAddr::SPY => "\tSP,Y"@,
        },
        _ => Seq::empty(),
    }
}

/// Whether the operand of `i` is written by its addressing mode.
pub open spec fn has_mode_operand(i: Instruction) -> bool {
    match i {
        Instruction::ADCA(_) | Instruction::ADDA(_) | Instruction::ANDA(_) | Instruction::BITA(_)
        | Instruction::CMPA(_) | Instruction::EORA(_) | Instruction::LDX(_) | Instruction::LDY(_)
        | Instruction::LDSP(_) | Instruction::ORA(_) | Instruction::SBCA(_) | Instruction::SUBA(_)
        | Instruction::ASL(_) | Instruction::ASR(_) | Instruction::CLR(_) | Instruction::COM(_)
        | Instruction::DEC(_) | Instruction::INC(_) | Instruction::LSR(_) | Instruction::NEG(_)
        | Instruction::ROL(_) | Instruction::ROR(_) | Instruction::CMPX(_) | Instruction::CMPY(_)
        | Instruction::JMP(_) | Instruction::JSR(_) | Instruction::LDA(_) | Instruction::STA(_)
        | Instruction::STX(_) | Instruction::STY(_) | Instruction::STSP(_)
        | Instruction::TST(_) => true,
        _ => false,
    }
}

/// The text of the instruction at `idx` in `mem` and the index of the one
/// after it. A byte that is no instruction is shown as a byte constant
/// (`FCB`) and the listing goes on at the next byte.
pub open spec fn disassembly(mem: Seq<u8>, idx: u8) -> (Seq<char>, u8) {
    let op = mem[idx as int];
    let next = mem[idx.wrapping_add(1) as int];
    match Instruction::spec_decode(op) {
        Some(i) => (mnemonic(i)@ + operand_text(i, next), idx.wrapping_add(i.spec_size())),
        None => ("\tFCB\t"@ + dollar_hex(op, ""), idx.wrapping_add(1)),
    }
}

impl Instruction {
    /// The mnemonic of this instruction.
    pub fn mnemonic(&self) -> (r: &'static str)
        ensures
            r == mnemonic(*self),
    {
        match self {
            Instruction::ADCA(_) => "ADCA",
            Instruction::ADDA(_) => "ADDA",
            Instruction::ANDA(_) => "ANDA",
            Instruction::ANDCC => "ANDCC",
            Instruction::ASLA => "ASLA",
            Instruction::ASL(_) => "ASL",
            Instruction::ASRA => "ASRA",
            Instruction::ASR(_) => "ASR",
            Instruction::BITA(_) => "BITA",
            Instruction::BLE => "BLE",
            Instruction::BLS => "BLS",
            Instruction::BLT => "BLT",
            Instruction::BMI => "BMI",
            Instruction::BNE => "BNE",
            Instruction::BPL => "BPL",
            Instruction::BRA => "BRA",
            Instruction::BSR => "BSR",
            Instruction::BVC => "BVC",
            Instruction::BVS => "BVS",
            Instruction::BCC => "BCC",
            Instruction::BCS => "BCS",
            Instruction::BEQ => "BEQ",
            Instruction::BGE => "BGE",
            Instruction::BGT => "BGT",
            Instruction::BHI => "BHI",
            Instruction::CLRA => "CLRA",
            Instruction::CLR(_) => "CLR",
            Instruction::CMPA(_) => "CMPA",
            Instruction::CMPX(_) => "CMPX",
            Instruction::CMPY(_) => "CMPY",
            Instruction::CMPSP(_) => "CMPSP",
            Instruction::COMA => "COMA",
            Instruction::COM(_) => "COM",
            Instruction::DECA => "DECA",
            Instruction::DEC(_) => "DEC",
            Instruction::EORA(_) => "EORA",
            Instruction::EXG(_) => "EXG",
            Instruction::INCA => "INCA",
            Instruction::INC(_) => "INC",
            Instruction::JMP(_) => "JMP",
            Instruction::JSR(_) => "JSR",
            Instruction::LDA(_) => "LDA",
            Instruction::LDX(_) => "LDX",
            Instruction::LDY(_) => "LDY",
            Instruction::LDSP(_) => "LDSP",
            Instruction::LEAX(_) => "LEAX",
            Instruction::LEAY(_) => "LEAY",
            Instruction::LEASP(_) => "LEASP",
            Instruction::LSRA => "LSRA",
            Instruction::LSR(_) => "LSR",
            Instruction::NEGA => "NEGA",
            Instruction::NEG(_) => "NEG",
            Instruction::NOP => "NOP",
            Instruction::ORA(_) => "ORA",
            Instruction::ORCC => "ORCC",
            Instruction::PSHA => "PSHA",
            Instruction::PSHX => "PSHX",
            Instruction::PSHY => "PSHY",
            Instruction::PSHCC => "PSHCC",
            Instruction::PULA => "PULA",
            Instruction::PULX => "PULX",
            Instruction::PULY => "PULY",
            Instruction::PULCC => "PULCC",
            Instruction::ROLA => "ROLA",
            Instruction::ROL(_) => "ROL",
            Instruction::RORA => "RORA",
            Instruction::ROR(_) => "ROR",
            Instruction::RTS => "RTS",
            Instruction::RTI => "RTI",
            Instruction::SBCA(_) => "SBCA",
            Instruction::STA(_) => "STA",
            Instruction::STX(_) => "STX",
            Instruction::STY(_) => "STY",
            Instruction::STSP(_) => "STSP",
            Instruction::SUBA(_) => "SUBA",
            Instruction::TFR(_) => "TFR",
            Instruction::TSTA => "TSTA",
            Instruction::TST(_) => "TST",
        }
    }
}

/// Appends a tab and the operand text of `adr`.
fn tab_addr_type_one(out: &mut String, adr: AddrTypeOne, next: u8) -> (r: u8)
    ensures
        final(out)@ == old(out)@ + ("\t"@ + adr.spec_text(next)),
        r == adr.spec_size(),
{
    out.append("\t");
    let r = adr.write_with_next(out, next);
    assert(out@ =~= old(out)@ + ("\t"@ + adr.spec_text(next)));
    r
}

/// Appends a tab and the operand text of `adr`.
fn tab_addr_type_two(out: &mut String, adr: AddrTypeTwo, next: u8)
    ensures
        final(out)@ == old(out)@ + ("\t"@ + adr.spec_text(next)),
{
    out.append("\t");
    adr.write_with_next(out, next);
    assert(out@ =~= old(out)@ + ("\t"@ + adr.spec_text(next)));
}

/// Appends a tab and the operand text of `adr`.
fn tab_addr_type_three(out: &mut String, adr: AddrTypeThree, next: u8) -> (r: u8)
    ensures
        final(out)@ == old(out)@ + ("\t"@ + adr.spec_text(next)),
        r == adr.spec_size(),
{
    out.append("\t");
    let r = adr.write_with_next(out, next);
    assert(out@ =~= old(out)@ + ("\t"@ + adr.spec_text(next)));
    r
}

/// Appends a tab and the operand text of `adr`.
fn tab_addr_type_four(out: &mut String, adr: AddrTypeFour, next: u8)
    ensures
        final(out)@ == old(out)@ + ("\t"@ + adr.spec_text(next)),
{
    out.append("\t");
    adr.write_with_next(out, next);
    assert(out@ =~= old(out)@ + ("\t"@ + adr.spec_text(next)));
}

/// Appends a tab and the operand text of `adr`.
fn tab_addr_type_five(out: &mut String, adr: AddrTypeFive, next: u8) -> (r: u8)
    ensures
        final(out)@ == old(out)@ + ("\t"@ + adr.spec_text(next)),
        r == adr.spec_size(),
{
    out.append("\t");
    let r = adr.write_with_next(out, next);
    assert(out@ =~= old(out)@ + ("\t"@ + adr.spec_text(next)));
    r
}

/// Appends a tab and the operand text of `adr`.
fn tab_lda_addr(out: &mut String, adr: LdaAddr, next: u8) -> (r: u8)
    ensures
        final(out)@ == old(out)@ + ("\t"@ + adr.spec_text(next)),
        r == adr.spec_size(),
{
    out.append("\t");
    let r = adr.write_with_next(out, next);
    assert(out@ =~= old(out)@ + ("\t"@ + adr.spec_text(next)));
    r
}

/// Appends a tab and the operand text of `adr`.
fn tab_sta_addr(out: &mut String, adr: StaAddr, next: u8) -> (r: u8)
    ensures
        final(out)@ == old(out)@ + ("\t"@ + adr.spec_text(next)),
        r == adr.spec_size(),
{
    out.append("\t");
    let r = adr.write_with_next(out, next);
    assert(out@ =~= old(out)@ + ("\t"@ + adr.spec_text(next)));
    r
}

/// Appends the operand text of `inst` and returns the instruction's size.
fn write_operand(out: &mut String, inst: &Instruction, next: u8) -> (r: u8)
    ensures
        final(out)@ == old(out)@ + operand_text(*inst, next),
        r == inst.spec_size(),
{
    match inst {
        Instruction::ADCA(adr) | Instruction::ADDA(adr) | Instruction::ANDA(adr)
        | Instruction::BITA(adr) | Instruction::CMPA(adr) | Instruction::EORA(adr)
        | Instruction::LDX(adr) | Instruction::LDY(adr) | Instruction::LDSP(adr)
        | Instruction::ORA(adr) | Instruction::SBCA(adr) | Instruction::SUBA(adr) => {
            tab_addr_type_two(out, *adr, next);
            2
        },
        Instruction::ASL(adr) | Instruction::ASR(adr) | Instruction::CLR(adr)
        | Instruction::COM(adr) | Instruction::DEC(adr) | Instruction::INC(adr)
        | Instruction::LSR(adr) | Instruction::NEG(adr) | Instruction::ROL(adr)
        | Instruction::ROR(adr) => tab_addr_type_three(out, *adr, next),
        Instruction::CMPX(adr) | Instruction::CMPY(adr) => {
            tab_addr_type_four(out, *adr, next);
            2
        },
        Instruction::JMP(adr) | Instruction::JSR(adr) => tab_addr_type_five(out, *adr, next),
        Instruction::LDA(adr) => tab_lda_addr(out, *adr, next),
        Instruction::STA(adr) => tab_sta_addr(out, *adr, next),
        Instruction::STX(adr) | Instruction::STY(adr) | Instruction::STSP(adr)
        | Instruction::TST(adr) => tab_addr_type_one(out, *adr, next),
        _ => write_fixed_operand(out, inst, next),
    }
}

/// `write_operand` for the instructions whose operand text is not an
/// addressing mode's.
#[verifier::spinoff_prover]
fn write_fixed_operand(out: &mut String, inst: &Instruction, next: u8) -> (r: u8)
    requires
        !has_mode_operand(*inst),
    ensures
        final(out)@ == old(out)@ + operand_text(*inst, next),
        r == inst.spec_size(),
{
    match inst {
        Instruction::ANDCC | Instruction::ORCC => {
            out.append("\t#");
            push_dollar_hex(out, next, "");
            assert(out@ =~= old(out)@ + operand_text(*inst, next));
            2
        },
        Instruction::BLE | Instruction::BLS | Instruction::BLT | Instruction::BMI | Instruction::BNE
        | Instruction::BPL | Instruction::BRA | Instruction::BSR | Instruction::BVC
        | Instruction::BVS | Instruction::BCC | Instruction::BCS | Instruction::BEQ
        | Instruction::BGE | Instruction::BGT | Instruction::BHI => {
            out.append("\t");
            push_hex(out, next);
            assert(out@ =~= old(out)@ + operand_text(*inst, next));
            2
        },
        Instruction::CMPSP(adr) => {
            match adr {
                CmpspAddr::Data => out.append("\t#"),
                CmpspAddr::Addr => out.append("\t"),
            }
            push_dollar_hex(out, next, "");
            assert(out@ =~= old(out)@ + operand_text(*inst, next));
            2
        },
        Instruction::LEAX(adr) => {
            out.append("\t");
            match adr {
                LeaxAddr::nX => push_dollar_hex(out, next, ",X"),
                LeaxAddr::nSP => push_dollar_hex(out, next, ",SP"),
            }
            assert(out@ =~= old(out)@ + operand_text(*inst, next));
            2
        },
        Instruction::LEAY(adr) => {
            out.append("\t");
            match adr {
                LeayAddr::nY => push_dollar_hex(out, next, ",Y"),
                LeayAddr::nSP => push_dollar_hex(out, next, ",SP"),
            }
            assert(out@ =~= old(out)@ + operand_text(*inst, next));
            2
        },
        Instruction::LEASP(adr) => {
            out.append("\t");
            match adr {
                LeaspAddr::nX => push_dollar_hex(out, next, ",X"),
                LeaspAddr::nY => push_dollar_hex(out, next, ",Y"),
                LeaspAddr::nSP => push_dollar_hex(out, next, ",SP"),
            }
            assert(out@ =~= old(out)@ + operand_text(*inst, next));
            2
        },
        Instruction::EXG(adr) => {
            match adr {
                ExgAddr::XY => out.append("\tX,Y"),
                ExgAddr::ACC => out.append("\tA,CC"),
                ExgAddr::XSP => out.append("\tX,SP"),
                ExgAddr::YSP => out.append("\tY,SP"),
            }
            assert(out@ =~= old(out)@ + operand_text(*inst, next));
            1
        },
        Instruction::TFR(adr) => {
            match adr {
                TfrAddr::ACC => out.append("\tA,CC"),
                TfrAddr::CCA => out.append("\tCC,A"),
                TfrAddr::XY => out.append("\tX,Y"),
                TfrAddr::YX => out.append("\tY,X"),
                TfrAddr::XSP => out.append("\tX,SP"),
                TfrAddr::SPX => out.append("\tSP,X"),
                TfrAddr::YSP => out.append("\tY,SP"),
                TfrAddr::SPY => out.append("\tSP,Y"),
            }
            assert(out@ =~= old(out)@ + operand_text(*inst, next));
            1
        },
        _ => {
            assert(out@ =~= old(out)@ + operand_text(*inst, next));
            1
        },
    }
}

impl Flisp {
    /// Appends the text of the instruction at `idx` to `out` and returns the
    /// index of the instruction after it. The machine is not changed.
    pub fn print_disassembly(&self, out: &mut String, idx: u8) -> (r: u8)
        ensures
            final(out)@ == old(out)@ + disassembly(self.mem@, idx).0,
            r == disassembly(self.mem@, idx).1,
    {
        let op = self.mem[idx as usize];
        let next = self.mem[idx.wrapping_add(1) as usize];
        match Instruction::decode(op) {
            Ok(inst) => {
                out.append(inst.mnemonic());
                let size = write_operand(out, &inst, next);
                assert(out@ =~= old(out)@ + disassembly(self.mem@, idx).0);
                idx.wrapping_add(size)
            },
            Err(_) => {
                out.append("\tFCB\t");
                push_dollar_hex(out, op, "");
                assert(out@ =~= old(out)@ + disassembly(self.mem@, idx).0);
                idx.wrapping_add(1)
            },
        }
    }
}

/// For every byte that decodes, the disassembler moves on by the decoded
/// instruction's size; where that instruction does not jump and does not
/// run past the top of memory, executing it moves the program counter to
/// the same place.
pub proof fn lemma_disassembly_advances_by_size(s: MachineState)
    requires
        s.mem.len() == 256,
        Instruction::spec_decode(s.read(s.pc)) is Some,
    ensures
        ({
            let i = Instruction::spec_decode(s.read(s.pc)).unwrap();
            &&& disassembly(s.mem, s.pc).1 == s.pc.wrapping_add(i.spec_size())
            &&& (!is_control(i) && s.pc as int + i.spec_size() as int <= 0xFF) ==> step_spec(s).pc
                == disassembly(s.mem, s.pc).1
        }),
{
}

} // verus!
