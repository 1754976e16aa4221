//! The machine state and the fetch-decode-execute step.
use crate::addressing::{
    AddrTypeFive, AddrTypeFour, AddrTypeOne, AddrTypeThree, AddrTypeTwo, CmpspAddr, ExgAddr,
    LdaAddr, LeaspAddr, LeaxAddr, LeayAddr, StaAddr, TfrAddr,
};
use crate::instructions::Instruction;
use vstd::prelude::*;

verus! {

/// Index of the entry vector: where the program counter is reloaded from
/// when it would advance past the top of memory.
pub const ENTRY_VECTOR: u8 = 0xFF;

/// Index of the trap vector: where the program counter is loaded from when
/// the fetched byte is no instruction.
pub const TRAP_VECTOR: u8 = 0xFD;

/// The machine: five 8-bit registers, the condition codes and 256 bytes of
/// memory shared by code, data and stack.
#[allow(non_snake_case)]
#[derive(Debug, Clone, PartialEq, Eq)]
pub struct Flisp {
    pub A: u8,
    pub Y: u8,
    pub X: u8,
    /// Condition codes, from bit 4 down to bit 0: I, N, Z, V, C.
    pub CC: u8,
    pub SP: u8,
    pub PC: u8,
    pub mem: [u8; 256],
}

/// The mathematical model of a [`Flisp`].
pub ghost struct MachineState {
    pub a: u8,
    pub x: u8,
    pub y: u8,
    pub cc: u8,
    pub sp: u8,
    pub pc: u8,
    pub mem: Seq<u8>,
}

/// A fresh machine: registers and memory zero, the program counter at the
/// entry vector's index.
pub open spec fn reset_state() -> MachineState {
    MachineState {
        a: 0,
        x: 0,
        y: 0,
        cc: 0,
        sp: 0,
        pc: ENTRY_VECTOR,
        mem: Seq::new(256, |i: int| 0u8),
    }
}

impl Default for Flisp {
    fn default() -> (r: Flisp)
        ensures
            r@ == reset_state(),
    {
        let r = Flisp { A: 0, Y: 0, X: 0, CC: 0, SP: 0, PC: ENTRY_VECTOR, mem: [0u8; 256] };
        assert(r.mem@ =~= Seq::new(256, |i: int| 0u8));
        r
    }
}

impl View for Flisp {
    type V = MachineState;

    open spec fn view(&self) -> MachineState {
        MachineState {
            a: self.A,
            x: self.X,
            y: self.Y,
            cc: self.CC,
            sp: self.SP,
            pc: self.PC,
            mem: self.mem@,
        }
    }
}

/// Bit of the condition codes that holds Negative.
pub const N_BIT: u8 = 3;

/// Bit of the condition codes that holds Zero.
pub const Z_BIT: u8 = 2;

/// Bit of the condition codes that holds Overflow.
pub const V_BIT: u8 = 1;

/// Bit of the condition codes that holds Carry.
pub const C_BIT: u8 = 0;

/// Whether bit `bit` of the condition codes `cc` is set.
pub open spec fn flag(cc: u8, bit: u8) -> bool {
    cc & (1u8 << bit) != 0
}

/// `cc` with bit `bit` set to `to` and every other bit kept.
pub open spec fn with_flag(cc: u8, bit: u8, to: bool) -> u8 {
    (cc & !(1u8 << bit)) | ((if to { 1u8 } else { 0u8 }) << bit)
}

/// Bit 7 of `d`: `d` is negative as a two's-complement number.
pub open spec fn sign(d: u8) -> bool {
    d & 0x80 != 0
}

/// `cc` with Negative and Zero taken from the result `r`.
pub open spec fn nz_flags(cc: u8, r: u8) -> u8 {
    with_flag(with_flag(cc, N_BIT, sign(r)), Z_BIT, r == 0)
}

/// `cc` with Negative and Zero from `r`, then Overflow set to `v`.
pub open spec fn nzv_flags(cc: u8, r: u8, v: bool) -> u8 {
    with_flag(nz_flags(cc, r), V_BIT, v)
}

/// `cc` with Negative and Zero from `r`, Overflow set to `v` and Carry to `c`.
pub open spec fn nzvc_flags(cc: u8, r: u8, v: bool, c: bool) -> u8 {
    with_flag(nzv_flags(cc, r, v), C_BIT, c)
}

/// `1` when `b` holds, else `0`.
pub open spec fn bit(b: bool) -> u8 {
    if b { 1 } else { 0 }
}

/// `a + m + carry`: the result modulo 256 and the new condition codes.
/// Overflow: both operands have one sign and the result the other.
/// Carry: the exact sum exceeds 255.
pub open spec fn add_spec(cc: u8, a: u8, m: u8, carry: bool) -> (u8, u8) {
    let sum = a as int + m as int + bit(carry) as int;
    let r = (sum % 256) as u8;
    (r, nzvc_flags(cc, r, sign(a) == sign(m) && sign(r) != sign(a), sum > 255))
}

/// `a - m - borrow`: the result modulo 256 and the new condition codes.
/// Overflow: the operands differ in sign and the result's sign is `m`'s.
/// Carry: a borrow, the exact difference is below zero.
pub open spec fn sub_spec(cc: u8, a: u8, m: u8, borrow: bool) -> (u8, u8) {
    let diff = a as int - m as int - bit(borrow) as int;
    let r = a.wrapping_sub(m).wrapping_sub(bit(borrow));
    (r, nzvc_flags(cc, r, sign(a) != sign(m) && sign(r) != sign(a), diff < 0))
}

/// A logical result `r`: Negative and Zero from it, Overflow cleared, Carry kept.
pub open spec fn logic_spec(cc: u8, r: u8) -> (u8, u8) {
    (r, nzv_flags(cc, r, false))
}

/// Arithmetic shift left: Carry takes bit 7, Overflow marks a change of sign.
pub open spec fn asl_spec(cc: u8, d: u8) -> (u8, u8) {
    let r = d << 1u8;
    (r, nzvc_flags(cc, r, sign(d) != sign(r), sign(d)))
}

/// Arithmetic shift right: bit 7 is kept, Carry takes bit 0, the sign never changes.
pub open spec fn asr_spec(cc: u8, d: u8) -> (u8, u8) {
    let r = (d >> 1u8) | (d & 0x80);
    (r, nzvc_flags(cc, r, false, d & 1 != 0))
}

/// Logical shift right: bit 7 becomes 0, Carry takes bit 0, Overflow marks a change of sign.
pub open spec fn lsr_spec(cc: u8, d: u8) -> (u8, u8) {
    let r = d >> 1u8;
    (r, nzvc_flags(cc, r, sign(d) != sign(r), d & 1 != 0))
}

/// Rotate left through Carry; Overflow is cleared.
pub open spec fn rol_spec(cc: u8, d: u8) -> (u8, u8) {
    let r = (d << 1u8) | bit(flag(cc, C_BIT));
    (r, nzvc_flags(cc, r, false, sign(d)))
}

/// Rotate right through Carry; Overflow is cleared.
pub open spec fn ror_spec(cc: u8, d: u8) -> (u8, u8) {
    let r = (d >> 1u8) | (bit(flag(cc, C_BIT)) << 7u8);
    (r, nzvc_flags(cc, r, false, d & 1 != 0))
}

/// Ones' complement; Overflow cleared, Carry kept.
pub open spec fn com_spec(cc: u8, d: u8) -> (u8, u8) {
    logic_spec(cc, !d)
}

/// Increment modulo 256; Overflow on the signed wrap from 0x7F; Carry kept.
pub open spec fn inc_spec(cc: u8, d: u8) -> (u8, u8) {
    let r = d.wrapping_add(1);
    (r, nzv_flags(cc, r, d == 0x7F))
}

/// Decrement modulo 256; Overflow on the signed wrap from 0x80; Carry kept.
pub open spec fn dec_spec(cc: u8, d: u8) -> (u8, u8) {
    let r = d.wrapping_sub(1);
    (r, nzv_flags(cc, r, d == 0x80))
}

/// Two's-complement negation; Overflow for 0x80, Carry for every nonzero input.
pub open spec fn neg_spec(cc: u8, d: u8) -> (u8, u8) {
    let r = 0u8.wrapping_sub(d);
    (r, nzvc_flags(cc, r, d == 0x80, d != 0))
}

/// Clear: the result is 0 and the flags are N=0, Z=1, V=0, C=0.
pub open spec fn clr_spec(cc: u8) -> (u8, u8) {
    (0, nzvc_flags(cc, 0, false, false))
}

/// Test: flags from `d` with V=0 and C=0; `d` itself is kept.
pub open spec fn tst_spec(cc: u8, d: u8) -> (u8, u8) {
    (d, nzvc_flags(cc, d, false, false))
}

impl MachineState {
    pub open spec fn with_a(self, a: u8) -> MachineState {
        MachineState { a, ..self }
    }

    pub open spec fn with_x(self, x: u8) -> MachineState {
        MachineState { x, ..self }
    }

    pub open spec fn with_y(self, y: u8) -> MachineState {
        MachineState { y, ..self }
    }

    pub open spec fn with_cc(self, cc: u8) -> MachineState {
        MachineState { cc, ..self }
    }

    pub open spec fn with_sp(self, sp: u8) -> MachineState {
        MachineState { sp, ..self }
    }

    pub open spec fn with_pc(self, pc: u8) -> MachineState {
        MachineState { pc, ..self }
    }

    /// Memory byte `i` set to `v`.
    pub open spec fn with_mem(self, i: u8, v: u8) -> MachineState {
        MachineState { mem: self.mem.update(i as int, v), ..self }
    }

    /// The byte at memory index `i`.
    pub open spec fn read(self, i: u8) -> u8 {
        self.mem[i as int]
    }

    pub open spec fn flag(self, bit: u8) -> bool {
        flag(self.cc, bit)
    }

    /// The program counter after an instruction of `size` bytes that did not
    /// jump: `pc + size`, or the entry vector's byte where that passes 0xFF.
    pub open spec fn advance(self, size: u8) -> MachineState {
        if self.pc as int + size as int > 0xFF {
            self.with_pc(self.read(ENTRY_VECTOR))
        } else {
            self.with_pc((self.pc + size) as u8)
        }
    }

    /// A relative branch of two bytes: when `taken`, to `pc + 2 + n`
    /// modulo 256; else on to the next instruction.
    pub open spec fn branch(self, taken: bool, n: u8) -> MachineState {
        if taken {
            self.with_pc(self.pc.wrapping_add(2).wrapping_add(n))
        } else {
            self.advance(2)
        }
    }

    /// Pre-decrement push of `v`.
    pub open spec fn push(self, v: u8) -> MachineState {
        let sp = self.sp.wrapping_sub(1);
        self.with_sp(sp).with_mem(sp, v)
    }

    /// The byte a pull reads.
    pub open spec fn top(self) -> u8 {
        self.read(self.sp)
    }

    /// Post-increment pull: the stack pointer after it.
    pub open spec fn pop(self) -> MachineState {
        self.with_sp(self.sp.wrapping_add(1))
    }
}

/// Whether `i` decides the next program counter itself (branches, jumps,
/// calls and returns) instead of advancing past itself.
pub open spec fn is_control(i: Instruction) -> bool {
    match i {
        Instruction::BLE | Instruction::BLS | Instruction::BLT | Instruction::BMI
        | Instruction::BNE | Instruction::BPL | Instruction::BRA | Instruction::BSR
        | Instruction::BVC | Instruction::BVS | Instruction::BCC | Instruction::BCS
        | Instruction::BEQ | Instruction::BGE | Instruction::BGT | Instruction::BHI
        | Instruction::JMP(_) | Instruction::JSR(_) | Instruction::RTS | Instruction::RTI => true,
        _ => false,
    }
}

/// Whether `i` is a two-operand accumulator, compare, index-load or
/// condition-code operation.
pub open spec fn is_arith(i: Instruction) -> bool {
    match i {
        Instruction::ADCA(_) | Instruction::ADDA(_) | Instruction::ANDA(_) | Instruction::BITA(_)
        | Instruction::CMPA(_) | Instruction::EORA(_) | Instruction::ORA(_) | Instruction::SBCA(_)
        | Instruction::SUBA(_) | Instruction::LDX(_) | Instruction::LDY(_) | Instruction::LDSP(_)
        | Instruction::CMPX(_) | Instruction::CMPY(_) | Instruction::CMPSP(_) | Instruction::ANDCC
        | Instruction::ORCC => true,
        _ => false,
    }
}

/// Whether `i` is a one-operand operation on `A` or on a memory byte.
pub open spec fn is_unary(i: Instruction) -> bool {
    match i {
        Instruction::ASLA | Instruction::ASL(_) | Instruction::ASRA | Instruction::ASR(_)
        | Instruction::CLRA | Instruction::CLR(_) | Instruction::COMA | Instruction::COM(_)
        | Instruction::DECA | Instruction::DEC(_) | Instruction::INCA | Instruction::INC(_)
        | Instruction::LSRA | Instruction::LSR(_) | Instruction::NEGA | Instruction::NEG(_)
        | Instruction::ROLA | Instruction::ROL(_) | Instruction::RORA | Instruction::ROR(_)
        | Instruction::TSTA | Instruction::TST(_) => true,
        _ => false,
    }
}

/// The state after `i` with operand byte `n`, for the two-operand family.
pub open spec fn arith_effect(s: MachineState, i: Instruction, n: u8) -> MachineState {
    match i {
        Instruction::ADCA(adr) => {
            let (r, cc) = add_spec(s.cc, s.a, adr.spec_value(s, n), s.flag(C_BIT));
            s.with_a(r).with_cc(cc)
        },
        Instruction::ADDA(adr) => {
            let (r, cc) = add_spec(s.cc, s.a, adr.spec_value(s, n), false);
            s.with_a(r).with_cc(cc)
        },
        Instruction::SBCA(adr) => {
            let (r, cc) = sub_spec(s.cc, s.a, adr.spec_value(s, n), s.flag(C_BIT));
            s.with_a(r).with_cc(cc)
        },
        Instruction::SUBA(adr) => {
            let (r, cc) = sub_spec(s.cc, s.a, adr.spec_value(s, n), false);
            s.with_a(r).with_cc(cc)
        },
        Instruction::ANDA(adr) => {
            let (r, cc) = logic_spec(s.cc, s.a & adr.spec_value(s, n));
            s.with_a(r).with_cc(cc)
        },
        Instruction::ORA(adr) => {
            let (r, cc) = logic_spec(s.cc, s.a | adr.spec_value(s, n));
            s.with_a(r).with_cc(cc)
        },
        Instruction::EORA(adr) => {
            let (r, cc) = logic_spec(s.cc, s.a ^ adr.spec_value(s, n));
            s.with_a(r).with_cc(cc)
        },
        Instruction::BITA(adr) => s.with_cc(logic_spec(s.cc, s.a & adr.spec_value(s, n)).1),
        Instruction::CMPA(adr) => s.with_cc(sub_spec(s.cc, s.a, adr.spec_value(s, n), false).1),
        Instruction::CMPX(adr) => s.with_cc(sub_spec(s.cc, s.x, adr.spec_value(s, n), false).1),
        Instruction::CMPY(adr) => s.with_cc(sub_spec(s.cc, s.y, adr.spec_value(s, n), false).1),
        Instruction::CMPSP(adr) => {
            let v = match adr {
                CmpspAddr::Data => n,
                CmpspAddr::Addr => s.read(n),
            };
            s.with_cc(sub_spec(s.cc, s.sp, v, false).1)
        },
        Instruction::LDX(adr) => {
            let v = adr.spec_value(s, n);
            s.with_x(v).with_cc(nzv_flags(s.cc, v, false))
        },
        Instruction::LDY(adr) => {
            let v = adr.spec_value(s, n);
            s.with_y(v).with_cc(nzv_flags(s.cc, v, false))
        },
        Instruction::LDSP(adr) => {
            let v = adr.spec_value(s, n);
            s.with_sp(v).with_cc(nzv_flags(s.cc, v, false))
        },
        Instruction::ANDCC => s.with_cc(s.cc & n),
        Instruction::ORCC => s.with_cc(s.cc | n),
        _ => s,
    }
}

/// `s` with the result of a one-operand operation written back to `A`.
pub open spec fn on_a(s: MachineState, res: (u8, u8)) -> MachineState {
    s.with_a(res.0).with_cc(res.1)
}

/// `s` with the result of a one-operand operation written back to memory byte `i`.
pub open spec fn on_mem(s: MachineState, i: u8, res: (u8, u8)) -> MachineState {
    s.with_mem(i, res.0).with_cc(res.1)
}

/// The state after `i` with operand byte `n`, for the one-operand family.
pub open spec fn unary_effect(s: MachineState, i: Instruction, n: u8) -> MachineState {
    match i {
        Instruction::ASLA => on_a(s, asl_spec(s.cc, s.a)),
        Instruction::ASRA => on_a(s, asr_spec(s.cc, s.a)),
        Instruction::CLRA => on_a(s, clr_spec(s.cc)),
        Instruction::COMA => on_a(s, com_spec(s.cc, s.a)),
        Instruction::DECA => on_a(s, dec_spec(s.cc, s.a)),
        Instruction::INCA => on_a(s, inc_spec(s.cc, s.a)),
        Instruction::LSRA => on_a(s, lsr_spec(s.cc, s.a)),
        Instruction::NEGA => on_a(s, neg_spec(s.cc, s.a)),
        Instruction::ROLA => on_a(s, rol_spec(s.cc, s.a)),
        Instruction::RORA => on_a(s, ror_spec(s.cc, s.a)),
        Instruction::TSTA => s.with_cc(tst_spec(s.cc, s.a).1),
        Instruction::ASL(adr) => {
            let i = adr.spec_index(s, n);
            on_mem(s, i, asl_spec(s.cc, s.read(i)))
        },
        Instruction::ASR(adr) => {
            let i = adr.spec_index(s, n);
            on_mem(s, i, asr_spec(s.cc, s.read(i)))
        },
        Instruction::CLR(adr) => on_mem(s, adr.spec_index(s, n), clr_spec(s.cc)),
        Instruction::COM(adr) => {
            let i = adr.spec_index(s, n);
            on_mem(s, i, com_spec(s.cc, s.read(i)))
        },
        Instruction::DEC(adr) => {
            let i = adr.spec_index(s, n);
            on_mem(s, i, dec_spec(s.cc, s.read(i)))
        },
        Instruction::INC(adr) => {
            let i = adr.spec_index(s, n);
            on_mem(s, i, inc_spec(s.cc, s.read(i)))
        },
        Instruction::LSR(adr) => {
            let i = adr.spec_index(s, n);
            on_mem(s, i, lsr_spec(s.cc, s.read(i)))
        },
        Instruction::NEG(adr) => {
            let i = adr.spec_index(s, n);
            on_mem(s, i, neg_spec(s.cc, s.read(i)))
        },
        Instruction::ROL(adr) => {
            let i = adr.spec_index(s, n);
            on_mem(s, i, rol_spec(s.cc, s.read(i)))
        },
        Instruction::ROR(adr) => {
            let i = adr.spec_index(s, n);
            on_mem(s, i, ror_spec(s.cc, s.read(i)))
        },
        Instruction::TST(adr) => s.with_cc(tst_spec(s.cc, s.read(adr.spec_index(s, n))).1),
        _ => s,
    }
}

/// The state after `i` with operand byte `n`, for loads and stores of `A`,
/// the other stores, address arithmetic, register moves and the stack.
pub open spec fn move_effect(s: MachineState, i: Instruction, n: u8) -> MachineState {
    match i {
        Instruction::LDA(adr) => {
            let (t, v) = adr.spec_load(s, n);
            t.with_a(v).with_cc(nzv_flags(s.cc, v, false))
        },
        Instruction::STA(adr) => {
            let (t, i) = adr.spec_target(s, n);
            t.with_mem(i, s.a)
        },
        Instruction::STX(adr) => s.with_mem(adr.spec_index(s, n), s.x),
        Instruction::STY(adr) => s.with_mem(adr.spec_index(s, n), s.y),
        Instruction::STSP(adr) => s.with_mem(adr.spec_index(s, n), s.sp),
        Instruction::LEAX(adr) => match adr {
            LeaxAddr::nX => s.with_x(n.wrapping_add(s.x)),
            LeaxAddr::nSP => s.with_x(n.wrapping_add(s.sp)),
        },
        Instruction::LEAY(adr) => match adr {
            LeayAddr::nY => s.with_y(n.wrapping_add(s.y)),
            LeayAddr::nSP => s.with_y(n.wrapping_add(s.sp)),
        },
        Instruction::LEASP(adr) => match adr {
            LeaspAddr::nX => s.with_sp(n.wrapping_add(s.x)),
            LeaspAddr::nY => s.with_sp(n.wrapping_add(s.y)),
            LeaspAddr::nSP => s.with_sp(n.wrapping_add(s.sp)),
        },
        Instruction::TFR(adr) => match adr {
            TfrAddr::ACC => s.with_cc(s.a),
            TfrAddr::CCA => s.with_a(s.cc),
            TfrAddr::XY => s.with_y(s.x),
            TfrAddr::YX => s.with_x(s.y),
            TfrAddr::XSP => s.with_sp(s.x),
            TfrAddr::SPX => s.with_x(s.sp),
            TfrAddr::YSP => s.with_sp(s.y),
            TfrAddr::SPY => s.with_y(s.sp),
        },
        Instruction::EXG(adr) => match adr {
            ExgAddr::XY => s.with_x(s.y).with_y(s.x),
            ExgAddr::ACC => s.with_a(s.cc).with_cc(s.a),
            ExgAddr::XSP => s.with_x(s.sp).with_sp(s.x),
            ExgAddr::YSP => s.with_y(s.sp).with_sp(s.y),
        },
        Instruction::PSHA => s.push(s.a),
        Instruction::PSHX => s.push(s.x),
        Instruction::PSHY => s.push(s.y),
        Instruction::PSHCC => s.push(s.cc),
        Instruction::PULA => s.pop().with_a(s.top()),
        Instruction::PULX => s.pop().with_x(s.top()),
        Instruction::PULY => s.pop().with_y(s.top()),
        Instruction::PULCC => s.pop().with_cc(s.top()),
        _ => s,
    }
}

/// The state after a branch, jump, call or return `i` with operand byte `n`.
pub open spec fn control_effect(s: MachineState, i: Instruction, n: u8) -> MachineState {
    let neg = s.flag(N_BIT);
    let zero = s.flag(Z_BIT);
    let ovf = s.flag(V_BIT);
    let carry = s.flag(C_BIT);
    match i {
        Instruction::BRA => s.branch(true, n),
        Instruction::BSR => s.push(s.pc.wrapping_add(2)).branch(true, n),
        Instruction::BLE => s.branch((neg != ovf) || zero, n),
        Instruction::BLS => s.branch(carry || zero, n),
        Instruction::BLT => s.branch(neg != ovf, n),
        Instruction::BMI => s.branch(neg, n),
        Instruction::BNE => s.branch(!zero, n),
        Instruction::BPL => s.branch(!neg, n),
        Instruction::BVC => s.branch(!ovf, n),
        Instruction::BVS => s.branch(ovf, n),
        Instruction::BCC => s.branch(!carry, n),
        Instruction::BCS => s.branch(carry, n),
        Instruction::BEQ => s.branch(zero, n),
        Instruction::BGE => s.branch(neg == ovf, n),
        Instruction::BGT => s.branch(!((neg != ovf) || zero), n),
        Instruction::BHI => s.branch(!(carry || zero), n),
        Instruction::JMP(adr) => s.with_pc(adr.spec_target(s, n)),
        Instruction::JSR(adr) => s.push(s.pc.wrapping_add(adr.spec_size())).with_pc(
            adr.spec_target(s, n),
        ),
        Instruction::RTS => s.pop().with_pc(s.top()),
        Instruction::RTI => {
            let s1 = s.pop().with_cc(s.top());
            let s2 = s1.pop().with_a(s1.top());
            let s3 = s2.pop().with_x(s2.top());
            let s4 = s3.pop().with_y(s3.top());
            s4.pop().with_pc(s4.top())
        },
        _ => s,
    }
}

/// The state after executing `i`, whose operand byte is `n`, in state `s`.
/// Every instruction that does not decide the program counter itself then
/// advances it by its size.
pub open spec fn execute(s: MachineState, i: Instruction, n: u8) -> MachineState {
    if is_control(i) {
        control_effect(s, i, n)
    } else if is_arith(i) {
        arith_effect(s, i, n).advance(i.spec_size())
    } else if is_unary(i) {
        unary_effect(s, i, n).advance(i.spec_size())
    } else {
        move_effect(s, i, n).advance(i.spec_size())
    }
}

/// One step: fetch the byte at `pc`; if it is no instruction, jump through
/// the trap vector; else execute it with the byte after it as operand.
pub open spec fn step_spec(s: MachineState) -> MachineState {
    match Instruction::spec_decode(s.read(s.pc)) {
        Some(i) => execute(s, i, s.read(s.pc.wrapping_add(1))),
        None => s.with_pc(s.read(TRAP_VECTOR)),
    }
}

/// Setting one flag bit gives it the new value and keeps every other bit.
pub proof fn lemma_with_flag(cc: u8, b: u8, o: u8, to: bool)
    requires
        b < 8,
        o < 8,
    ensures
        flag(with_flag(cc, b, to), b) == to,
        o != b ==> flag(with_flag(cc, b, to), o) == flag(cc, o),
{
    let t: u8 = if to { 1 } else { 0 };
    assert((((cc & !(1u8 << b)) | (t << b)) & (1u8 << b) != 0) == (t == 1)) by (bit_vector)
        requires
            b < 8,
            t == 0 || t == 1,
    ;
    assert(o != b ==> ((((cc & !(1u8 << b)) | (t << b)) & (1u8 << o) != 0) == (cc & (1u8 << o)
        != 0))) by (bit_vector)
        requires
            b < 8,
            o < 8,
            t == 0 || t == 1,
    ;
}

/// The four flags after `nzvc_flags`: Negative and Zero from `r`,
/// Overflow `v`, Carry `c`, whatever the condition codes were before.
pub proof fn lemma_nzvc_flags(cc: u8, r: u8, v: bool, c: bool)
    ensures
        flag(nzvc_flags(cc, r, v, c), N_BIT) == sign(r),
        flag(nzvc_flags(cc, r, v, c), Z_BIT) == (r == 0),
        flag(nzvc_flags(cc, r, v, c), V_BIT) == v,
        flag(nzvc_flags(cc, r, v, c), C_BIT) == c,
{
    let c1 = with_flag(cc, N_BIT, sign(r));
    let c2 = with_flag(c1, Z_BIT, r == 0);
    let c3 = with_flag(c2, V_BIT, v);
    lemma_with_flag(cc, N_BIT, Z_BIT, sign(r));
    lemma_with_flag(c1, Z_BIT, N_BIT, r == 0);
    lemma_with_flag(c2, V_BIT, N_BIT, v);
    lemma_with_flag(c2, V_BIT, Z_BIT, v);
    lemma_with_flag(c3, C_BIT, N_BIT, c);
    lemma_with_flag(c3, C_BIT, Z_BIT, c);
    lemma_with_flag(c3, C_BIT, V_BIT, c);
}

/// The flags after `nzv_flags`: Negative and Zero from `r`, Overflow `v`,
/// Carry as it was.
pub proof fn lemma_nzv_flags(cc: u8, r: u8, v: bool)
    ensures
        flag(nzv_flags(cc, r, v), N_BIT) == sign(r),
        flag(nzv_flags(cc, r, v), Z_BIT) == (r == 0),
        flag(nzv_flags(cc, r, v), V_BIT) == v,
        flag(nzv_flags(cc, r, v), C_BIT) == flag(cc, C_BIT),
{
    let c1 = with_flag(cc, N_BIT, sign(r));
    let c2 = with_flag(c1, Z_BIT, r == 0);
    lemma_with_flag(cc, N_BIT, Z_BIT, sign(r));
    lemma_with_flag(cc, N_BIT, C_BIT, sign(r));
    lemma_with_flag(c1, Z_BIT, N_BIT, r == 0);
    lemma_with_flag(c1, Z_BIT, C_BIT, r == 0);
    lemma_with_flag(c2, V_BIT, N_BIT, v);
    lemma_with_flag(c2, V_BIT, Z_BIT, v);
    lemma_with_flag(c2, V_BIT, C_BIT, v);
}

/// A logical result (of `AND`, `OR`, `EOR`, `BIT` or `COM`) leaves Overflow
/// clear, keeps Carry and takes Negative and Zero from the result, whatever
/// the condition codes were.
pub proof fn lemma_logic_spec_flags(cc: u8, r: u8)
    ensures
        logic_spec(cc, r).0 == r,
        !flag(logic_spec(cc, r).1, V_BIT),
        flag(logic_spec(cc, r).1, C_BIT) == flag(cc, C_BIT),
        flag(logic_spec(cc, r).1, N_BIT) == sign(r),
        flag(logic_spec(cc, r).1, Z_BIT) == (r == 0),
{
    lemma_nzv_flags(cc, r, false);
}

/// Clearing yields 0 and the flags N=0, Z=1, V=0, C=0, whatever the
/// condition codes were.
pub proof fn lemma_clr_spec_flags(cc: u8)
    ensures
        clr_spec(cc).0 == 0,
        !flag(clr_spec(cc).1, N_BIT),
        flag(clr_spec(cc).1, Z_BIT),
        !flag(clr_spec(cc).1, V_BIT),
        !flag(clr_spec(cc).1, C_BIT),
{
    assert(0u8 & 0x80u8 == 0) by (bit_vector);
    lemma_nzvc_flags(cc, 0, false, false);
}

/// `AND`, `OR` and `EOR` on the accumulator always leave Overflow clear,
/// and keep Carry.
pub proof fn lemma_logic_clears_overflow(s: MachineState)
    requires
        s.mem.len() == 256,
        Instruction::spec_decode(s.read(s.pc)) matches Some(i) && (i is ANDA || i is ORA
            || i is EORA),
    ensures
        !step_spec(s).flag(V_BIT),
        step_spec(s).flag(C_BIT) == s.flag(C_BIT),
{
    let i = Instruction::spec_decode(s.read(s.pc)).unwrap();
    let n = s.read(s.pc.wrapping_add(1));
    match i {
        Instruction::ANDA(adr) => lemma_logic_spec_flags(s.cc, s.a & adr.spec_value(s, n)),
        Instruction::ORA(adr) => lemma_logic_spec_flags(s.cc, s.a | adr.spec_value(s, n)),
        Instruction::EORA(adr) => lemma_logic_spec_flags(s.cc, s.a ^ adr.spec_value(s, n)),
        _ => {},
    }
}

/// `CLR` and `CLRA` always leave N=0, Z=1, V=0, C=0, whatever the flags
/// were before.
pub proof fn lemma_clear_flags(s: MachineState)
    requires
        s.mem.len() == 256,
        Instruction::spec_decode(s.read(s.pc)) matches Some(i) && (i is CLR || i is CLRA),
    ensures
        !step_spec(s).flag(N_BIT),
        step_spec(s).flag(Z_BIT),
        !step_spec(s).flag(V_BIT),
        !step_spec(s).flag(C_BIT),
{
    lemma_clr_spec_flags(s.cc);
}

/// `LEAX n,X` adds the operand byte to `X` modulo 256: the register never
/// leaves 0..=255 (so `X = 0xFF` with `n = 0x02` gives `0x01`).
pub proof fn lemma_leax_wraps(s: MachineState)
    requires
        s.mem.len() == 256,
        Instruction::spec_decode(s.read(s.pc)) == Some(Instruction::LEAX(LeaxAddr::nX)),
    ensures
        step_spec(s).x as int == (s.x as int + s.read(s.pc.wrapping_add(1)) as int) % 256,
{
}

/// A push of `A` followed by a pull of `A` gives back `A` and the stack
/// pointer.
pub proof fn lemma_push_pull_restores(s: MachineState)
    requires
        s.mem.len() == 256,
        Instruction::spec_decode(s.read(s.pc)) == Some(Instruction::PSHA),
        Instruction::spec_decode(step_spec(s).read(step_spec(s).pc)) == Some(Instruction::PULA),
    ensures
        step_spec(step_spec(s)).a == s.a,
        step_spec(step_spec(s)).sp == s.sp,
{
}

/// A byte that is no instruction sends the program counter to the byte at
/// the trap vector and changes nothing else.
pub proof fn lemma_trap_dispatch(s: MachineState)
    requires
        Instruction::spec_decode(s.read(s.pc)) is None,
    ensures
        step_spec(s) == s.with_pc(s.read(TRAP_VECTOR)),
{
}

/// Whether bit 7 of `d` is set.
fn is_negative(d: u8) -> (r: bool)
    ensures
        r == sign(d),
{
    d & 0x80 != 0
}

impl Flisp {
    fn set_n(&mut self, to: bool)
        ensures
            final(self)@ == old(self)@.with_cc(with_flag(old(self).CC, N_BIT, to)),
    {
        self.CC = (self.CC & !(1u8 << N_BIT)) | ((if to { 1u8 } else { 0u8 }) << N_BIT);
    }

    fn get_n(&self) -> (r: bool)
        ensures
            r == flag(self.CC, N_BIT),
    {
        self.CC & (1u8 << N_BIT) != 0
    }

    fn set_n_from(&mut self, data: u8)
        ensures
            final(self)@ == old(self)@.with_cc(with_flag(old(self).CC, N_BIT, sign(data))),
    {
        self.set_n(is_negative(data));
    }

    fn set_z(&mut self, to: bool)
        ensures
            final(self)@ == old(self)@.with_cc(with_flag(old(self).CC, Z_BIT, to)),
    {
        self.CC = (self.CC & !(1u8 << Z_BIT)) | ((if to { 1u8 } else { 0u8 }) << Z_BIT);
    }

    fn get_z(&self) -> (r: bool)
        ensures
            r == flag(self.CC, Z_BIT),
    {
        self.CC & (1u8 << Z_BIT) != 0
    }

    fn set_z_from(&mut self, data: u8)
        ensures
            final(self)@ == old(self)@.with_cc(with_flag(old(self).CC, Z_BIT, data == 0)),
    {
        self.set_z(data == 0);
    }

    fn set_v(&mut self, to: bool)
        ensures
            final(self)@ == old(self)@.with_cc(with_flag(old(self).CC, V_BIT, to)),
    {
        self.CC = (self.CC & !(1u8 << V_BIT)) | ((if to { 1u8 } else { 0u8 }) << V_BIT);
    }

    fn get_v(&self) -> (r: bool)
        ensures
            r == flag(self.CC, V_BIT),
    {
        self.CC & (1u8 << V_BIT) != 0
    }

    fn set_c(&mut self, to: bool)
        ensures
            final(self)@ == old(self)@.with_cc(with_flag(old(self).CC, C_BIT, to)),
    {
        self.CC = (self.CC & !(1u8 << C_BIT)) | ((if to { 1u8 } else { 0u8 }) << C_BIT);
    }

    fn get_c(&self) -> (r: bool)
        ensures
            r == flag(self.CC, C_BIT),
    {
        self.CC & (1u8 << C_BIT) != 0
    }

    /// Sets Negative and Zero from `r`, then Overflow to `v`.
    fn set_nzv(&mut self, r: u8, v: bool)
        ensures
            final(self)@ == old(self)@.with_cc(nzv_flags(old(self).CC, r, v)),
    {
        self.set_n_from(r);
        self.set_z_from(r);
        self.set_v(v);
    }

    /// Sets Negative and Zero from `r`, Overflow to `v` and Carry to `c`.
    fn set_nzvc(&mut self, r: u8, v: bool, c: bool)
        ensures
            final(self)@ == old(self)@.with_cc(nzvc_flags(old(self).CC, r, v, c)),
    {
        self.set_nzv(r, v);
        self.set_c(c);
    }

    /// `A + data + carry` into `A`.
    fn add(&mut self, data: u8, carry: bool)
        ensures
            ({
                let (r, cc) = add_spec(old(self).CC, old(self).A, data, carry);
                final(self)@ == old(self)@.with_a(r).with_cc(cc)
            }),
    {
        let a = self.A;
        let sum: u16 = a as u16 + data as u16 + if carry { 1u16 } else { 0u16 };
        let res = (sum % 256) as u8;
        let overflow = is_negative(a) == is_negative(data) && is_negative(res) != is_negative(a);
        self.A = res;
        self.set_nzvc(res, overflow, sum > 255);
    }

    /// `lhs - data - borrow`, setting the flags; returns the difference.
    fn sub(&mut self, lhs: u8, data: u8, borrow: bool) -> (r: u8)
        ensures
            ({
                let (res, cc) = sub_spec(old(self).CC, lhs, data, borrow);
                r == res && final(self)@ == old(self)@.with_cc(cc)
            }),
    {
        let b: u8 = if borrow { 1 } else { 0 };
        let res = lhs.wrapping_sub(data).wrapping_sub(b);
        let overflow = is_negative(lhs) != is_negative(data) && is_negative(res) != is_negative(
            lhs,
        );
        let below = (lhs as u16) < data as u16 + b as u16;
        self.set_nzvc(res, overflow, below);
        res
    }

    /// Compares `lhs` with `rhs`: the flags of `lhs - rhs`, nothing stored.
    fn cmp(&mut self, lhs: u8, rhs: u8)
        ensures
            final(self)@ == old(self)@.with_cc(sub_spec(old(self).CC, lhs, rhs, false).1),
    {
        self.sub(lhs, rhs, false);
    }

    fn and(&mut self, data: u8) -> (r: u8)
        ensures
            (r, final(self).CC) == logic_spec(old(self).CC, old(self).A & data),
            final(self)@ == old(self)@.with_cc(final(self).CC),
    {
        let res = self.A & data;
        self.set_nzv(res, false);
        res
    }

    fn or(&mut self, data: u8) -> (r: u8)
        ensures
            (r, final(self).CC) == logic_spec(old(self).CC, old(self).A | data),
            final(self)@ == old(self)@.with_cc(final(self).CC),
    {
        let res = self.A | data;
        self.set_nzv(res, false);
        res
    }

    fn eora(&mut self, data: u8)
        ensures
            ({
                let (r, cc) = logic_spec(old(self).CC, old(self).A ^ data);
                final(self)@ == old(self)@.with_a(r).with_cc(cc)
            }),
    {
        let res = self.A ^ data;
        self.set_nzv(res, false);
        self.A = res;
    }

    fn asl(&mut self, data: u8) -> (r: u8)
        ensures
            (r, final(self).CC) == asl_spec(old(self).CC, data),
            final(self)@ == old(self)@.with_cc(final(self).CC),
    {
        let res = data << 1u8;
        self.set_nzvc(res, is_negative(data) != is_negative(res), is_negative(data));
        res
    }

    fn asr(&mut self, data: u8) -> (r: u8)
        ensures
            (r, final(self).CC) == asr_spec(old(self).CC, data),
            final(self)@ == old(self)@.with_cc(final(self).CC),
    {
        let res = (data >> 1u8) | (data & 0x80);
        self.set_nzvc(res, false, data & 1 != 0);
        res
    }

    fn lsr(&mut self, data: u8) -> (r: u8)
        ensures
            (r, final(self).CC) == lsr_spec(old(self).CC, data),
            final(self)@ == old(self)@.with_cc(final(self).CC),
    {
        let res = data >> 1u8;
        self.set_nzvc(res, is_negative(data) != is_negative(res), data & 1 != 0);
        res
    }

    fn rol(&mut self, data: u8) -> (r: u8)
        ensures
            (r, final(self).CC) == rol_spec(old(self).CC, data),
            final(self)@ == old(self)@.with_cc(final(self).CC),
    {
        let res = (data << 1u8) | if self.get_c() { 1u8 } else { 0u8 };
        self.set_nzvc(res, false, is_negative(data));
        res
    }

    fn ror(&mut self, data: u8) -> (r: u8)
        ensures
            (r, final(self).CC) == ror_spec(old(self).CC, data),
            final(self)@ == old(self)@.with_cc(final(self).CC),
    {
        let res = (data >> 1u8) | ((if self.get_c() { 1u8 } else { 0u8 }) << 7u8);
        self.set_nzvc(res, false, data & 1 != 0);
        res
    }

    fn com(&mut self, data: u8) -> (r: u8)
        ensures
            (r, final(self).CC) == com_spec(old(self).CC, data),
            final(self)@ == old(self)@.with_cc(final(self).CC),
    {
        let res = !data;
        self.set_nzv(res, false);
        res
    }

    fn inc(&mut self, data: u8) -> (r: u8)
        ensures
            (r, final(self).CC) == inc_spec(old(self).CC, data),
            final(self)@ == old(self)@.with_cc(final(self).CC),
    {
        let res = data.wrapping_add(1);
        self.set_nzv(res, data == 0x7F);
        res
    }

    fn dec(&mut self, data: u8) -> (r: u8)
        ensures
            (r, final(self).CC) == dec_spec(old(self).CC, data),
            final(self)@ == old(self)@.with_cc(final(self).CC),
    {
        let res = data.wrapping_sub(1);
        self.set_nzv(res, data == 0x80);
        res
    }

    fn neg(&mut self, data: u8) -> (r: u8)
        ensures
            (r, final(self).CC) == neg_spec(old(self).CC, data),
            final(self)@ == old(self)@.with_cc(final(self).CC),
    {
        let res = 0u8.wrapping_sub(data);
        self.set_nzvc(res, data == 0x80, data != 0);
        res
    }

    fn clr(&mut self) -> (r: u8)
        ensures
            (r, final(self).CC) == clr_spec(old(self).CC),
            final(self)@ == old(self)@.with_cc(final(self).CC),
    {
        self.set_nzvc(0, false, false);
        0
    }

    fn tst(&mut self, data: u8) -> (r: u8)
        ensures
            (r, final(self).CC) == tst_spec(old(self).CC, data),
            final(self)@ == old(self)@.with_cc(final(self).CC),
    {
        self.set_nzvc(data, false, false);
        data
    }

    /// Advances the program counter past an instruction of `size` bytes,
    /// through the entry vector where it would pass 0xFF.
    fn advance(&mut self, size: u8)
        requires
            size <= 2,
        ensures
            final(self)@ == old(self)@.advance(size),
    {
        if self.PC as u16 + size as u16 > 0xFF {
            self.PC = self.mem[ENTRY_VECTOR as usize];
        } else {
            self.PC = self.PC + size;
        }
    }

    /// Decrements `SP`, then stores `v` there.
    fn push(&mut self, v: u8)
        ensures
            final(self)@ == old(self)@.push(v),
    {
        self.SP = self.SP.wrapping_sub(1);
        self.mem[self.SP as usize] = v;
    }

    /// Loads the byte at `SP`, then increments `SP`.
    fn pull(&mut self) -> (r: u8)
        ensures
            r == old(self)@.top(),
            final(self)@ == old(self)@.pop(),
    {
        let v = self.mem[self.SP as usize];
        self.SP = self.SP.wrapping_add(1);
        v
    }

    /// Executes a two-operand accumulator, compare, index-load or
    /// condition-code instruction, without the program counter update.
    fn exec_arith(&mut self, inst: Instruction, n: u8)
        requires
            is_arith(inst),
        ensures
            final(self)@ == arith_effect(old(self)@, inst, n),
    {
        match inst {
            Instruction::ADCA(adr) => {
                let rhs = adr.get_value(self, n);
                let c = self.get_c();
                self.add(rhs, c);
            },
            Instruction::ADDA(adr) => {
                let rhs = adr.get_value(self, n);
                self.add(rhs, false);
            },
            Instruction::SBCA(adr) => {
                let rhs = adr.get_value(self, n);
                let c = self.get_c();
                self.A = self.sub(self.A, rhs, c);
            },
            Instruction::SUBA(adr) => {
                let rhs = adr.get_value(self, n);
                self.A = self.sub(self.A, rhs, false);
            },
            Instruction::ANDA(adr) => {
                let rhs = adr.get_value(self, n);
                self.A = self.and(rhs);
            },
            Instruction::ORA(adr) => {
                let rhs = adr.get_value(self, n);
                self.A = self.or(rhs);
            },
            Instruction::EORA(adr) => {
                let rhs = adr.get_value(self, n);
                self.eora(rhs);
            },
            Instruction::BITA(adr) => {
                let rhs = adr.get_value(self, n);
                self.and(rhs);
            },
            Instruction::CMPA(adr) => {
                let rhs = adr.get_value(self, n);
                self.cmp(self.A, rhs);
            },
            Instruction::CMPX(adr) => {
                let rhs = adr.get_value(self, n);
                self.cmp(self.X, rhs);
            },
            Instruction::CMPY(adr) => {
                let rhs = adr.get_value(self, n);
                self.cmp(self.Y, rhs);
            },
            Instruction::CMPSP(adr) => {
                let rhs = match adr {
                    CmpspAddr::Data => n,
                    CmpspAddr::Addr => self.mem[n as usize],
                };
                self.cmp(self.SP, rhs);
            },
            Instruction::LDX(adr) => {
                let data = adr.get_value(self, n);
                self.set_nzv(data, false);
                self.X = data;
            },
            Instruction::LDY(adr) => {
                let data = adr.get_value(self, n);
                self.set_nzv(data, false);
                self.Y = data;
            },
            Instruction::LDSP(adr) => {
                let data = adr.get_value(self, n);
                self.set_nzv(data, false);
                self.SP = data;
            },
            Instruction::ANDCC => {
                self.CC = self.CC & n;
            },
            Instruction::ORCC => {
                self.CC = self.CC | n;
            },
            _ => {},
        }
    }

    /// Executes a one-operand instruction, without the program counter update.
    fn exec_unary(&mut self, inst: Instruction, n: u8)
        requires
            is_unary(inst),
        ensures
            final(self)@ == unary_effect(old(self)@, inst, n),
    {
        match inst {
            Instruction::ASLA | Instruction::ASRA | Instruction::CLRA | Instruction::COMA
            | Instruction::DECA | Instruction::INCA | Instruction::LSRA | Instruction::NEGA
            | Instruction::ROLA | Instruction::RORA
            | Instruction::TSTA => self.exec_unary_on_a(inst, n),
            _ => self.exec_unary_on_mem(inst, n),
        }
    }

    /// `exec_unary` for the forms that work on `A`.
    #[verifier::spinoff_prover]
    fn exec_unary_on_a(&mut self, inst: Instruction, n: u8)
        requires
            is_unary(inst),
            !(inst is ASL || inst is ASR || inst is CLR || inst is COM || inst is DEC || inst is INC
                || inst is LSR || inst is NEG || inst is ROL || inst is ROR || inst is TST),
        ensures
            final(self)@ == unary_effect(old(self)@, inst, n),
    {
        match inst {
            Instruction::ASLA => {
                self.A = self.asl(self.A);
            },
            Instruction::ASRA => {
                self.A = self.asr(self.A);
            },
            Instruction::CLRA => {
                self.A = self.clr();
            },
            Instruction::COMA => {
                self.A = self.com(self.A);
            },
            Instruction::DECA => {
                self.A = self.dec(self.A);
            },
            Instruction::INCA => {
                self.A = self.inc(self.A);
            },
            Instruction::LSRA => {
                self.A = self.lsr(self.A);
            },
            Instruction::NEGA => {
                self.A = self.neg(self.A);
            },
            Instruction::ROLA => {
                self.A = self.rol(self.A);
            },
            Instruction::RORA => {
                self.A = self.ror(self.A);
            },
            Instruction::TSTA => {
                self.tst(self.A);
            },
            _ => {},
        }
    }

    /// `exec_unary` for the forms that work on a memory byte.
    #[verifier::spinoff_prover]
    fn exec_unary_on_mem(&mut self, inst: Instruction, n: u8)
        requires
            inst is ASL || inst is ASR || inst is CLR || inst is COM || inst is DEC || inst is INC
                || inst is LSR || inst is NEG || inst is ROL || inst is ROR || inst is TST,
        ensures
            final(self)@ == unary_effect(old(self)@, inst, n),
    {
        match inst {
            Instruction::ASL(adr) => {
                let idx = adr.get_index(self, n);
                self.mem[idx] = self.asl(self.mem[idx]);
            },
            Instruction::ASR(adr) => {
                let idx = adr.get_index(self, n);
                self.mem[idx] = self.asr(self.mem[idx]);
            },
            Instruction::CLR(adr) => {
                let idx = adr.get_index(self, n);
                self.mem[idx] = self.clr();
            },
            Instruction::COM(adr) => {
                let idx = adr.get_index(self, n);
                self.mem[idx] = self.com(self.mem[idx]);
            },
            Instruction::DEC(adr) => {
                let idx = adr.get_index(self, n);
                self.mem[idx] = self.dec(self.mem[idx]);
            },
            Instruction::INC(adr) => {
                let idx = adr.get_index(self, n);
                self.mem[idx] = self.inc(self.mem[idx]);
            },
            Instruction::LSR(adr) => {
                let idx = adr.get_index(self, n);
                self.mem[idx] = self.lsr(self.mem[idx]);
            },
            Instruction::NEG(adr) => {
                let idx = adr.get_index(self, n);
                self.mem[idx] = self.neg(self.mem[idx]);
            },
            Instruction::ROL(adr) => {
                let idx = adr.get_index(self, n);
                self.mem[idx] = self.rol(self.mem[idx]);
            },
            Instruction::ROR(adr) => {
                let idx = adr.get_index(self, n);
                self.mem[idx] = self.ror(self.mem[idx]);
            },
            Instruction::TST(adr) => {
                let idx = adr.get_index(self, n);
                self.tst(self.mem[idx]);
            },
            _ => {},
        }
    }

    /// Executes a load or store of `A`, another store, an address computation,
    /// a register move or a stack operation, without the program counter update.
    fn exec_move(&mut self, inst: Instruction, n: u8)
        requires
            !is_control(inst),
            !is_arith(inst),
            !is_unary(inst),
        ensures
            final(self)@ == move_effect(old(self)@, inst, n),
    {
        match inst {
            Instruction::LDA(adr) => {
                let data = adr.load(self, n);
                self.set_nzv(data, false);
                self.A = data;
            },
            Instruction::STA(adr) => {
                let idx = adr.store_index(self, n);
                self.mem[idx] = self.A;
            },
            Instruction::STX(adr) => {
                let idx = adr.get_index(self, n);
                self.mem[idx] = self.X;
            },
            Instruction::STY(adr) => {
                let idx = adr.get_index(self, n);
                self.mem[idx] = self.Y;
            },
            Instruction::STSP(adr) => {
                let idx = adr.get_index(self, n);
                self.mem[idx] = self.SP;
            },
            Instruction::LEAX(adr) => {
                self.X = match adr {
                    LeaxAddr::nX => n.wrapping_add(self.X),
                    LeaxAddr::nSP => n.wrapping_add(self.SP),
                };
            },
            Instruction::LEAY(adr) => {
                self.Y = match adr {
                    LeayAddr::nY => n.wrapping_add(self.Y),
                    LeayAddr::nSP => n.wrapping_add(self.SP),
                };
            },
            Instruction::LEASP(adr) => {
                self.SP = match adr {
                    LeaspAddr::nX => n.wrapping_add(self.X),
                    LeaspAddr::nY => n.wrapping_add(self.Y),
                    LeaspAddr::nSP => n.wrapping_add(self.SP),
                };
            },
            Instruction::TFR(adr) => match adr {
                TfrAddr::ACC => self.CC = self.A,
                TfrAddr::CCA => self.A = self.CC,
                TfrAddr::XY => self.Y = self.X,
                TfrAddr::YX => self.X = self.Y,
                TfrAddr::XSP => self.SP = self.X,
                TfrAddr::SPX => self.X = self.SP,
                TfrAddr::YSP => self.SP = self.Y,
                TfrAddr::SPY => self.Y = self.SP,
            },
            Instruction::EXG(adr) => match adr {
                ExgAddr::XY => {
                    let t = self.X;
                    self.X = self.Y;
                    self.Y = t;
                },
                ExgAddr::ACC => {
                    let t = self.A;
                    self.A = self.CC;
                    self.CC = t;
                },
                ExgAddr::XSP => {
                    let t = self.X;
                    self.X = self.SP;
                    self.SP = t;
                },
                ExgAddr::YSP => {
                    let t = self.Y;
                    self.Y = self.SP;
                    self.SP = t;
                },
            },
            Instruction::PSHA => self.push(self.A),
            Instruction::PSHX => self.push(self.X),
            Instruction::PSHY => self.push(self.Y),
            Instruction::PSHCC => self.push(self.CC),
            Instruction::PULA => {
                self.A = self.pull();
            },
            Instruction::PULX => {
                self.X = self.pull();
            },
            Instruction::PULY => {
                self.Y = self.pull();
            },
            Instruction::PULCC => {
                self.CC = self.pull();
            },
            _ => {},
        }
    }

    /// Takes a relative branch of two bytes when `taken`.
    fn branch(&mut self, taken: bool, n: u8)
        ensures
            final(self)@ == old(self)@.branch(taken, n),
    {
        if taken {
            self.PC = self.PC.wrapping_add(2).wrapping_add(n);
        } else {
            self.advance(2);
        }
    }

    /// Executes a branch, jump, call or return, program counter included.
    fn exec_control(&mut self, inst: Instruction, n: u8)
        requires
            is_control(inst),
        ensures
            final(self)@ == control_effect(old(self)@, inst, n),
    {
        let neg = self.get_n();
        let zero = self.get_z();
        let ovf = self.get_v();
        let carry = self.get_c();
        match inst {
            Instruction::BRA => self.branch(true, n),
            Instruction::BSR => {
                self.push(self.PC.wrapping_add(2));
                self.branch(true, n);
            },
            Instruction::BLE => self.branch((neg != ovf) || zero, n),
            Instruction::BLS => self.branch(carry || zero, n),
            Instruction::BLT => self.branch(neg != ovf, n),
            Instruction::BMI => self.branch(neg, n),
            Instruction::BNE => self.branch(!zero, n),
            Instruction::BPL => self.branch(!neg, n),
            Instruction::BVC => self.branch(!ovf, n),
            Instruction::BVS => self.branch(ovf, n),
            Instruction::BCC => self.branch(!carry, n),
            Instruction::BCS => self.branch(carry, n),
            Instruction::BEQ => self.branch(zero, n),
            Instruction::BGE => self.branch(neg == ovf, n),
            Instruction::BGT => self.branch(!((neg != ovf) || zero), n),
            Instruction::BHI => self.branch(!(carry || zero), n),
            Instruction::JMP(adr) => {
                self.PC = adr.get_target(self, n);
            },
            Instruction::JSR(adr) => {
                let target = adr.get_target(self, n);
                let size = inst.size();
                self.push(self.PC.wrapping_add(size));
                self.PC = target;
            },
            Instruction::RTS => {
                self.PC = self.pull();
            },
            Instruction::RTI => {
                self.CC = self.pull();
                self.A = self.pull();
                self.X = self.pull();
                self.Y = self.pull();
                self.PC = self.pull();
            },
            _ => {},
        }
    }

    /// Executes `inst`, whose operand byte is `n`, including the update of
    /// the program counter.
    fn execute(&mut self, inst: Instruction, n: u8)
        ensures
            final(self)@ == execute(old(self)@, inst, n),
    {
        if is_control_inst(&inst) {
            self.exec_control(inst, n);
        } else {
            if is_arith_inst(&inst) {
                self.exec_arith(inst, n);
            } else if is_unary_inst(&inst) {
                self.exec_unary(inst, n);
            } else {
                self.exec_move(inst, n);
            }
            self.advance(inst.size());
        }
    }

    /// Performs one fetch-decode-execute step.
    pub fn step(&mut self)
        ensures
            final(self)@ == step_spec(old(self)@),
    {
        let inst = match Instruction::decode(self.mem[self.PC as usize]) {
            Ok(inst) => inst,
            Err(_) => {
                self.PC = self.mem[TRAP_VECTOR as usize];
                return;
            },
        };
        let n = self.mem[self.PC.wrapping_add(1) as usize];
        self.execute(inst, n);
    }
}

fn is_control_inst(i: &Instruction) -> (r: bool)
    ensures
        r == is_control(*i),
{
    match i {
        Instruction::BLE | Instruction::BLS | Instruction::BLT | Instruction::BMI
        | Instruction::BNE | Instruction::BPL | Instruction::BRA | Instruction::BSR
        | Instruction::BVC | Instruction::BVS | Instruction::BCC | Instruction::BCS
        | Instruction::BEQ | Instruction::BGE | Instruction::BGT | Instruction::BHI
        | Instruction::JMP(_) | Instruction::JSR(_) | Instruction::RTS | Instruction::RTI => true,
        _ => false,
    }
}

fn is_arith_inst(i: &Instruction) -> (r: bool)
    ensures
        r == is_arith(*i),
{
    match i {
        Instruction::ADCA(_) | Instruction::ADDA(_) | Instruction::ANDA(_) | Instruction::BITA(_)
        | Instruction::CMPA(_) | Instruction::EORA(_) | Instruction::ORA(_) | Instruction::SBCA(_)
        | Instruction::SUBA(_) | Instruction::LDX(_) | Instruction::LDY(_) | Instruction::LDSP(_)
        | Instruction::CMPX(_) | Instruction::CMPY(_) | Instruction::CMPSP(_) | Instruction::ANDCC
        | Instruction::ORCC => true,
        _ => false,
    }
}

fn is_unary_inst(i: &Instruction) -> (r: bool)
    ensures
        r == is_unary(*i),
{
    match i {
        Instruction::ASLA | Instruction::ASL(_) | Instruction::ASRA | Instruction::ASR(_)
        | Instruction::CLRA | Instruction::CLR(_) | Instruction::COMA | Instruction::COM(_)
        | Instruction::DECA | Instruction::DEC(_) | Instruction::INCA | Instruction::INC(_)
        | Instruction::LSRA | Instruction::LSR(_) | Instruction::NEGA | Instruction::NEG(_)
        | Instruction::ROLA | Instruction::ROL(_) | Instruction::RORA | Instruction::ROR(_)
        | Instruction::TSTA | Instruction::TST(_) => true,
        _ => false,
    }
}

} // verus!
