use flisp::Flisp;

const N: u8 = 0b1000;
const Z: u8 = 0b0100;
const V: u8 = 0b0010;
const C: u8 = 0b0001;

/// A machine with `code` at address 0x10 and the program counter on it.
fn machine(code: &[u8]) -> Flisp {
    let mut flisp = Flisp::default();
    for (i, b) in code.iter().enumerate() {
        flisp.mem[0x10 + i] = *b;
    }
    flisp.PC = 0x10;
    flisp
}

#[test]
fn default_machine() {
    let flisp = Flisp::default();
    assert_eq!(flisp.PC, 0xFF);
    assert_eq!(flisp.A, 0);
    assert_eq!(flisp.SP, 0);
    assert_eq!(flisp.mem, [0u8; 256]);
}

#[test]
fn leax_wraps() {
    // LEAX $02,X with X = 0xFF
    let mut flisp = machine(&[0xCC, 0x02]);
    flisp.X = 0xFF;
    flisp.step();
    assert_eq!(flisp.X, 0x01);
    assert_eq!(flisp.PC, 0x12);
}

#[test]
fn add_overflow_and_carry() {
    // ADDA #$01 with A = 0x7F
    let mut flisp = machine(&[0x96, 0x01]);
    flisp.A = 0x7F;
    flisp.step();
    assert_eq!(flisp.A, 0x80);
    assert_eq!(flisp.CC, N | V);

    // ADDA #$01 with A = 0xFF
    let mut flisp = machine(&[0x96, 0x01]);
    flisp.A = 0xFF;
    flisp.step();
    assert_eq!(flisp.A, 0x00);
    assert_eq!(flisp.CC, Z | C);
}

#[test]
fn adc_adds_the_carry() {
    // ADCA #$10 with A = 0x05 and Carry set
    let mut flisp = machine(&[0x95, 0x10]);
    flisp.A = 0x05;
    flisp.CC = C;
    flisp.step();
    assert_eq!(flisp.A, 0x16);
    assert_eq!(flisp.CC, 0);
}

#[test]
fn sub_borrows() {
    // SUBA #$01 with A = 0x00
    let mut flisp = machine(&[0x94, 0x01]);
    flisp.step();
    assert_eq!(flisp.A, 0xFF);
    assert_eq!(flisp.CC, N | C);

    // SBCA #$01 with A = 0x80 and Carry set: 0x80 - 1 - 1
    let mut flisp = machine(&[0x93, 0x01]);
    flisp.A = 0x80;
    flisp.CC = C;
    flisp.step();
    assert_eq!(flisp.A, 0x7E);
    assert_eq!(flisp.CC, V);
}

#[test]
fn compare_sets_flags_only() {
    // CMPA #$05 with A = 0x05
    let mut flisp = machine(&[0x97, 0x05]);
    flisp.A = 0x05;
    flisp.step();
    assert_eq!(flisp.A, 0x05);
    assert_eq!(flisp.CC, Z);

    // CMPX #$10 with X = 0x05
    let mut flisp = machine(&[0x9C, 0x10]);
    flisp.X = 0x05;
    flisp.step();
    assert_eq!(flisp.X, 0x05);
    assert_eq!(flisp.CC, N | C);
}

#[test]
fn logical_operations_clear_overflow() {
    for (op, a, m, expected) in [(0x99u8, 0xF0u8, 0x3Cu8, 0x30u8), (0x9A, 0xF0, 0x0F, 0xFF), (0x9B, 0xFF, 0xFF, 0x00)] {
        let mut flisp = machine(&[op, m]);
        flisp.A = a;
        flisp.CC = V | C;
        flisp.step();
        assert_eq!(flisp.A, expected);
        assert_eq!(flisp.CC & V, 0);
        assert_eq!(flisp.CC & C, C);
    }
}

#[test]
fn clear_forces_flags() {
    for cc in [0u8, N | V | C, 0x1F] {
        let mut flisp = machine(&[0x05]);
        flisp.A = 0x42;
        flisp.CC = cc;
        flisp.step();
        assert_eq!(flisp.A, 0);
        assert_eq!(flisp.CC & (N | Z | V | C), Z);

        // CLR $30
        let mut flisp = machine(&[0x35, 0x30]);
        flisp.mem[0x30] = 0x99;
        flisp.CC = cc;
        flisp.step();
        assert_eq!(flisp.mem[0x30], 0);
        assert_eq!(flisp.CC & (N | Z | V | C), Z);
    }
}

#[test]
fn shifts_and_rotates() {
    // ASLA with A = 0xC1: carry out, no sign change
    let mut flisp = machine(&[0x0B]);
    flisp.A = 0xC1;
    flisp.step();
    assert_eq!(flisp.A, 0x82);
    assert_eq!(flisp.CC, N | C);

    // LSRA with A = 0x81
    let mut flisp = machine(&[0x0C]);
    flisp.A = 0x81;
    flisp.step();
    assert_eq!(flisp.A, 0x40);
    assert_eq!(flisp.CC, V | C);

    // ASRA with A = 0x81 keeps the sign
    let mut flisp = machine(&[0x0F]);
    flisp.A = 0x81;
    flisp.step();
    assert_eq!(flisp.A, 0xC0);
    assert_eq!(flisp.CC, N | C);

    // ROLA with A = 0x80 and Carry set
    let mut flisp = machine(&[0x0D]);
    flisp.A = 0x80;
    flisp.CC = C;
    flisp.step();
    assert_eq!(flisp.A, 0x01);
    assert_eq!(flisp.CC, C);

    // RORA with A = 0x01 and Carry set
    let mut flisp = machine(&[0x0E]);
    flisp.A = 0x01;
    flisp.CC = C;
    flisp.step();
    assert_eq!(flisp.A, 0x80);
    assert_eq!(flisp.CC, N | C);
}

#[test]
fn increment_decrement_negate() {
    // INCA with A = 0x7F
    let mut flisp = machine(&[0x07]);
    flisp.A = 0x7F;
    flisp.step();
    assert_eq!(flisp.A, 0x80);
    assert_eq!(flisp.CC, N | V);

    // DEC $30 with 0x00 there
    let mut flisp = machine(&[0x38, 0x30]);
    flisp.step();
    assert_eq!(flisp.mem[0x30], 0xFF);
    assert_eq!(flisp.CC, N);

    // NEGA with A = 0x01
    let mut flisp = machine(&[0x06]);
    flisp.A = 0x01;
    flisp.step();
    assert_eq!(flisp.A, 0xFF);
    assert_eq!(flisp.CC, N | C);

    // NEGA with A = 0x00
    let mut flisp = machine(&[0x06]);
    flisp.step();
    assert_eq!(flisp.A, 0x00);
    assert_eq!(flisp.CC, Z);
}

#[test]
fn push_then_pull_restores() {
    for sp in 0x01..=0xFFu8 {
        let mut flisp = machine(&[0x10, 0x14]);
        flisp.SP = sp;
        flisp.A = 0x5A;
        flisp.step();
        assert_eq!(flisp.SP, sp.wrapping_sub(1));
        flisp.A = 0x00;
        flisp.step();
        if sp.wrapping_sub(1) != 0x11 {
            assert_eq!(flisp.A, 0x5A, "sp {:02X}", sp);
            assert_eq!(flisp.SP, sp);
        }
    }
}

#[test]
fn invalid_byte_traps() {
    let mut flisp = machine(&[0x03]);
    flisp.mem[0xFD] = 0x42;
    flisp.A = 0x11;
    flisp.step();
    assert_eq!(flisp.PC, 0x42);
    assert_eq!(flisp.A, 0x11);
}

#[test]
fn advancing_past_the_top_uses_the_entry_vector() {
    let mut flisp = Flisp::default();
    flisp.mem[0xFE] = 0x96; // ADDA #$FF
    flisp.mem[0xFF] = 0x20;
    flisp.PC = 0xFE;
    flisp.step();
    assert_eq!(flisp.A, 0x20);
    assert_eq!(flisp.PC, 0x20);
}

#[test]
fn branches() {
    // BRA $10 from 0x10 lands after the branch plus the offset
    let mut flisp = machine(&[0x21, 0x10]);
    flisp.step();
    assert_eq!(flisp.PC, 0x22);

    // BEQ not taken
    let mut flisp = machine(&[0x24, 0x10]);
    flisp.step();
    assert_eq!(flisp.PC, 0x12);

    // BPL taken while Negative is clear, BMI not
    let mut flisp = machine(&[0x23, 0xFE]);
    flisp.step();
    assert_eq!(flisp.PC, 0x10);
    let mut flisp = machine(&[0x22, 0xFE]);
    flisp.step();
    assert_eq!(flisp.PC, 0x12);

    // BGT with N and V both set and Z clear is taken
    let mut flisp = machine(&[0x2C, 0x04]);
    flisp.CC = N | V;
    flisp.step();
    assert_eq!(flisp.PC, 0x16);
}

#[test]
fn subroutine_call_and_return() {
    // JSR $40; at 0x40: RTS
    let mut flisp = machine(&[0x34, 0x40]);
    flisp.mem[0x40] = 0x43;
    flisp.SP = 0x80;
    flisp.step();
    assert_eq!(flisp.PC, 0x40);
    assert_eq!(flisp.SP, 0x7F);
    assert_eq!(flisp.mem[0x7F], 0x12);
    flisp.step();
    assert_eq!(flisp.PC, 0x12);
    assert_eq!(flisp.SP, 0x80);

    // BSR $10 pushes the address after it
    let mut flisp = machine(&[0x20, 0x10]);
    flisp.SP = 0x80;
    flisp.step();
    assert_eq!(flisp.PC, 0x22);
    assert_eq!(flisp.mem[0x7F], 0x12);
}

#[test]
fn return_from_interrupt_restores_context() {
    let mut flisp = machine(&[0x44]);
    flisp.SP = 0x70;
    flisp.mem[0x70..0x75].copy_from_slice(&[0x05, 0x11, 0x22, 0x33, 0x60]);
    flisp.step();
    assert_eq!((flisp.CC, flisp.A, flisp.X, flisp.Y, flisp.PC, flisp.SP), (0x05, 0x11, 0x22, 0x33, 0x60, 0x75));
}

#[test]
fn autoincrement_loads_and_stores() {
    // LDA X+ then STA -Y
    let mut flisp = machine(&[0xF5, 0xEE]);
    flisp.X = 0x30;
    flisp.Y = 0x41;
    flisp.mem[0x30] = 0x77;
    flisp.step();
    assert_eq!(flisp.A, 0x77);
    assert_eq!(flisp.X, 0x31);
    assert_eq!(flisp.PC, 0x11);
    flisp.step();
    assert_eq!(flisp.Y, 0x40);
    assert_eq!(flisp.mem[0x40], 0x77);
}

#[test]
fn index_loads_and_moves() {
    // LDX #$80; TFR X,Y; EXG A,CC
    let mut flisp = machine(&[0x90, 0x80, 0x1A, 0x9F]);
    flisp.A = 0x03;
    flisp.step();
    assert_eq!(flisp.X, 0x80);
    assert_eq!(flisp.A, 0x03);
    assert_eq!(flisp.CC, N);
    flisp.step();
    assert_eq!(flisp.Y, 0x80);
    flisp.step();
    assert_eq!(flisp.A, N);
    assert_eq!(flisp.CC, 0x03);
}
