use flisp::{write_mem, Flisp, Instruction};

fn line_at(flisp: &Flisp, idx: u8) -> (String, u8) {
    let mut out = String::new();
    let next = flisp.print_disassembly(&mut out, idx);
    (out, next)
}

#[test]
fn advances_by_size() {
    let mut flisp = Flisp::default();
    for b in 0..=255u8 {
        flisp.mem[0x20] = b;
        let (_, next) = line_at(&flisp, 0x20);
        match Instruction::decode(b) {
            Ok(inst) => assert_eq!(next, 0x20 + inst.size(), "byte {:02X}", b),
            Err(_) => assert_eq!(next, 0x21),
        }
    }
}

#[test]
fn renders_instructions() {
    let mut flisp = Flisp::default();
    flisp.mem[0..8].copy_from_slice(&[0xF0, 0x05, 0xB6, 0x01, 0x10, 0x03, 0x1E, 0x2D]);
    flisp.mem[8] = 0x17;
    assert_eq!(line_at(&flisp, 0), ("LDA\t#$05".to_string(), 2));
    assert_eq!(line_at(&flisp, 2), ("ADDA\t$01,SP".to_string(), 4));
    assert_eq!(line_at(&flisp, 4), ("PSHA".to_string(), 5));
    assert_eq!(line_at(&flisp, 5), ("\tFCB\t$03".to_string(), 6));
    assert_eq!(line_at(&flisp, 6), ("TFR\tY,SP".to_string(), 7));
    assert_eq!(line_at(&flisp, 7), ("BGE\t17".to_string(), 9));
}

#[test]
fn memory_and_jump_operands_are_bare_hex() {
    let mut flisp = Flisp::default();
    flisp.mem[0..9].copy_from_slice(&[0x3B, 0x3F, 0x4A, 0x01, 0x33, 0x42, 0x63, 0x54, 0x9F]);
    assert_eq!(line_at(&flisp, 0), ("ASL\t3F".to_string(), 2));
    assert_eq!(line_at(&flisp, 2), ("COM\t01,SP".to_string(), 4));
    assert_eq!(line_at(&flisp, 4), ("JMP\t42".to_string(), 6));
    assert_eq!(line_at(&flisp, 6), ("JMP\tA,X".to_string(), 7));
    assert_eq!(line_at(&flisp, 7), ("JSR\t9F,X".to_string(), 9));
}

#[test]
fn wraps_at_the_top() {
    let mut flisp = Flisp::default();
    flisp.mem[0xFF] = 0x96;
    flisp.mem[0x00] = 0xAB;
    assert_eq!(line_at(&flisp, 0xFF), ("ADDA\t#$AB".to_string(), 0x01));
}

#[test]
fn memory_listing() {
    let mut mem = [0u8; 256];
    mem[0] = 0xAB;
    mem[17] = 0x0F;
    let mut out = String::from("old text");
    write_mem(&mem, &mut out);
    let lines: Vec<&str> = out.lines().collect();
    assert_eq!(lines.len(), 16);
    assert_eq!(lines[0], "AB 00 00 00 00 00 00 00 00 00 00 00 00 00 00 00 ");
    assert_eq!(lines[1], "00 0F 00 00 00 00 00 00 00 00 00 00 00 00 00 00 ");
    assert_eq!(out.len(), 256 * 3 + 16);
}
