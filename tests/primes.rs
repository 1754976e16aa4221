use flisp::Flisp;

const STARTING_MEM: [u8; 256] = [
    0x02, 0x03, 0x00, 0x00, 0x00, 0x00, 0x00, 0x00, 0x00, 0x00, 0x00, 0x00, 0x00, 0x00, 0x00, 0x00,
    0x00, 0x00, 0x00, 0x00, 0x00, 0x00, 0x00, 0x00, 0x00, 0x00, 0x00, 0x00, 0x00, 0x00, 0x00, 0x00,
    0x00, 0x00, 0x00, 0x00, 0x00, 0x00, 0x00, 0x00, 0x00, 0x00, 0x00, 0x00, 0x00, 0x00, 0x00, 0x00,
    0x00, 0x00, 0x00, 0x00, 0x00, 0x00, 0x00, 0x00, 0x00, 0x00, 0x00, 0x00, 0x00, 0x02, 0x00, 0x00,
    0x35, 0x3F, 0xF1, 0x3F, 0xA7, 0x3D, 0x2D, 0x17, 0x91, 0x00, 0xFA, 0x10, 0xF2, 0x02, 0x34, 0x8A,
    0xBE, 0x01, 0xE1, 0x3E, 0x05, 0xA7, 0x3E, 0x25, 0x02, 0x05, 0x43, 0x37, 0x3F, 0x33, 0x42, 0xF0,
    0xFF, 0x43, 0xF0, 0x05, 0x10, 0xF2, 0x00, 0x97, 0x05, 0x2F, 0x1C, 0x10, 0x34, 0x40, 0xBE, 0x01,
    0x09, 0x24, 0x0C, 0xF0, 0x00, 0xA6, 0x3D, 0x10, 0x15, 0xF2, 0x00, 0xE3, 0x00, 0x37, 0x3D, 0xF0,
    0x02, 0xB6, 0x00, 0xE2, 0x00, 0x33, 0x65, 0xBE, 0x01, 0x43, 0x10, 0xF0, 0x00, 0xE2, 0xFF, 0x14,
    0xB7, 0x01, 0x2D, 0x01, 0x43, 0xB4, 0x01, 0x47, 0xFE, 0x33, 0x90, 0x92, 0xFB, 0x34, 0x62, 0x33,
    0x9F, 0x00, 0x00, 0x00, 0x00, 0x00, 0x00, 0x00, 0x00, 0x00, 0x00, 0x00, 0x00, 0x00, 0x00, 0x00,
    0x00, 0x00, 0x00, 0x00, 0x00, 0x00, 0x00, 0x00, 0x00, 0x00, 0x00, 0x00, 0x00, 0x00, 0x00, 0x00,
    0x00, 0x00, 0x00, 0x00, 0x00, 0x00, 0x00, 0x00, 0x00, 0x00, 0x00, 0x00, 0x00, 0x00, 0x00, 0x00,
    0x00, 0x00, 0x00, 0x00, 0x00, 0x00, 0x00, 0x00, 0x00, 0x00, 0x00, 0x00, 0x00, 0x00, 0x00, 0x00,
    0x00, 0x00, 0x00, 0x00, 0x00, 0x00, 0x00, 0x00, 0x00, 0x00, 0x00, 0x00, 0x00, 0x00, 0x00, 0x00,
    0x00, 0x00, 0x00, 0x00, 0x00, 0x00, 0x00, 0x00, 0x00, 0x00, 0x00, 0x00, 0x00, 0x00, 0x00, 0x9B,
];

const ENDING_MEM: [u8; 256] = [
    0x02, 0x03, 0x05, 0x07, 0x0B, 0x0D, 0x11, 0x13, 0x17, 0x1D, 0x1F, 0x25, 0x29, 0x2B, 0x2F, 0x35,
    0x3B, 0x3D, 0x43, 0x47, 0x49, 0x4F, 0x53, 0x59, 0x61, 0x65, 0x67, 0x6B, 0x6D, 0x71, 0x7F, 0x00,
    0x00, 0x00, 0x00, 0x00, 0x00, 0x00, 0x00, 0x00, 0x00, 0x00, 0x00, 0x00, 0x00, 0x00, 0x00, 0x00,
    0x00, 0x00, 0x00, 0x00, 0x00, 0x00, 0x00, 0x00, 0x00, 0x00, 0x00, 0x00, 0x00, 0x1F, 0x0E, 0x1E,
    0x35, 0x3F, 0xF1, 0x3F, 0xA7, 0x3D, 0x2D, 0x17, 0x91, 0x00, 0xFA, 0x10, 0xF2, 0x02, 0x34, 0x8A,
    0xBE, 0x01, 0xE1, 0x3E, 0x05, 0xA7, 0x3E, 0x25, 0x02, 0x05, 0x43, 0x37, 0x3F, 0x33, 0x42, 0xF0,
    0xFF, 0x43, 0xF0, 0x05, 0x10, 0xF2, 0x00, 0x97, 0x05, 0x2F, 0x1C, 0x10, 0x34, 0x40, 0xBE, 0x01,
    0x09, 0x24, 0x0C, 0xF0, 0x00, 0xA6, 0x3D, 0x10, 0x15, 0xF2, 0x00, 0xE3, 0x00, 0x37, 0x3D, 0xF0,
    0x02, 0xB6, 0x00, 0xE2, 0x00, 0x33, 0x65, 0xBE, 0x01, 0x43, 0x10, 0xF0, 0x00, 0xE2, 0xFF, 0x14,
    0xB7, 0x01, 0x2D, 0x01, 0x43, 0xB4, 0x01, 0x47, 0xFE, 0x33, 0x90, 0x92, 0xFB, 0x34, 0x62, 0x33,
    0x9F, 0x00, 0x00, 0x00, 0x00, 0x00, 0x00, 0x00, 0x00, 0x00, 0x00, 0x00, 0x00, 0x00, 0x00, 0x00,
    0x00, 0x00, 0x00, 0x00, 0x00, 0x00, 0x00, 0x00, 0x00, 0x00, 0x00, 0x00, 0x00, 0x00, 0x00, 0x00,
    0x00, 0x00, 0x00, 0x00, 0x00, 0x00, 0x00, 0x00, 0x00, 0x00, 0x00, 0x00, 0x00, 0x00, 0x00, 0x00,
    0x00, 0x00, 0x00, 0x00, 0x00, 0x00, 0x00, 0x00, 0x00, 0x00, 0x00, 0x00, 0x00, 0x00, 0x00, 0x00,
    0x00, 0x00, 0x00, 0x00, 0x00, 0x00, 0x00, 0x00, 0x00, 0x00, 0x00, 0x00, 0x00, 0x00, 0x00, 0x00,
    0x00, 0x00, 0x00, 0x01, 0x7F, 0x50, 0x71, 0x6E, 0x1E, 0x81, 0x9F, 0x00, 0x00, 0x00, 0x00, 0x9B,
];

/// The memory image of the primes program as `#setMemory` directives,
/// one per address, in the given address order.
fn primes_source(addresses: impl Iterator<Item = usize>) -> String {
    let mut text = String::new();
    for adr in addresses {
        text.push_str(&format!(" #setMemory  {:02X}:{:02X}\n", adr, STARTING_MEM[adr]));
    }
    text
}

/// Steps until the stack pointer is 0x9F, or until a step changes nothing.
/// The primes program never brings the stack pointer to 0x9F: it ends in
/// `JMP 9F` at 0x9F, a jump to itself with the stack pointer at 0xFB. From
/// that fixed point no later step can change anything, so the run stops
/// there.
fn run_until_sp(flisp: &mut Flisp, sp: u8) {
    while flisp.SP != sp {
        let before = flisp.clone();
        flisp.step();
        if flisp.A == before.A
            && flisp.X == before.X
            && flisp.Y == before.Y
            && flisp.CC == before.CC
            && flisp.SP == before.SP
            && flisp.PC == before.PC
            && flisp.mem == before.mem
        {
            break;
        }
    }
}

#[test]
fn processor_primes() {
    let source = primes_source(0..256);
    let mut flisp = Flisp::from_str(&source).unwrap();
    assert_eq!(flisp.mem, STARTING_MEM);

    run_until_sp(&mut flisp, 0x9F);

    assert_eq!(flisp.mem, ENDING_MEM);
    assert_eq!(flisp.PC, 0x9F);
    assert_eq!(flisp.SP, 0xFB);
}

#[test]
fn primes() {
    let source = primes_source((0..256).rev());
    let mut flisp = Flisp::from_str(&source).unwrap();
    assert_eq!(flisp.mem, STARTING_MEM);
    assert_eq!(flisp.PC, 0x9B);

    run_until_sp(&mut flisp, 0x9F);

    assert_eq!(flisp.mem, ENDING_MEM);
    assert_eq!(flisp.PC, 0x9F);
}
