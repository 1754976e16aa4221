use flisp::{Flisp, FlispError, IoDevice};

#[test]
fn loads_directives_and_entry_vector() {
    let text = " #setMemory  10:AB\n\n #setMemory  FF:10\r\n #setMemory  3f:c7\n";
    let flisp = Flisp::from_str(text).unwrap();
    assert_eq!(flisp.mem[0x10], 0xAB);
    assert_eq!(flisp.mem[0x3F], 0xC7);
    assert_eq!(flisp.mem[0xFF], 0x10);
    assert_eq!(flisp.PC, 0x10);
    assert_eq!(flisp.mem.iter().filter(|b| **b != 0).count(), 3);
}

#[test]
fn later_directives_win() {
    let flisp = Flisp::from_str(" #setMemory  20:01\n #setMemory  20:02").unwrap();
    assert_eq!(flisp.mem[0x20], 0x02);
    assert_eq!(flisp.PC, 0x00);
}

#[test]
fn empty_image() {
    let flisp = Flisp::from_str("").unwrap();
    assert_eq!(flisp.mem, [0u8; 256]);
    assert_eq!(flisp.PC, 0);
}

#[test]
fn malformed_lines_are_rejected() {
    assert_eq!(
        Flisp::from_str(" #setMemory  10:AB\n#setMemory  11:00\n").err(),
        Some(FlispError::InvalidLineConversion(2))
    );
    assert_eq!(
        Flisp::from_str(" #setMemory  1G:AB").err(),
        Some(FlispError::InvalidLineConversion(1))
    );
    assert_eq!(
        Flisp::from_str("\n\n #setMemory  10:A").err(),
        Some(FlispError::InvalidLineConversion(3))
    );
}

#[test]
fn device_reads() {
    assert_eq!(IoDevice::Nothing.read(), None);
    assert_eq!(IoDevice::Bargraph(7).read(), Some(0));
    assert_eq!(IoDevice::KeyPad(7).read(), Some(7));
}
