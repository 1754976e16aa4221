//! Loading a memory image: text with one `#setMemory` directive per line.
//!
//! A directive line is ` #setMemory  ` (a space, the word, two spaces), two
//! hexadecimal digits of address, one separator byte, two hexadecimal digits
//! of value; anything after them is ignored. Empty lines are skipped.
use crate::error::FlispError;
use crate::processor::{Flisp, MachineState, ENTRY_VECTOR};
use vstd::prelude::*;
use vstd::string::StringSliceAdditionalSpecFns;

verus! {

/// Length of the directive prefix ` #setMemory  `.
pub const PREFIX_LEN: usize = 13;

/// Whether `l` starts with the directive prefix ` #setMemory  `.
pub open spec fn has_prefix(l: Seq<u8>) -> bool {
    &&& l.len() >= PREFIX_LEN
    &&& l[0] == 0x20
    &&& l[1] == 0x23
    &&& l[2] == 0x73
    &&& l[3] == 0x65
    &&& l[4] == 0x74
    &&& l[5] == 0x4D
    &&& l[6] == 0x65
    &&& l[7] == 0x6D
    &&& l[8] == 0x6F
    &&& l[9] == 0x72
    &&& l[10] == 0x79
    &&& l[11] == 0x20
    &&& l[12] == 0x20
}

/// The value of an ASCII hexadecimal digit (either case), if `c` is one.
pub open spec fn hex_value(c: u8) -> Option<u8> {
    if 0x30 <= c <= 0x39 {
        Some((c - 0x30) as u8)
    } else if 0x41 <= c <= 0x46 {
        Some((c - 0x41 + 10) as u8)
    } else if 0x61 <= c <= 0x66 {
        Some((c - 0x61 + 10) as u8)
    } else {
        None
    }
}

/// The byte written by two hexadecimal digits, if both are digits.
pub open spec fn hex_byte(hi: u8, lo: u8) -> Option<u8> {
    match (hex_value(hi), hex_value(lo)) {
        (Some(h), Some(l)) => Some((h * 16 + l) as u8),
        _ => None,
    }
}

/// The address and value a directive line sets, if it is well formed.
pub open spec fn directive(l: Seq<u8>) -> Option<(u8, u8)> {
    if has_prefix(l) && l.len() >= PREFIX_LEN + 5 {
        match (hex_byte(l[13], l[14]), hex_byte(l[16], l[17])) {
            (Some(a), Some(v)) => Some((a, v)),
            _ => None,
        }
    } else {
        None
    }
}

/// A line with no directive in it: empty, or a lone carriage return.
pub open spec fn is_blank(l: Seq<u8>) -> bool {
    l.len() == 0 || (l.len() == 1 && l[0] == 0x0D)
}

/// The next line number, saturating at the largest `u32`.
pub open spec fn next_line(line: u32) -> u32 {
    if line == u32::MAX {
        line
    } else {
        (line + 1) as u32
    }
}

/// Applies one line, numbered `line`, to `mem`.
pub open spec fn apply_line(l: Seq<u8>, mem: Seq<u8>, line: u32) -> Result<Seq<u8>, FlispError> {
    if is_blank(l) {
        Ok(mem)
    } else {
        match directive(l) {
            Some((a, v)) => Ok(mem.update(a as int, v)),
            None => Err(FlispError::InvalidLineConversion(line)),
        }
    }
}

/// Applies the rest of `b` to `mem`, where the current line, numbered
/// `line`, started at `start` and has been scanned up to `i`. Lines end at
/// a newline or at the end of `b`; the first malformed line stops the load.
pub open spec fn apply_from(b: Seq<u8>, start: int, i: int, mem: Seq<u8>, line: u32) -> Result<
    Seq<u8>,
    FlispError,
>
    decreases b.len() - i,
{
    if 0 <= i < b.len() && b[i] != 0x0A {
        apply_from(b, start, i + 1, mem, line)
    } else {
        match apply_line(b.subrange(start, i), mem, line) {
            Err(e) => Err(e),
            Ok(m) => if 0 <= i < b.len() {
                apply_from(b, i + 1, i + 1, m, next_line(line))
            } else {
                Ok(m)
            },
        }
    }
}

/// The memory an image gives, starting from 256 zero bytes.
pub open spec fn load_image(b: Seq<u8>) -> Result<Seq<u8>, FlispError> {
    apply_from(b, 0, 0, Seq::new(256, |i: int| 0u8), 1)
}

/// The machine right after a load of `mem`: registers zero and the program
/// counter taken from the entry vector.
pub open spec fn loaded_state(mem: Seq<u8>) -> MachineState {
    MachineState { a: 0, x: 0, y: 0, cc: 0, sp: 0, pc: mem[ENTRY_VECTOR as int], mem }
}

fn hex_digit_value(c: u8) -> (r: Option<u8>)
    ensures
        r == hex_value(c),
{
    if 0x30 <= c && c <= 0x39 {
        Some(c - 0x30)
    } else if 0x41 <= c && c <= 0x46 {
        Some(c - 0x41 + 10)
    } else if 0x61 <= c && c <= 0x66 {
        Some(c - 0x61 + 10)
    } else {
        None
    }
}

fn parse_hex_byte(hi: u8, lo: u8) -> (r: Option<u8>)
    ensures
        r == hex_byte(hi, lo),
{
    match (hex_digit_value(hi), hex_digit_value(lo)) {
        (Some(h), Some(l)) => Some(h * 16 + l),
        _ => None,
    }
}

/// Reads the directive of the line `b[start..end]`.
fn parse_directive(b: &[u8], start: usize, end: usize) -> (r: Option<(u8, u8)>)
    requires
        start <= end <= b@.len(),
    ensures
        r == directive(b@.subrange(start as int, end as int)),
{
    let ghost l = b@.subrange(start as int, end as int);
    if end - start < PREFIX_LEN + 5 {
        return None;
    }
    let prefix_ok = b[start] == 0x20 && b[start + 1] == 0x23 && b[start + 2] == 0x73 && b[start
        + 3] == 0x65 && b[start + 4] == 0x74 && b[start + 5] == 0x4D && b[start + 6] == 0x65
        && b[start + 7] == 0x6D && b[start + 8] == 0x6F && b[start + 9] == 0x72 && b[start + 10]
        == 0x79 && b[start + 11] == 0x20 && b[start + 12] == 0x20;
    assert(prefix_ok == has_prefix(l));
    if !prefix_ok {
        return None;
    }
    let adr = parse_hex_byte(b[start + 13], b[start + 14]);
    let val = parse_hex_byte(b[start + 16], b[start + 17]);
    match (adr, val) {
        (Some(a), Some(v)) => Some((a, v)),
        _ => None,
    }
}

impl Flisp {
    /// Zeroes the registers and reloads the program counter from the entry
    /// vector; memory is kept.
    pub fn reset_registers(&mut self)
        ensures
            final(self)@ == loaded_state(old(self).mem@),
    {
        self.A = 0;
        self.X = 0;
        self.Y = 0;
        self.CC = 0;
        self.SP = 0;
        self.PC = self.mem[ENTRY_VECTOR as usize];
    }

    /// Builds a machine from a memory image: every directive sets one byte
    /// of an all-zero memory, then the program counter is loaded from the
    /// entry vector. A malformed line fails the load with its line number.
    pub fn from_str(s: &str) -> (r: Result<Flisp, FlispError>)
        ensures
            match load_image(s.spec_bytes()) {
                Ok(mem) => r matches Ok(f) && f@ == loaded_state(mem),
                Err(e) => r == Err::<Flisp, FlispError>(e),
            },
    {
        let b = s.as_bytes();
        let mut flisp = Flisp { A: 0, Y: 0, X: 0, CC: 0, SP: 0, PC: 0, mem: [0u8; 256] };
        assert(flisp.mem@ =~= Seq::new(256, |i: int| 0u8));
        let mut start: usize = 0;
        let mut i: usize = 0;
        let mut line: u32 = 1;
        loop
            invariant_except_break
                apply_from(b@, start as int, i as int, flisp.mem@, line) == load_image(
                    s.spec_bytes(),
                ),
            invariant
                start <= i <= b@.len(),
                flisp.mem@.len() == 256,
                flisp.A == 0 && flisp.X == 0 && flisp.Y == 0 && flisp.CC == 0 && flisp.SP == 0,
                b@ == s.spec_bytes(),
            ensures
                load_image(s.spec_bytes()) == Ok::<Seq<u8>, FlispError>(flisp.mem@),
            decreases b@.len() - i,
        {
            if i < b.len() && b[i] != 0x0A {
                i = i + 1;
            } else {
                let ghost l = b@.subrange(start as int, i as int);
                let blank = i == start || (i == start + 1 && b[start] == 0x0D);
                assert(blank == is_blank(l));
                if !blank {
                    match parse_directive(b, start, i) {
                        Some((a, v)) => {
                            flisp.mem[a as usize] = v;
                        },
                        None => {
                            return Err(FlispError::InvalidLineConversion(line));
                        },
                    }
                }
                if i >= b.len() {
                    break;
                }
                line = if line == u32::MAX {
                    line
                } else {
                    line + 1
                };
                i = i + 1;
                start = i;
            }
        }
        flisp.PC = flisp.mem[ENTRY_VECTOR as usize];
        Ok(flisp)
    }
}

impl std::str::FromStr for Flisp {
    type Err = FlispError;

    fn from_str(s: &str) -> Result<Flisp, FlispError> {
        Flisp::from_str(s)
    }
}

} // verus!
