//! Building disassembly text: hexadecimal digits appended to a `String`.
use vstd::prelude::*;

verus! {

/// The upper-case hexadecimal digit of `d` (for `d < 16`).
pub open spec fn hex_digit_str(d: u8) -> &'static str {
    match d {
        0 => "0",
        1 => "1",
        2 => "2",
        3 => "3",
        4 => "4",
        5 => "5",
        6 => "6",
        7 => "7",
        8 => "8",
        9 => "9",
        10 => "A",
        11 => "B",
        12 => "C",
        13 => "D",
        14 => "E",
        _ => "F",
    }
}

/// The two upper-case hexadecimal digits of `b`.
pub open spec fn hex2(b: u8) -> Seq<char> {
    hex_digit_str(b / 16)@ + hex_digit_str(b % 16)@
}

fn hex_digit(d: u8) -> (r: &'static str)
    requires
        d < 16,
    ensures
        r == hex_digit_str(d),
{
    match d {
        0 => "0",
        1 => "1",
        2 => "2",
        3 => "3",
        4 => "4",
        5 => "5",
        6 => "6",
        7 => "7",
        8 => "8",
        9 => "9",
        10 => "A",
        11 => "B",
        12 => "C",
        13 => "D",
        14 => "E",
        _ => "F",
    }
}

/// Appends the two upper-case hexadecimal digits of `b`.
pub fn push_hex(buf: &mut String, b: u8)
    ensures
        final(buf)@ == old(buf)@ + hex2(b),
{
    buf.append(hex_digit(b / 16));
    buf.append(hex_digit(b % 16));
    assert(final(buf)@ =~= old(buf)@ + hex2(b));
}

/// The two hexadecimal digits of `b` followed by `suffix`, with no marker.
pub open spec fn hex_then(b: u8, suffix: &str) -> Seq<char> {
    hex2(b) + suffix@
}

/// Appends the two hexadecimal digits of `b`, then `suffix`.
pub fn push_hex_then(buf: &mut String, b: u8, suffix: &str)
    ensures
        final(buf)@ == old(buf)@ + hex_then(b, suffix),
{
    push_hex(buf, b);
    buf.append(suffix);
    assert(final(buf)@ =~= old(buf)@ + hex_then(b, suffix));
}

/// `$hh` (the byte in hexadecimal) followed by `suffix`.
pub open spec fn dollar_hex(b: u8, suffix: &str) -> Seq<char> {
    "$"@ + hex2(b) + suffix@
}

/// Appends `$`, the two hexadecimal digits of `b`, then `suffix`.
pub fn push_dollar_hex(buf: &mut String, b: u8, suffix: &str)
    ensures
        final(buf)@ == old(buf)@ + dollar_hex(b, suffix),
{
    buf.append("$");
    push_hex(buf, b);
    buf.append(suffix);
    assert(final(buf)@ =~= old(buf)@ + dollar_hex(b, suffix));
}

/// The listing of the first `k` bytes of `mem`: each byte as two
/// hexadecimal digits and a space, with a newline after every sixteenth.
pub open spec fn memory_dump(mem: Seq<u8>, k: nat) -> Seq<char>
    decreases k,
{
    if k == 0 {
        Seq::empty()
    } else {
        let i = k - 1;
        memory_dump(mem, i as nat) + hex2(mem[i]) + " "@ + if i % 16 == 15 {
            "\n"@
        } else {
            Seq::empty()
        }
    }
}

/// Replaces `out` with the listing of all 256 bytes of `mem`, sixteen to a
/// line.
pub fn write_mem(mem: &[u8; 256], out: &mut String)
    ensures
        final(out)@ == memory_dump(mem@, 256),
{
    *out = String::new();
    let mut i: usize = 0;
    while i < 256
        invariant
            i <= 256,
            out@ == memory_dump(mem@, i as nat),
        decreases 256 - i,
    {
        push_hex(out, mem[i]);
        out.append(" ");
        if i % 16 == 15 {
            out.append("\n");
        }
        assert(out@ =~= memory_dump(mem@, (i + 1) as nat));
        i = i + 1;
    }
}

} // verus!
