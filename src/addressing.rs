//! Addressing modes: how an instruction turns its operand byte and the
//! register file into a memory index, a value or a jump target.
use crate::processor::{Flisp, MachineState};
use crate::text::{dollar_hex, hex_then, push_dollar_hex, push_hex_then};
use vstd::prelude::*;

verus! {

/// Addressing modes of `LDA`.
#[allow(non_camel_case_types)]
#[derive(Debug, Copy, Clone, PartialEq, Eq, Structural)]
pub enum LdaAddr {
    Data,
    Addr,
    nSP,
    nX,
    AX,
    Xplus,
    Xminus,
    plusX,
    minusX,
    nY,
    AY,
    Yplus,
    Yminus,
    plusY,
    minusY,
}

/// Addressing modes of `STA`.
#[allow(non_camel_case_types)]
#[derive(Debug, Copy, Clone, PartialEq, Eq, Structural)]
pub enum StaAddr {
    Addr,
    nSP,
    nX,
    AX,
    Xplus,
    Xminus,
    plusX,
    minusX,
    nY,
    AY,
    Yplus,
    Yminus,
    plusY,
    minusY,
}

/// Register pairs of `EXG`.
#[allow(non_camel_case_types, clippy::upper_case_acronyms)]
#[derive(Debug, Copy, Clone, PartialEq, Eq, Structural)]
pub enum ExgAddr {
    XY,
    ACC,
    XSP,
    YSP,
}

/// Addressing modes of `LEAX`.
#[allow(non_camel_case_types)]
#[derive(Debug, Copy, Clone, PartialEq, Eq, Structural)]
pub enum LeaxAddr {
    nX,
    nSP,
}

/// Addressing modes of `LEAY`.
#[allow(non_camel_case_types)]
#[derive(Debug, Copy, Clone, PartialEq, Eq, Structural)]
pub enum LeayAddr {
    nY,
    nSP,
}

/// Addressing modes of `LEASP`.
#[allow(non_camel_case_types)]
#[derive(Debug, Copy, Clone, PartialEq, Eq, Structural)]
pub enum LeaspAddr {
    nX,
    nY,
    nSP,
}

/// Memory-index modes of the register stores and `TST`.
#[allow(non_camel_case_types)]
#[derive(Debug, Copy, Clone, PartialEq, Eq, Structural)]
pub enum AddrTypeOne {
    Addr,
    nSP,
    nX,
    nY,
    AX,
    AY,
}

/// Value modes of the binary accumulator operations and the index loads.
#[allow(non_camel_case_types)]
#[derive(Debug, Copy, Clone, PartialEq, Eq, Structural)]
pub enum AddrTypeTwo {
    Data,
    Addr,
    nSP,
    nX,
    nY,
}

/// Memory-index modes of the read-modify-write unary operations.
#[allow(non_camel_case_types)]
#[derive(Debug, Copy, Clone, PartialEq, Eq, Structural)]
pub enum AddrTypeThree {
    Addr,
    nSP,
    nX,
    nY,
    AY,
    AX,
}

/// Value modes of `CMPX` and `CMPY`.
#[allow(non_camel_case_types)]
#[derive(Debug, Copy, Clone, PartialEq, Eq, Structural)]
pub enum AddrTypeFour {
    Data,
    Addr,
    nSP,
}

/// Value modes of `CMPSP`.
#[allow(non_camel_case_types)]
#[derive(Debug, Copy, Clone, PartialEq, Eq, Structural)]
pub enum CmpspAddr {
    Data,
    Addr,
}

/// Target modes of `JMP` and `JSR`.
#[allow(non_camel_case_types)]
#[derive(Debug, Copy, Clone, PartialEq, Eq, Structural)]
pub enum AddrTypeFive {
    Addr,
    nX,
    nY,
    AY,
    AX,
}

/// Source and destination registers of `TFR`.
#[allow(non_camel_case_types, clippy::upper_case_acronyms)]
#[derive(Debug, Copy, Clone, PartialEq, Eq, Structural)]
pub enum TfrAddr {
    ACC,
    CCA,
    XY,
    YX,
    XSP,
    SPX,
    YSP,
    SPY,
}

/// The memory index `base + offset`, taken modulo 256.
pub open spec fn wrap_index(base: u8, offset: u8) -> u8 {
    base.wrapping_add(offset)
}

impl AddrTypeOne {
    /// The memory index this mode selects.
    pub open spec fn spec_index(self, s: MachineState, n: u8) -> u8 {
        match self {
            AddrTypeOne::Addr => n,
            AddrTypeOne::nSP => wrap_index(n, s.sp),
            AddrTypeOne::nX => wrap_index(n, s.x),
            AddrTypeOne::nY => wrap_index(n, s.y),
            AddrTypeOne::AX => wrap_index(s.a, s.x),
            AddrTypeOne::AY => wrap_index(s.a, s.y),
        }
    }

    /// Number of bytes of an instruction with this mode.
    pub open spec fn spec_size(self) -> u8 {
        match self {
            AddrTypeOne::AX | AddrTypeOne::AY => 1,
            _ => 2,
        }
    }

    /// The operand as written in assembly.
    pub open spec fn spec_text(self, next: u8) -> Seq<char> {
        match self {
            AddrTypeOne::Addr => dollar_hex(next, ""),
            AddrTypeOne::nSP => dollar_hex(next, ",SP"),
            AddrTypeOne::nX => dollar_hex(next, ",X"),
            AddrTypeOne::nY => dollar_hex(next, ",Y"),
            AddrTypeOne::AX => "A,X"@,
            AddrTypeOne::AY => "A,Y"@,
        }
    }

    /// The memory index this mode selects for operand byte `n`.
    pub fn get_index(&self, flisp: &Flisp, n: u8) -> (r: usize)
        ensures
            r == self.spec_index(flisp@, n) as usize,
            r < 256,
    {
        match self {
            AddrTypeOne::Addr => n as usize,
            AddrTypeOne::nSP => n.wrapping_add(flisp.SP) as usize,
            AddrTypeOne::nX => n.wrapping_add(flisp.X) as usize,
            AddrTypeOne::nY => n.wrapping_add(flisp.Y) as usize,
            AddrTypeOne::AX => flisp.A.wrapping_add(flisp.X) as usize,
            AddrTypeOne::AY => flisp.A.wrapping_add(flisp.Y) as usize,
        }
    }

    /// Appends the operand text and returns the instruction size.
    pub fn write_with_next(&self, buf: &mut String, next: u8) -> (r: u8)
        ensures
            final(buf)@ == old(buf)@ + self.spec_text(next),
            r == self.spec_size(),
    {
        match self {
            AddrTypeOne::Addr => {
                push_dollar_hex(buf, next, "");
                2
            },
            AddrTypeOne::nSP => {
                push_dollar_hex(buf, next, ",SP");
                2
            },
            AddrTypeOne::nX => {
                push_dollar_hex(buf, next, ",X");
                2
            },
            AddrTypeOne::nY => {
                push_dollar_hex(buf, next, ",Y");
                2
            },
            AddrTypeOne::AX => {
                buf.append("A,X");
                1
            },
            AddrTypeOne::AY => {
                buf.append("A,Y");
                1
            },
        }
    }
}

impl AddrTypeTwo {
    /// The operand value this mode selects.
    pub open spec fn spec_value(self, s: MachineState, n: u8) -> u8 {
        match self {
            AddrTypeTwo::Data => n,
            AddrTypeTwo::Addr => s.mem[n as int],
            AddrTypeTwo::nSP => s.mem[wrap_index(n, s.sp) as int],
            AddrTypeTwo::nX => s.mem[wrap_index(n, s.x) as int],
            AddrTypeTwo::nY => s.mem[wrap_index(n, s.y) as int],
        }
    }

    /// The operand as written in assembly.
    pub open spec fn spec_text(self, next: u8) -> Seq<char> {
        match self {
            AddrTypeTwo::Data => "#"@ + dollar_hex(next, ""),
            AddrTypeTwo::Addr => dollar_hex(next, ""),
            AddrTypeTwo::nSP => dollar_hex(next, ",SP"),
            AddrTypeTwo::nX => dollar_hex(next, ",X"),
            AddrTypeTwo::nY => dollar_hex(next, ",Y"),
        }
    }

    /// The value this mode selects for operand byte `n`.
    pub fn get_value(&self, flisp: &Flisp, n: u8) -> (r: u8)
        ensures
            r == self.spec_value(flisp@, n),
    {
        match self {
            AddrTypeTwo::Data => n,
            AddrTypeTwo::Addr => flisp.mem[n as usize],
            AddrTypeTwo::nSP => flisp.mem[n.wrapping_add(flisp.SP) as usize],
            AddrTypeTwo::nX => flisp.mem[n.wrapping_add(flisp.X) as usize],
            AddrTypeTwo::nY => flisp.mem[n.wrapping_add(flisp.Y) as usize],
        }
    }

    /// Appends the operand text; the instruction is always two bytes long.
    pub fn write_with_next(&self, buf: &mut String, next: u8)
        ensures
            final(buf)@ == old(buf)@ + self.spec_text(next),
    {
        match self {
            AddrTypeTwo::Data => {
                buf.append("#");
                push_dollar_hex(buf, next, "");
                assert(final(buf)@ =~= old(buf)@ + self.spec_text(next));
            },
            AddrTypeTwo::Addr => {
                push_dollar_hex(buf, next, "");
            },
            AddrTypeTwo::nSP => {
                push_dollar_hex(buf, next, ",SP");
            },
            AddrTypeTwo::nX => {
                push_dollar_hex(buf, next, ",X");
            },
            AddrTypeTwo::nY => {
                push_dollar_hex(buf, next, ",Y");
            },
        }
    }
}

impl AddrTypeThree {
    /// The memory index this mode selects.
    pub open spec fn spec_index(self, s: MachineState, n: u8) -> u8 {
        match self {
            AddrTypeThree::Addr => n,
            AddrTypeThree::nSP => wrap_index(n, s.sp),
            AddrTypeThree::nX => wrap_index(n, s.x),
            AddrTypeThree::nY => wrap_index(n, s.y),
            AddrTypeThree::AY => wrap_index(s.a, s.y),
            AddrTypeThree::AX => wrap_index(s.a, s.x),
        }
    }

    /// Number of bytes of an instruction with this mode.
    pub open spec fn spec_size(self) -> u8 {
        match self {
            AddrTypeThree::AY | AddrTypeThree::AX => 1,
            _ => 2,
        }
    }

    /// The operand as written in assembly; a memory operand is written as
    /// bare hexadecimal digits.
    pub open spec fn spec_text(self, next: u8) -> Seq<char> {
        match self {
            AddrTypeThree::Addr => hex_then(next, ""),
            AddrTypeThree::nSP => hex_then(next, ",SP"),
            AddrTypeThree::nX => hex_then(next, ",X"),
            AddrTypeThree::nY => hex_then(next, ",Y"),
            AddrTypeThree::AY => "A,Y"@,
            AddrTypeThree::AX => "A,X"@,
        }
    }

    /// The memory index this mode selects for operand byte `n`.
    pub fn get_index(&self, flisp: &Flisp, n: u8) -> (r: usize)
        ensures
            r == self.spec_index(flisp@, n) as usize,
            r < 256,
    {
        match self {
            AddrTypeThree::Addr => n as usize,
            AddrTypeThree::nSP => n.wrapping_add(flisp.SP) as usize,
            AddrTypeThree::nX => n.wrapping_add(flisp.X) as usize,
            AddrTypeThree::nY => n.wrapping_add(flisp.Y) as usize,
            AddrTypeThree::AY => flisp.A.wrapping_add(flisp.Y) as usize,
            AddrTypeThree::AX => flisp.A.wrapping_add(flisp.X) as usize,
        }
    }

    /// Appends the operand text and returns the instruction size.
    pub fn write_with_next(&self, buf: &mut String, next: u8) -> (r: u8)
        ensures
            final(buf)@ == old(buf)@ + self.spec_text(next),
            r == self.spec_size(),
    {
        match self {
            AddrTypeThree::Addr => {
                push_hex_then(buf, next, "");
                2
            },
            AddrTypeThree::nSP => {
                push_hex_then(buf, next, ",SP");
                2
            },
            AddrTypeThree::nX => {
                push_hex_then(buf, next, ",X");
                2
            },
            AddrTypeThree::nY => {
                push_hex_then(buf, next, ",Y");
                2
            },
            AddrTypeThree::AY => {
                buf.append("A,Y");
                1
            },
            AddrTypeThree::AX => {
                buf.append("A,X");
                1
            },
        }
    }
}

impl AddrTypeFour {
    /// The operand value this mode selects.
    pub open spec fn spec_value(self, s: MachineState, n: u8) -> u8 {
        match self {
            AddrTypeFour::Data => n,
            AddrTypeFour::Addr => s.mem[n as int],
            AddrTypeFour::nSP => s.mem[wrap_index(n, s.sp) as int],
        }
    }

    /// The operand as written in assembly.
    pub open spec fn spec_text(self, next: u8) -> Seq<char> {
        match self {
            AddrTypeFour::Data => "#"@ + dollar_hex(next, ""),
            AddrTypeFour::Addr => dollar_hex(next, ""),
            AddrTypeFour::nSP => dollar_hex(next, ",SP"),
        }
    }

    /// The value this mode selects for operand byte `n`.
    pub fn get_value(&self, flisp: &Flisp, n: u8) -> (r: u8)
        ensures
            r == self.spec_value(flisp@, n),
    {
        match self {
            AddrTypeFour::Data => n,
            AddrTypeFour::Addr => flisp.mem[n as usize],
            AddrTypeFour::nSP => flisp.mem[n.wrapping_add(flisp.SP) as usize],
        }
    }

    /// Appends the operand text; the instruction is always two bytes long.
    pub fn write_with_next(&self, buf: &mut String, next: u8)
        ensures
            final(buf)@ == old(buf)@ + self.spec_text(next),
    {
        match self {
            AddrTypeFour::Data => {
                buf.append("#");
                push_dollar_hex(buf, next, "");
                assert(final(buf)@ =~= old(buf)@ + self.spec_text(next));
            },
            AddrTypeFour::Addr => {
                push_dollar_hex(buf, next, "");
            },
            AddrTypeFour::nSP => {
                push_dollar_hex(buf, next, ",SP");
            },
        }
    }
}

impl AddrTypeFive {
    /// The jump target this mode selects.
    pub open spec fn spec_target(self, s: MachineState, n: u8) -> u8 {
        match self {
            AddrTypeFive::Addr => n,
            AddrTypeFive::nX => wrap_index(n, s.x),
            AddrTypeFive::nY => wrap_index(n, s.y),
            AddrTypeFive::AY => wrap_index(s.a, s.y),
            AddrTypeFive::AX => wrap_index(s.a, s.x),
        }
    }

    /// Number of bytes of an instruction with this mode.
    pub open spec fn spec_size(self) -> u8 {
        match self {
            AddrTypeFive::AY | AddrTypeFive::AX => 1,
            _ => 2,
        }
    }

    /// The operand as written in assembly; a memory operand is written as
    /// bare hexadecimal digits.
    pub open spec fn spec_text(self, next: u8) -> Seq<char> {
        match self {
            AddrTypeFive::Addr => hex_then(next, ""),
            AddrTypeFive::nX => hex_then(next, ",X"),
            AddrTypeFive::nY => hex_then(next, ",Y"),
            AddrTypeFive::AY => "A,Y"@,
            AddrTypeFive::AX => "A,X"@,
        }
    }

    /// The jump target this mode selects for operand byte `n`.
    pub fn get_target(&self, flisp: &Flisp, n: u8) -> (r: u8)
        ensures
            r == self.spec_target(flisp@, n),
    {
        match self {
            AddrTypeFive::Addr => n,
            AddrTypeFive::nX => n.wrapping_add(flisp.X),
            AddrTypeFive::nY => n.wrapping_add(flisp.Y),
            AddrTypeFive::AY => flisp.A.wrapping_add(flisp.Y),
            AddrTypeFive::AX => flisp.A.wrapping_add(flisp.X),
        }
    }

    /// Appends the operand text and returns the instruction size.
    pub fn write_with_next(&self, buf: &mut String, next: u8) -> (r: u8)
        ensures
            final(buf)@ == old(buf)@ + self.spec_text(next),
            r == self.spec_size(),
    {
        match self {
            AddrTypeFive::Addr => {
                push_hex_then(buf, next, "");
                2
            },
            AddrTypeFive::nX => {
                push_hex_then(buf, next, ",X");
                2
            },
            AddrTypeFive::nY => {
                push_hex_then(buf, next, ",Y");
                2
            },
            AddrTypeFive::AY => {
                buf.append("A,Y");
                1
            },
            AddrTypeFive::AX => {
                buf.append("A,X");
                1
            },
        }
    }
}

impl LdaAddr {
    /// The state after this mode's register side effect, and the value
    /// it loads.
    pub open spec fn spec_load(self, s: MachineState, n: u8) -> (MachineState, u8) {
        match self {
            LdaAddr::Data => (s, n),
            LdaAddr::Addr => (s, s.read(n)),
            LdaAddr::nSP => (s, s.read(wrap_index(n, s.sp))),
            LdaAddr::nX => (s, s.read(wrap_index(n, s.x))),
            LdaAddr::AX => (s, s.read(wrap_index(s.a, s.x))),
            LdaAddr::Xplus => (s.with_x(s.x.wrapping_add(1)), s.read(s.x)),
            LdaAddr::Xminus => (s.with_x(s.x.wrapping_sub(1)), s.read(s.x)),
            LdaAddr::plusX => (s.with_x(s.x.wrapping_add(1)), s.read(s.x.wrapping_add(1))),
            LdaAddr::minusX => (s.with_x(s.x.wrapping_sub(1)), s.read(s.x.wrapping_sub(1))),
            LdaAddr::nY => (s, s.read(wrap_index(n, s.y))),
            LdaAddr::AY => (s, s.read(wrap_index(s.a, s.y))),
            LdaAddr::Yplus => (s.with_y(s.y.wrapping_add(1)), s.read(s.y)),
            LdaAddr::Yminus => (s.with_y(s.y.wrapping_sub(1)), s.read(s.y)),
            LdaAddr::plusY => (s.with_y(s.y.wrapping_add(1)), s.read(s.y.wrapping_add(1))),
            LdaAddr::minusY => (s.with_y(s.y.wrapping_sub(1)), s.read(s.y.wrapping_sub(1))),
        }
    }

    /// Number of bytes of an instruction with this mode.
    pub open spec fn spec_size(self) -> u8 {
        match self {
            LdaAddr::Data | LdaAddr::Addr | LdaAddr::nSP | LdaAddr::nX | LdaAddr::nY => 2,
            _ => 1,
        }
    }

    /// The operand as written in assembly.
    pub open spec fn spec_text(self, next: u8) -> Seq<char> {
        match self {
            LdaAddr::Data => "#"@ + dollar_hex(next, ""),
            LdaAddr::Addr => dollar_hex(next, ""),
            LdaAddr::nSP => dollar_hex(next, ",SP"),
            LdaAddr::nX => dollar_hex(next, ",X"),
            LdaAddr::AX => "A,X"@,
            LdaAddr::Xplus => "X+"@,
            LdaAddr::Xminus => "X-"@,
            LdaAddr::plusX => "+X"@,
            LdaAddr::minusX => "-X"@,
            LdaAddr::nY => dollar_hex(next, ",Y"),
            LdaAddr::AY => "A,Y"@,
            LdaAddr::Yplus => "Y+"@,
            LdaAddr::Yminus => "Y-"@,
            LdaAddr::plusY => "+Y"@,
            LdaAddr::minusY => "-Y"@,
        }
    }

    /// Applies this mode's register side effect and returns the loaded value.
    pub fn load(&self, flisp: &mut Flisp, n: u8) -> (r: u8)
        ensures
            (final(flisp)@, r) == self.spec_load(old(flisp)@, n),
    {
        match self {
            LdaAddr::Data => n,
            LdaAddr::Addr => flisp.mem[n as usize],
            LdaAddr::nSP => flisp.mem[n.wrapping_add(flisp.SP) as usize],
            LdaAddr::nX => flisp.mem[n.wrapping_add(flisp.X) as usize],
            LdaAddr::AX => flisp.mem[flisp.A.wrapping_add(flisp.X) as usize],
            LdaAddr::Xplus => {
                let x = flisp.X;
                flisp.X = x.wrapping_add(1);
                flisp.mem[x as usize]
            },
            LdaAddr::Xminus => {
                let x = flisp.X;
                flisp.X = x.wrapping_sub(1);
                flisp.mem[x as usize]
            },
            LdaAddr::plusX => {
                flisp.X = flisp.X.wrapping_add(1);
                flisp.mem[flisp.X as usize]
            },
            LdaAddr::minusX => {
                flisp.X = flisp.X.wrapping_sub(1);
                flisp.mem[flisp.X as usize]
            },
            LdaAddr::nY => flisp.mem[n.wrapping_add(flisp.Y) as usize],
            LdaAddr::AY => flisp.mem[flisp.A.wrapping_add(flisp.Y) as usize],
            LdaAddr::Yplus => {
                let y = flisp.Y;
                flisp.Y = y.wrapping_add(1);
                flisp.mem[y as usize]
            },
            LdaAddr::Yminus => {
                let y = flisp.Y;
                flisp.Y = y.wrapping_sub(1);
                flisp.mem[y as usize]
            },
            LdaAddr::plusY => {
                flisp.Y = flisp.Y.wrapping_add(1);
                flisp.mem[flisp.Y as usize]
            },
            LdaAddr::minusY => {
                flisp.Y = flisp.Y.wrapping_sub(1);
                flisp.mem[flisp.Y as usize]
            },
        }
    }

    /// Appends the operand text and returns the instruction size.
    pub fn write_with_next(&self, buf: &mut String, next: u8) -> (r: u8)
        ensures
            final(buf)@ == old(buf)@ + self.spec_text(next),
            r == self.spec_size(),
    {
        match self {
            LdaAddr::Data => {
                buf.append("#");
                push_dollar_hex(buf, next, "");
                assert(final(buf)@ =~= old(buf)@ + self.spec_text(next));
                2
            },
            LdaAddr::Addr => {
                push_dollar_hex(buf, next, "");
                2
            },
            LdaAddr::nSP => {
                push_dollar_hex(buf, next, ",SP");
                2
            },
            LdaAddr::nX => {
                push_dollar_hex(buf, next, ",X");
                2
            },
            LdaAddr::AX => {
                buf.append("A,X");
                1
            },
            LdaAddr::Xplus => {
                buf.append("X+");
                1
            },
            LdaAddr::Xminus => {
                buf.append("X-");
                1
            },
            LdaAddr::plusX => {
                buf.append("+X");
                1
            },
            LdaAddr::minusX => {
                buf.append("-X");
                1
            },
            LdaAddr::nY => {
                push_dollar_hex(buf, next, ",Y");
                2
            },
            LdaAddr::AY => {
                buf.append("A,Y");
                1
            },
            LdaAddr::Yplus => {
                buf.append("Y+");
                1
            },
            LdaAddr::Yminus => {
                buf.append("Y-");
                1
            },
            LdaAddr::plusY => {
                buf.append("+Y");
                1
            },
            LdaAddr::minusY => {
                buf.append("-Y");
                1
            },
        }
    }
}

impl StaAddr {
    /// The state after this mode's register side effect, and the memory
    /// index it stores to.
    pub open spec fn spec_target(self, s: MachineState, n: u8) -> (MachineState, u8) {
        match self {
            StaAddr::Addr => (s, n),
            StaAddr::nSP => (s, wrap_index(n, s.sp)),
            StaAddr::nX => (s, wrap_index(n, s.x)),
            StaAddr::AX => (s, wrap_index(s.a, s.x)),
            StaAddr::Xplus => (s.with_x(s.x.wrapping_add(1)), s.x),
            StaAddr::Xminus => (s.with_x(s.x.wrapping_sub(1)), s.x),
            StaAddr::plusX => (s.with_x(s.x.wrapping_add(1)), s.x.wrapping_add(1)),
            StaAddr::minusX => (s.with_x(s.x.wrapping_sub(1)), s.x.wrapping_sub(1)),
            StaAddr::nY => (s, wrap_index(n, s.y)),
            StaAddr::AY => (s, wrap_index(s.a, s.y)),
            StaAddr::Yplus => (s.with_y(s.y.wrapping_add(1)), s.y),
            StaAddr::Yminus => (s.with_y(s.y.wrapping_sub(1)), s.y),
            StaAddr::plusY => (s.with_y(s.y.wrapping_add(1)), s.y.wrapping_add(1)),
            StaAddr::minusY => (s.with_y(s.y.wrapping_sub(1)), s.y.wrapping_sub(1)),
        }
    }

    /// Number of bytes of an instruction with this mode.
    pub open spec fn spec_size(self) -> u8 {
        match self {
            StaAddr::Addr | StaAddr::nSP | StaAddr::nX | StaAddr::nY => 2,
            _ => 1,
        }
    }

    /// The operand as written in assembly.
    pub open spec fn spec_text(self, next: u8) -> Seq<char> {
        match self {
            StaAddr::Addr => dollar_hex(next, ""),
            StaAddr::nSP => dollar_hex(next, ",SP"),
            StaAddr::nX => dollar_hex(next, ",X"),
            StaAddr::AX => "A,X"@,
            StaAddr::Xplus => "X+"@,
            StaAddr::Xminus => "X-"@,
            StaAddr::plusX => "+X"@,
            StaAddr::minusX => "-X"@,
            StaAddr::nY => dollar_hex(next, ",Y"),
            StaAddr::AY => "A,Y"@,
            StaAddr::Yplus => "Y+"@,
            StaAddr::Yminus => "Y-"@,
            StaAddr::plusY => "+Y"@,
            StaAddr::minusY => "-Y"@,
        }
    }

    /// Applies this mode's register side effect and returns the memory index.
    pub fn store_index(&self, flisp: &mut Flisp, n: u8) -> (r: usize)
        ensures
            (final(flisp)@, r as u8) == self.spec_target(old(flisp)@, n),
            r < 256,
    {
        match self {
            StaAddr::Addr => n as usize,
            StaAddr::nSP => n.wrapping_add(flisp.SP) as usize,
            StaAddr::nX => n.wrapping_add(flisp.X) as usize,
            StaAddr::AX => flisp.A.wrapping_add(flisp.X) as usize,
            StaAddr::Xplus => {
                let x = flisp.X;
                flisp.X = x.wrapping_add(1);
                x as usize
            },
            StaAddr::Xminus => {
                let x = flisp.X;
                flisp.X = x.wrapping_sub(1);
                x as usize
            },
            StaAddr::plusX => {
                flisp.X = flisp.X.wrapping_add(1);
                flisp.X as usize
            },
            StaAddr::minusX => {
                flisp.X = flisp.X.wrapping_sub(1);
                flisp.X as usize
            },
            StaAddr::nY => n.wrapping_add(flisp.Y) as usize,
            StaAddr::AY => flisp.A.wrapping_add(flisp.Y) as usize,
            StaAddr::Yplus => {
                let y = flisp.Y;
                flisp.Y = y.wrapping_add(1);
                y as usize
            },
            StaAddr::Yminus => {
                let y = flisp.Y;
                flisp.Y = y.wrapping_sub(1);
                y as usize
            },
            StaAddr::plusY => {
                flisp.Y = flisp.Y.wrapping_add(1);
                flisp.Y as usize
            },
            StaAddr::minusY => {
                flisp.Y = flisp.Y.wrapping_sub(1);
                flisp.Y as usize
            },
        }
    }

    /// Appends the operand text and returns the instruction size.
    pub fn write_with_next(&self, buf: &mut String, next: u8) -> (r: u8)
        ensures
            final(buf)@ == old(buf)@ + self.spec_text(next),
            r == self.spec_size(),
    {
        match self {
            StaAddr::Addr => {
                push_dollar_hex(buf, next, "");
                2
            },
            StaAddr::nSP => {
                push_dollar_hex(buf, next, ",SP");
                2
            },
            StaAddr::nX => {
                push_dollar_hex(buf, next, ",X");
                2
            },
            StaAddr::AX => {
                buf.append("A,X");
                1
            },
            StaAddr::Xplus => {
                buf.append("X+");
                1
            },
            StaAddr::Xminus => {
                buf.append("X-");
                1
            },
            StaAddr::plusX => {
                buf.append("+X");
                1
            },
            StaAddr::minusX => {
                buf.append("-X");
                1
            },
            StaAddr::nY => {
                push_dollar_hex(buf, next, ",Y");
                2
            },
            StaAddr::AY => {
                buf.append("A,Y");
                1
            },
            StaAddr::Yplus => {
                buf.append("Y+");
                1
            },
            StaAddr::Yminus => {
                buf.append("Y-");
                1
            },
            StaAddr::plusY => {
                buf.append("+Y");
                1
            },
            StaAddr::minusY => {
                buf.append("-Y");
                1
            },
        }
    }
}

} // verus!
