use vstd::prelude::*;
use vstd::string::StringExecFns;

use crate::bus::{hi_byte, lo_byte};
use crate::cpu::{Cpu, State};

verus! {

/// The uppercase hexadecimal digit for `n` (below 16).
pub open spec fn hex_digit(n: int) -> Seq<char> {
    if n == 0 {
        "0"@
    } else if n == 1 {
        "1"@
    } else if n == 2 {
        "2"@
    } else if n == 3 {
        "3"@
    } else if n == 4 {
        "4"@
    } else if n == 5 {
        "5"@
    } else if n == 6 {
        "6"@
    } else if n == 7 {
        "7"@
    } else if n == 8 {
        "8"@
    } else if n == 9 {
        "9"@
    } else if n == 10 {
        "A"@
    } else if n == 11 {
        "B"@
    } else if n == 12 {
        "C"@
    } else if n == 13 {
        "D"@
    } else if n == 14 {
        "E"@
    } else if n == 15 {
        "F"@
    } else {
        Seq::empty()
    }
}

/// Two uppercase hex digits.
pub open spec fn hex2(v: u8) -> Seq<char> {
    hex_digit((v / 16) as int) + hex_digit((v % 16) as int)
}

/// Four uppercase hex digits.
pub open spec fn hex4(v: u16) -> Seq<char> {
    hex2(hi_byte(v)) + hex2(lo_byte(v))
}

pub open spec fn bit_text(b: bool) -> Seq<char> {
    if b {
        "1"@
    } else {
        "0"@
    }
}

pub open spec fn state_text(s: State) -> Seq<char> {
    match s {
        State::Running => "Running"@,
        State::Halted => "Halted"@,
    }
}

/// `PC=hhhh SP=hhhh A=hh BC=hhhh DE=hhhh HL=hhhh F=[Z:b S:b P:b AC:b C:b] (<state>)`.
pub open spec fn trace_text(c: Cpu) -> Seq<char> {
    "PC="@ + hex4(c.pc) + " SP="@ + hex4(c.sp) + " A="@ + hex2(c.a) + " BC="@ + hex2(c.b) + hex2(c.c)
        + " DE="@ + hex2(c.d) + hex2(c.e) + " HL="@ + hex2(c.h) + hex2(c.l) + " F=[Z:"@ + bit_text(
        c.flags.zero,
    ) + " S:"@ + bit_text(c.flags.sign) + " P:"@ + bit_text(c.flags.parity) + " AC:"@ + bit_text(
        c.flags.aux_carry,
    ) + " C:"@ + bit_text(c.flags.carry) + "] ("@ + state_text(c.state) + ")"@
}

fn hex_digit_str(n: u8) -> (r: &'static str)
    requires
        n < 16,
    ensures
        r@ == hex_digit(n as int),
{
    match n {
        0 => "0",
        1 => "1",
        2 => "2",
        3 => "3",
        4 => "4",
        5 => "5",
        6 => "6",
        7 => "7",
        8 => "8",
        9 => "9",
        10 => "A",
        11 => "B",
        12 => "C",
        13 => "D",
        14 => "E",
        _ => "F",
    }
}

fn push_hex2(s: &mut String, v: u8)
    ensures
        final(s)@ == old(s)@ + hex2(v),
{
    s.append(hex_digit_str(v / 16));
    s.append(hex_digit_str(v % 16));
    assert(s@ =~= old(s)@ + hex2(v));
}

fn push_hex4(s: &mut String, v: u16)
    ensures
        final(s)@ == old(s)@ + hex4(v),
{
    push_hex2(s, (v / 256) as u8);
    push_hex2(s, (v % 256) as u8);
    assert(s@ =~= old(s)@ + hex4(v));
}

fn push_bit(s: &mut String, b: bool)
    ensures
        final(s)@ == old(s)@ + bit_text(b),
{
    if b {
        s.append("1");
    } else {
        s.append("0");
    }
}

impl Cpu {
    /// One-line trace of the registers, flags and run state.
    pub fn to_string(&self) -> (r: String)
        ensures
            r@ == trace_text(*self),
    {
        let mut s = String::new();
        s.append("PC=");
        push_hex4(&mut s, self.pc);
        s.append(" SP=");
        push_hex4(&mut s, self.sp);
        s.append(" A=");
        push_hex2(&mut s, self.a);
        s.append(" BC=");
        push_hex2(&mut s, self.b);
        push_hex2(&mut s, self.c);
        s.append(" DE=");
        push_hex2(&mut s, self.d);
        push_hex2(&mut s, self.e);
        s.append(" HL=");
        push_hex2(&mut s, self.h);
        push_hex2(&mut s, self.l);
        s.append(" F=[Z:");
        push_bit(&mut s, self.flags.zero);
        s.append(" S:");
        push_bit(&mut s, self.flags.sign);
        s.append(" P:");
        push_bit(&mut s, self.flags.parity);
        s.append(" AC:");
        push_bit(&mut s, self.flags.aux_carry);
        s.append(" C:");
        push_bit(&mut s, self.flags.carry);
        s.append("] (");
        match self.state {
            State::Running => s.append("Running"),
            State::Halted => s.append("Halted"),
        }
        s.append(")");
        assert(s@ =~= trace_text(*self));
        s
    }
}

} // verus!
