use vstd::prelude::*;
use vstd::string::*;
use crate::register::{Registers8, Registers16};
use crate::instruction::{JumpFlag, RstFlag};

verus! {

/// The name of an 8 bit register, as it is printed.
pub open spec fn reg8_name(r: Registers8) -> Seq<char> {
    match r {
        Registers8::A => "A"@,
        Registers8::B => "B"@,
        Registers8::C => "C"@,
        Registers8::D => "D"@,
        Registers8::E => "E"@,
        Registers8::F => "F"@,
        Registers8::H => "H"@,
        Registers8::L => "L"@,
    }
}

/// The name of a 16 bit register, as it is printed.
pub open spec fn reg16_name(r: Registers16) -> Seq<char> {
    match r {
        Registers16::AF => "AF"@,
        Registers16::BC => "BC"@,
        Registers16::DE => "DE"@,
        Registers16::HL => "HL"@,
        Registers16::PC => "PC"@,
        Registers16::SP => "SP"@,
    }
}

pub fn reg8_str(r: Registers8) -> (s: &'static str)
    ensures
        s@ == reg8_name(r),
{
    match r {
        Registers8::A => "A",
        Registers8::B => "B",
        Registers8::C => "C",
        Registers8::D => "D",
        Registers8::E => "E",
        Registers8::F => "F",
        Registers8::H => "H",
        Registers8::L => "L",
    }
}

pub fn reg16_str(r: Registers16) -> (s: &'static str)
    ensures
        s@ == reg16_name(r),
{
    match r {
        Registers16::AF => "AF",
        Registers16::BC => "BC",
        Registers16::DE => "DE",
        Registers16::HL => "HL",
        Registers16::PC => "PC",
        Registers16::SP => "SP",
    }
}

/// The text of one digit, in base 16 with capital letters.
pub open spec fn digit_text(d: int) -> Seq<char> {
    if d == 0 { "0"@ } else if d == 1 { "1"@ } else if d == 2 { "2"@ } else if d == 3 { "3"@ }
    else if d == 4 { "4"@ } else if d == 5 { "5"@ } else if d == 6 { "6"@ } else if d == 7 { "7"@ }
    else if d == 8 { "8"@ } else if d == 9 { "9"@ } else if d == 10 { "A"@ } else if d == 11 { "B"@ }
    else if d == 12 { "C"@ } else if d == 13 { "D"@ } else if d == 14 { "E"@ } else { "F"@ }
}

/// A number written in a base (10 or 16), without leading zeros.
pub open spec fn digits(n: nat, base: nat) -> Seq<char>
    decreases n,
{
    if base < 2 || n < base {
        digit_text(n as int)
    } else {
        proof {
            vstd::arithmetic::div_mod::lemma_div_decreases(n as int, base as int);
        }
        digits(n / base, base) + digit_text((n % base) as int)
    }
}

fn digit_str(d: u32) -> (s: &'static str)
    requires
        d < 16,
    ensures
        s@ == digit_text(d as int),
{
    match d {
        0 => "0",
        1 => "1",
        2 => "2",
        3 => "3",
        4 => "4",
        5 => "5",
        6 => "6",
        7 => "7",
        8 => "8",
        9 => "9",
        10 => "A",
        11 => "B",
        12 => "C",
        13 => "D",
        14 => "E",
        _ => "F",
    }
}

/// Writes `n` in base `base` (10 or 16) after `prefix`.
pub fn number(prefix: &str, n: u32, base: u32) -> (s: String)
    requires
        base == 10 || base == 16,
    ensures
        s@ == prefix@ + digits(n as nat, base as nat),
    decreases n,
{
    if n < base {
        let mut s = String::from_str(prefix);
        s.append(digit_str(n));
        s
    } else {
        let mut s = number(prefix, n / base, base);
        s.append(digit_str(n % base));
        proof {
            assert(prefix@ + digits(n as nat, base as nat) =~= prefix@ + digits((n / base) as nat, base as nat) + digit_text((n % base) as int));
        }
        s
    }
}

/// A 16 bit number as four hexadecimal digits, in capitals, leading zeros kept.
pub open spec fn hex4(n: u16) -> Seq<char> {
    digit_text(n as int / 4096) + digit_text(n as int / 256 % 16) + digit_text(n as int / 16 % 16)
        + digit_text(n as int % 16)
}

/// Appends `n` as four hexadecimal digits.
pub fn append_hex4(s: &mut String, n: u16)
    ensures
        final(s)@ == old(s)@ + hex4(n),
{
    let v = n as u32;
    s.append(digit_str(v / 4096));
    s.append(digit_str(v / 256 % 16));
    s.append(digit_str(v / 16 % 16));
    s.append(digit_str(v % 16));
    assert(final(s)@ =~= old(s)@ + hex4(n));
}

/// `prefix` followed by `a`.
pub fn join(prefix: &str, a: &str) -> (s: String)
    ensures
        s@ == prefix@ + a@,
{
    let mut s = String::from_str(prefix);
    s.append(a);
    s
}

/// `prefix` followed by `a`, a space and `b`.
pub fn join2(prefix: &str, a: &str, b: &str) -> (s: String)
    ensures
        s@ == prefix@ + a@ + " "@ + b@,
{
    let mut s = String::from_str(prefix);
    s.append(a);
    s.append(" ");
    s.append(b);
    s
}

/// The name of a jump condition, as it is printed.
pub open spec fn jump_flag_name(f: JumpFlag) -> Seq<char> {
    match f {
        JumpFlag::NZ => "NZ"@,
        JumpFlag::Z => "Z"@,
        JumpFlag::NC => "NC"@,
        JumpFlag::C => "C"@,
    }
}

pub fn jump_flag_str(f: JumpFlag) -> (s: &'static str)
    ensures
        s@ == jump_flag_name(f),
{
    match f {
        JumpFlag::NZ => "NZ",
        JumpFlag::Z => "Z",
        JumpFlag::NC => "NC",
        JumpFlag::C => "C",
    }
}

/// The name of a restart vector, as it is printed.
pub open spec fn rst_flag_name(f: RstFlag) -> Seq<char> {
    match f {
        RstFlag::H00 => "H00"@,
        RstFlag::H08 => "H08"@,
        RstFlag::H10 => "H10"@,
        RstFlag::H18 => "H18"@,
        RstFlag::H20 => "H20"@,
        RstFlag::H28 => "H28"@,
        RstFlag::H30 => "H30"@,
        RstFlag::H38 => "H38"@,
    }
}

pub fn rst_flag_str(f: RstFlag) -> (s: &'static str)
    ensures
        s@ == rst_flag_name(f),
{
    match f {
        RstFlag::H00 => "H00",
        RstFlag::H08 => "H08",
        RstFlag::H10 => "H10",
        RstFlag::H18 => "H18",
        RstFlag::H20 => "H20",
        RstFlag::H28 => "H28",
        RstFlag::H30 => "H30",
        RstFlag::H38 => "H38",
    }
}

/// `prefix` followed by `n` in decimal, a space and `name`.
pub fn join_number(prefix: &str, n: u8, name: &str) -> (s: String)
    ensures
        s@ == prefix@ + digits(n as nat, 10) + " "@ + name@,
{
    let mut s = number(prefix, n as u32, 10);
    s.append(" ");
    s.append(name);
    s
}

}
