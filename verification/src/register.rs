use vstd::prelude::*;
use crate::bytes;
use crate::bytes::{bit_of, with_bit};
use crate::text::{hex4, append_hex4};
use vstd::string::*;

pub mod watcher;

use watcher::{Watcher, WatcherView};

verus! {

/// The interrupt master enable: on, off, or switched on after the next instruction.
#[derive(PartialEq, Eq, Structural, Debug, Clone, Copy)]
pub enum IME {
    Enabled,
    Disabled,
    Queued,
}

impl IME {
    pub fn queued(&self) -> (r: bool)
        ensures
            r == (*self == IME::Queued),
    {
        *self == IME::Queued
    }

    pub fn enabled(&self) -> (r: bool)
        ensures
            r == (*self == IME::Enabled),
    {
        *self == IME::Enabled
    }

    pub fn flagged_on(&self) -> (r: bool)
        ensures
            r == (*self == IME::Queued || *self == IME::Enabled),
    {
        *self == IME::Queued || *self == IME::Enabled
    }
}

/// Whether the processor is halted, and how it leaves the halt.
#[derive(PartialEq, Eq, Structural, Debug, Clone, Copy)]
pub enum HaltedState {
    Running,
    Halted,
    HaltedNoJump,
    HaltBug,
}

pub enum R {
    R8(Registers8),
    R16(Registers16),
}

pub enum RValue {
    R8(u8),
    R16(u16),
}

impl RValue {
    pub fn get8(&self) -> (v: u8)
        requires
            self is R8,
        ensures
            v == self->R8_0,
    {
        match &self {
            RValue::R8(v) => *v,
            RValue::R16(_) => {
                assert(false);
                0
            },
        }
    }

    pub fn get16(&self) -> (v: u16)
        requires
            self is R16,
        ensures
            v == self->R16_0,
    {
        match &self {
            RValue::R8(_) => {
                assert(false);
                0
            },
            RValue::R16(v) => *v,
        }
    }
}

#[derive(Debug, Clone, Copy, PartialEq, Eq, Structural)]
pub enum RPair {
    R8(Registers8, u8),
    R16(Registers16, u16),
}

#[derive(Debug, Clone, Copy, PartialEq, Eq, Structural)]
pub enum Registers8 {
    A,
    B,
    C,
    D,
    E,
    F,
    H,
    L,
}

#[derive(Debug, Clone, Copy, PartialEq, Eq, Structural)]
pub enum Registers16 {
    AF,
    BC,
    DE,
    HL,
    PC,
    SP,
}

#[derive(Debug, Clone, Copy, PartialEq, Eq, Structural)]
pub enum Flag {
    Z,
    C,
    N,
    H,
}

/// The bit of F that holds a flag.
pub open spec fn flag_index(f: Flag) -> u8 {
    match f {
        Flag::Z => 7,
        Flag::N => 6,
        Flag::H => 5,
        Flag::C => 4,
    }
}

impl Flag {
    pub fn get_index(&self) -> (i: u8)
        ensures
            i == flag_index(*self),
    {
        match self {
            Flag::Z => 7,
            Flag::N => 6,
            Flag::H => 5,
            Flag::C => 4,
        }
    }
}

/// The high and the low register of a register pair.
pub open spec fn pair_halves(r: Registers16) -> (Registers8, Registers8) {
    match r {
        Registers16::AF => (Registers8::A, Registers8::F),
        Registers16::BC => (Registers8::B, Registers8::C),
        Registers16::DE => (Registers8::D, Registers8::E),
        _ => (Registers8::H, Registers8::L),
    }
}

/// F only keeps its high nibble.
pub open spec fn f_masked(v: u8) -> u8 {
    (v / 16 * 16) as u8
}

/// What the registers hold.
pub struct RegistersView {
    pub a: u8,
    pub b: u8,
    pub c: u8,
    pub d: u8,
    pub e: u8,
    pub f: u8,
    pub h: u8,
    pub l: u8,
    pub sp: u16,
    pub pc: u16,
    pub ime: IME,
    pub halted: HaltedState,
    pub stopped: bool,
    pub watcher: WatcherView,
}

impl RegistersView {
    pub open spec fn get8(self, r: Registers8) -> u8 {
        match r {
            Registers8::A => self.a,
            Registers8::B => self.b,
            Registers8::C => self.c,
            Registers8::D => self.d,
            Registers8::E => self.e,
            Registers8::F => self.f,
            Registers8::H => self.h,
            Registers8::L => self.l,
        }
    }

    /// A register pair reads as its high register times 256 plus its low register.
    pub open spec fn get16(self, r: Registers16) -> u16 {
        match r {
            Registers16::PC => self.pc,
            Registers16::SP => self.sp,
            _ => (self.get8(pair_halves(r).0) as int * 256 + self.get8(pair_halves(r).1) as int) as u16,
        }
    }

    pub open spec fn flag(self, f: Flag) -> bool {
        bit_of(self.f, flag_index(f) as int)
    }

    /// The registers with `r` holding `v` (F keeps only the high nibble of `v`).
    pub open spec fn set8(self, r: Registers8, v: u8) -> RegistersView {
        match r {
            Registers8::A => RegistersView { a: v, ..self },
            Registers8::B => RegistersView { b: v, ..self },
            Registers8::C => RegistersView { c: v, ..self },
            Registers8::D => RegistersView { d: v, ..self },
            Registers8::E => RegistersView { e: v, ..self },
            Registers8::F => RegistersView { f: f_masked(v), ..self },
            Registers8::H => RegistersView { h: v, ..self },
            Registers8::L => RegistersView { l: v, ..self },
        }
    }

    /// A watched write of one register: the value is stored and the watcher checks the write.
    pub open spec fn set8_watched(self, r: Registers8, v: u8) -> RegistersView {
        let s = self.set8(r, v);
        RegistersView { watcher: s.watcher.checked(RPair::R8(r, v)), ..s }
    }

    /// The registers after a 16 bit write: a pair is written as two watched 8 bit writes,
    /// high register first.
    pub open spec fn set16(self, r: Registers16, v: u16) -> RegistersView {
        match r {
            Registers16::PC => RegistersView { pc: v, ..self },
            Registers16::SP => RegistersView { sp: v, ..self },
            _ => self.set8_watched(pair_halves(r).0, (v / 256) as u8).set8_watched(pair_halves(r).1, (v % 256) as u8),
        }
    }

    /// A watched write: the value is stored (as `set16` for a pair) and the watcher checks it.
    pub open spec fn set(self, p: RPair) -> RegistersView {
        match p {
            RPair::R8(r, v) => self.set8_watched(r, v),
            RPair::R16(r, v) => {
                let s = self.set16(r, v);
                RegistersView { watcher: s.watcher.checked(p), ..s }
            },
        }
    }

    pub open spec fn set_flag(self, f: Flag, b: bool) -> RegistersView {
        RegistersView { f: with_bit(self.f, flag_index(f), b), ..self }
    }

    /// A watched increment of a 16 bit register, wrapping around.
    pub open spec fn inc16(self, r: Registers16) -> RegistersView {
        self.set(RPair::R16(r, ((self.get16(r) as int + 1) % 0x10000) as u16))
    }

    /// A watched decrement of a 16 bit register, wrapping around.
    pub open spec fn dec16(self, r: Registers16) -> RegistersView {
        self.set(RPair::R16(r, ((self.get16(r) as int + 0xFFFF) % 0x10000) as u16))
    }

    /// The low nibble of F is clear, as the hardware keeps it.
    pub open spec fn flags_clean(self) -> bool {
        self.f % 16 == 0
    }
}

/// 16 bit combined registers
///
/// Taking the case of HL for example, it is the combination of the 8 bit registers H and L:
/// H is the most significant byte.
pub struct Registers {
    pub a: u8,
    pub b: u8,
    pub c: u8,
    pub d: u8,
    pub e: u8,
    pub f: u8,
    pub h: u8,
    pub l: u8,
    pub sp: u16,
    pub pc: u16,
    pub ime: IME,
    pub halted: HaltedState,
    pub stopped: bool,
    pub watcher: Watcher,
}

impl View for Registers {
    type V = RegistersView;

    open spec fn view(&self) -> RegistersView {
        RegistersView {
            a: self.a,
            b: self.b,
            c: self.c,
            d: self.d,
            e: self.e,
            f: self.f,
            h: self.h,
            l: self.l,
            sp: self.sp,
            pc: self.pc,
            ime: self.ime,
            halted: self.halted,
            stopped: self.stopped,
            watcher: self.watcher@,
        }
    }
}

/// The registers as they are at power on.
pub open spec fn power_on_registers() -> RegistersView {
    RegistersView {
        a: 0,
        b: 0,
        c: 0,
        d: 0,
        e: 0,
        f: 0,
        h: 0,
        l: 0,
        sp: 0xFFFE,
        pc: 0x0000,
        ime: IME::Disabled,
        halted: HaltedState::Running,
        stopped: false,
        watcher: watcher::empty_watcher(),
    }
}

/// The registers as the boot program leaves them.
pub open spec fn after_boot_registers() -> RegistersView {
    RegistersView {
        a: 0x01,
        b: 0x00,
        c: 0x13,
        d: 0x00,
        e: 0xD8,
        f: 0xB0,
        h: 0x01,
        l: 0x4D,
        sp: 0xFFFE,
        pc: 0x0100,
        ime: IME::Disabled,
        halted: HaltedState::Running,
        stopped: false,
        watcher: watcher::empty_watcher(),
    }
}

impl Registers {
    pub fn new() -> (r: Registers)
        ensures
            r@ == power_on_registers(),
    {
        return Registers {
            a: 0,
            b: 0,
            c: 0,
            d: 0,
            e: 0,
            f: 0,
            h: 0,
            l: 0,
            sp: 0xFFFE,
            pc: 0x0000,
            ime: IME::Disabled,
            halted: HaltedState::Running,
            stopped: false,
            watcher: Watcher::new(),
        };
    }

    pub fn skip_boot() -> (r: Registers)
        ensures
            r@ == after_boot_registers(),
    {
        return Registers {
            a: 0x01,
            b: 0x00,
            c: 0x13,
            d: 0x00,
            e: 0xD8,
            f: 0xB0,
            h: 0x01,
            l: 0x4D,
            sp: 0xFFFE,
            pc: 0x0100,
            ime: IME::Disabled,
            halted: HaltedState::Running,
            stopped: false,
            watcher: Watcher::new(),
        };
    }

    pub fn get(&self, r: R) -> (v: RValue)
        ensures
            match r {
                R::R8(r8) => v == RValue::R8(self@.get8(r8)),
                R::R16(r16) => v == RValue::R16(self@.get16(r16)),
            },
    {
        match r {
            R::R8(Registers8::A) => RValue::R8(self.a),
            R::R8(Registers8::B) => RValue::R8(self.b),
            R::R8(Registers8::C) => RValue::R8(self.c),
            R::R8(Registers8::D) => RValue::R8(self.d),
            R::R8(Registers8::E) => RValue::R8(self.e),
            R::R8(Registers8::F) => RValue::R8(self.f),
            R::R8(Registers8::H) => RValue::R8(self.h),
            R::R8(Registers8::L) => RValue::R8(self.l),

            R::R16(Registers16::AF) => RValue::R16(bytes::combine_ms_ls(self.a, self.f)),
            R::R16(Registers16::BC) => RValue::R16(bytes::combine_ms_ls(self.b, self.c)),
            R::R16(Registers16::DE) => RValue::R16(bytes::combine_ms_ls(self.d, self.e)),
            R::R16(Registers16::HL) => RValue::R16(bytes::combine_ms_ls(self.h, self.l)),
            R::R16(Registers16::PC) => RValue::R16(self.pc),
            R::R16(Registers16::SP) => RValue::R16(self.sp),
        }
    }

    pub fn get8(&self, r: Registers8) -> (v: u8)
        ensures
            v == self@.get8(r),
    {
        self.get(R::R8(r)).get8()
    }

    pub fn get16(&self, r: Registers16) -> (v: u16)
        ensures
            v == self@.get16(r),
    {
        self.get(R::R16(r)).get16()
    }

    /// The register pairs as text: `AF: 01B0 BC: 0013 DE: 00D8 HL: 014D PC: 0100 SP FFFE`.
    pub fn describe(&self) -> (s: String)
        ensures
            s@ == "AF: "@ + hex4(self@.get16(Registers16::AF)) + " BC: "@ + hex4(self@.get16(Registers16::BC))
                + " DE: "@ + hex4(self@.get16(Registers16::DE)) + " HL: "@ + hex4(self@.get16(Registers16::HL))
                + " PC: "@ + hex4(self@.get16(Registers16::PC)) + " SP "@ + hex4(self@.get16(Registers16::SP)),
    {
        let mut s = String::from_str("AF: ");
        append_hex4(&mut s, self.get16(Registers16::AF));
        s.append(" BC: ");
        append_hex4(&mut s, self.get16(Registers16::BC));
        s.append(" DE: ");
        append_hex4(&mut s, self.get16(Registers16::DE));
        s.append(" HL: ");
        append_hex4(&mut s, self.get16(Registers16::HL));
        s.append(" PC: ");
        append_hex4(&mut s, self.get16(Registers16::PC));
        s.append(" SP ");
        append_hex4(&mut s, self.get16(Registers16::SP));
        s
    }

    /// A watched write of a register (or of a pair, high register first).
    pub fn set(&mut self, r: RPair)
        ensures
            final(self)@ == old(self)@.set(r),
        decreases
            match r {
                RPair::R8(..) => 0nat,
                RPair::R16(..) => 2nat,
            },
    {
        match r {
            RPair::R8(Registers8::A, v) => self.a = v,
            RPair::R8(Registers8::B, v) => self.b = v,
            RPair::R8(Registers8::C, v) => self.c = v,
            RPair::R8(Registers8::D, v) => self.d = v,
            RPair::R8(Registers8::E, v) => self.e = v,
            // least significant nibble in f is always zero
            RPair::R8(Registers8::F, v) => {
                proof {
                    lemma_high_nibble(v);
                }
                self.f = v & 0xF0
            },
            RPair::R8(Registers8::H, v) => self.h = v,
            RPair::R8(Registers8::L, v) => self.l = v,

            RPair::R16(Registers16::AF, v) => self.set_combined(Registers8::A, Registers8::F, v),
            RPair::R16(Registers16::BC, v) => self.set_combined(Registers8::B, Registers8::C, v),
            RPair::R16(Registers16::DE, v) => self.set_combined(Registers8::D, Registers8::E, v),
            RPair::R16(Registers16::HL, v) => self.set_combined(Registers8::H, Registers8::L, v),
            RPair::R16(Registers16::SP, v) => self.sp = v,
            RPair::R16(Registers16::PC, v) => self.pc = v,
        }

        self.watcher.check(r);
    }

    /// An unwatched write of one register (F keeps only the high nibble).
    pub fn set8(&mut self, r: Registers8, v: u8)
        ensures
            final(self)@ == old(self)@.set8(r, v),
    {
        match r {
            Registers8::A => self.a = v,
            Registers8::B => self.b = v,
            Registers8::C => self.c = v,
            Registers8::D => self.d = v,
            Registers8::E => self.e = v,
            // least significant nibble in f is always zero
            Registers8::F => {
                proof {
                    lemma_high_nibble(v);
                }
                self.f = v & 0xF0
            },
            Registers8::H => self.h = v,
            Registers8::L => self.l = v,
        }
    }

    /// A 16 bit write: PC and SP directly, a pair as two watched 8 bit writes.
    pub fn set16(&mut self, r: Registers16, v: u16)
        ensures
            final(self)@ == old(self)@.set16(r, v),
    {
        match r {
            Registers16::AF => self.set_combined(Registers8::A, Registers8::F, v),
            Registers16::BC => self.set_combined(Registers8::B, Registers8::C, v),
            Registers16::DE => self.set_combined(Registers8::D, Registers8::E, v),
            Registers16::HL => self.set_combined(Registers8::H, Registers8::L, v),
            Registers16::PC => self.pc = v,
            Registers16::SP => self.sp = v,
        }
    }

    pub fn set_flag(&mut self, f: Flag, check: bool)
        ensures
            final(self)@ == old(self)@.set_flag(f, check),
    {
        self.f = bytes::set_bit(self.f, f.get_index(), check);
    }

    pub fn get_flag(&self, f: Flag) -> (b: bool)
        ensures
            b == self@.flag(f),
    {
        bytes::check_bit(self.f, f.get_index())
    }

    /// Adds one to a 16 bit register, wrapping around, as a watched write.
    pub fn inc16(&mut self, r: Registers16)
        ensures
            final(self)@ == old(self)@.inc16(r),
    {
        let v = self.get16(r).wrapping_add(1);
        self.set(RPair::R16(r, v));
    }

    /// Takes one from a 16 bit register, wrapping around, as a watched write.
    pub fn dec16(&mut self, r: Registers16)
        ensures
            final(self)@ == old(self)@.dec16(r),
    {
        let v = self.get16(r).wrapping_sub(1);
        self.set(RPair::R16(r, v));
    }

    fn set_combined(&mut self, r1: Registers8, r2: Registers8, v: u16)
        ensures
            final(self)@ == old(self)@.set8_watched(r1, (v / 256) as u8).set8_watched(r2, (v % 256) as u8),
        decreases 1nat,
    {
        let (ms, ls) = bytes::split_ms_ls(v);
        self.set(RPair::R8(r1, ms));
        self.set(RPair::R8(r2, ls));
    }
}

/// Masking a byte with 0xF0 keeps its high nibble.
proof fn lemma_high_nibble(v: u8)
    ensures
        v & 0xF0 == v / 16 * 16,
{
    assert(v & 0xF0 == v / 16 * 16) by (bit_vector);
}

/// Writing a register and reading it back gives the value written; F reads back with its low
/// nibble cleared, and so does AF.
pub proof fn lemma_register_round_trip(rs: RegistersView, r8: Registers8, v8: u8, r16: Registers16, v16: u16)
    ensures
        rs.set8(r8, v8).get8(r8) == if r8 == Registers8::F { f_masked(v8) } else { v8 },
        rs.set16(r16, v16).get16(r16) == if r16 == Registers16::AF { (v16 / 16 * 16) as u16 } else { v16 },
{
}

/// Every write keeps the low nibble of F clear.
pub proof fn lemma_writes_keep_flags_clean(rs: RegistersView, r8: Registers8, v8: u8, r16: Registers16, v16: u16, f: Flag, b: bool)
    requires
        rs.flags_clean(),
    ensures
        rs.set8(r8, v8).flags_clean(),
        rs.set16(r16, v16).flags_clean(),
        rs.set(RPair::R8(r8, v8)).flags_clean(),
        rs.set(RPair::R16(r16, v16)).flags_clean(),
        rs.set_flag(f, b).flags_clean(),
{
    let x = rs.f;
    let n = flag_index(f);
    assert(x % 16 == 0 && 4 <= n < 8 ==> with_bit(x, n, b) % 16 == 0) by (bit_vector);
}

/// Setting a flag and reading flags back: the flag set reads as set, the others keep their value.
pub proof fn lemma_flag_round_trip(rs: RegistersView, f: Flag, b: bool, g: Flag)
    ensures
        rs.set_flag(f, b).flag(g) == if f == g { b } else { rs.flag(g) },
{
    let x = rs.f;
    let n = flag_index(f);
    let m = flag_index(g);
    crate::bytes::lemma_bit_of_shift(with_bit(x, n, b), m);
    crate::bytes::lemma_bit_of_shift(x, m);
    assert(n < 8 && m < 8 ==> (with_bit(x, n, b) >> m) & 1 == if n == m { if b { 1u8 } else { 0u8 } } else { (x >> m) & 1 }) by (bit_vector);
}

}
