use vstd::prelude::*;
use vstd::std_specs::convert::FromSpec;
use crate::bytes;
use crate::bytes::{bit_of, byte_of_bits};

verus! {

/// The five interrupt sources, in priority order.
#[derive(Debug, Clone, Copy, PartialEq, Eq, Structural)]
pub enum Interrupt {
    VBlank,
    LCDStat,
    Timer,
    Serial,
    Joypad,
}

/// The interrupt flag and interrupt enable registers: one bit per interrupt source.
#[derive(Debug, Clone, Copy, PartialEq, Eq, Structural)]
pub struct InterruptFlag {
    pub vblank: bool,
    pub lcd_stat: bool,
    pub timer: bool,
    pub serial: bool,
    pub joypad: bool,
}

impl InterruptFlag {
    pub fn new() -> (f: InterruptFlag)
        ensures
            !f.vblank && !f.lcd_stat && !f.timer && !f.serial && !f.joypad,
    {
        InterruptFlag { vblank: false, lcd_stat: false, timer: false, serial: false, joypad: false }
    }
}

impl From<u8> for InterruptFlag {
    /// Bits 0 to 4 of the byte are V-Blank, LCD STAT, timer, serial and joypad.
    fn from(byte: u8) -> (f: Self) {
        InterruptFlag {
            vblank: bytes::check_bit(byte, 0),
            lcd_stat: bytes::check_bit(byte, 1),
            timer: bytes::check_bit(byte, 2),
            serial: bytes::check_bit(byte, 3),
            joypad: bytes::check_bit(byte, 4),
        }
    }
}

impl vstd::std_specs::convert::FromSpecImpl<u8> for InterruptFlag {
    open spec fn obeys_from_spec() -> bool {
        true
    }

    open spec fn from_spec(byte: u8) -> InterruptFlag {
        InterruptFlag {
            vblank: bit_of(byte, 0),
            lcd_stat: bit_of(byte, 1),
            timer: bit_of(byte, 2),
            serial: bit_of(byte, 3),
            joypad: bit_of(byte, 4),
        }
    }
}

impl From<InterruptFlag> for u8 {
    /// The byte with bits 0 to 4 set as the flags are and bits 5 to 7 clear.
    fn from(p: InterruptFlag) -> (u: u8) {
        let mut u: u8 = 0x00;
        proof {
            bytes::lemma_bits_of_zero();
        }
        u = bytes::set_bit(u, 0, p.vblank);
        u = bytes::set_bit(u, 1, p.lcd_stat);
        u = bytes::set_bit(u, 2, p.timer);
        u = bytes::set_bit(u, 3, p.serial);
        u = bytes::set_bit(u, 4, p.joypad);
        proof {
            bytes::lemma_byte_of_bits(u, p.vblank, p.lcd_stat, p.timer, p.serial, p.joypad, false, false, false);
        }
        u
    }
}

impl vstd::std_specs::convert::FromSpecImpl<InterruptFlag> for u8 {
    open spec fn obeys_from_spec() -> bool {
        true
    }

    open spec fn from_spec(p: InterruptFlag) -> u8 {
        byte_of_bits(p.vblank, p.lcd_stat, p.timer, p.serial, p.joypad, false, false, false)
    }
}

/// Reading the flags back as a byte keeps bits 0 to 4 of the byte written and clears the rest.
pub proof fn lemma_interruptflag_round_trip(byte: u8)
    ensures
        <u8 as FromSpec<InterruptFlag>>::from_spec(<InterruptFlag as FromSpec<u8>>::from_spec(byte)) == byte % 32,
{
    bytes::lemma_low_bits(byte);
}

/// Decoding the byte of a set of flags gives the same flags.
pub proof fn lemma_interruptflag_byte_round_trip(f: InterruptFlag)
    ensures
        <InterruptFlag as FromSpec<u8>>::from_spec(<u8 as FromSpec<InterruptFlag>>::from_spec(f)) == f,
{
    bytes::lemma_bits_of_byte(f.vblank, f.lcd_stat, f.timer, f.serial, f.joypad, false, false, false);
}

}
