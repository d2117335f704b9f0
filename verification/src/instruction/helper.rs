use vstd::prelude::*;
use crate::cpu::{CPU, CpuView};
use crate::bytes;
use crate::bytes::{bit_of, with_bit, signed_byte};
use crate::register::{Flag, Registers16};

verus! {

/* Helper Functions */

/// The nibbles of a byte swapped.
pub open spec fn swapped(v: u8) -> u8 {
    ((v % 16) * 16 + v / 16) as u8
}

/// A byte shifted left by one, bit 0 cleared.
pub open spec fn shifted_left(v: u8) -> u8 {
    ((v as int * 2) % 256) as u8
}

/// A byte rotated left by one: bit 7 comes round to bit 0.
pub open spec fn rotated_left(v: u8) -> u8 {
    ((v as int * 2) % 256 + v as int / 128) as u8
}

/// A byte rotated right by one: bit 0 comes round to bit 7.
pub open spec fn rotated_right(v: u8) -> u8 {
    (v as int / 2 + (v as int % 2) * 128) as u8
}

/// A byte shifted right by one with bit 7 kept.
pub open spec fn shifted_right_arith(v: u8) -> u8 {
    (v as int / 2 + if v >= 128 { 128int } else { 0 }) as u8
}

/// What a flag setting byte operation gives: the value and the processor with its flags set.
pub open spec fn swap_result(s: CpuView, v: u8) -> (u8, CpuView) {
    let out = swapped(v);
    (out, s.set_flags(out == 0, false, false, false))
}

pub open spec fn sla_result(s: CpuView, v: u8) -> (u8, CpuView) {
    let out = shifted_left(v);
    (out, s.set_flags(out == 0, false, false, v >= 128))
}

pub open spec fn sra_result(s: CpuView, v: u8) -> (u8, CpuView) {
    let out = shifted_right_arith(v);
    (out, s.set_flags(out == 0, false, false, v % 2 == 1))
}

pub open spec fn srl_result(s: CpuView, v: u8) -> (u8, CpuView) {
    let out = (v / 2) as u8;
    (out, s.set_flags(out == 0, false, false, v % 2 == 1))
}

pub open spec fn rr_result(s: CpuView, v: u8) -> (u8, CpuView) {
    let out = (v as int / 2 + if s.flag(Flag::C) { 128int } else { 0 }) as u8;
    (out, s.set_flags(out == 0, false, false, v % 2 == 1))
}

pub open spec fn rrc_result(s: CpuView, v: u8) -> (u8, CpuView) {
    let out = rotated_right(v);
    (out, s.set_flags(out == 0, false, false, v % 2 == 1))
}

pub open spec fn rlc_result(s: CpuView, v: u8) -> (u8, CpuView) {
    let out = rotated_left(v);
    (out, s.set_flags(out == 0, false, false, v >= 128))
}

pub open spec fn rl_result(s: CpuView, v: u8) -> (u8, CpuView) {
    let out = ((v as int * 2) % 256 + if s.flag(Flag::C) { 1int } else { 0 }) as u8;
    (out, s.set_flags(out == 0, false, false, v >= 128))
}

pub open spec fn or_result(s: CpuView, a: u8, b: u8) -> (u8, CpuView) {
    let v = a | b;
    (v, s.set_flags(v == 0, false, false, false))
}

pub open spec fn xor_result(s: CpuView, a: u8, b: u8) -> (u8, CpuView) {
    let v = a ^ b;
    (v, s.set_flags(v == 0, false, false, false))
}

pub open spec fn and_result(s: CpuView, a: u8, b: u8) -> (u8, CpuView) {
    let v = a & b;
    (v, s.set_flags(v == 0, false, true, false))
}

pub open spec fn add_result(s: CpuView, a: u8, b: u8) -> (u8, CpuView) {
    let v = ((a as int + b as int) % 256) as u8;
    (v, s.set_flags(v == 0, false, (a % 16) + (b % 16) > 15, a as int + b as int > 255))
}

pub open spec fn add_u16_i8_result(s: CpuView, a: u16, b: u8) -> (u16, CpuView) {
    (relative_target(a, b), s.set_flags(
        false,
        false,
        if b < 128 { (a % 16) + (b % 16) > 15 } else { a % 16 < b % 16 },
        a as int + signed_byte(b) > 65535 || a as int + signed_byte(b) < 0,
    ))
}

pub open spec fn adc_result(s: CpuView, a: u8, b: u8) -> (u8, CpuView) {
    let c: int = if s.flag(Flag::C) { 1 } else { 0 };
    let i = (b as int + c) % 256;
    let v = ((a as int + i) % 256) as u8;
    (v, s.set_flags(v == 0, false, (b % 16) + c > 15 || (a % 16) + (i % 16) > 15, b as int + c > 255 || a as int + i > 255))
}

pub open spec fn sub_result(s: CpuView, a: u8, b: u8) -> (u8, CpuView) {
    let v = ((a as int - b as int + 256) % 256) as u8;
    (v, s.set_flags(v == 0, true, a % 16 < b % 16, a < b))
}

pub open spec fn sbc_result(s: CpuView, a: u8, b: u8) -> (u8, CpuView) {
    let c: int = if s.flag(Flag::C) { 1 } else { 0 };
    let i = (a as int - c + 256) % 256;
    let v = ((i - b as int + 256) % 256) as u8;
    (v, s.set_flags(v == 0, true, a % 16 < c || i % 16 < b % 16, a < c || i < b))
}

/// Bit 0 of a byte is set exactly when the byte is odd.
proof fn lemma_low_bit(v: u8)
    ensures
        ((v >> 0u8) & 1u8 == 1u8) == (v % 2 == 1),
{
    assert(((v >> 0u8) & 1u8 == 1u8) == (v % 2 == 1)) by (bit_vector);
}

/// Bit 7 of a byte is set exactly when the byte is at least 128.
proof fn lemma_high_bit(v: u8)
    ensures
        ((v >> 7u8) & 1u8 == 1u8) == (v >= 128),
{
    assert(((v >> 7u8) & 1u8 == 1u8) == (v >= 128)) by (bit_vector);
}

/// Sets the specified bit in `v`.
pub fn set(location: u8, v: u8) -> (r: u8)
    requires
        location < 8,
    ensures
        r == with_bit(v, location, true),
{
    v | (1 << location)
}

/// Resets to 0 the specified bit in `v`.
pub fn res(location: u8, v: u8) -> (r: u8)
    requires
        location < 8,
    ensures
        r == with_bit(v, location, false),
{
    v & !(1 << location)
}

/// Copies the complement of the specified bit of `v` to Z; N cleared, H set.
pub fn bit(cpu: &mut CPU, location: u8, v: u8)
    requires
        location < 8,
    ensures
        final(cpu)@ == old(cpu)@.set_znh(!bit_of(v, location as int), false, true),
{
    let out = bytes::check_bit(v, location);

    cpu.registers.set_flag(Flag::Z, !out);
    cpu.registers.set_flag(Flag::N, false);
    cpu.registers.set_flag(Flag::H, true);
}

/// Swaps the nibbles of `v`; Z from the result, N, H and C cleared.
pub fn swap(cpu: &mut CPU, v: u8) -> (out: u8)
    ensures
        (out, final(cpu)@) == swap_result(old(cpu)@, v),
{
    let high = v << 4;
    let low = v >> 4;

    let out = high | low;
    assert((v << 4u8) | (v >> 4u8) == (v % 16) * 16 + v / 16) by (bit_vector);

    cpu.registers.set_flag(Flag::Z, out == 0);
    cpu.registers.set_flag(Flag::N, false);
    cpu.registers.set_flag(Flag::H, false);
    cpu.registers.set_flag(Flag::C, false);

    out
}

/// Shifts v to the left: bit 7 goes to C and bit 0 is reset.
pub fn sla(cpu: &mut CPU, v: u8) -> (out: u8)
    ensures
        (out, final(cpu)@) == sla_result(old(cpu)@, v),
{
    let out = v << 1;
    assert(v << 1u8 == (v as int * 2) % 256) by (bit_vector);
    let c = bytes::check_bit(v, 7);
    proof {
        bytes::lemma_bit_of_shift(v, 7);
        lemma_high_bit(v);
    }

    cpu.registers.set_flag(Flag::Z, out == 0);
    cpu.registers.set_flag(Flag::N, false);
    cpu.registers.set_flag(Flag::H, false);
    cpu.registers.set_flag(Flag::C, c);

    out
}

/// Shifts v to the right: bit 0 goes to C and bit 7 is unchanged.
pub fn sra(cpu: &mut CPU, v: u8) -> (out: u8)
    ensures
        (out, final(cpu)@) == sra_result(old(cpu)@, v),
{
    let out = (v >> 1) | (v & 0b1000_0000);
    assert((v >> 1u8) | (v & 0x80u8) == v / 2 + if v >= 128 { 128u8 } else { 0u8 }) by (bit_vector);
    let c = bytes::check_bit(v, 0);
    proof {
        bytes::lemma_bit_of_shift(v, 0);
        lemma_low_bit(v);
    }

    cpu.registers.set_flag(Flag::Z, out == 0);
    cpu.registers.set_flag(Flag::N, false);
    cpu.registers.set_flag(Flag::H, false);
    cpu.registers.set_flag(Flag::C, c);

    out
}

/// Shifts v to the right: bit 0 goes to C and bit 7 is reset.
pub fn srl(cpu: &mut CPU, v: u8) -> (out: u8)
    ensures
        (out, final(cpu)@) == srl_result(old(cpu)@, v),
{
    let out = v >> 1;
    assert(v >> 1u8 == v / 2) by (bit_vector);
    let c = bytes::check_bit(v, 0);
    proof {
        bytes::lemma_bit_of_shift(v, 0);
        lemma_low_bit(v);
    }

    cpu.registers.set_flag(Flag::Z, out == 0);
    cpu.registers.set_flag(Flag::N, false);
    cpu.registers.set_flag(Flag::H, false);
    cpu.registers.set_flag(Flag::C, c);

    out
}

/// Rotates v right through C: C goes to bit 7, bit 0 goes to C.
pub fn rr(cpu: &mut CPU, v: u8) -> (out: u8)
    ensures
        (out, final(cpu)@) == rr_result(old(cpu)@, v),
{
    let c = cpu.registers.get_flag(Flag::C);

    let mut out = v >> 1;
    assert(v >> 1u8 == v / 2) by (bit_vector);

    if c {
        assert((v / 2) as u8 | 0x80u8 == v / 2 + 128) by (bit_vector)
            requires v / 2 < 128;
        out = out | 0x80;
    }
    let c0 = bytes::check_bit(v, 0);
    proof {
        bytes::lemma_bit_of_shift(v, 0);
        lemma_low_bit(v);
    }

    cpu.registers.set_flag(Flag::Z, out == 0);
    cpu.registers.set_flag(Flag::N, false);
    cpu.registers.set_flag(Flag::H, false);
    cpu.registers.set_flag(Flag::C, c0);

    out
}

/// Rotates v right: bit 0 goes to bit 7 and to C.
pub fn rrc(cpu: &mut CPU, v: u8) -> (out: u8)
    ensures
        (out, final(cpu)@) == rrc_result(old(cpu)@, v),
{
    let out = (v >> 1) | (v << 7);
    assert((v >> 1u8) | (v << 7u8) == v / 2 + (v % 2) * 128) by (bit_vector);
    let c = bytes::check_bit(v, 0);
    proof {
        bytes::lemma_bit_of_shift(v, 0);
        lemma_low_bit(v);
    }

    cpu.registers.set_flag(Flag::Z, out == 0);
    cpu.registers.set_flag(Flag::N, false);
    cpu.registers.set_flag(Flag::H, false);
    cpu.registers.set_flag(Flag::C, c);

    out
}

/// Rotates v left: bit 7 goes to bit 0 and to C.
pub fn rlc(cpu: &mut CPU, v: u8) -> (out: u8)
    ensures
        (out, final(cpu)@) == rlc_result(old(cpu)@, v),
{
    let out = (v << 1) | (v >> 7);
    assert((v << 1u8) | (v >> 7u8) == (v as int * 2) % 256 + v / 128) by (bit_vector);
    let c = bytes::check_bit(v, 7);
    proof {
        bytes::lemma_bit_of_shift(v, 7);
        lemma_high_bit(v);
    }

    cpu.registers.set_flag(Flag::Z, out == 0);
    cpu.registers.set_flag(Flag::N, false);
    cpu.registers.set_flag(Flag::H, false);
    cpu.registers.set_flag(Flag::C, c);

    out
}

/// Rotates v left through C: C goes to bit 0, bit 7 goes to C.
pub fn rl(cpu: &mut CPU, v: u8) -> (out: u8)
    ensures
        (out, final(cpu)@) == rl_result(old(cpu)@, v),
{
    let c = cpu.registers.get_flag(Flag::C);

    let mut out = v << 1;
    assert(v << 1u8 == (v as int * 2) % 256) by (bit_vector);

    if c {
        assert((v << 1u8) | 1u8 == (v as int * 2) % 256 + 1) by (bit_vector);
        out = out | 0x01
    }
    let c7 = bytes::check_bit(v, 7);
    proof {
        bytes::lemma_bit_of_shift(v, 7);
        lemma_high_bit(v);
    }

    cpu.registers.set_flag(Flag::Z, out == 0);
    cpu.registers.set_flag(Flag::N, false);
    cpu.registers.set_flag(Flag::H, false);
    cpu.registers.set_flag(Flag::C, c7);

    out
}

pub fn or(cpu: &mut CPU, a: u8, b: u8) -> (v: u8)
    ensures
        (v, final(cpu)@) == or_result(old(cpu)@, a, b),
{
    let v = a | b;

    cpu.registers.set_flag(Flag::Z, v == 0);
    cpu.registers.set_flag(Flag::N, false);
    cpu.registers.set_flag(Flag::H, false);
    cpu.registers.set_flag(Flag::C, false);

    v
}

pub fn xor(cpu: &mut CPU, a: u8, b: u8) -> (v: u8)
    ensures
        (v, final(cpu)@) == xor_result(old(cpu)@, a, b),
{
    let value = a ^ b;

    cpu.registers.set_flag(Flag::Z, value == 0);
    cpu.registers.set_flag(Flag::N, false);
    cpu.registers.set_flag(Flag::H, false);
    cpu.registers.set_flag(Flag::C, false);

    value
}

pub fn and(cpu: &mut CPU, a: u8, b: u8) -> (v: u8)
    ensures
        (v, final(cpu)@) == and_result(old(cpu)@, a, b),
{
    let value = a & b;

    cpu.registers.set_flag(Flag::Z, value == 0);
    cpu.registers.set_flag(Flag::N, false);
    cpu.registers.set_flag(Flag::H, true);
    cpu.registers.set_flag(Flag::C, false);

    value
}

/// PC moved by the signed byte `n`, wrapping around.
pub open spec fn relative_target(pc: u16, n: u8) -> u16 {
    ((pc as int + signed_byte(n)) % 0x10000) as u16
}

/// Jumps relative to PC by the signed byte `n`.
pub fn jr(cpu: &mut CPU, n: u8)
    requires
        n != 0x80,
    ensures
        final(cpu)@ == old(cpu)@.set16(Registers16::PC, relative_target(old(cpu)@.pc(), n)),
{
    let pc = cpu.registers.get16(Registers16::PC);
    let (out, _overflow, _hc) = bytes::add_unsigned_signed(pc, n);
    cpu.registers.set16(Registers16::PC, out);
}

/// Adds two bytes: Z from the sum, N cleared, H from the low nibbles, C from the carry out.
pub fn add(cpu: &mut CPU, a: u8, b: u8) -> (v: u8)
    ensures
        (v, final(cpu)@) == add_result(old(cpu)@, a, b),
{
    let v = a.wrapping_add(b);
    let overflow = a as u16 + b as u16 > 0xFF;

    cpu.registers.set_flag(Flag::Z, v == 0);
    cpu.registers.set_flag(Flag::N, false);
    cpu.registers.set_flag(Flag::H, bytes::check_half_carry8(a, b));
    cpu.registers.set_flag(Flag::C, overflow);

    v
}

/// Adds a signed byte to a word: Z and N cleared, H and C as `add_unsigned_signed` gives them.
pub fn add_u16_i8(cpu: &mut CPU, a: u16, b: u8) -> (v: u16)
    requires
        b != 0x80,
    ensures
        (v, final(cpu)@) == add_u16_i8_result(old(cpu)@, a, b),
{
    let (v, overflow, hc) = bytes::add_unsigned_signed(a, b);

    cpu.registers.set_flag(Flag::Z, false);
    cpu.registers.set_flag(Flag::N, false);
    cpu.registers.set_flag(Flag::H, hc);
    cpu.registers.set_flag(Flag::C, overflow);

    v
}

/// Adds two bytes and the carry: the carry is added to `b` first, and C and H are set when
/// either addition carries.
pub fn adc(cpu: &mut CPU, a: u8, b: u8) -> (v: u8)
    ensures
        (v, final(cpu)@) == adc_result(old(cpu)@, a, b),
{
    let c: u8 = if cpu.registers.get_flag(Flag::C) { 1 } else { 0 };

    let i = b.wrapping_add(c);
    let overflow1 = b as u16 + c as u16 > 0xFF;
    let hc1 = bytes::check_half_carry8(b, c);

    let v = a.wrapping_add(i);
    let overflow = a as u16 + i as u16 > 0xFF;
    let hc = bytes::check_half_carry8(a, i);

    cpu.registers.set_flag(Flag::Z, v == 0);
    cpu.registers.set_flag(Flag::N, false);
    cpu.registers.set_flag(Flag::H, hc1 || hc);
    cpu.registers.set_flag(Flag::C, overflow1 || overflow);

    v
}

/// Subtracts two bytes: Z from the difference, N set, H from the low nibbles, C on a borrow.
pub fn sub(cpu: &mut CPU, a: u8, b: u8) -> (v: u8)
    ensures
        (v, final(cpu)@) == sub_result(old(cpu)@, a, b),
{
    let v = a.wrapping_sub(b);
    let overflow = a < b;

    cpu.registers.set_flag(Flag::Z, v == 0);
    cpu.registers.set_flag(Flag::N, true);
    cpu.registers.set_flag(Flag::H, bytes::check_half_carry_sub8(a, b));
    cpu.registers.set_flag(Flag::C, overflow);

    v
}

/// Subtracts a byte and the carry: the carry is taken from `a` first, and C and H are set
/// when either subtraction borrows.
pub fn sbc(cpu: &mut CPU, a: u8, b: u8) -> (v: u8)
    ensures
        (v, final(cpu)@) == sbc_result(old(cpu)@, a, b),
{
    let c: u8 = if cpu.registers.get_flag(Flag::C) { 1 } else { 0 };

    let i = a.wrapping_sub(c);
    let overflow1 = a < c;
    let hc1 = bytes::check_half_carry_sub8(a, c);

    let v = i.wrapping_sub(b);
    let overflow = i < b;
    let hc = bytes::check_half_carry_sub8(i, b);

    cpu.registers.set_flag(Flag::Z, v == 0);
    cpu.registers.set_flag(Flag::N, true);
    cpu.registers.set_flag(Flag::H, hc1 || hc);
    cpu.registers.set_flag(Flag::C, overflow1 || overflow);

    v
}

pub fn jump(cpu: &mut CPU, n: u16)
    ensures
        final(cpu)@ == old(cpu)@.set16(Registers16::PC, n),
{
    cpu.registers.set16(Registers16::PC, n);
}

/// The stack can be popped: SP leaves room for two bytes and both can be read.
pub open spec fn can_pop(s: CpuView) -> bool {
    let sp = s.r16(Registers16::SP);
    &&& sp <= 0xFFFD
    &&& s.mmu.readable(sp)
    &&& s.mmu.readable((sp + 1) as u16)
}

/// The processor after the word on top of the stack was popped into `r` (AF keeps F's low
/// nibble clear) and SP moved up by two.
pub open spec fn popped(s: CpuView, r: Registers16) -> CpuView {
    let sp = s.r16(Registers16::SP);
    let v = s.mmu.read16(sp);
    let v = if r == Registers16::AF { (v / 16 * 16) as u16 } else { v };
    s.set16(r, v).set16(Registers16::SP, (sp + 2) as u16)
}

pub fn ret(cpu: &mut CPU)
    requires
        can_pop(old(cpu)@),
    ensures
        final(cpu)@ == popped(old(cpu)@, Registers16::PC),
{
    pop(cpu, Registers16::PC);
}

pub fn pop(cpu: &mut CPU, r: Registers16)
    requires
        can_pop(old(cpu)@),
    ensures
        final(cpu)@ == popped(old(cpu)@, r),
{
    let sp = cpu.registers.get16(Registers16::SP);
    let v = cpu.mmu.get16(sp);

    if r == Registers16::AF {
        // Protect writing to F invalid values
        assert(v & 0xFFF0 == v / 16 * 16) by (bit_vector);
        cpu.registers.set16(r, v & 0xFFF0);
    } else {
        cpu.registers.set16(r, v);
    }

    cpu.registers.set16(Registers16::SP, sp + 2);
}

pub struct Call {
    pub function: u16,
    pub from: u16,
}

/// The stack can take a word: the two bytes below SP can be written.
pub open spec fn can_push(s: CpuView) -> bool {
    let sp = s.r16(Registers16::SP);
    let sp1 = ((sp as int + 0xFFFF) % 0x10000) as u16;
    let sp2 = ((sp as int + 0xFFFE) % 0x10000) as u16;
    &&& s.mmu.writable(sp1)
    &&& s.mmu.writable(sp2)
}

/// The processor after `r` was pushed: the high byte below SP, the low byte below that, and
/// SP moved down by two (wrapping around).
pub open spec fn pushed(s: CpuView, r: Registers16) -> CpuView {
    let sp = s.r16(Registers16::SP);
    let v = s.r16(r);
    let sp1 = ((sp as int + 0xFFFF) % 0x10000) as u16;
    let sp2 = ((sp as int + 0xFFFE) % 0x10000) as u16;
    s.write(sp1, (v / 256) as u8).write(sp2, (v % 256) as u8).set16(Registers16::SP, sp2)
}

/// Pushes PC and jumps to `n`.
pub fn call(cpu: &mut CPU, n: u16)
    requires
        can_push(old(cpu)@),
    ensures
        final(cpu)@ == pushed(old(cpu)@, Registers16::PC).set16(Registers16::PC, n),
{
    push(cpu, Registers16::PC);
    jump(cpu, n);
}

pub fn push(cpu: &mut CPU, r: Registers16)
    requires
        can_push(old(cpu)@),
    ensures
        final(cpu)@ == pushed(old(cpu)@, r),
{
    let sp = cpu.registers.get16(Registers16::SP);

    let v = cpu.registers.get16(r);
    let (ms, ls) = bytes::split_ms_ls(v);

    let sp1 = sp.wrapping_sub(1);
    let sp2 = sp1.wrapping_sub(1);
    assert(sp1 == ((sp as int + 0xFFFF) % 0x10000) as u16);
    assert(sp2 == ((sp as int + 0xFFFE) % 0x10000) as u16);
    proof {
        crate::mmu::lemma_written_keeps_access(cpu.mmu@, sp1, ms, sp2);
    }
    let ghost s0 = cpu@;
    cpu.mmu.set(sp1, ms);
    assert(cpu@ == s0.write(sp1, ms));
    cpu.mmu.set(sp2, ls);

    cpu.registers.set16(Registers16::SP, sp2);
}

}
