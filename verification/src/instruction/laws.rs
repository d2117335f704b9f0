use vstd::prelude::*;
use crate::cpu::CpuView;
use crate::register::{Registers8, Flag};
use crate::register::Registers16;
use crate::mmu::{plain_memory, lemma_read_after_write, lemma_write_plain_frame, lemma_written_keeps_access};
use crate::instruction::{daa_adjusted, daa_effect, alu_effect, call_n16_effect, ret_effect, AluOp, Src8};
use crate::instruction::{
    effect, Op, MoveOp, ImmOp, ArithOp, FlowOp, CtrlOp, ShiftOp, BitOp, Target8, JumpFlag,
    flow_effect, move_effect, ctrl_effect, jr_f_n8_effect, jr_n8_effect, jp_f_n16_effect, jp_n16_effect,
    call_f_n16_effect, ret_f_effect, ldi_ar16_r8_effect, ldd_ar16_r8_effect, ldi_r8_ar16_effect,
    ldd_r8_ar16_effect, ccf_effect, scf_effect, rst_f_effect,
};
use crate::instruction::opcode::{decode, decode_low};
use crate::cpu::{interrupt_taken, group_fetch};
use crate::device::interrupt::InterruptFlag;
use crate::bytes::{bit_of, byte_of_bits, lemma_bits_of_byte};
use crate::register::IME;
use vstd::std_specs::convert::FromSpec;
use crate::instruction::helper::{add_result, sub_result, can_push, pushed, can_pop, popped};

verus! {

proof fn lemma_wrapping_add(x: u8, y: u8)
    ensures
        x.wrapping_add(y) == ((x as int + y as int) % 256) as u8,
{
}

/// A byte holds a binary coded decimal number: each nibble is a decimal digit.
pub open spec fn is_bcd(b: u8) -> bool {
    b / 16 <= 9 && b % 16 <= 9
}

/// The number a binary coded decimal byte holds.
pub open spec fn decimal(b: u8) -> int {
    (b / 16) * 10 + b % 16
}

/// The binary coded decimal byte of a number below 100.
pub open spec fn bcd(n: int) -> u8 {
    ((n / 10) * 16 + n % 10) as u8
}

/// The byte DAA leaves in A after an addition of `a` and `b`, and the carry it leaves.
pub open spec fn daa_after_add(a: u8, b: u8) -> (u8, bool) {
    let v = ((a as int + b as int) % 256) as u8;
    let half = a % 16 + b % 16 > 15;
    let high = a as int + b as int > 255 || v > 0x99;
    let v1 = if high { ((v as int + 0x60) % 256) as u8 } else { v };
    let v2 = if half || v1 % 16 > 9 { ((v1 as int + 0x06) % 256) as u8 } else { v1 };
    (v2, high)
}

proof fn lemma_daa_after_add_arith(a: u8, b: u8)
    requires
        is_bcd(a),
        is_bcd(b),
    ensures
        daa_after_add(a, b).0 == bcd((decimal(a) + decimal(b)) % 100),
        daa_after_add(a, b).1 == (decimal(a) + decimal(b) >= 100),
{
    assert(daa_after_add(a, b).0 == bcd((decimal(a) + decimal(b)) % 100)
        && daa_after_add(a, b).1 == (decimal(a) + decimal(b) >= 100)) by (bit_vector)
        requires
            a / 16 <= 9 && a % 16 <= 9,
            b / 16 <= 9 && b % 16 <= 9,
    ;
}

proof fn lemma_add_flags(s: CpuView, a: u8, b: u8)
    ensures
        ({
            let (v, s1) = add_result(s, a, b);
            let t = s1.set8(Registers8::A, v);
            &&& t.r8(Registers8::A) == ((a as int + b as int) % 256) as u8
            &&& !t.flag(Flag::N)
            &&& t.flag(Flag::H) == (a % 16 + b % 16 > 15)
            &&& t.flag(Flag::C) == (a as int + b as int > 255)
        }),
{
    let v = ((a as int + b as int) % 256) as u8;
    let rs = s.registers;
    let r1 = rs.set_flag(Flag::Z, v == 0);
    let r2 = r1.set_flag(Flag::N, false);
    let h = (a % 16) + (b % 16) > 15;
    let r3 = r2.set_flag(Flag::H, h);
    let c = a as int + b as int > 255;
    crate::register::lemma_flag_round_trip(r2, Flag::H, h, Flag::N);
    crate::register::lemma_flag_round_trip(r3, Flag::C, c, Flag::N);
    crate::register::lemma_flag_round_trip(r1, Flag::N, false, Flag::N);
    crate::register::lemma_flag_round_trip(r3, Flag::C, c, Flag::H);
    crate::register::lemma_flag_round_trip(r2, Flag::H, h, Flag::H);
    crate::register::lemma_flag_round_trip(r3, Flag::C, c, Flag::C);
}

proof fn lemma_daa_on_sum(t: CpuView, a: u8, b: u8)
    requires
        t.r8(Registers8::A) == ((a as int + b as int) % 256) as u8,
        !t.flag(Flag::N),
        t.flag(Flag::H) == (a % 16 + b % 16 > 15),
        t.flag(Flag::C) == (a as int + b as int > 255),
    ensures
        daa_adjusted(t).r8(Registers8::A) == daa_after_add(a, b).0,
        daa_adjusted(t).flag(Flag::C) == daa_after_add(a, b).1,
{
    let (w, high) = daa_after_add(a, b);
    let v = t.r8(Registers8::A);
    assert(high == (t.flag(Flag::C) || v > 0x99));
    lemma_wrapping_add(v, 0x60);
    let v1: u8 = if high { v.wrapping_add(0x60) } else { v };
    lemma_wrapping_add(v1, 0x06);
    let v2: u8 = if t.flag(Flag::H) || v1 % 16 > 9 { v1.wrapping_add(0x06) } else { v1 };
    assert(v2 == w);
    let u = if high { t.set_flag(Flag::C, true) } else { t };
    crate::register::lemma_flag_round_trip(t.registers, Flag::C, true, Flag::C);
    assert(u.flag(Flag::C) == high);
    let u1 = u.set8(Registers8::A, w);
    assert(u1.flag(Flag::C) == high);
    let u2 = u1.set_flag(Flag::Z, w == 0);
    crate::register::lemma_flag_round_trip(u1.registers, Flag::Z, w == 0, Flag::C);
    let u3 = u2.set_flag(Flag::H, false);
    crate::register::lemma_flag_round_trip(u2.registers, Flag::H, false, Flag::C);
    assert(u3.flag(Flag::C) == high);
    assert(u3.r8(Registers8::A) == w);
    assert(daa_adjusted(t) == u3);
}

/// ADD and then DAA add decimal numbers: when A and the register hold binary coded decimal
/// numbers, A ends up holding their sum modulo 100 in binary coded decimal, and C tells
/// whether the sum reached 100.
pub proof fn lemma_daa_after_add(s: CpuView, r: Registers8)
    requires
        is_bcd(s.r8(Registers8::A)),
        is_bcd(s.r8(r)),
    ensures
        ({
            let s2 = daa_effect(alu_effect(AluOp::Add, Registers8::A, Src8::Reg(r), s).0).0;
            let sum = decimal(s.r8(Registers8::A)) + decimal(s.r8(r));
            &&& s2.r8(Registers8::A) == bcd(sum % 100)
            &&& s2.flag(Flag::C) == (sum >= 100)
        }),
{
    reveal(alu_effect);
    reveal(daa_effect);
    let a = s.r8(Registers8::A);
    let b = s.r8(r);
    lemma_daa_after_add_arith(a, b);
    lemma_add_flags(s, a, b);
    let (v, s1) = add_result(s, a, b);
    lemma_daa_on_sum(s1.set8(Registers8::A, v), a, b);
}

/// The stack can hold a word below SP in plain memory (work RAM, high RAM or cartridge RAM).
pub open spec fn stack_in_memory(s: CpuView) -> bool {
    let sp = s.r16(Registers16::SP);
    &&& sp >= 2
    &&& plain_memory((sp - 1) as u16)
    &&& plain_memory((sp - 2) as u16)
}

proof fn lemma_pushed_reads(s: CpuView, r: Registers16)
    requires
        stack_in_memory(s),
    ensures
        can_push(s),
        ({
            let p = pushed(s, r);
            let sp = s.r16(Registers16::SP);
            let v = s.r16(r);
            &&& p.r16(Registers16::SP) == (sp - 2) as u16
            &&& p.mmu.readable((sp - 2) as u16)
            &&& p.mmu.readable((sp - 1) as u16)
            &&& p.mmu.read16((sp - 2) as u16) == v
            &&& can_pop(p)
        }),
{
    let sp = s.r16(Registers16::SP);
    let sp1 = (sp - 1) as u16;
    let sp2 = (sp - 2) as u16;
    let v = s.r16(r);
    let hi = (v / 256) as u8;
    let lo = (v % 256) as u8;
    assert(((sp as int + 0xFFFF) % 0x10000) as u16 == sp1);
    assert(((sp as int + 0xFFFE) % 0x10000) as u16 == sp2);
    let m0 = s.mmu;
    let m1 = m0.written(sp1, hi);
    let m2 = m1.written(sp2, lo);
    lemma_read_after_write(m0, sp1, hi);
    lemma_written_keeps_access(m0, sp1, hi, sp2);
    lemma_read_after_write(m1, sp2, lo);
    lemma_write_plain_frame(m1, sp2, lo, sp1);
    assert(m2.read(sp1) == hi);
    assert(m2.read(sp2) == lo);
    assert(((sp2 + 1) as u16) == sp1);
    crate::register::lemma_register_round_trip(s.registers, Registers8::A, 0, Registers16::SP, sp2);
}

/// What PUSH writes, POP reads back: pushing `r` and popping into `q` leaves in `q` the value
/// `r` held (with the low nibble of F cleared when `q` is AF) and SP where it was, when the
/// stack lies in plain memory.
pub proof fn lemma_push_pop(s: CpuView, r: Registers16, q: Registers16)
    requires
        stack_in_memory(s),
        q != Registers16::SP,
    ensures
        can_push(s),
        can_pop(pushed(s, r)),
        popped(pushed(s, r), q).r16(q) == if q == Registers16::AF { (s.r16(r) / 16 * 16) as u16 } else { s.r16(r) },
        popped(pushed(s, r), q).r16(Registers16::SP) == s.r16(Registers16::SP),
{
    lemma_pushed_reads(s, r);
    let p = pushed(s, r);
    let sp2 = p.r16(Registers16::SP);
    let v = p.mmu.read16(sp2);
    assert(v == s.r16(r));
    let w = if q == Registers16::AF { (v / 16 * 16) as u16 } else { v };
    lemma_masked_word(v);
    lemma_set_then_sp(p.registers, q, w, (sp2 + 2) as u16);
}

/// Clearing the low nibble twice clears it once.
proof fn lemma_masked_word(v: u16)
    ensures
        (((v / 16 * 16) as u16) / 16 * 16) as u16 == (v / 16 * 16) as u16,
{
    assert((v / 16 * 16) / 16 == v / 16) by (nonlinear_arith);
}

/// A register written and then SP written: the register reads what `set16` gives it and SP
/// reads its new value.
proof fn lemma_set_then_sp(rs: crate::register::RegistersView, q: Registers16, w: u16, sp: u16)
    requires
        q != Registers16::SP,
    ensures
        rs.set16(q, w).set16(Registers16::SP, sp).get16(q)
            == if q == Registers16::AF { (w / 16 * 16) as u16 } else { w },
        rs.set16(q, w).set16(Registers16::SP, sp).get16(Registers16::SP) == sp,
{
    crate::register::lemma_register_round_trip(rs, Registers8::A, 0, q, w);
}

/// RET after CALL comes back: the processor that called from PC, once it returns, is at that
/// PC again with SP where it was, when the stack lies in plain memory.
pub proof fn lemma_call_ret(s: CpuView, n: u16)
    requires
        stack_in_memory(s),
    ensures
        can_push(s),
        can_pop(pushed(s, Registers16::PC).set16(Registers16::PC, n)),
        popped(pushed(s, Registers16::PC).set16(Registers16::PC, n), Registers16::PC).pc() == s.pc(),
        popped(pushed(s, Registers16::PC).set16(Registers16::PC, n), Registers16::PC).r16(Registers16::SP)
            == s.r16(Registers16::SP),
{
    lemma_pushed_reads(s, Registers16::PC);
    let p = pushed(s, Registers16::PC);
    let c = p.set16(Registers16::PC, n);
    assert(c.mmu == p.mmu);
    assert(c.r16(Registers16::SP) == p.r16(Registers16::SP));
}

/// RET after the instruction CALL returns to the instruction that follows the call: to the
/// address after the call's operand.
pub proof fn lemma_call_n16_ret(s: CpuView)
    requires
        s.can_fetch16(),
        stack_in_memory(s),
    ensures
        ret_effect(call_n16_effect(s).0).0.pc() == s.fetch16().1.pc(),
        ret_effect(call_n16_effect(s).0).0.r16(Registers16::SP) == s.r16(Registers16::SP),
{
    reveal(call_n16_effect);
    reveal(ret_effect);
    crate::cpu::lemma_fetch16_keeps(s);
    let (n, s1) = s.fetch16();
    assert(s1.r16(Registers16::SP) == s.r16(Registers16::SP));
    assert(stack_in_memory(s1));
    lemma_call_ret(s1, n);
}

/// The byte DAA leaves in A after a subtraction of `b` from `a`.
pub open spec fn daa_after_sub(a: u8, b: u8) -> u8 {
    let v = ((a as int - b as int + 256) % 256) as u8;
    let v1 = if a < b { ((v as int + 0xA0) % 256) as u8 } else { v };
    if a % 16 < b % 16 { ((v1 as int + 0xFA) % 256) as u8 } else { v1 }
}

proof fn lemma_daa_after_sub_arith(a: u8, b: u8)
    requires
        is_bcd(a),
        is_bcd(b),
    ensures
        daa_after_sub(a, b) == bcd((decimal(a) - decimal(b) + 100) % 100),
        (a < b) == (decimal(a) < decimal(b)),
{
    assert(daa_after_sub(a, b) == bcd((decimal(a) - decimal(b) + 100) % 100)
        && (a < b) == (decimal(a) < decimal(b))) by (bit_vector)
        requires
            a / 16 <= 9 && a % 16 <= 9,
            b / 16 <= 9 && b % 16 <= 9,
    ;
}

proof fn lemma_sub_flags(s: CpuView, a: u8, b: u8)
    ensures
        ({
            let (v, s1) = sub_result(s, a, b);
            let t = s1.set8(Registers8::A, v);
            &&& t.r8(Registers8::A) == ((a as int - b as int + 256) % 256) as u8
            &&& t.flag(Flag::N)
            &&& t.flag(Flag::H) == (a % 16 < b % 16)
            &&& t.flag(Flag::C) == (a < b)
        }),
{
    let v = ((a as int - b as int + 256) % 256) as u8;
    let rs = s.registers;
    let r1 = rs.set_flag(Flag::Z, v == 0);
    let r2 = r1.set_flag(Flag::N, true);
    let h = a % 16 < b % 16;
    let r3 = r2.set_flag(Flag::H, h);
    let c = a < b;
    crate::register::lemma_flag_round_trip(r2, Flag::H, h, Flag::N);
    crate::register::lemma_flag_round_trip(r3, Flag::C, c, Flag::N);
    crate::register::lemma_flag_round_trip(r1, Flag::N, true, Flag::N);
    crate::register::lemma_flag_round_trip(r3, Flag::C, c, Flag::H);
    crate::register::lemma_flag_round_trip(r2, Flag::H, h, Flag::H);
    crate::register::lemma_flag_round_trip(r3, Flag::C, c, Flag::C);
}

proof fn lemma_daa_on_difference(t: CpuView, a: u8, b: u8)
    requires
        t.r8(Registers8::A) == ((a as int - b as int + 256) % 256) as u8,
        t.flag(Flag::N),
        t.flag(Flag::H) == (a % 16 < b % 16),
        t.flag(Flag::C) == (a < b),
    ensures
        daa_adjusted(t).r8(Registers8::A) == daa_after_sub(a, b),
        daa_adjusted(t).flag(Flag::C) == (a < b),
{
    let v = t.r8(Registers8::A);
    lemma_wrapping_sub(v, 0x60);
    let v1: u8 = if t.flag(Flag::C) { v.wrapping_sub(0x60) } else { v };
    lemma_wrapping_sub(v1, 0x06);
    let v2: u8 = if t.flag(Flag::H) { v1.wrapping_sub(0x06) } else { v1 };
    assert(v2 == daa_after_sub(a, b));
    let u1 = t.set8(Registers8::A, v2);
    let u2 = u1.set_flag(Flag::Z, v2 == 0);
    crate::register::lemma_flag_round_trip(u1.registers, Flag::Z, v2 == 0, Flag::C);
    let u3 = u2.set_flag(Flag::H, false);
    crate::register::lemma_flag_round_trip(u2.registers, Flag::H, false, Flag::C);
    assert(daa_adjusted(t) == u3);
}

proof fn lemma_wrapping_sub(x: u8, y: u8)
    ensures
        x.wrapping_sub(y) == ((x as int + 256 - y as int) % 256) as u8,
{
}

/// SUB and then DAA subtract decimal numbers: when A and the register hold binary coded
/// decimal numbers, A ends up holding their difference modulo 100 in binary coded decimal,
/// and C tells whether the subtraction borrowed.
pub proof fn lemma_daa_after_sub(s: CpuView, r: Registers8)
    requires
        is_bcd(s.r8(Registers8::A)),
        is_bcd(s.r8(r)),
    ensures
        ({
            let s2 = daa_effect(alu_effect(AluOp::Sub, Registers8::A, Src8::Reg(r), s).0).0;
            let a = decimal(s.r8(Registers8::A));
            let b = decimal(s.r8(r));
            &&& s2.r8(Registers8::A) == bcd((a - b + 100) % 100)
            &&& s2.flag(Flag::C) == (a < b)
        }),
{
    reveal(alu_effect);
    reveal(daa_effect);
    let a = s.r8(Registers8::A);
    let b = s.r8(r);
    lemma_daa_after_sub_arith(a, b);
    lemma_sub_flags(s, a, b);
    let (v, s1) = sub_result(s, a, b);
    lemma_daa_on_difference(s1.set8(Registers8::A, v), a, b);
}


/// The opcode table follows the SM83 numbering of the 3-bit register fields: 0 B, 1 C, 2 D,
/// 3 E, 4 H, 5 L, 7 A (6 is the memory at HL). Register loads (0x40 to 0x7F), arithmetic on A
/// (0x80 to 0xBF), increments, decrements and immediate loads (0x04, 0x05, 0x06 plus 8 times
/// the field), and the prefixed shifts and bit operations (0x100 plus the second byte) name
/// the registers of their fields in that order; the arithmetic, shift and bit fields follow
/// the SM83 order too.
pub proof fn lemma_register_fields(op: u16, k: u16)
    ensures
        ({
            let regs = seq![Registers8::B, Registers8::C, Registers8::D, Registers8::E,
                Registers8::H, Registers8::L, Registers8::A, Registers8::A];
            let alus = seq![AluOp::Add, AluOp::Adc, AluOp::Sub, AluOp::Sbc, AluOp::And, AluOp::Xor,
                AluOp::Or, AluOp::Cp];
            let shifts = seq![ShiftOp::Rlc, ShiftOp::Rrc, ShiftOp::Rl, ShiftOp::Rr, ShiftOp::Sla,
                ShiftOp::Sra, ShiftOp::Swap, ShiftOp::Srl];
            let dst = ((op / 8) % 8) as int;
            let src = (op % 8) as int;
            &&& (0x40 <= op < 0x80 && dst != 6 && src != 6 ==>
                decode(op) == Op::Move(MoveOp::LdR8R8(regs[dst], regs[src])))
            &&& (0x80 <= op < 0xC0 && src != 6 ==>
                decode(op) == Op::Alu(alus[dst], Registers8::A, Src8::Reg(regs[src])))
            &&& (0x100 <= op < 0x140 && src != 6 ==>
                decode(op) == Op::Shift(shifts[dst], Target8::Reg(regs[src])))
            &&& (0x140 <= op < 0x180 && src != 6 ==>
                decode(op) == Op::Bit(BitOp::Test, dst as u8, Target8::Reg(regs[src])))
            &&& (0x180 <= op < 0x1C0 && src != 6 ==>
                decode(op) == Op::Bit(BitOp::Reset, dst as u8, Target8::Reg(regs[src])))
            &&& (0x1C0 <= op < 0x200 && src != 6 ==>
                decode(op) == Op::Bit(BitOp::Raise, dst as u8, Target8::Reg(regs[src])))
            &&& (k < 8 && k != 6 ==> {
                &&& decode((0x04 + 8 * k) as u16) == Op::Arith(ArithOp::IncR8(regs[k as int]))
                &&& decode((0x05 + 8 * k) as u16) == Op::Arith(ArithOp::DecR8(regs[k as int]))
                &&& decode((0x06 + 8 * k) as u16) == Op::Imm(ImmOp::LdR8N8(regs[k as int]))
            })
        }),
{
    let dst = (op / 8) % 8;
    let src = op % 8;
    assert(dst < 8 && src < 8);
    assert(dst == 0 || dst == 1 || dst == 2 || dst == 3 || dst == 4 || dst == 5 || dst == 6 || dst == 7);
    assert(src == 0 || src == 1 || src == 2 || src == 3 || src == 4 || src == 5 || src == 6 || src == 7);
    if k < 8 && k != 6 {
        assert(k == 0 || k == 1 || k == 2 || k == 3 || k == 4 || k == 5 || k == 7);
        assert(decode((0x04 + 8 * k) as u16) == decode_low((0x04 + 8 * k) as u16));
        assert(decode((0x05 + 8 * k) as u16) == decode_low((0x05 + 8 * k) as u16));
        assert(decode((0x06 + 8 * k) as u16) == decode_low((0x06 + 8 * k) as u16));
    }
}

/// Conditional relative jumps: NZ is taken exactly when Z is clear, Z when it is set, NC
/// exactly when C is clear and C when it is set. Taken, the jump does what JR does; not taken,
/// it only steps over its offset.
pub proof fn lemma_conditional_jr(s: CpuView)
    ensures
        effect(Op::Flow(FlowOp::JrFN8(JumpFlag::NZ)), s).0
            == if !s.flag(Flag::Z) { effect(Op::Flow(FlowOp::JrN8), s).0 } else { s.fetch8().1 },
        effect(Op::Flow(FlowOp::JrFN8(JumpFlag::Z)), s).0
            == if s.flag(Flag::Z) { effect(Op::Flow(FlowOp::JrN8), s).0 } else { s.fetch8().1 },
        effect(Op::Flow(FlowOp::JrFN8(JumpFlag::NC)), s).0
            == if !s.flag(Flag::C) { effect(Op::Flow(FlowOp::JrN8), s).0 } else { s.fetch8().1 },
        effect(Op::Flow(FlowOp::JrFN8(JumpFlag::C)), s).0
            == if s.flag(Flag::C) { effect(Op::Flow(FlowOp::JrN8), s).0 } else { s.fetch8().1 },
{
    broadcast use group_fetch;
    reveal(flow_effect);
    reveal(jr_f_n8_effect);
    reveal(jr_n8_effect);
    assert(s.fetch8().1.flag(Flag::Z) == s.flag(Flag::Z));
    assert(s.fetch8().1.flag(Flag::C) == s.flag(Flag::C));
}

/// Conditional absolute jumps, calls and returns take their condition as the relative jumps
/// do: taken, they do what JP, CALL and RET do; not taken, JP and CALL only step over their
/// address and RET changes nothing.
pub proof fn lemma_conditional_jp_call_ret(s: CpuView)
    ensures
        effect(Op::Flow(FlowOp::JpFN16(JumpFlag::NZ)), s).0
            == if !s.flag(Flag::Z) { effect(Op::Flow(FlowOp::JpN16), s).0 } else { s.fetch16().1 },
        effect(Op::Flow(FlowOp::JpFN16(JumpFlag::Z)), s).0
            == if s.flag(Flag::Z) { effect(Op::Flow(FlowOp::JpN16), s).0 } else { s.fetch16().1 },
        effect(Op::Flow(FlowOp::JpFN16(JumpFlag::NC)), s).0
            == if !s.flag(Flag::C) { effect(Op::Flow(FlowOp::JpN16), s).0 } else { s.fetch16().1 },
        effect(Op::Flow(FlowOp::JpFN16(JumpFlag::C)), s).0
            == if s.flag(Flag::C) { effect(Op::Flow(FlowOp::JpN16), s).0 } else { s.fetch16().1 },
        effect(Op::Flow(FlowOp::CallFN16(JumpFlag::NZ)), s).0
            == if !s.flag(Flag::Z) { effect(Op::Flow(FlowOp::CallN16), s).0 } else { s.fetch16().1 },
        effect(Op::Flow(FlowOp::CallFN16(JumpFlag::Z)), s).0
            == if s.flag(Flag::Z) { effect(Op::Flow(FlowOp::CallN16), s).0 } else { s.fetch16().1 },
        effect(Op::Flow(FlowOp::CallFN16(JumpFlag::NC)), s).0
            == if !s.flag(Flag::C) { effect(Op::Flow(FlowOp::CallN16), s).0 } else { s.fetch16().1 },
        effect(Op::Flow(FlowOp::CallFN16(JumpFlag::C)), s).0
            == if s.flag(Flag::C) { effect(Op::Flow(FlowOp::CallN16), s).0 } else { s.fetch16().1 },
        effect(Op::Flow(FlowOp::RetF(JumpFlag::NZ)), s).0
            == if !s.flag(Flag::Z) { effect(Op::Flow(FlowOp::Ret), s).0 } else { s },
        effect(Op::Flow(FlowOp::RetF(JumpFlag::Z)), s).0
            == if s.flag(Flag::Z) { effect(Op::Flow(FlowOp::Ret), s).0 } else { s },
        effect(Op::Flow(FlowOp::RetF(JumpFlag::NC)), s).0
            == if !s.flag(Flag::C) { effect(Op::Flow(FlowOp::Ret), s).0 } else { s },
        effect(Op::Flow(FlowOp::RetF(JumpFlag::C)), s).0
            == if s.flag(Flag::C) { effect(Op::Flow(FlowOp::Ret), s).0 } else { s },
{
    broadcast use group_fetch;
    reveal(flow_effect);
    reveal(jp_f_n16_effect);
    reveal(jp_n16_effect);
    reveal(call_f_n16_effect);
    reveal(call_n16_effect);
    reveal(ret_f_effect);
    reveal(ret_effect);
    assert(s.fetch16().1.flag(Flag::Z) == s.flag(Flag::Z));
    assert(s.fetch16().1.flag(Flag::C) == s.flag(Flag::C));
}

/// LDI and LDD storing through HL: the register is written at the address HL held, then LDI
/// leaves HL one higher and LDD one lower, wrapping around (so the two never agree).
pub proof fn lemma_ldi_ldd_store(s: CpuView, r: Registers8)
    ensures
        effect(Op::Move(MoveOp::LdiAr16R8(Registers16::HL, r)), s).0.r16(Registers16::HL)
            == ((s.r16(Registers16::HL) as int + 1) % 0x10000) as u16,
        effect(Op::Move(MoveOp::LddAr16R8(Registers16::HL, r)), s).0.r16(Registers16::HL)
            == ((s.r16(Registers16::HL) as int + 0xFFFF) % 0x10000) as u16,
        effect(Op::Move(MoveOp::LdiAr16R8(Registers16::HL, r)), s).0.mmu
            == s.write(s.r16(Registers16::HL), s.r8(r)).mmu,
        effect(Op::Move(MoveOp::LddAr16R8(Registers16::HL, r)), s).0.mmu
            == s.write(s.r16(Registers16::HL), s.r8(r)).mmu,
        ((s.r16(Registers16::HL) as int + 1) % 0x10000) != ((s.r16(Registers16::HL) as int + 0xFFFF) % 0x10000),
{
    reveal(move_effect);
    reveal(ldi_ar16_r8_effect);
    reveal(ldd_ar16_r8_effect);
    let a = s.r16(Registers16::HL);
    let w = s.write(a, s.r8(r));
    let up = ((a as int + 1) % 0x10000) as u16;
    let down = ((a as int + 0xFFFF) % 0x10000) as u16;
    crate::register::lemma_register_round_trip(w.registers, r, 0, Registers16::HL, up);
    crate::register::lemma_register_round_trip(w.registers, r, 0, Registers16::HL, down);
}

/// LDI and LDD loading through HL: the register takes the byte at the address HL held (for a
/// register other than F, H and L, which the load's own HL update or F's mask would change),
/// memory is left alone, then LDI leaves HL one higher and LDD one lower, wrapping around.
pub proof fn lemma_ldi_ldd_load(s: CpuView, r: Registers8)
    ensures
        effect(Op::Move(MoveOp::LdiR8Ar16(r, Registers16::HL)), s).0.r16(Registers16::HL)
            == ((s.r16(Registers16::HL) as int + 1) % 0x10000) as u16,
        effect(Op::Move(MoveOp::LddR8Ar16(r, Registers16::HL)), s).0.r16(Registers16::HL)
            == ((s.r16(Registers16::HL) as int + 0xFFFF) % 0x10000) as u16,
        effect(Op::Move(MoveOp::LdiR8Ar16(r, Registers16::HL)), s).0.mmu == s.mmu,
        effect(Op::Move(MoveOp::LddR8Ar16(r, Registers16::HL)), s).0.mmu == s.mmu,
        r != Registers8::F && r != Registers8::H && r != Registers8::L ==> {
            &&& effect(Op::Move(MoveOp::LdiR8Ar16(r, Registers16::HL)), s).0.r8(r) == s.read(s.r16(Registers16::HL))
            &&& effect(Op::Move(MoveOp::LddR8Ar16(r, Registers16::HL)), s).0.r8(r) == s.read(s.r16(Registers16::HL))
        },
{
    reveal(move_effect);
    reveal(ldi_r8_ar16_effect);
    reveal(ldd_r8_ar16_effect);
    let a = s.r16(Registers16::HL);
    let t = s.set8(r, s.read(a));
    let up = ((a as int + 1) % 0x10000) as u16;
    let down = ((a as int + 0xFFFF) % 0x10000) as u16;
    crate::register::lemma_register_round_trip(t.registers, r, 0, Registers16::HL, up);
    crate::register::lemma_register_round_trip(t.registers, r, 0, Registers16::HL, down);
}

/// CCF complements the carry and SCF sets it; both clear N and H and keep Z, and CCF twice
/// gives the carry back.
pub proof fn lemma_carry_flag_ops(s: CpuView)
    ensures
        effect(Op::Ctrl(CtrlOp::Ccf), s).0.flag(Flag::C) == !s.flag(Flag::C),
        effect(Op::Ctrl(CtrlOp::Ccf), effect(Op::Ctrl(CtrlOp::Ccf), s).0).0.flag(Flag::C) == s.flag(Flag::C),
        !effect(Op::Ctrl(CtrlOp::Ccf), s).0.flag(Flag::N),
        !effect(Op::Ctrl(CtrlOp::Ccf), s).0.flag(Flag::H),
        effect(Op::Ctrl(CtrlOp::Ccf), s).0.flag(Flag::Z) == s.flag(Flag::Z),
        effect(Op::Ctrl(CtrlOp::Scf), s).0.flag(Flag::C),
        !effect(Op::Ctrl(CtrlOp::Scf), s).0.flag(Flag::N),
        !effect(Op::Ctrl(CtrlOp::Scf), s).0.flag(Flag::H),
        effect(Op::Ctrl(CtrlOp::Scf), s).0.flag(Flag::Z) == s.flag(Flag::Z),
{
    reveal(ctrl_effect);
    reveal(ccf_effect);
    reveal(scf_effect);
    lemma_flags_after_nhc(s, !s.flag(Flag::C));
    lemma_flags_after_nhc(s, true);
    let t = effect(Op::Ctrl(CtrlOp::Ccf), s).0;
    lemma_flags_after_nhc(t, !t.flag(Flag::C));
}

/// Clearing N and H and setting C to `c`: the flags read so, and Z is kept.
proof fn lemma_flags_after_nhc(s: CpuView, c: bool)
    ensures
        ({
            let t = s.set_flag(Flag::N, false).set_flag(Flag::H, false).set_flag(Flag::C, c);
            &&& t.flag(Flag::C) == c
            &&& !t.flag(Flag::N)
            &&& !t.flag(Flag::H)
            &&& t.flag(Flag::Z) == s.flag(Flag::Z)
        }),
{
    let r0 = s.registers;
    let r1 = r0.set_flag(Flag::N, false);
    let r2 = r1.set_flag(Flag::H, false);
    crate::register::lemma_flag_round_trip(r0, Flag::N, false, Flag::Z);
    crate::register::lemma_flag_round_trip(r1, Flag::H, false, Flag::Z);
    crate::register::lemma_flag_round_trip(r2, Flag::C, c, Flag::Z);
    crate::register::lemma_flag_round_trip(r1, Flag::H, false, Flag::N);
    crate::register::lemma_flag_round_trip(r2, Flag::C, c, Flag::N);
    crate::register::lemma_flag_round_trip(r2, Flag::C, c, Flag::H);
    crate::register::lemma_flag_round_trip(r0, Flag::N, false, Flag::N);
    crate::register::lemma_flag_round_trip(r1, Flag::H, false, Flag::H);
    crate::register::lemma_flag_round_trip(r2, Flag::C, c, Flag::C);
}

/// A write to plain memory leaves the interrupt flags alone.
proof fn lemma_plain_write_keeps_flags(m: crate::mmu::MemView, a: u16, v: u8)
    requires
        plain_memory(a),
    ensures
        m.written(a, v).interrupt_flag == m.interrupt_flag,
{
    reveal(crate::mmu::MemView::written);
}

/// The interrupt flag register as a byte: bit 0 V-Blank, 1 LCD STAT, 2 timer, 3 serial, 4 joypad.
pub open spec fn flag_byte(f: InterruptFlag) -> u8 {
    <u8 as FromSpec<InterruptFlag>>::from_spec(f)
}

/// Taking an interrupt: with interrupts requested (IF) and enabled (IE), the one served is
/// the lowest bit `k` set in both; the processor calls 0x40 + 8 * k and runs with interrupts
/// off, and, when the stack lies in plain memory, it clears that request and only that one.
pub proof fn lemma_interrupt_vectors(s: CpuView, k: int)
    requires
        0 <= k < 5,
        bit_of(flag_byte(s.mmu.interrupt_flag), k),
        bit_of(flag_byte(s.mmu.interrupt_enable), k),
        forall|j: int| 0 <= j < k ==> !(#[trigger] bit_of(flag_byte(s.mmu.interrupt_flag), j)
            && bit_of(flag_byte(s.mmu.interrupt_enable), j)),
    ensures
        interrupt_taken(s).pc() == 0x40 + 8 * k,
        stack_in_memory(s) ==> !bit_of(flag_byte(interrupt_taken(s).mmu.interrupt_flag), k),
        stack_in_memory(s) ==> forall|j: int| 0 <= j < 5 && j != k
            ==> #[trigger] bit_of(flag_byte(interrupt_taken(s).mmu.interrupt_flag), j)
            == bit_of(flag_byte(s.mmu.interrupt_flag), j),
        interrupt_taken(s).registers.ime == IME::Disabled,
{
    let f = s.mmu.interrupt_flag;
    let e = s.mmu.interrupt_enable;
    lemma_bits_of_byte(f.vblank, f.lcd_stat, f.timer, f.serial, f.joypad, false, false, false);
    lemma_bits_of_byte(e.vblank, e.lcd_stat, e.timer, e.serial, e.joypad, false, false, false);
    let t = interrupt_taken(s);
    let g = t.mmu.interrupt_flag;
    lemma_bits_of_byte(g.vblank, g.lcd_stat, g.timer, g.serial, g.joypad, false, false, false);
    if k >= 1 {
        assert(!(bit_of(flag_byte(f), 0) && bit_of(flag_byte(e), 0)));
    }
    if k >= 2 {
        assert(!(bit_of(flag_byte(f), 1) && bit_of(flag_byte(e), 1)));
    }
    if k >= 3 {
        assert(!(bit_of(flag_byte(f), 2) && bit_of(flag_byte(e), 2)));
    }
    if k >= 4 {
        assert(!(bit_of(flag_byte(f), 3) && bit_of(flag_byte(e), 3)));
    }
    let s1 = s.with_mmu(crate::mmu::MemView {
        interrupt_flag: crate::cpu::request_cleared(f, crate::cpu::available_interrupt(s.mmu)->0),
        ..s.mmu
    }).with_registers(crate::register::RegistersView {
        halted: crate::register::HaltedState::Running,
        ime: IME::Disabled,
        ..s.registers
    });
    let p = pushed(s1, Registers16::PC);
    assert(p.registers.ime == IME::Disabled);
    if stack_in_memory(s) {
        let sp = s1.r16(Registers16::SP);
        let v = s1.r16(Registers16::PC);
        lemma_plain_write_keeps_flags(s1.mmu, (sp - 1) as u16, (v / 256) as u8);
        lemma_plain_write_keeps_flags(s1.write((sp - 1) as u16, (v / 256) as u8).mmu, (sp - 2) as u16, (v % 256) as u8);
        assert(p.mmu.interrupt_flag == s1.mmu.interrupt_flag);
    }
    assert(k == 0 || k == 1 || k == 2 || k == 3 || k == 4);
}

/// The restarts: opcode 0xC7 + 8 * k calls address 8 * k.
pub proof fn lemma_restart_vectors(s: CpuView, k: u16)
    requires
        k < 8,
    ensures
        decode((0xC7 + 8 * k) as u16) is Flow,
        effect(decode((0xC7 + 8 * k) as u16), s).0.pc() == 8 * k,
{
    reveal(flow_effect);
    reveal(rst_f_effect);
    assert(k == 0 || k == 1 || k == 2 || k == 3 || k == 4 || k == 5 || k == 6 || k == 7);
}
}
