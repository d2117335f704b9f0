use vstd::prelude::*;
use vstd::string::*;
use crate::text::{
    join, join2, join_number, number, reg8_str, reg16_str, jump_flag_str, rst_flag_str, reg8_name,
    reg16_name, jump_flag_name, rst_flag_name, digits,
};
use crate::cpu::{CPU, CpuView, halt_state};
use crate::register::{Registers8, Registers16, RegistersView, Flag, IME};
use crate::bytes;
use crate::bytes::{bit_of, with_bit};
use crate::instruction::helper::{
    add_u16_i8_result, relative_target, can_pop, popped, can_push, pushed, rl_result, rrc_result,
    rr_result, rlc_result, sla_result, sra_result, swap_result, srl_result, add_result, adc_result,
    sub_result, sbc_result, and_result, xor_result, or_result,
};

pub mod helper;
pub mod opcode;
pub mod laws;

verus! {

broadcast use crate::cpu::group_fetch;

pub struct OpResult {
    pub cycles: u8,
}

/// The eight restart vectors.
#[derive(Debug, Clone, Copy, PartialEq, Eq, Structural)]
pub enum RstFlag {
    H00,
    H08,
    H10,
    H18,
    H20,
    H28,
    H30,
    H38,
}

pub open spec fn rst_location(f: RstFlag) -> u16 {
    match f {
        RstFlag::H00 => 0x0000,
        RstFlag::H08 => 0x0008,
        RstFlag::H10 => 0x0010,
        RstFlag::H18 => 0x0018,
        RstFlag::H20 => 0x0020,
        RstFlag::H28 => 0x0028,
        RstFlag::H30 => 0x0030,
        RstFlag::H38 => 0x0038,
    }
}

fn rst_locations(f: RstFlag) -> (r: u16)
    ensures
        r == rst_location(f),
{
    match f {
        RstFlag::H00 => 0x0000,
        RstFlag::H08 => 0x0008,
        RstFlag::H10 => 0x0010,
        RstFlag::H18 => 0x0018,
        RstFlag::H20 => 0x0020,
        RstFlag::H28 => 0x0028,
        RstFlag::H30 => 0x0030,
        RstFlag::H38 => 0x0038,
    }
}

/// The conditions of conditional jumps, calls and returns.
#[derive(Debug, Clone, Copy, PartialEq, Eq, Structural)]
pub enum JumpFlag {
    NZ,
    Z,
    NC,
    C,
}

/// Whether the flags meet the condition.
pub open spec fn jump_condition(f: JumpFlag, s: CpuView) -> bool {
    match f {
        JumpFlag::NZ => !s.flag(Flag::Z),
        JumpFlag::Z => s.flag(Flag::Z),
        JumpFlag::NC => !s.flag(Flag::C),
        JumpFlag::C => s.flag(Flag::C),
    }
}

fn condition_holds(cpu: &CPU, f: JumpFlag) -> (b: bool)
    ensures
        b == jump_condition(f, cpu@),
{
    match f {
        JumpFlag::NZ => !cpu.registers.get_flag(Flag::Z),
        JumpFlag::Z => cpu.registers.get_flag(Flag::Z),
        JumpFlag::NC => !cpu.registers.get_flag(Flag::C),
        JumpFlag::C => cpu.registers.get_flag(Flag::C),
    }
}

/// Where the second operand of an 8 bit arithmetic or logic instruction comes from.
#[derive(Debug, Clone, Copy, PartialEq, Eq, Structural)]
pub enum Src8 {
    Reg(Registers8),
    Imm,
    Mem(Registers16),
}

/// A byte an instruction reads and writes back: a register or the memory a pair points at.
#[derive(Debug, Clone, Copy, PartialEq, Eq, Structural)]
pub enum Target8 {
    Reg(Registers8),
    Mem(Registers16),
}

/// The 8 bit arithmetic and logic operations on the accumulator style registers.
#[derive(Debug, Clone, Copy, PartialEq, Eq, Structural)]
pub enum AluOp {
    Add,
    Adc,
    Sub,
    Sbc,
    And,
    Xor,
    Or,
    Cp,
}

/// The shifts and rotations of the prefixed opcode space.
#[derive(Debug, Clone, Copy, PartialEq, Eq, Structural)]
pub enum ShiftOp {
    Rl,
    Rrc,
    Rr,
    Rlc,
    Sla,
    Sra,
    Swap,
    Srl,
}

pub open spec fn shift_result_of(k: ShiftOp, s: CpuView, v: u8) -> (u8, CpuView) {
    match k {
        ShiftOp::Rl => rl_result(s, v),
        ShiftOp::Rrc => rrc_result(s, v),
        ShiftOp::Rr => rr_result(s, v),
        ShiftOp::Rlc => rlc_result(s, v),
        ShiftOp::Sla => sla_result(s, v),
        ShiftOp::Sra => sra_result(s, v),
        ShiftOp::Swap => swap_result(s, v),
        ShiftOp::Srl => srl_result(s, v),
    }
}

/// The result of an arithmetic or logic operation and the processor with its flags set;
/// a comparison is a subtraction.
pub open spec fn alu_result_of(k: AluOp, s: CpuView, a: u8, b: u8) -> (u8, CpuView) {
    match k {
        AluOp::Add => add_result(s, a, b),
        AluOp::Adc => adc_result(s, a, b),
        AluOp::Sub => sub_result(s, a, b),
        AluOp::Sbc => sbc_result(s, a, b),
        AluOp::And => and_result(s, a, b),
        AluOp::Xor => xor_result(s, a, b),
        AluOp::Or => or_result(s, a, b),
        AluOp::Cp => sub_result(s, a, b),
    }
}

/// Testing, clearing and setting a single bit.
#[derive(Debug, Clone, Copy, PartialEq, Eq, Structural)]
pub enum BitOp {
    Test,
    Reset,
    Raise,
}

/// Loads between registers and the memory that registers point at.
#[derive(Debug, Clone, Copy, PartialEq, Eq, Structural)]
pub enum MoveOp {
    LdAr16R8(Registers16, Registers8),
    LdR8Ar16(Registers8, Registers16),
    LdiR8Ar16(Registers8, Registers16),
    LddR8Ar16(Registers8, Registers16),
    LdiAr16R8(Registers16, Registers8),
    LddAr16R8(Registers16, Registers8),
    LdR8R8(Registers8, Registers8),
    LdR16R16(Registers16, Registers16),
    LdcAr8R8(Registers8, Registers8),
    LdcR8Ar8(Registers8, Registers8),
}

/// Loads that take an operand that follows the opcode.
#[derive(Debug, Clone, Copy, PartialEq, Eq, Structural)]
pub enum ImmOp {
    LdAr16N8(Registers16),
    LdR8An16(Registers8),
    LdR8N8(Registers8),
    LdAn16R16(Registers16),
    LdAn16R8(Registers8),
    LdR16N16(Registers16),
    LdR16SpN8(Registers16),
    LdhAn8R8(Registers8),
    LdhR8An8(Registers8),
}

/// Increments, decrements and the 16 bit additions.
#[derive(Debug, Clone, Copy, PartialEq, Eq, Structural)]
pub enum ArithOp {
    DecR8(Registers8),
    DecR16(Registers16),
    DecAr16(Registers16),
    IncR8(Registers8),
    IncR16(Registers16),
    IncAr16(Registers16),
    AddR16N8(Registers16),
    AddR16R16(Registers16, Registers16),
}

/// Jumps, calls, returns and the stack.
#[derive(Debug, Clone, Copy, PartialEq, Eq, Structural)]
pub enum FlowOp {
    JpFN16(JumpFlag),
    JpN16,
    JpR16(Registers16),
    CallN16,
    CallFN16(JumpFlag),
    PushR16(Registers16),
    RstF(RstFlag),
    Ret,
    Reti,
    RetF(JumpFlag),
    PopR16(Registers16),
    JrN8,
    JrFN8(JumpFlag),
}

/// Instructions on the processor state and the flags.
#[derive(Debug, Clone, Copy, PartialEq, Eq, Structural)]
pub enum CtrlOp {
    Nop,
    Stop,
    Halt,
    Di,
    Ei,
    Cpl,
    Daa,
    Scf,
    Ccf,
}

/// What an instruction does, with the registers and conditions it was built for.
#[derive(Debug, Clone, Copy, PartialEq, Eq, Structural)]
pub enum Op {
    Move(MoveOp),
    Imm(ImmOp),
    Arith(ArithOp),
    Flow(FlowOp),
    Ctrl(CtrlOp),
    /// RLA, RRCA, RRA and RLCA: a rotation of A that clears Z.
    RotateA(ShiftOp),
    Shift(ShiftOp, Target8),
    Alu(AluOp, Registers8, Src8),
    Bit(BitOp, u8, Target8),
    Illegal(u32),
}

pub open spec fn wrap_inc8(v: u8) -> u8 {
    ((v as int + 1) % 256) as u8
}

pub open spec fn wrap_dec8(v: u8) -> u8 {
    ((v as int + 255) % 256) as u8
}

pub open spec fn wrap_inc16(v: u16) -> u16 {
    ((v as int + 1) % 0x10000) as u16
}

pub open spec fn wrap_dec16(v: u16) -> u16 {
    ((v as int + 0xFFFF) % 0x10000) as u16
}

/// The address 0xFF00 plus an offset.
pub open spec fn high_address(n: u8) -> u16 {
    (0xFF00 + n as int) as u16
}

/// The second operand and the processor after it was read.
pub open spec fn src_value(src: Src8, s: CpuView) -> (u8, CpuView) {
    match src {
        Src8::Reg(r) => (s.r8(r), s),
        Src8::Imm => s.fetch8(),
        Src8::Mem(r) => (s.read(s.r16(r)), s),
    }
}

pub open spec fn src_ready(src: Src8, s: CpuView) -> bool {
    match src {
        Src8::Reg(_) => true,
        Src8::Imm => s.can_fetch8(),
        Src8::Mem(r) => s.mmu.readable(s.r16(r)),
    }
}

pub open spec fn target_value(t: Target8, s: CpuView) -> u8 {
    match t {
        Target8::Reg(r) => s.r8(r),
        Target8::Mem(r) => s.read(s.r16(r)),
    }
}

/// Stores `v` in the target; a memory target is written at `address`, taken before the
/// instruction changed anything.
pub open spec fn target_store(t: Target8, address: u16, s: CpuView, v: u8) -> CpuView {
    match t {
        Target8::Reg(r) => s.set8(r, v),
        Target8::Mem(_) => s.write(address, v),
    }
}

pub open spec fn target_address(t: Target8, s: CpuView) -> u16 {
    match t {
        Target8::Reg(_) => 0,
        Target8::Mem(r) => s.r16(r),
    }
}

pub open spec fn target_readable(t: Target8, s: CpuView) -> bool {
    match t {
        Target8::Reg(_) => true,
        Target8::Mem(r) => s.mmu.readable(s.r16(r)),
    }
}

pub open spec fn target_ready(t: Target8, s: CpuView) -> bool {
    match t {
        Target8::Reg(_) => true,
        Target8::Mem(r) => s.mmu.readable(s.r16(r)) && s.mmu.writable(s.r16(r)),
    }
}

/// The cycles a shift takes: 8 on a register and 16 on memory, but for RR on a register
/// (9) and SRA on memory (1).
pub open spec fn shift_cycles(k: ShiftOp, t: Target8) -> u8 {
    match t {
        Target8::Reg(_) => if k == ShiftOp::Rr { 9 } else { 8 },
        Target8::Mem(_) => if k == ShiftOp::Sra { 1 } else { 16 },
    }
}

pub open spec fn alu_cycles(src: Src8) -> u8 {
    match src {
        Src8::Reg(_) => 4,
        _ => 8,
    }
}

pub open spec fn target_cycles(t: Target8) -> u8 {
    match t {
        Target8::Reg(_) => 8,
        Target8::Mem(_) => 16,
    }
}

/// DAA: the adjustment of A to binary coded decimal after an addition or a subtraction.
pub open spec fn daa_adjusted(s: CpuView) -> CpuView {
    let v = s.r8(Registers8::A);
    if s.flag(Flag::N) {
        let v1: u8 = if s.flag(Flag::C) { v.wrapping_sub(0x60) } else { v };
        let v2: u8 = if s.flag(Flag::H) { v1.wrapping_sub(0x06) } else { v1 };
        s.set8(Registers8::A, v2).set_flag(Flag::Z, v2 == 0).set_flag(Flag::H, false)
    } else {
        let high = s.flag(Flag::C) || v > 0x99;
        let v1: u8 = if high { v.wrapping_add(0x60) } else { v };
        let s1 = if high { s.set_flag(Flag::C, true) } else { s };
        let v2: u8 = if s.flag(Flag::H) || v1 % 16 > 9 { v1.wrapping_add(0x06) } else { v1 };
        s1.set8(Registers8::A, v2).set_flag(Flag::Z, v2 == 0).set_flag(Flag::H, false)
    }
}

#[verifier::opaque]
pub open spec fn move_ready(op: MoveOp, s: CpuView) -> bool {
    match op {
        MoveOp::LdAr16R8(r1, r2) => ld_ar16_r8_ready(r1, r2, s),
        MoveOp::LdR8Ar16(r1, r2) => ld_r8_ar16_ready(r1, r2, s),
        MoveOp::LdiR8Ar16(r1, r2) => ldi_r8_ar16_ready(r1, r2, s),
        MoveOp::LddR8Ar16(r1, r2) => ldd_r8_ar16_ready(r1, r2, s),
        MoveOp::LdiAr16R8(r1, r2) => ldi_ar16_r8_ready(r1, r2, s),
        MoveOp::LddAr16R8(r1, r2) => ldd_ar16_r8_ready(r1, r2, s),
        MoveOp::LdcAr8R8(r1, r2) => ldc_ar8_r8_ready(r1, r2, s),
        MoveOp::LdcR8Ar8(r1, r2) => ldc_r8_ar8_ready(r1, r2, s),
        _ => true,
    }
}

#[verifier::opaque]
pub open spec fn imm_ready(op: ImmOp, s: CpuView) -> bool {
    match op {
        ImmOp::LdAr16N8(r) => ld_ar16_n8_ready(r, s),
        ImmOp::LdR8An16(r) => ld_r8_an16_ready(r, s),
        ImmOp::LdR8N8(r) => ld_r8_n8_ready(r, s),
        ImmOp::LdAn16R16(r) => ld_an16_r16_ready(r, s),
        ImmOp::LdAn16R8(r) => ld_an16_r8_ready(r, s),
        ImmOp::LdR16N16(r) => ld_r16_n16_ready(r, s),
        ImmOp::LdR16SpN8(r) => ld_r16_sp_n8_ready(r, s),
        ImmOp::LdhAn8R8(r) => ldh_an8_r8_ready(r, s),
        ImmOp::LdhR8An8(r) => ldh_r8_an8_ready(r, s),
    }
}

#[verifier::opaque]
pub open spec fn arith_ready(op: ArithOp, s: CpuView) -> bool {
    match op {
        ArithOp::DecAr16(r) => dec_ar16_ready(r, s),
        ArithOp::IncAr16(r) => inc_ar16_ready(r, s),
        ArithOp::AddR16N8(r) => add_r16_n8_ready(r, s),
        _ => true,
    }
}

#[verifier::opaque]
pub open spec fn flow_ready(op: FlowOp, s: CpuView) -> bool {
    match op {
        FlowOp::JpFN16(f) => jp_f_n16_ready(f, s),
        FlowOp::JpN16 => jp_n16_ready(s),
        FlowOp::CallN16 => call_n16_ready(s),
        FlowOp::CallFN16(f) => call_f_n16_ready(f, s),
        FlowOp::PushR16(r) => push_r16_ready(r, s),
        FlowOp::RstF(f) => rst_f_ready(f, s),
        FlowOp::Ret => ret_ready(s),
        FlowOp::Reti => reti_ready(s),
        FlowOp::RetF(f) => ret_f_ready(f, s),
        FlowOp::PopR16(r) => pop_r16_ready(r, s),
        FlowOp::JrN8 => jr_n8_ready(s),
        FlowOp::JrFN8(f) => jr_f_n8_ready(f, s),
        _ => true,
    }
}

/// Whether the instruction can run on the processor: every byte it reads can be read, every
/// byte it writes can be written, a bit number is below 8, a relative jump is not by -128, and
/// the opcode is legal.
#[verifier::opaque]
pub open spec fn dec_ar16_ready(r: Registers16, s: CpuView) -> bool {
    s.mmu.readable(s.r16(r)) && s.mmu.writable(s.r16(r))
}

#[verifier::opaque]
pub open spec fn inc_ar16_ready(r: Registers16, s: CpuView) -> bool {
    s.mmu.readable(s.r16(r)) && s.mmu.writable(s.r16(r))
}

#[verifier::opaque]
pub open spec fn ld_ar16_r8_ready(r1: Registers16, r2: Registers8, s: CpuView) -> bool {
    s.mmu.writable(s.r16(r1))
}

#[verifier::opaque]
pub open spec fn ld_ar16_n8_ready(r: Registers16, s: CpuView) -> bool {
    s.can_fetch8() && s.mmu.writable(s.r16(r))
}

#[verifier::opaque]
pub open spec fn ld_r8_ar16_ready(r1: Registers8, r2: Registers16, s: CpuView) -> bool {
    s.mmu.readable(s.r16(r2))
}

#[verifier::opaque]
pub open spec fn ld_r8_an16_ready(r: Registers8, s: CpuView) -> bool {
    s.can_fetch16() && s.mmu.readable(s.fetch16().0)
}

#[verifier::opaque]
pub open spec fn ldi_r8_ar16_ready(r1: Registers8, r2: Registers16, s: CpuView) -> bool {
    s.mmu.readable(s.r16(r2))
}

#[verifier::opaque]
pub open spec fn ldd_r8_ar16_ready(r1: Registers8, r2: Registers16, s: CpuView) -> bool {
    s.mmu.readable(s.r16(r2))
}

#[verifier::opaque]
pub open spec fn ldi_ar16_r8_ready(r1: Registers16, r2: Registers8, s: CpuView) -> bool {
    s.mmu.writable(s.r16(r1))
}

#[verifier::opaque]
pub open spec fn ldd_ar16_r8_ready(r1: Registers16, r2: Registers8, s: CpuView) -> bool {
    s.mmu.writable(s.r16(r1))
}

#[verifier::opaque]
pub open spec fn ld_r8_n8_ready(r: Registers8, s: CpuView) -> bool {
    s.can_fetch8()
}

#[verifier::opaque]
pub open spec fn ld_an16_r16_ready(r: Registers16, s: CpuView) -> bool {
    let a = s.fetch16().0;
    &&& s.can_fetch16()
    &&& s.mmu.writable(a)
    &&& s.mmu.written(a, (s.r16(r) / 256) as u8).writable(wrap_inc16(a))
}

#[verifier::opaque]
pub open spec fn ld_an16_r8_ready(r: Registers8, s: CpuView) -> bool {
    s.can_fetch16() && s.mmu.writable(s.fetch16().0)
}

#[verifier::opaque]
pub open spec fn ld_r16_n16_ready(r: Registers16, s: CpuView) -> bool {
    s.can_fetch16()
}

#[verifier::opaque]
pub open spec fn ld_r16_sp_n8_ready(r: Registers16, s: CpuView) -> bool {
    s.can_fetch8() && s.fetch8().0 != 0x80
}

#[verifier::opaque]
pub open spec fn ldh_an8_r8_ready(r: Registers8, s: CpuView) -> bool {
    s.can_fetch8() && s.mmu.writable(high_address(s.fetch8().0))
}

#[verifier::opaque]
pub open spec fn ldh_r8_an8_ready(r: Registers8, s: CpuView) -> bool {
    s.can_fetch8() && s.mmu.readable(high_address(s.fetch8().0))
}

#[verifier::opaque]
pub open spec fn ldc_ar8_r8_ready(r1: Registers8, r2: Registers8, s: CpuView) -> bool {
    s.mmu.writable(high_address(s.r8(r1)))
}

#[verifier::opaque]
pub open spec fn ldc_r8_ar8_ready(r1: Registers8, r2: Registers8, s: CpuView) -> bool {
    s.mmu.readable(high_address(s.r8(r2)))
}

#[verifier::opaque]
pub open spec fn shift_ready(k: ShiftOp, t: Target8, s: CpuView) -> bool {
    target_ready(t, s)
}

#[verifier::opaque]
pub open spec fn jp_f_n16_ready(f: JumpFlag, s: CpuView) -> bool {
    s.can_fetch16()
}

#[verifier::opaque]
pub open spec fn jp_n16_ready(s: CpuView) -> bool {
    s.can_fetch16()
}

#[verifier::opaque]
pub open spec fn call_n16_ready(s: CpuView) -> bool {
    s.can_fetch16() && can_push(s.fetch16().1)
}

#[verifier::opaque]
pub open spec fn call_f_n16_ready(f: JumpFlag, s: CpuView) -> bool {
    s.can_fetch16() && (jump_condition(f, s) ==> can_push(s.fetch16().1))
}

#[verifier::opaque]
pub open spec fn push_r16_ready(r: Registers16, s: CpuView) -> bool {
    can_push(s)
}

#[verifier::opaque]
pub open spec fn rst_f_ready(f: RstFlag, s: CpuView) -> bool {
    can_push(s)
}

#[verifier::opaque]
pub open spec fn ret_ready(s: CpuView) -> bool {
    can_pop(s)
}

#[verifier::opaque]
pub open spec fn reti_ready(s: CpuView) -> bool {
    can_pop(s)
}

#[verifier::opaque]
pub open spec fn ret_f_ready(f: JumpFlag, s: CpuView) -> bool {
    jump_condition(f, s) ==> can_pop(s)
}

#[verifier::opaque]
pub open spec fn pop_r16_ready(r: Registers16, s: CpuView) -> bool {
    can_pop(s)
}

#[verifier::opaque]
pub open spec fn jr_n8_ready(s: CpuView) -> bool {
    s.can_fetch8() && s.fetch8().0 != 0x80
}

#[verifier::opaque]
pub open spec fn jr_f_n8_ready(f: JumpFlag, s: CpuView) -> bool {
    s.can_fetch8() && (jump_condition(f, s) ==> s.fetch8().0 != 0x80)
}

#[verifier::opaque]
pub open spec fn add_r16_n8_ready(r: Registers16, s: CpuView) -> bool {
    s.can_fetch8() && s.fetch8().0 != 0x80
}

#[verifier::opaque]
pub open spec fn alu_ready(k: AluOp, dst: Registers8, src: Src8, s: CpuView) -> bool {
    src_ready(src, s)
}

#[verifier::opaque]
pub open spec fn bit_ready(k: BitOp, n: u8, t: Target8, s: CpuView) -> bool {
    n < 8 && if k == BitOp::Test { target_readable(t, s) } else { target_ready(t, s) }
}

pub open spec fn ready(op: Op, s: CpuView) -> bool {
    match op {
        Op::Move(m) => move_ready(m, s),
        Op::Imm(m) => imm_ready(m, s),
        Op::Arith(m) => arith_ready(m, s),
        Op::Flow(m) => flow_ready(m, s),
        Op::Ctrl(_) => true,
        Op::RotateA(_) => true,
        Op::Shift(k, t) => shift_ready(k, t, s),
        Op::Alu(k, dst, src) => alu_ready(k, dst, src, s),
        Op::Bit(k, n, t) => bit_ready(k, n, t, s),
        Op::Illegal(_) => false,
    }
}

#[verifier::opaque]
pub open spec fn nop_effect(s: CpuView) -> (CpuView, u8) {
    (s, 4)
}

#[verifier::opaque]
pub open spec fn dec_r8_effect(r: Registers8, s: CpuView) -> (CpuView, u8) {
    let i = s.r8(r);
    let v = wrap_dec8(i);
    (s.set8(r, v).set_znh(v == 0, true, i % 16 < 1), 4)
}

#[verifier::opaque]
pub open spec fn dec_r16_effect(r: Registers16, s: CpuView) -> (CpuView, u8) {
    (s.set16(r, wrap_dec16(s.r16(r))), 8)
}

#[verifier::opaque]
pub open spec fn dec_ar16_effect(r: Registers16, s: CpuView) -> (CpuView, u8) {
    let a = s.r16(r);
    let i = s.read(a);
    let v = wrap_dec8(i);
    (s.write(a, v).set_znh(v == 0, true, i % 16 < 1), 12)
}

#[verifier::opaque]
pub open spec fn inc_r8_effect(r: Registers8, s: CpuView) -> (CpuView, u8) {
    let i = s.r8(r);
    let v = wrap_inc8(i);
    (s.set8(r, v).set_znh(v == 0, false, i % 16 + 1 > 15), 4)
}

#[verifier::opaque]
pub open spec fn inc_r16_effect(r: Registers16, s: CpuView) -> (CpuView, u8) {
    (s.set16(r, wrap_inc16(s.r16(r))), 8)
}

#[verifier::opaque]
pub open spec fn inc_ar16_effect(r: Registers16, s: CpuView) -> (CpuView, u8) {
    let a = s.r16(r);
    let i = s.read(a);
    let v = wrap_inc8(i);
    (s.write(a, v).set_znh(v == 0, false, i % 16 + 1 > 15), 12)
}

#[verifier::opaque]
pub open spec fn ld_ar16_r8_effect(r1: Registers16, r2: Registers8, s: CpuView) -> (CpuView, u8) {
    (s.write(s.r16(r1), s.r8(r2)), 8)
}

#[verifier::opaque]
pub open spec fn ld_ar16_n8_effect(r: Registers16, s: CpuView) -> (CpuView, u8) {
    let (v, s1) = s.fetch8();
    (s1.write(s.r16(r), v), 12)
}

#[verifier::opaque]
pub open spec fn ld_r8_ar16_effect(r1: Registers8, r2: Registers16, s: CpuView) -> (CpuView, u8) {
    (s.set8(r1, s.read(s.r16(r2))), 8)
}

#[verifier::opaque]
pub open spec fn ld_r8_an16_effect(r: Registers8, s: CpuView) -> (CpuView, u8) {
    let (a, s1) = s.fetch16();
    (s1.set8(r, s1.read(a)), 16)
}

#[verifier::opaque]
pub open spec fn ldi_r8_ar16_effect(r1: Registers8, r2: Registers16, s: CpuView) -> (CpuView, u8) {
    let a = s.r16(r2);
    (s.set8(r1, s.read(a)).set16(r2, wrap_inc16(a)), 8)
}

#[verifier::opaque]
pub open spec fn ldd_r8_ar16_effect(r1: Registers8, r2: Registers16, s: CpuView) -> (CpuView, u8) {
    let a = s.r16(r2);
    (s.set8(r1, s.read(a)).set16(r2, wrap_dec16(a)), 8)
}

#[verifier::opaque]
pub open spec fn ldi_ar16_r8_effect(r1: Registers16, r2: Registers8, s: CpuView) -> (CpuView, u8) {
    let a = s.r16(r1);
    (s.write(a, s.r8(r2)).set16(r1, wrap_inc16(a)), 8)
}

#[verifier::opaque]
pub open spec fn ldd_ar16_r8_effect(r1: Registers16, r2: Registers8, s: CpuView) -> (CpuView, u8) {
    let a = s.r16(r1);
    (s.write(a, s.r8(r2)).set16(r1, wrap_dec16(a)), 8)
}

#[verifier::opaque]
pub open spec fn ld_r8_n8_effect(r: Registers8, s: CpuView) -> (CpuView, u8) {
    let (v, s1) = s.fetch8();
    (s1.set8(r, v), 8)
}

#[verifier::opaque]
pub open spec fn ld_r8_r8_effect(r1: Registers8, r2: Registers8, s: CpuView) -> (CpuView, u8) {
    (s.set8(r1, s.r8(r2)), 4)
}

#[verifier::opaque]
pub open spec fn ld_an16_r16_effect(r: Registers16, s: CpuView) -> (CpuView, u8) {
    let v = s.r16(r);
    let (a, s1) = s.fetch16();
    (s1.write(a, (v / 256) as u8).write(wrap_inc16(a), (v % 256) as u8), 20)
}

#[verifier::opaque]
pub open spec fn ld_an16_r8_effect(r: Registers8, s: CpuView) -> (CpuView, u8) {
    let (a, s1) = s.fetch16();
    (s1.write(a, s.r8(r)), 16)
}

#[verifier::opaque]
pub open spec fn ld_r16_n16_effect(r: Registers16, s: CpuView) -> (CpuView, u8) {
    let (v, s1) = s.fetch16();
    (s1.set16(r, v), 12)
}

#[verifier::opaque]
pub open spec fn ld_r16_r16_effect(r1: Registers16, r2: Registers16, s: CpuView) -> (CpuView, u8) {
    (s.set16(r2, s.r16(r1)), 12)
}

#[verifier::opaque]
pub open spec fn ld_r16_sp_n8_effect(r: Registers16, s: CpuView) -> (CpuView, u8) {
    let (b, s1) = s.fetch8();
    let (v, s2) = add_u16_i8_result(s1, s.r16(Registers16::SP), b);
    (s2.set16(r, v), 12)
}

#[verifier::opaque]
pub open spec fn ldh_an8_r8_effect(r: Registers8, s: CpuView) -> (CpuView, u8) {
    let (n, s1) = s.fetch8();
    (s1.write(high_address(n), s.r8(r)), 12)
}

#[verifier::opaque]
pub open spec fn ldh_r8_an8_effect(r: Registers8, s: CpuView) -> (CpuView, u8) {
    let (n, s1) = s.fetch8();
    (s1.set8(r, s1.read(high_address(n))), 12)
}

#[verifier::opaque]
pub open spec fn ldc_ar8_r8_effect(r1: Registers8, r2: Registers8, s: CpuView) -> (CpuView, u8) {
    (s.write(high_address(s.r8(r1)), s.r8(r2)), 12)
}

#[verifier::opaque]
pub open spec fn ldc_r8_ar8_effect(r1: Registers8, r2: Registers8, s: CpuView) -> (CpuView, u8) {
    (s.set8(r1, s.read(high_address(s.r8(r2)))), 12)
}

#[verifier::opaque]
pub open spec fn rotate_a_effect(k: ShiftOp, s: CpuView) -> (CpuView, u8) {
    let (out, s1) = shift_result_of(k, s, s.r8(Registers8::A));
    (s1.set8(Registers8::A, out).set_flag(Flag::Z, false), 4)
}

#[verifier::opaque]
pub open spec fn shift_effect(k: ShiftOp, t: Target8, s: CpuView) -> (CpuView, u8) {
    let (out, s1) = shift_result_of(k, s, target_value(t, s));
    (target_store(t, target_address(t, s), s1, out), shift_cycles(k, t))
}

#[verifier::opaque]
pub open spec fn stop_effect(s: CpuView) -> (CpuView, u8) {
    (s.with_registers(RegistersView { stopped: true, ..s.registers }), 4)
}

#[verifier::opaque]
pub open spec fn halt_effect(s: CpuView) -> (CpuView, u8) {
    (s.with_registers(RegistersView { halted: halt_state(s), ..s.registers }), 4)
}

#[verifier::opaque]
pub open spec fn jp_f_n16_effect(f: JumpFlag, s: CpuView) -> (CpuView, u8) {
    let (n, s1) = s.fetch16();
    (if jump_condition(f, s1) { s1.set16(Registers16::PC, n) } else { s1 }, 12)
}

#[verifier::opaque]
pub open spec fn jp_n16_effect(s: CpuView) -> (CpuView, u8) {
    let (n, s1) = s.fetch16();
    (s1.set16(Registers16::PC, n), 12)
}

#[verifier::opaque]
pub open spec fn jp_r16_effect(r: Registers16, s: CpuView) -> (CpuView, u8) {
    (s.set16(Registers16::PC, s.r16(r)), 4)
}

#[verifier::opaque]
pub open spec fn call_n16_effect(s: CpuView) -> (CpuView, u8) {
    let (n, s1) = s.fetch16();
    (pushed(s1, Registers16::PC).set16(Registers16::PC, n), 12)
}

#[verifier::opaque]
pub open spec fn call_f_n16_effect(f: JumpFlag, s: CpuView) -> (CpuView, u8) {
    let (n, s1) = s.fetch16();
    (if jump_condition(f, s1) { pushed(s1, Registers16::PC).set16(Registers16::PC, n) } else { s1 }, 12)
}

#[verifier::opaque]
pub open spec fn push_r16_effect(r: Registers16, s: CpuView) -> (CpuView, u8) {
    (pushed(s, r), 16)
}

#[verifier::opaque]
pub open spec fn rst_f_effect(f: RstFlag, s: CpuView) -> (CpuView, u8) {
    (pushed(s, Registers16::PC).set16(Registers16::PC, rst_location(f)), 32)
}

#[verifier::opaque]
pub open spec fn di_effect(s: CpuView) -> (CpuView, u8) {
    (s.with_registers(RegistersView { ime: IME::Disabled, ..s.registers }), 4)
}

#[verifier::opaque]
pub open spec fn ei_effect(s: CpuView) -> (CpuView, u8) {
    (s.with_registers(RegistersView { ime: IME::Queued, ..s.registers }), 4)
}

#[verifier::opaque]
pub open spec fn ret_effect(s: CpuView) -> (CpuView, u8) {
    (popped(s, Registers16::PC), 8)
}

#[verifier::opaque]
pub open spec fn reti_effect(s: CpuView) -> (CpuView, u8) {
    let s1 = popped(s, Registers16::PC);
    (s1.with_registers(RegistersView { ime: IME::Queued, ..s1.registers }), 8)
}

#[verifier::opaque]
pub open spec fn ret_f_effect(f: JumpFlag, s: CpuView) -> (CpuView, u8) {
    (if jump_condition(f, s) { popped(s, Registers16::PC) } else { s }, 8)
}

#[verifier::opaque]
pub open spec fn pop_r16_effect(r: Registers16, s: CpuView) -> (CpuView, u8) {
    (popped(s, r), 12)
}

#[verifier::opaque]
pub open spec fn jr_n8_effect(s: CpuView) -> (CpuView, u8) {
    let (n, s1) = s.fetch8();
    (s1.set16(Registers16::PC, relative_target(s1.pc(), n)), 8)
}

#[verifier::opaque]
pub open spec fn jr_f_n8_effect(f: JumpFlag, s: CpuView) -> (CpuView, u8) {
    let (n, s1) = s.fetch8();
    (if jump_condition(f, s1) { s1.set16(Registers16::PC, relative_target(s1.pc(), n)) } else { s1 }, 8)
}

#[verifier::opaque]
pub open spec fn cpl_effect(s: CpuView) -> (CpuView, u8) {
    (s.set8(Registers8::A, (255 - s.r8(Registers8::A)) as u8).set_flag(Flag::N, true).set_flag(Flag::H, true), 4)
}

#[verifier::opaque]
pub open spec fn daa_effect(s: CpuView) -> (CpuView, u8) {
    (daa_adjusted(s), 4)
}

#[verifier::opaque]
pub open spec fn scf_effect(s: CpuView) -> (CpuView, u8) {
    (s.set_flag(Flag::N, false).set_flag(Flag::H, false).set_flag(Flag::C, true), 4)
}

#[verifier::opaque]
pub open spec fn ccf_effect(s: CpuView) -> (CpuView, u8) {
    (s.set_flag(Flag::N, false).set_flag(Flag::H, false).set_flag(Flag::C, !s.flag(Flag::C)), 4)
}

#[verifier::opaque]
pub open spec fn add_r16_n8_effect(r: Registers16, s: CpuView) -> (CpuView, u8) {
    let (b, s1) = s.fetch8();
    let (v, s2) = add_u16_i8_result(s1, s.r16(r), b);
    (s2.set16(r, v), 16)
}

#[verifier::opaque]
pub open spec fn add_r16_r16_effect(r1: Registers16, r2: Registers16, s: CpuView) -> (CpuView, u8) {
    let a = s.r16(r1);
    let b = s.r16(r2);
    let sum = a as int + b as int;
    (s.set16(r1, (sum % 0x10000) as u16)
        .set_flag(Flag::C, sum > 0xFFFF)
        .set_flag(Flag::N, false)
        .set_flag(Flag::H, (a % 4096) + (b % 4096) > 4095), 8)
}

#[verifier::opaque]
pub open spec fn alu_effect(k: AluOp, dst: Registers8, src: Src8, s: CpuView) -> (CpuView, u8) {
    let (b, s1) = src_value(src, s);
    let (v, s2) = alu_result_of(k, s1, s.r8(dst), b);
    (if k == AluOp::Cp { s2 } else { s2.set8(dst, v) }, alu_cycles(src))
}

#[verifier::opaque]
pub open spec fn bit_effect(k: BitOp, n: u8, t: Target8, s: CpuView) -> (CpuView, u8) {
    let v = target_value(t, s);
    (match k {
        BitOp::Test => s.set_znh(!bit_of(v, n as int), false, true),
        BitOp::Reset => target_store(t, target_address(t, s), s, with_bit(v, n, false)),
        BitOp::Raise => target_store(t, target_address(t, s), s, with_bit(v, n, true)),
    }, target_cycles(t))
}


#[verifier::opaque]
pub open spec fn move_effect(op: MoveOp, s: CpuView) -> (CpuView, u8) {
    match op {
        MoveOp::LdAr16R8(r1, r2) => ld_ar16_r8_effect(r1, r2, s),
        MoveOp::LdR8Ar16(r1, r2) => ld_r8_ar16_effect(r1, r2, s),
        MoveOp::LdiR8Ar16(r1, r2) => ldi_r8_ar16_effect(r1, r2, s),
        MoveOp::LddR8Ar16(r1, r2) => ldd_r8_ar16_effect(r1, r2, s),
        MoveOp::LdiAr16R8(r1, r2) => ldi_ar16_r8_effect(r1, r2, s),
        MoveOp::LddAr16R8(r1, r2) => ldd_ar16_r8_effect(r1, r2, s),
        MoveOp::LdR8R8(r1, r2) => ld_r8_r8_effect(r1, r2, s),
        MoveOp::LdR16R16(r1, r2) => ld_r16_r16_effect(r1, r2, s),
        MoveOp::LdcAr8R8(r1, r2) => ldc_ar8_r8_effect(r1, r2, s),
        MoveOp::LdcR8Ar8(r1, r2) => ldc_r8_ar8_effect(r1, r2, s),
    }
}

#[verifier::opaque]
pub open spec fn imm_effect(op: ImmOp, s: CpuView) -> (CpuView, u8) {
    match op {
        ImmOp::LdAr16N8(r) => ld_ar16_n8_effect(r, s),
        ImmOp::LdR8An16(r) => ld_r8_an16_effect(r, s),
        ImmOp::LdR8N8(r) => ld_r8_n8_effect(r, s),
        ImmOp::LdAn16R16(r) => ld_an16_r16_effect(r, s),
        ImmOp::LdAn16R8(r) => ld_an16_r8_effect(r, s),
        ImmOp::LdR16N16(r) => ld_r16_n16_effect(r, s),
        ImmOp::LdR16SpN8(r) => ld_r16_sp_n8_effect(r, s),
        ImmOp::LdhAn8R8(r) => ldh_an8_r8_effect(r, s),
        ImmOp::LdhR8An8(r) => ldh_r8_an8_effect(r, s),
    }
}

#[verifier::opaque]
pub open spec fn arith_effect(op: ArithOp, s: CpuView) -> (CpuView, u8) {
    match op {
        ArithOp::DecR8(r) => dec_r8_effect(r, s),
        ArithOp::DecR16(r) => dec_r16_effect(r, s),
        ArithOp::DecAr16(r) => dec_ar16_effect(r, s),
        ArithOp::IncR8(r) => inc_r8_effect(r, s),
        ArithOp::IncR16(r) => inc_r16_effect(r, s),
        ArithOp::IncAr16(r) => inc_ar16_effect(r, s),
        ArithOp::AddR16N8(r) => add_r16_n8_effect(r, s),
        ArithOp::AddR16R16(r1, r2) => add_r16_r16_effect(r1, r2, s),
    }
}

#[verifier::opaque]
pub open spec fn flow_effect(op: FlowOp, s: CpuView) -> (CpuView, u8) {
    match op {
        FlowOp::JpFN16(f) => jp_f_n16_effect(f, s),
        FlowOp::JpN16 => jp_n16_effect(s),
        FlowOp::JpR16(r) => jp_r16_effect(r, s),
        FlowOp::CallN16 => call_n16_effect(s),
        FlowOp::CallFN16(f) => call_f_n16_effect(f, s),
        FlowOp::PushR16(r) => push_r16_effect(r, s),
        FlowOp::RstF(f) => rst_f_effect(f, s),
        FlowOp::Ret => ret_effect(s),
        FlowOp::Reti => reti_effect(s),
        FlowOp::RetF(f) => ret_f_effect(f, s),
        FlowOp::PopR16(r) => pop_r16_effect(r, s),
        FlowOp::JrN8 => jr_n8_effect(s),
        FlowOp::JrFN8(f) => jr_f_n8_effect(f, s),
    }
}

#[verifier::opaque]
pub open spec fn ctrl_effect(op: CtrlOp, s: CpuView) -> (CpuView, u8) {
    match op {
        CtrlOp::Nop => nop_effect(s),
        CtrlOp::Stop => stop_effect(s),
        CtrlOp::Halt => halt_effect(s),
        CtrlOp::Di => di_effect(s),
        CtrlOp::Ei => ei_effect(s),
        CtrlOp::Cpl => cpl_effect(s),
        CtrlOp::Daa => daa_effect(s),
        CtrlOp::Scf => scf_effect(s),
        CtrlOp::Ccf => ccf_effect(s),
    }
}

/// The processor after the instruction ran, and the cycles it reports.
pub open spec fn effect(op: Op, s: CpuView) -> (CpuView, u8) {
    match op {
        Op::Move(m) => move_effect(m, s),
        Op::Imm(m) => imm_effect(m, s),
        Op::Arith(m) => arith_effect(m, s),
        Op::Flow(m) => flow_effect(m, s),
        Op::Ctrl(m) => ctrl_effect(m, s),
        Op::RotateA(k) => rotate_a_effect(k, s),
        Op::Shift(k, t) => shift_effect(k, t, s),
        Op::Alu(k, dst, src) => alu_effect(k, dst, src, s),
        Op::Bit(k, n, t) => bit_effect(k, n, t, s),
        Op::Illegal(_) => (s, 0),
    }
}

fn shift(cpu: &mut CPU, k: ShiftOp, v: u8) -> (out: u8)
    ensures
        (out, final(cpu)@) == shift_result_of(k, old(cpu)@, v),
{
    match k {
        ShiftOp::Rl => helper::rl(cpu, v),
        ShiftOp::Rrc => helper::rrc(cpu, v),
        ShiftOp::Rr => helper::rr(cpu, v),
        ShiftOp::Rlc => helper::rlc(cpu, v),
        ShiftOp::Sla => helper::sla(cpu, v),
        ShiftOp::Sra => helper::sra(cpu, v),
        ShiftOp::Swap => helper::swap(cpu, v),
        ShiftOp::Srl => helper::srl(cpu, v),
    }
}

fn alu(cpu: &mut CPU, k: AluOp, a: u8, b: u8) -> (out: u8)
    ensures
        (out, final(cpu)@) == alu_result_of(k, old(cpu)@, a, b),
{
    match k {
        AluOp::Add => crate::instruction::helper::add(cpu, a, b),
        AluOp::Adc => helper::adc(cpu, a, b),
        AluOp::Sub => crate::instruction::helper::sub(cpu, a, b),
        AluOp::Sbc => helper::sbc(cpu, a, b),
        AluOp::And => helper::and(cpu, a, b),
        AluOp::Xor => helper::xor(cpu, a, b),
        AluOp::Or => helper::or(cpu, a, b),
        AluOp::Cp => crate::instruction::helper::sub(cpu, a, b),
    }
}

fn read_src(cpu: &mut CPU, src: Src8) -> (v: u8)
    requires
        src_ready(src, old(cpu)@),
    ensures
        (v, final(cpu)@) == src_value(src, old(cpu)@),
{
    match src {
        Src8::Reg(r) => cpu.registers.get8(r),
        Src8::Imm => cpu.fetch_arg_8(),
        Src8::Mem(r) => {
            let address = cpu.registers.get16(r);
            cpu.mmu.get(address)
        },
    }
}

fn read_target(cpu: &CPU, t: Target8) -> (r: (u16, u8))
    requires
        target_readable(t, cpu@),
    ensures
        r == (target_address(t, cpu@), target_value(t, cpu@)),
{
    match t {
        Target8::Reg(r) => (0, cpu.registers.get8(r)),
        Target8::Mem(r) => {
            let address = cpu.registers.get16(r);
            (address, cpu.mmu.get(address))
        },
    }
}

fn write_target(cpu: &mut CPU, t: Target8, address: u16, v: u8)
    requires
        t is Mem ==> old(cpu)@.mmu.writable(address),
    ensures
        final(cpu)@ == target_store(t, address, old(cpu)@, v),
{
    match t {
        Target8::Reg(r) => cpu.registers.set8(r, v),
        Target8::Mem(_) => cpu.mmu.set(address, v),
    }
}

fn run_dec_r8(cpu: &mut CPU, r: Registers8) -> (c: u8)
    ensures
        (final(cpu)@, c) == dec_r8_effect(r, old(cpu)@),
{
    reveal(dec_r8_effect);
    let i = cpu.registers.get8(r);
    let v = i.wrapping_sub(1);
    cpu.registers.set8(r, v);
    cpu.registers.set_flag(Flag::Z, v == 0);
    cpu.registers.set_flag(Flag::N, true);
    cpu.registers.set_flag(Flag::H, bytes::check_half_carry_sub8(i, 1));
    4
}

fn run_inc_r8(cpu: &mut CPU, r: Registers8) -> (c: u8)
    ensures
        (final(cpu)@, c) == inc_r8_effect(r, old(cpu)@),
{
    reveal(inc_r8_effect);
    let i = cpu.registers.get8(r);
    let v = i.wrapping_add(1);
    cpu.registers.set8(r, v);
    cpu.registers.set_flag(Flag::Z, v == 0);
    cpu.registers.set_flag(Flag::N, false);
    cpu.registers.set_flag(Flag::H, bytes::check_half_carry8(i, 1));
    4
}

fn run_dec_ar16(cpu: &mut CPU, r: Registers16) -> (c: u8)
    requires
        dec_ar16_ready(r, old(cpu)@),
    ensures
        (final(cpu)@, c) == dec_ar16_effect(r, old(cpu)@),
{
    reveal(dec_ar16_ready);
    reveal(dec_ar16_effect);
    let address = cpu.registers.get16(r);
    let i = cpu.mmu.get(address);
    let v = i.wrapping_sub(1);
    cpu.mmu.set(address, v);
    cpu.registers.set_flag(Flag::Z, v == 0);
    cpu.registers.set_flag(Flag::N, true);
    cpu.registers.set_flag(Flag::H, bytes::check_half_carry_sub8(i, 1));
    12
}

fn run_inc_ar16(cpu: &mut CPU, r: Registers16) -> (c: u8)
    requires
        inc_ar16_ready(r, old(cpu)@),
    ensures
        (final(cpu)@, c) == inc_ar16_effect(r, old(cpu)@),
{
    reveal(inc_ar16_ready);
    reveal(inc_ar16_effect);
    let address = cpu.registers.get16(r);
    let i = cpu.mmu.get(address);
    let v = i.wrapping_add(1);
    cpu.mmu.set(address, v);
    cpu.registers.set_flag(Flag::Z, v == 0);
    cpu.registers.set_flag(Flag::N, false);
    cpu.registers.set_flag(Flag::H, bytes::check_half_carry8(i, 1));
    12
}

fn run_step16(cpu: &mut CPU, r: Registers16, up: bool) -> (c: u8)
    ensures
        (final(cpu)@, c) == if up { inc_r16_effect(r, old(cpu)@) } else { dec_r16_effect(r, old(cpu)@) },
{
    reveal(inc_r16_effect);
    reveal(dec_r16_effect);
    let i = cpu.registers.get16(r);
    let v = if up { i.wrapping_add(1) } else { i.wrapping_sub(1) };
    assert(v == if up { wrap_inc16(i) } else { wrap_dec16(i) });
    cpu.registers.set16(r, v);
    8
}

fn run_ld_mem_from_reg(cpu: &mut CPU, r1: Registers16, r2: Registers8, step: i8) -> (c: u8)
    requires
        if step > 0 {
            ldi_ar16_r8_ready(r1, r2, old(cpu)@)
        } else if step < 0 {
            ldd_ar16_r8_ready(r1, r2, old(cpu)@)
        } else {
            ld_ar16_r8_ready(r1, r2, old(cpu)@)
        },
    ensures
        (final(cpu)@, c) == if step > 0 {
            ldi_ar16_r8_effect(r1, r2, old(cpu)@)
        } else if step < 0 {
            ldd_ar16_r8_effect(r1, r2, old(cpu)@)
        } else {
            ld_ar16_r8_effect(r1, r2, old(cpu)@)
        },
{
    reveal(ld_ar16_r8_ready);
    reveal(ldd_ar16_r8_ready);
    reveal(ldi_ar16_r8_ready);
    reveal(ldi_ar16_r8_effect);
    reveal(ldd_ar16_r8_effect);
    reveal(ld_ar16_r8_effect);
    let address = cpu.registers.get16(r1);
    let value = cpu.registers.get8(r2);
    cpu.mmu.set(address, value);
    let ghost s0 = cpu@;
    assert(s0 == old(cpu)@.write(address, value));
    if step > 0 {
        let next = address.wrapping_add(1);
        assert(next == wrap_inc16(address));
        cpu.registers.set16(r1, next);
    } else if step < 0 {
        let next = address.wrapping_sub(1);
        assert(next == wrap_dec16(address));
        cpu.registers.set16(r1, next);
    }
    8
}

fn run_ld_reg_from_mem(cpu: &mut CPU, r1: Registers8, r2: Registers16, step: i8) -> (c: u8)
    requires
        if step > 0 {
            ldi_r8_ar16_ready(r1, r2, old(cpu)@)
        } else if step < 0 {
            ldd_r8_ar16_ready(r1, r2, old(cpu)@)
        } else {
            ld_r8_ar16_ready(r1, r2, old(cpu)@)
        },
    ensures
        (final(cpu)@, c) == if step > 0 {
            ldi_r8_ar16_effect(r1, r2, old(cpu)@)
        } else if step < 0 {
            ldd_r8_ar16_effect(r1, r2, old(cpu)@)
        } else {
            ld_r8_ar16_effect(r1, r2, old(cpu)@)
        },
{
    reveal(ld_r8_ar16_ready);
    reveal(ldd_r8_ar16_ready);
    reveal(ldi_r8_ar16_ready);
    reveal(ldi_r8_ar16_effect);
    reveal(ldd_r8_ar16_effect);
    reveal(ld_r8_ar16_effect);
    let address = cpu.registers.get16(r2);
    let value = cpu.mmu.get(address);
    cpu.registers.set8(r1, value);
    let ghost s0 = cpu@;
    assert(s0 == old(cpu)@.set8(r1, value));
    if step > 0 {
        let next = address.wrapping_add(1);
        assert(next == wrap_inc16(address));
        cpu.registers.set16(r2, next);
    } else if step < 0 {
        let next = address.wrapping_sub(1);
        assert(next == wrap_dec16(address));
        cpu.registers.set16(r2, next);
    }
    8
}

fn run_ld_ar16_n8(cpu: &mut CPU, r: Registers16) -> (c: u8)
    requires
        ld_ar16_n8_ready(r, old(cpu)@),
    ensures
        (final(cpu)@, c) == ld_ar16_n8_effect(r, old(cpu)@),
{
    reveal(ld_ar16_n8_ready);
    reveal(ld_ar16_n8_effect);
    let address = cpu.registers.get16(r);
    let value = cpu.fetch_arg_8();
    cpu.mmu.set(address, value);
    12
}

fn run_ld_r8_an16(cpu: &mut CPU, r: Registers8) -> (c: u8)
    requires
        ld_r8_an16_ready(r, old(cpu)@),
    ensures
        (final(cpu)@, c) == ld_r8_an16_effect(r, old(cpu)@),
{
    reveal(ld_r8_an16_ready);
    reveal(ld_r8_an16_effect);
    let address = cpu.fetch_arg_16();
    let value = cpu.mmu.get(address);
    cpu.registers.set8(r, value);
    16
}

fn run_ld_r8_n8(cpu: &mut CPU, r: Registers8) -> (c: u8)
    requires
        ld_r8_n8_ready(r, old(cpu)@),
    ensures
        (final(cpu)@, c) == ld_r8_n8_effect(r, old(cpu)@),
{
    reveal(ld_r8_n8_ready);
    reveal(ld_r8_n8_effect);
    let value = cpu.fetch_arg_8();
    cpu.registers.set8(r, value);
    8
}

fn run_ld_r8_r8(cpu: &mut CPU, r1: Registers8, r2: Registers8) -> (c: u8)
    ensures
        (final(cpu)@, c) == ld_r8_r8_effect(r1, r2, old(cpu)@),
{
    reveal(ld_r8_r8_effect);
    let value = cpu.registers.get8(r2);
    cpu.registers.set8(r1, value);
    4
}

fn run_ld_an16_r16(cpu: &mut CPU, r: Registers16) -> (c: u8)
    requires
        ld_an16_r16_ready(r, old(cpu)@),
    ensures
        (final(cpu)@, c) == ld_an16_r16_effect(r, old(cpu)@),
{
    reveal(ld_an16_r16_ready);
    reveal(ld_an16_r16_effect);
    let value = cpu.registers.get16(r);
    let address = cpu.fetch_arg_16();
    cpu.mmu.set16(address, value);
    20
}

fn run_ld_an16_r8(cpu: &mut CPU, r: Registers8) -> (c: u8)
    requires
        ld_an16_r8_ready(r, old(cpu)@),
    ensures
        (final(cpu)@, c) == ld_an16_r8_effect(r, old(cpu)@),
{
    reveal(ld_an16_r8_ready);
    reveal(ld_an16_r8_effect);
    let value = cpu.registers.get8(r);
    let address = cpu.fetch_arg_16();
    cpu.mmu.set(address, value);
    16
}

fn run_ld_r16_n16(cpu: &mut CPU, r: Registers16) -> (c: u8)
    requires
        ld_r16_n16_ready(r, old(cpu)@),
    ensures
        (final(cpu)@, c) == ld_r16_n16_effect(r, old(cpu)@),
{
    reveal(ld_r16_n16_ready);
    reveal(ld_r16_n16_effect);
    let value = cpu.fetch_arg_16();
    cpu.registers.set16(r, value);
    12
}

fn run_ld_r16_r16(cpu: &mut CPU, r1: Registers16, r2: Registers16) -> (c: u8)
    ensures
        (final(cpu)@, c) == ld_r16_r16_effect(r1, r2, old(cpu)@),
{
    reveal(ld_r16_r16_effect);
    let value = cpu.registers.get16(r1);
    cpu.registers.set16(r2, value);
    12
}

/// LD HL, SP+n and ADD SP, n: a word plus a signed immediate byte.
fn run_add_signed(cpu: &mut CPU, r: Registers16, from_sp: bool) -> (c: u8)
    requires
        if from_sp { ld_r16_sp_n8_ready(r, old(cpu)@) } else { add_r16_n8_ready(r, old(cpu)@) },
    ensures
        (final(cpu)@, c) == if from_sp { ld_r16_sp_n8_effect(r, old(cpu)@) } else { add_r16_n8_effect(r, old(cpu)@) },
{
    reveal(add_r16_n8_ready);
    reveal(ld_r16_sp_n8_ready);
    reveal(ld_r16_sp_n8_effect);
    reveal(add_r16_n8_effect);
    let a = if from_sp { cpu.registers.get16(Registers16::SP) } else { cpu.registers.get16(r) };
    let b = cpu.fetch_arg_8();
    let v = helper::add_u16_i8(cpu, a, b);
    cpu.registers.set16(r, v);
    if from_sp { 12 } else { 16 }
}

fn run_ldh_an8_r8(cpu: &mut CPU, r: Registers8) -> (c: u8)
    requires
        ldh_an8_r8_ready(r, old(cpu)@),
    ensures
        (final(cpu)@, c) == ldh_an8_r8_effect(r, old(cpu)@),
{
    reveal(ldh_an8_r8_ready);
    reveal(ldh_an8_r8_effect);
    let v = cpu.registers.get8(r);
    let an = cpu.fetch_arg_8() as u16;
    cpu.mmu.set(0xFF00 + an, v);
    12
}

fn run_ldh_r8_an8(cpu: &mut CPU, r: Registers8) -> (c: u8)
    requires
        ldh_r8_an8_ready(r, old(cpu)@),
    ensures
        (final(cpu)@, c) == ldh_r8_an8_effect(r, old(cpu)@),
{
    reveal(ldh_r8_an8_ready);
    reveal(ldh_r8_an8_effect);
    let an = cpu.fetch_arg_8() as u16;
    let v = cpu.mmu.get(0xFF00 + an);
    cpu.registers.set8(r, v);
    12
}

fn run_ldc_ar8_r8(cpu: &mut CPU, r1: Registers8, r2: Registers8) -> (c: u8)
    requires
        ldc_ar8_r8_ready(r1, r2, old(cpu)@),
    ensures
        (final(cpu)@, c) == ldc_ar8_r8_effect(r1, r2, old(cpu)@),
{
    reveal(ldc_ar8_r8_ready);
    reveal(ldc_ar8_r8_effect);
    let ar = cpu.registers.get8(r1) as u16;
    let v = cpu.registers.get8(r2);
    cpu.mmu.set(0xFF00 + ar, v);
    12
}

fn run_ldc_r8_ar8(cpu: &mut CPU, r1: Registers8, r2: Registers8) -> (c: u8)
    requires
        ldc_r8_ar8_ready(r1, r2, old(cpu)@),
    ensures
        (final(cpu)@, c) == ldc_r8_ar8_effect(r1, r2, old(cpu)@),
{
    reveal(ldc_r8_ar8_ready);
    reveal(ldc_r8_ar8_effect);
    let ar = cpu.registers.get8(r2) as u16;
    let v = cpu.mmu.get(0xFF00 + ar);
    cpu.registers.set8(r1, v);
    12
}

fn run_rotate_a(cpu: &mut CPU, k: ShiftOp) -> (c: u8)
    ensures
        (final(cpu)@, c) == rotate_a_effect(k, old(cpu)@),
{
    reveal(rotate_a_effect);
    let value = cpu.registers.get8(Registers8::A);
    let out = shift(cpu, k, value);
    cpu.registers.set8(Registers8::A, out);
    cpu.registers.set_flag(Flag::Z, false);
    4
}

fn run_shift(cpu: &mut CPU, k: ShiftOp, t: Target8) -> (c: u8)
    requires
        shift_ready(k, t, old(cpu)@),
    ensures
        (final(cpu)@, c) == shift_effect(k, t, old(cpu)@),
{
    reveal(shift_ready);
    reveal(shift_effect);
    let (address, value) = read_target(cpu, t);
    let out = shift(cpu, k, value);
    write_target(cpu, t, address, out);
    match t {
        Target8::Reg(_) => if k == ShiftOp::Rr { 9 } else { 8 },
        Target8::Mem(_) => if k == ShiftOp::Sra { 1 } else { 16 },
    }
}

fn run_bit(cpu: &mut CPU, k: BitOp, n: u8, t: Target8) -> (c: u8)
    requires
        bit_ready(k, n, t, old(cpu)@),
    ensures
        (final(cpu)@, c) == bit_effect(k, n, t, old(cpu)@),
{
    reveal(bit_ready);
    reveal(bit_effect);
    let (address, value) = read_target(cpu, t);
    match k {
        BitOp::Test => helper::bit(cpu, n, value),
        BitOp::Reset => {
            let out = helper::res(n, value);
            write_target(cpu, t, address, out);
        },
        BitOp::Raise => {
            let out = crate::instruction::helper::set(n, value);
            write_target(cpu, t, address, out);
        },
    }
    match t {
        Target8::Reg(_) => 8,
        Target8::Mem(_) => 16,
    }
}

fn run_alu(cpu: &mut CPU, k: AluOp, dst: Registers8, src: Src8) -> (c: u8)
    requires
        alu_ready(k, dst, src, old(cpu)@),
    ensures
        (final(cpu)@, c) == alu_effect(k, dst, src, old(cpu)@),
{
    reveal(alu_ready);
    reveal(alu_effect);
    let a = cpu.registers.get8(dst);
    let b = read_src(cpu, src);
    let v = alu(cpu, k, a, b);
    if k != AluOp::Cp {
        cpu.registers.set8(dst, v);
    }
    match src {
        Src8::Reg(_) => 4,
        _ => 8,
    }
}

fn run_jp_f_n16(cpu: &mut CPU, f: JumpFlag) -> (c: u8)
    requires
        jp_f_n16_ready(f, old(cpu)@),
    ensures
        (final(cpu)@, c) == jp_f_n16_effect(f, old(cpu)@),
{
    reveal(jp_f_n16_ready);
    reveal(jp_f_n16_effect);
    let n = cpu.fetch_arg_16();
    if condition_holds(cpu, f) {
        helper::jump(cpu, n);
    }
    12
}

fn run_jp_n16(cpu: &mut CPU) -> (c: u8)
    requires
        jp_n16_ready(old(cpu)@),
    ensures
        (final(cpu)@, c) == jp_n16_effect(old(cpu)@),
{
    reveal(jp_n16_ready);
    reveal(jp_n16_effect);
    let n = cpu.fetch_arg_16();
    helper::jump(cpu, n);
    12
}

fn run_jp_r16(cpu: &mut CPU, r: Registers16) -> (c: u8)
    ensures
        (final(cpu)@, c) == jp_r16_effect(r, old(cpu)@),
{
    reveal(jp_r16_effect);
    let n = cpu.registers.get16(r);
    helper::jump(cpu, n);
    4
}

fn run_call_n16(cpu: &mut CPU) -> (c: u8)
    requires
        call_n16_ready(old(cpu)@),
    ensures
        (final(cpu)@, c) == call_n16_effect(old(cpu)@),
{
    reveal(call_n16_ready);
    reveal(call_n16_effect);
    let v = cpu.fetch_arg_16();
    helper::push(cpu, Registers16::PC);
    helper::jump(cpu, v);
    12
}

fn run_call_f_n16(cpu: &mut CPU, f: JumpFlag) -> (c: u8)
    requires
        call_f_n16_ready(f, old(cpu)@),
    ensures
        (final(cpu)@, c) == call_f_n16_effect(f, old(cpu)@),
{
    reveal(call_f_n16_ready);
    reveal(call_f_n16_effect);
    let n = cpu.fetch_arg_16();
    if condition_holds(cpu, f) {
        helper::call(cpu, n);
    }
    12
}

fn run_rst_f(cpu: &mut CPU, f: RstFlag) -> (c: u8)
    requires
        rst_f_ready(f, old(cpu)@),
    ensures
        (final(cpu)@, c) == rst_f_effect(f, old(cpu)@),
{
    reveal(rst_f_ready);
    reveal(rst_f_effect);
    let location = rst_locations(f);
    helper::push(cpu, Registers16::PC);
    helper::jump(cpu, location);
    32
}

fn run_ret_f(cpu: &mut CPU, f: JumpFlag) -> (c: u8)
    requires
        ret_f_ready(f, old(cpu)@),
    ensures
        (final(cpu)@, c) == ret_f_effect(f, old(cpu)@),
{
    reveal(ret_f_ready);
    reveal(ret_f_effect);
    if condition_holds(cpu, f) {
        helper::ret(cpu);
    }
    8
}

fn run_reti(cpu: &mut CPU) -> (c: u8)
    requires
        reti_ready(old(cpu)@),
    ensures
        (final(cpu)@, c) == reti_effect(old(cpu)@),
{
    reveal(reti_ready);
    reveal(reti_effect);
    helper::ret(cpu);
    cpu.registers.ime = IME::Queued;
    8
}

fn run_jr_n8(cpu: &mut CPU) -> (c: u8)
    requires
        jr_n8_ready(old(cpu)@),
    ensures
        (final(cpu)@, c) == jr_n8_effect(old(cpu)@),
{
    reveal(jr_n8_ready);
    reveal(jr_n8_effect);
    let n = cpu.fetch_arg_8();
    helper::jr(cpu, n);
    8
}

fn run_jr_f_n8(cpu: &mut CPU, f: JumpFlag) -> (c: u8)
    requires
        jr_f_n8_ready(f, old(cpu)@),
    ensures
        (final(cpu)@, c) == jr_f_n8_effect(f, old(cpu)@),
{
    reveal(jr_f_n8_ready);
    reveal(jr_f_n8_effect);
    let n = cpu.fetch_arg_8();
    if condition_holds(cpu, f) {
        helper::jr(cpu, n);
    }
    8
}

fn run_cpl(cpu: &mut CPU) -> (c: u8)
    ensures
        (final(cpu)@, c) == cpl_effect(old(cpu)@),
{
    reveal(cpl_effect);
    let v = cpu.registers.get8(Registers8::A);
    assert(!v == (255 - v) as u8) by (bit_vector);
    cpu.registers.set8(Registers8::A, !v);
    cpu.registers.set_flag(Flag::N, true);
    cpu.registers.set_flag(Flag::H, true);
    4
}

fn run_daa(cpu: &mut CPU) -> (c: u8)
    ensures
        (final(cpu)@, c) == daa_effect(old(cpu)@),
{
    reveal(daa_effect);
    let mut v = cpu.registers.get8(Registers8::A);

    let n = cpu.registers.get_flag(Flag::N);
    let h = cpu.registers.get_flag(Flag::H);
    let c = cpu.registers.get_flag(Flag::C);

    if n {
        if c {
            v = v.wrapping_sub(0x60);
        }
        if h {
            v = v.wrapping_sub(0x06);
        }
    } else {
        if c || v > 0x99 {
            v = v.wrapping_add(0x60);
            cpu.registers.set_flag(Flag::C, true);
        }
        let low = v & 0x0F;
        assert(low == v % 16) by (bit_vector)
            requires low == v & 0x0F;
        if h || low > 9 {
            v = v.wrapping_add(0x06);
        }
    }

    cpu.registers.set8(Registers8::A, v);

    cpu.registers.set_flag(Flag::Z, v == 0);
    cpu.registers.set_flag(Flag::H, false);
    4
}

fn run_flags(cpu: &mut CPU, complement: bool) -> (c: u8)
    ensures
        (final(cpu)@, c) == if complement { ccf_effect(old(cpu)@) } else { scf_effect(old(cpu)@) },
{
    reveal(ccf_effect);
    reveal(scf_effect);
    let c = cpu.registers.get_flag(Flag::C);
    cpu.registers.set_flag(Flag::N, false);
    cpu.registers.set_flag(Flag::H, false);
    cpu.registers.set_flag(Flag::C, if complement { !c } else { true });
    4
}

fn run_add_r16_r16(cpu: &mut CPU, r1: Registers16, r2: Registers16) -> (c: u8)
    ensures
        (final(cpu)@, c) == add_r16_r16_effect(r1, r2, old(cpu)@),
{
    reveal(add_r16_r16_effect);
    let a = cpu.registers.get16(r1);
    let b = cpu.registers.get16(r2);

    let v = a.wrapping_add(b);
    let overflow = a as u32 + b as u32 > 0xFFFF;
    assert(v == (a as int + b as int) % 0x10000);
    let h = bytes::check_half_carry16(a, b);
    let ghost s0 = cpu@;

    cpu.registers.set16(r1, v);
    assert(cpu@ == s0.set16(r1, v));

    cpu.registers.set_flag(Flag::C, overflow);
    cpu.registers.set_flag(Flag::N, false);
    cpu.registers.set_flag(Flag::H, h);
    8
}

fn run_stop(cpu: &mut CPU) -> (c: u8)
    ensures
        (final(cpu)@, c) == stop_effect(old(cpu)@),
{
    reveal(stop_effect);
    cpu.stop();
    4
}

fn run_halt(cpu: &mut CPU) -> (c: u8)
    ensures
        (final(cpu)@, c) == halt_effect(old(cpu)@),
{
    reveal(halt_effect);
    cpu.halt();
    4
}

fn run_push_r16(cpu: &mut CPU, r: Registers16) -> (c: u8)
    requires
        push_r16_ready(r, old(cpu)@),
    ensures
        (final(cpu)@, c) == push_r16_effect(r, old(cpu)@),
{
    reveal(push_r16_ready);
    reveal(push_r16_effect);
    helper::push(cpu, r);
    16
}

fn run_di(cpu: &mut CPU) -> (c: u8)
    ensures
        (final(cpu)@, c) == di_effect(old(cpu)@),
{
    reveal(di_effect);
    cpu.disable_interrupts();
    4
}

fn run_ei(cpu: &mut CPU) -> (c: u8)
    ensures
        (final(cpu)@, c) == ei_effect(old(cpu)@),
{
    reveal(ei_effect);
    cpu.enable_interrupts();
    4
}

fn run_ret(cpu: &mut CPU) -> (c: u8)
    requires
        ret_ready(old(cpu)@),
    ensures
        (final(cpu)@, c) == ret_effect(old(cpu)@),
{
    reveal(ret_ready);
    reveal(ret_effect);
    helper::ret(cpu);
    8
}

fn run_pop_r16(cpu: &mut CPU, r: Registers16) -> (c: u8)
    requires
        pop_r16_ready(r, old(cpu)@),
    ensures
        (final(cpu)@, c) == pop_r16_effect(r, old(cpu)@),
{
    reveal(pop_r16_ready);
    reveal(pop_r16_effect);
    helper::pop(cpu, r);
    12
}

fn run_move(op: MoveOp, cpu: &mut CPU) -> (c: u8)
    requires
        move_ready(op, old(cpu)@),
    ensures
        (final(cpu)@, c) == move_effect(op, old(cpu)@),
{
    reveal(move_ready);
    reveal(move_effect);
    match op {
        MoveOp::LdAr16R8(r1, r2) => run_ld_mem_from_reg(cpu, r1, r2, 0),
        MoveOp::LdR8Ar16(r1, r2) => run_ld_reg_from_mem(cpu, r1, r2, 0),
        MoveOp::LdiR8Ar16(r1, r2) => run_ld_reg_from_mem(cpu, r1, r2, 1),
        MoveOp::LddR8Ar16(r1, r2) => run_ld_reg_from_mem(cpu, r1, r2, -1),
        MoveOp::LdiAr16R8(r1, r2) => run_ld_mem_from_reg(cpu, r1, r2, 1),
        MoveOp::LddAr16R8(r1, r2) => run_ld_mem_from_reg(cpu, r1, r2, -1),
        MoveOp::LdR8R8(r1, r2) => run_ld_r8_r8(cpu, r1, r2),
        MoveOp::LdR16R16(r1, r2) => run_ld_r16_r16(cpu, r1, r2),
        MoveOp::LdcAr8R8(r1, r2) => run_ldc_ar8_r8(cpu, r1, r2),
        MoveOp::LdcR8Ar8(r1, r2) => run_ldc_r8_ar8(cpu, r1, r2),
    }
}

fn run_imm(op: ImmOp, cpu: &mut CPU) -> (c: u8)
    requires
        imm_ready(op, old(cpu)@),
    ensures
        (final(cpu)@, c) == imm_effect(op, old(cpu)@),
{
    reveal(imm_ready);
    reveal(imm_effect);
    match op {
        ImmOp::LdAr16N8(r) => run_ld_ar16_n8(cpu, r),
        ImmOp::LdR8An16(r) => run_ld_r8_an16(cpu, r),
        ImmOp::LdR8N8(r) => run_ld_r8_n8(cpu, r),
        ImmOp::LdAn16R16(r) => run_ld_an16_r16(cpu, r),
        ImmOp::LdAn16R8(r) => run_ld_an16_r8(cpu, r),
        ImmOp::LdR16N16(r) => run_ld_r16_n16(cpu, r),
        ImmOp::LdR16SpN8(r) => run_add_signed(cpu, r, true),
        ImmOp::LdhAn8R8(r) => run_ldh_an8_r8(cpu, r),
        ImmOp::LdhR8An8(r) => run_ldh_r8_an8(cpu, r),
    }
}

fn run_arith(op: ArithOp, cpu: &mut CPU) -> (c: u8)
    requires
        arith_ready(op, old(cpu)@),
    ensures
        (final(cpu)@, c) == arith_effect(op, old(cpu)@),
{
    reveal(arith_ready);
    reveal(arith_effect);
    match op {
        ArithOp::DecR8(r) => run_dec_r8(cpu, r),
        ArithOp::DecR16(r) => run_step16(cpu, r, false),
        ArithOp::DecAr16(r) => run_dec_ar16(cpu, r),
        ArithOp::IncR8(r) => run_inc_r8(cpu, r),
        ArithOp::IncR16(r) => run_step16(cpu, r, true),
        ArithOp::IncAr16(r) => run_inc_ar16(cpu, r),
        ArithOp::AddR16N8(r) => run_add_signed(cpu, r, false),
        ArithOp::AddR16R16(r1, r2) => run_add_r16_r16(cpu, r1, r2),
    }
}

fn run_flow(op: FlowOp, cpu: &mut CPU) -> (c: u8)
    requires
        flow_ready(op, old(cpu)@),
    ensures
        (final(cpu)@, c) == flow_effect(op, old(cpu)@),
{
    reveal(flow_ready);
    reveal(flow_effect);
    match op {
        FlowOp::JpFN16(f) => run_jp_f_n16(cpu, f),
        FlowOp::JpN16 => run_jp_n16(cpu),
        FlowOp::JpR16(r) => run_jp_r16(cpu, r),
        FlowOp::CallN16 => run_call_n16(cpu),
        FlowOp::CallFN16(f) => run_call_f_n16(cpu, f),
        FlowOp::PushR16(r) => run_push_r16(cpu, r),
        FlowOp::RstF(f) => run_rst_f(cpu, f),
        FlowOp::Ret => run_ret(cpu),
        FlowOp::Reti => run_reti(cpu),
        FlowOp::RetF(f) => run_ret_f(cpu, f),
        FlowOp::PopR16(r) => run_pop_r16(cpu, r),
        FlowOp::JrN8 => run_jr_n8(cpu),
        FlowOp::JrFN8(f) => run_jr_f_n8(cpu, f),
    }
}

fn run_ctrl(op: CtrlOp, cpu: &mut CPU) -> (c: u8)
    ensures
        (final(cpu)@, c) == ctrl_effect(op, old(cpu)@),
{
    reveal(ctrl_effect);
    match op {
        CtrlOp::Nop => {
            proof {
                reveal(nop_effect);
            }
            4
        },
        CtrlOp::Stop => run_stop(cpu),
        CtrlOp::Halt => run_halt(cpu),
        CtrlOp::Di => run_di(cpu),
        CtrlOp::Ei => run_ei(cpu),
        CtrlOp::Cpl => run_cpl(cpu),
        CtrlOp::Daa => run_daa(cpu),
        CtrlOp::Scf => run_flags(cpu, false),
        CtrlOp::Ccf => run_flags(cpu, true),
    }
}

fn run(op: Op, cpu: &mut CPU) -> (c: u8)
    requires
        ready(op, old(cpu)@),
    ensures
        (final(cpu)@, c) == effect(op, old(cpu)@),
{
    match op {
        Op::Move(m) => run_move(m, cpu),
        Op::Imm(m) => run_imm(m, cpu),
        Op::Arith(m) => run_arith(m, cpu),
        Op::Flow(m) => run_flow(m, cpu),
        Op::Ctrl(m) => run_ctrl(m, cpu),
        Op::RotateA(k) => run_rotate_a(cpu, k),
        Op::Shift(k, t) => run_shift(cpu, k, t),
        Op::Alu(k, dst, src) => run_alu(cpu, k, dst, src),
        Op::Bit(k, n, t) => run_bit(cpu, k, n, t),
        Op::Illegal(_) => {
            assert(false);
            0
        },
    }
}

/// The byte at PC, if it can be read.
fn peek8(cpu: &CPU) -> (r: (bool, u8))
    ensures
        r.0 == cpu@.can_fetch8(),
        r.0 ==> r.1 == cpu@.fetch8().0,
{
    let pc = cpu.registers.get16(Registers16::PC);
    if cpu.mmu.can_read(pc) {
        (true, cpu.mmu.get(pc))
    } else {
        (false, 0)
    }
}

/// The little endian word at PC, if both its bytes can be read.
fn peek16(cpu: &CPU) -> (r: (bool, u16))
    ensures
        r.0 == cpu@.can_fetch16(),
        r.0 ==> r.1 == cpu@.fetch16().0,
{
    let pc = cpu.registers.get16(Registers16::PC);
    let next = pc.wrapping_add(1);
    assert(next == ((pc as int + 1) % 0x10000) as u16);
    if cpu.mmu.can_read(pc) && cpu.mmu.can_read(next) {
        (true, bytes::combine_ms_ls(cpu.mmu.get(next), cpu.mmu.get(pc)))
    } else {
        (false, 0)
    }
}

fn can_pop_now(cpu: &CPU) -> (b: bool)
    ensures
        b == can_pop(cpu@),
{
    let sp = cpu.registers.get16(Registers16::SP);
    sp <= 0xFFFD && cpu.mmu.can_read(sp) && cpu.mmu.can_read(sp + 1)
}

fn target_ok(t: Target8, cpu: &CPU, write: bool) -> (b: bool)
    ensures
        b == if write { target_ready(t, cpu@) } else { target_readable(t, cpu@) },
{
    match t {
        Target8::Reg(_) => true,
        Target8::Mem(r) => {
            let a = cpu.registers.get16(r);
            cpu.mmu.can_read(a) && (!write || cpu.mmu.can_write(a))
        },
    }
}

fn move_ok(op: MoveOp, cpu: &CPU) -> (b: bool)
    ensures
        b == move_ready(op, cpu@),
{
    reveal(move_ready);
    reveal(ld_ar16_r8_ready);
    reveal(ld_r8_ar16_ready);
    reveal(ldi_r8_ar16_ready);
    reveal(ldd_r8_ar16_ready);
    reveal(ldi_ar16_r8_ready);
    reveal(ldd_ar16_r8_ready);
    reveal(ldc_ar8_r8_ready);
    reveal(ldc_r8_ar8_ready);
    match op {
        MoveOp::LdAr16R8(r1, _) => cpu.mmu.can_write(cpu.registers.get16(r1)),
        MoveOp::LdiAr16R8(r1, _) => cpu.mmu.can_write(cpu.registers.get16(r1)),
        MoveOp::LddAr16R8(r1, _) => cpu.mmu.can_write(cpu.registers.get16(r1)),
        MoveOp::LdR8Ar16(_, r2) => cpu.mmu.can_read(cpu.registers.get16(r2)),
        MoveOp::LdiR8Ar16(_, r2) => cpu.mmu.can_read(cpu.registers.get16(r2)),
        MoveOp::LddR8Ar16(_, r2) => cpu.mmu.can_read(cpu.registers.get16(r2)),
        MoveOp::LdcAr8R8(r1, _) => cpu.mmu.can_write(0xFF00 + cpu.registers.get8(r1) as u16),
        MoveOp::LdcR8Ar8(_, r2) => cpu.mmu.can_read(0xFF00 + cpu.registers.get8(r2) as u16),
        _ => true,
    }
}

fn imm_ok(op: ImmOp, cpu: &CPU) -> (b: bool)
    ensures
        b == imm_ready(op, cpu@),
{
    reveal(imm_ready);
    reveal(ld_ar16_n8_ready);
    reveal(ld_r8_an16_ready);
    reveal(ld_r8_n8_ready);
    reveal(ld_an16_r16_ready);
    reveal(ld_an16_r8_ready);
    reveal(ld_r16_n16_ready);
    reveal(ld_r16_sp_n8_ready);
    reveal(ldh_an8_r8_ready);
    reveal(ldh_r8_an8_ready);
    let (ok8, n) = peek8(cpu);
    let (ok16, a) = peek16(cpu);
    match op {
        ImmOp::LdAr16N8(r) => ok8 && cpu.mmu.can_write(cpu.registers.get16(r)),
        ImmOp::LdR8An16(_) => ok16 && cpu.mmu.can_read(a),
        ImmOp::LdR8N8(_) => ok8,
        ImmOp::LdAn16R16(r) => {
            let next = a.wrapping_add(1);
            assert(next == wrap_inc16(a));
            if ok16 && cpu.mmu.can_write(a) {
                proof {
                    crate::mmu::lemma_written_keeps_access(cpu@.mmu, a, (cpu@.r16(r) / 256) as u8, next);
                }
                cpu.mmu.can_write(next)
            } else {
                false
            }
        },
        ImmOp::LdAn16R8(_) => ok16 && cpu.mmu.can_write(a),
        ImmOp::LdR16N16(_) => ok16,
        ImmOp::LdR16SpN8(_) => ok8 && n != 0x80,
        ImmOp::LdhAn8R8(_) => ok8 && cpu.mmu.can_write(0xFF00 + n as u16),
        ImmOp::LdhR8An8(_) => ok8 && cpu.mmu.can_read(0xFF00 + n as u16),
    }
}

fn arith_ok(op: ArithOp, cpu: &CPU) -> (b: bool)
    ensures
        b == arith_ready(op, cpu@),
{
    reveal(arith_ready);
    reveal(dec_ar16_ready);
    reveal(inc_ar16_ready);
    reveal(add_r16_n8_ready);
    match op {
        ArithOp::DecAr16(r) => target_ok(Target8::Mem(r), cpu, true),
        ArithOp::IncAr16(r) => target_ok(Target8::Mem(r), cpu, true),
        ArithOp::AddR16N8(_) => {
            let (ok, n) = peek8(cpu);
            ok && n != 0x80
        },
        _ => true,
    }
}

fn flow_ok(op: FlowOp, cpu: &CPU) -> (b: bool)
    ensures
        b == flow_ready(op, cpu@),
{
    reveal(flow_ready);
    reveal(jp_f_n16_ready);
    reveal(jp_n16_ready);
    reveal(call_n16_ready);
    reveal(call_f_n16_ready);
    reveal(push_r16_ready);
    reveal(rst_f_ready);
    reveal(ret_ready);
    reveal(reti_ready);
    reveal(ret_f_ready);
    reveal(pop_r16_ready);
    reveal(jr_n8_ready);
    reveal(jr_f_n8_ready);
    let (ok8, n) = peek8(cpu);
    let (ok16, _) = peek16(cpu);
    match op {
        FlowOp::JpFN16(_) => ok16,
        FlowOp::JpN16 => ok16,
        FlowOp::JpR16(_) => true,
        FlowOp::CallN16 => ok16 && cpu.can_push_pc(),
        FlowOp::CallFN16(f) => ok16 && (!condition_holds(cpu, f) || cpu.can_push_pc()),
        FlowOp::PushR16(_) => cpu.can_push_pc(),
        FlowOp::RstF(_) => cpu.can_push_pc(),
        FlowOp::Ret => can_pop_now(cpu),
        FlowOp::Reti => can_pop_now(cpu),
        FlowOp::RetF(f) => !condition_holds(cpu, f) || can_pop_now(cpu),
        FlowOp::PopR16(_) => can_pop_now(cpu),
        FlowOp::JrN8 => ok8 && n != 0x80,
        FlowOp::JrFN8(f) => ok8 && (!condition_holds(cpu, f) || n != 0x80),
    }
}

fn op_ok(op: Op, cpu: &CPU) -> (b: bool)
    ensures
        b == ready(op, cpu@),
{
    match op {
        Op::Move(m) => move_ok(m, cpu),
        Op::Imm(m) => imm_ok(m, cpu),
        Op::Arith(m) => arith_ok(m, cpu),
        Op::Flow(m) => flow_ok(m, cpu),
        Op::Ctrl(_) => true,
        Op::RotateA(_) => true,
        Op::Shift(k, t) => {
            reveal(shift_ready);
            target_ok(t, cpu, true)
        },
        Op::Alu(k, dst, src) => {
            reveal(alu_ready);
            match src {
                Src8::Reg(_) => true,
                Src8::Imm => peek8(cpu).0,
                Src8::Mem(r) => cpu.mmu.can_read(cpu.registers.get16(r)),
            }
        },
        Op::Bit(k, n, t) => {
            reveal(bit_ready);
            n < 8 && target_ok(t, cpu, k != BitOp::Test)
        },
        Op::Illegal(_) => false,
    }
}

fn cycles(a: u8) -> (r: OpResult)
    ensures
        r.cycles == a,
{
    OpResult { cycles: a }
}

/// An instruction: what it does and how it is described.
pub struct Instruction {
    pub op: Op,
    pub description: String,
}

impl Instruction {
    pub fn new(description: String, op: Op) -> (i: Instruction)
        ensures
            i.op == op,
            i.description@ == description@,
    {
        Instruction { description: description, op: op }
    }

    /// Whether the instruction can run on the processor (see `ready`).
    pub fn can_run(&self, cpu: &CPU) -> (b: bool)
        ensures
            b == ready(self.op, cpu@),
    {
        op_ok(self.op, cpu)
    }

    /// Runs the instruction on the processor.
    pub fn call(&self, cpu: &mut CPU) -> (r: OpResult)
        requires
            ready(self.op, old(cpu)@),
        ensures
            (final(cpu)@, r.cycles) == effect(self.op, old(cpu)@),
    {
        cycles(run(self.op, cpu))
    }
}

/// The description of the instruction that the opcode table holds for an operation.
pub open spec fn describe_op(op: Op) -> Seq<char> {
    match op {
        Op::Ctrl(CtrlOp::Nop) => "NOP"@,
        Op::Arith(ArithOp::DecR8(r)) => "DEC R8: "@ + reg8_name(r),
        Op::Arith(ArithOp::IncR8(r)) => "INC R8: "@ + reg8_name(r),
        Op::Arith(ArithOp::DecR16(r)) => "DEC R16: "@ + reg16_name(r),
        Op::Arith(ArithOp::DecAr16(r)) => "DEC AR16: "@ + reg16_name(r),
        Op::Arith(ArithOp::IncR16(r)) => "INC R16: "@ + reg16_name(r),
        Op::Arith(ArithOp::IncAr16(r)) => "INC AR16: "@ + reg16_name(r),
        Op::Move(MoveOp::LdAr16R8(r1, r2)) => "LD AR16 R8 | "@ + reg16_name(r1) + " "@ + reg8_name(r2),
        Op::Imm(ImmOp::LdAr16N8(r)) => "LD AR16 N8 | "@ + reg16_name(r),
        Op::Move(MoveOp::LdR8Ar16(r1, r2)) => "LD R8 AR16 | "@ + reg8_name(r1) + " "@ + reg16_name(r2),
        Op::Imm(ImmOp::LdR8An16(r)) => "LD R8 AN16 | "@ + reg8_name(r),
        Op::Move(MoveOp::LdiR8Ar16(r1, r2)) => "LDI R8 AR16 | "@ + reg8_name(r1) + " "@ + reg16_name(r2),
        Op::Move(MoveOp::LddR8Ar16(r1, r2)) => "LDD R7 AR16 | "@ + reg8_name(r1) + " "@ + reg16_name(r2),
        Op::Move(MoveOp::LdiAr16R8(r1, r2)) => "LDI AR16 R8 | "@ + reg16_name(r1) + " "@ + reg8_name(r2),
        Op::Move(MoveOp::LddAr16R8(r1, r2)) => "LDD AR16 R8 | "@ + reg16_name(r1) + " "@ + reg8_name(r2),
        Op::Imm(ImmOp::LdR8N8(r)) => "LD R8 N8 | "@ + reg8_name(r),
        Op::Move(MoveOp::LdR8R8(r1, r2)) => "LD R8 R8 | "@ + reg8_name(r1) + " "@ + reg8_name(r2),
        Op::Imm(ImmOp::LdAn16R16(r)) => "LD AN16 R16 | "@ + reg16_name(r),
        Op::Imm(ImmOp::LdAn16R8(r)) => "LD AN16 R8 | "@ + reg8_name(r),
        Op::Imm(ImmOp::LdR16N16(r)) => "LD R16 N16 | "@ + reg16_name(r),
        Op::Move(MoveOp::LdR16R16(r1, r2)) => "LD R16 R16 | "@ + reg16_name(r1) + " "@ + reg16_name(r2),
        Op::Imm(ImmOp::LdR16SpN8(r)) => "LD R16 SPN8 | "@ + reg16_name(r),
        Op::Imm(ImmOp::LdhAn8R8(r)) => "LDH AN8 R8 | "@ + reg8_name(r),
        Op::Imm(ImmOp::LdhR8An8(r)) => "LDH R8 AN8 | "@ + reg8_name(r),
        Op::Move(MoveOp::LdcAr8R8(r1, r2)) => "LDC AR8 R8 | "@ + reg8_name(r1) + " "@ + reg8_name(r2),
        Op::Move(MoveOp::LdcR8Ar8(r1, r2)) => "LDC R8 AR8 | "@ + reg8_name(r1) + " "@ + reg8_name(r2),
        Op::RotateA(ShiftOp::Rl) => "RLA"@,
        Op::RotateA(ShiftOp::Rrc) => "RRCA"@,
        Op::RotateA(ShiftOp::Rr) => "RRA"@,
        Op::RotateA(ShiftOp::Rlc) => "RLCA"@,
        Op::Shift(ShiftOp::Rl, Target8::Reg(r)) => "RL R8 | "@ + reg8_name(r),
        Op::Shift(ShiftOp::Rl, Target8::Mem(r)) => "RL AR16 | "@ + reg16_name(r),
        Op::Shift(ShiftOp::Rrc, Target8::Reg(r)) => "RRC R8 | "@ + reg8_name(r),
        Op::Shift(ShiftOp::Rrc, Target8::Mem(r)) => "RRC AR16 | "@ + reg16_name(r),
        Op::Shift(ShiftOp::Rr, Target8::Reg(r)) => "RR R8: | "@ + reg8_name(r),
        Op::Shift(ShiftOp::Rr, Target8::Mem(r)) => "RR AR16 | "@ + reg16_name(r),
        Op::Shift(ShiftOp::Rlc, Target8::Reg(r)) => "RLC R8 | "@ + reg8_name(r),
        Op::Shift(ShiftOp::Rlc, Target8::Mem(r)) => "RLC AR16 | "@ + reg16_name(r),
        Op::Shift(ShiftOp::Sla, Target8::Reg(r)) => "SLA R8 | "@ + reg8_name(r),
        Op::Shift(ShiftOp::Sla, Target8::Mem(r)) => "SLA AR16 | "@ + reg16_name(r),
        Op::Shift(ShiftOp::Sra, Target8::Reg(r)) => "SRA R8 | "@ + reg8_name(r),
        Op::Shift(ShiftOp::Sra, Target8::Mem(r)) => "SRA AR16 | "@ + reg16_name(r),
        Op::Ctrl(CtrlOp::Stop) => "STOP"@,
        Op::Ctrl(CtrlOp::Halt) => "HALT"@,
        Op::Flow(FlowOp::JpFN16(f)) => "JP F | "@ + jump_flag_name(f),
        Op::Flow(FlowOp::JpN16) => "JP N16"@,
        Op::Flow(FlowOp::JpR16(r)) => "JP AR16 | "@ + reg16_name(r),
        Op::Flow(FlowOp::CallN16) => "CALL N16"@,
        Op::Flow(FlowOp::CallFN16(f)) => "CALL F N16 | "@ + jump_flag_name(f),
        Op::Flow(FlowOp::PushR16(r)) => "PUSH R16 | "@ + reg16_name(r),
        Op::Flow(FlowOp::RstF(f)) => "RST F: "@ + rst_flag_name(f),
        Op::Ctrl(CtrlOp::Di) => "DI"@,
        Op::Ctrl(CtrlOp::Ei) => "EI"@,
        Op::Flow(FlowOp::Ret) => "RET"@,
        Op::Flow(FlowOp::Reti) => "RETI"@,
        Op::Flow(FlowOp::RetF(f)) => "RET F | "@ + jump_flag_name(f),
        Op::Flow(FlowOp::PopR16(r)) => "POP R16 | "@ + reg16_name(r),
        Op::Flow(FlowOp::JrN8) => "JR N8"@,
        Op::Flow(FlowOp::JrFN8(f)) => "JR F N8 | "@ + jump_flag_name(f),
        Op::Ctrl(CtrlOp::Cpl) => "CPL"@,
        Op::Ctrl(CtrlOp::Daa) => "DAA"@,
        Op::Ctrl(CtrlOp::Scf) => "SCF"@,
        Op::Ctrl(CtrlOp::Ccf) => "CCF"@,
        Op::Arith(ArithOp::AddR16N8(r)) => "ADD R16 N8 | "@ + reg16_name(r),
        Op::Alu(AluOp::Add, r1, Src8::Reg(r2)) => "ADD R8 R8 | "@ + reg8_name(r1) + " "@ + reg8_name(r2),
        Op::Alu(AluOp::Add, r, Src8::Imm) => "ADD R8 N8 | "@ + reg8_name(r),
        Op::Alu(AluOp::Add, r1, Src8::Mem(r2)) => "ADD R8 AR16 | "@ + reg8_name(r1) + " "@ + reg16_name(r2),
        Op::Alu(AluOp::Adc, r1, Src8::Reg(r2)) => "ADC R8 R8 | "@ + reg8_name(r1) + " "@ + reg8_name(r2),
        Op::Alu(AluOp::Adc, r, Src8::Imm) => "ADC R8 N8 | "@ + reg8_name(r),
        Op::Alu(AluOp::Adc, r1, Src8::Mem(r2)) => "ADC R8 AR16 | "@ + reg8_name(r1) + " "@ + reg16_name(r2),
        Op::Arith(ArithOp::AddR16R16(r1, r2)) => "ADD R16 R16 | "@ + reg16_name(r1) + " "@ + reg16_name(r2),
        Op::Alu(AluOp::Sub, r1, Src8::Reg(r2)) => "SUB R8 R8 | "@ + reg8_name(r1) + " "@ + reg8_name(r2),
        Op::Alu(AluOp::Sub, r, Src8::Imm) => "SUB R8 N8 | "@ + reg8_name(r),
        Op::Alu(AluOp::Sub, r1, Src8::Mem(r2)) => "SUB R8 AR16 | "@ + reg8_name(r1) + " "@ + reg16_name(r2),
        Op::Alu(AluOp::Sbc, r1, Src8::Reg(r2)) => "SBC R8 R8 | "@ + reg8_name(r1) + " "@ + reg8_name(r2),
        Op::Alu(AluOp::Sbc, r, Src8::Imm) => "SBC R8 N8 | "@ + reg8_name(r),
        Op::Alu(AluOp::Sbc, r1, Src8::Mem(r2)) => "SBC R8 R16 | "@ + reg8_name(r1) + " "@ + reg16_name(r2),
        Op::Alu(AluOp::And, r1, Src8::Reg(r2)) => "AND R8 R8 | "@ + reg8_name(r1) + " "@ + reg8_name(r2),
        Op::Alu(AluOp::And, r, Src8::Imm) => "AND R8 N8 | "@ + reg8_name(r),
        Op::Alu(AluOp::And, r1, Src8::Mem(r2)) => "AND R8 AR16 | "@ + reg8_name(r1) + " "@ + reg16_name(r2),
        Op::Alu(AluOp::Xor, r1, Src8::Reg(r2)) => "XOR R8 R8 | "@ + reg8_name(r1) + " "@ + reg8_name(r2),
        Op::Alu(AluOp::Xor, r, Src8::Imm) => "XOR R8 N8 | "@ + reg8_name(r),
        Op::Alu(AluOp::Xor, r1, Src8::Mem(r2)) => "XOR R8 AR16 | "@ + reg8_name(r1) + " "@ + reg16_name(r2),
        Op::Alu(AluOp::Or, r1, Src8::Reg(r2)) => "OX R8 R8 | "@ + reg8_name(r1) + " "@ + reg8_name(r2),
        Op::Alu(AluOp::Or, r, Src8::Imm) => "OR R8 N8 | "@ + reg8_name(r),
        Op::Alu(AluOp::Or, r1, Src8::Mem(r2)) => "OR R8 AR16 | "@ + reg8_name(r1) + " "@ + reg16_name(r2),
        Op::Alu(AluOp::Cp, r1, Src8::Reg(r2)) => "CP R8 R8 | "@ + reg8_name(r1) + " "@ + reg8_name(r2),
        Op::Alu(AluOp::Cp, r, Src8::Imm) => "CP R8 N8 | "@ + reg8_name(r),
        Op::Alu(AluOp::Cp, r1, Src8::Mem(r2)) => "CP R8 AR16 | "@ + reg8_name(r1) + " "@ + reg16_name(r2),
        Op::Shift(ShiftOp::Swap, Target8::Reg(r)) => "SWAP | "@ + reg8_name(r),
        Op::Shift(ShiftOp::Swap, Target8::Mem(r)) => "SWAP | "@ + reg16_name(r),
        Op::Shift(ShiftOp::Srl, Target8::Reg(r)) => "SRC R8 | "@ + reg8_name(r),
        Op::Shift(ShiftOp::Srl, Target8::Mem(r)) => "SRL AR16 | "@ + reg16_name(r),
        Op::Bit(BitOp::Test, n, Target8::Reg(r)) => "BIT R8 | "@ + digits(n as nat, 10) + " "@ + reg8_name(r),
        Op::Bit(BitOp::Test, n, Target8::Mem(r)) => "BIT AR16 | "@ + digits(n as nat, 10) + " "@ + reg16_name(r),
        Op::Bit(BitOp::Reset, n, Target8::Reg(r)) => "RES R8 | "@ + digits(n as nat, 10) + " "@ + reg8_name(r),
        Op::Bit(BitOp::Reset, n, Target8::Mem(r)) => "RES AR16 | "@ + digits(n as nat, 10) + " "@ + reg16_name(r),
        Op::Bit(BitOp::Raise, n, Target8::Reg(r)) => "SET R8 | "@ + digits(n as nat, 10) + " "@ + reg8_name(r),
        Op::Bit(BitOp::Raise, n, Target8::Mem(r)) => "SET AR16 | "@ + digits(n as nat, 10) + " "@ + reg16_name(r),
        Op::Illegal(opcode) => "Illegal opcode: 0x"@ + digits(opcode as nat, 16),
        _ => Seq::empty(),
    }
}

/// Does nothing; PC has already moved past the opcode.
pub fn nop() -> (i: Instruction)
    ensures
        i.op == Op::Ctrl(CtrlOp::Nop),
        i.description@ == "NOP"@,
        i.description@ == describe_op(i.op),
{
    Instruction::new(String::from_str("NOP"), Op::Ctrl(CtrlOp::Nop))
}

pub fn dec_r8(r: Registers8) -> (i: Instruction)
    ensures
        i.op == Op::Arith(ArithOp::DecR8(r)),
        i.description@ == "DEC R8: "@ + reg8_name(r),
        i.description@ == describe_op(i.op),
{
    Instruction::new(join("DEC R8: ", reg8_str(r)), Op::Arith(ArithOp::DecR8(r)))
}

pub fn inc_r8(r: Registers8) -> (i: Instruction)
    ensures
        i.op == Op::Arith(ArithOp::IncR8(r)),
        i.description@ == "INC R8: "@ + reg8_name(r),
        i.description@ == describe_op(i.op),
{
    Instruction::new(join("INC R8: ", reg8_str(r)), Op::Arith(ArithOp::IncR8(r)))
}

pub fn dec_r16(r: Registers16) -> (i: Instruction)
    ensures
        i.op == Op::Arith(ArithOp::DecR16(r)),
        i.description@ == "DEC R16: "@ + reg16_name(r),
        i.description@ == describe_op(i.op),
{
    Instruction::new(join("DEC R16: ", reg16_str(r)), Op::Arith(ArithOp::DecR16(r)))
}

pub fn dec_ar16(r: Registers16) -> (i: Instruction)
    ensures
        i.op == Op::Arith(ArithOp::DecAr16(r)),
        i.description@ == "DEC AR16: "@ + reg16_name(r),
        i.description@ == describe_op(i.op),
{
    Instruction::new(join("DEC AR16: ", reg16_str(r)), Op::Arith(ArithOp::DecAr16(r)))
}

pub fn inc_r16(r: Registers16) -> (i: Instruction)
    ensures
        i.op == Op::Arith(ArithOp::IncR16(r)),
        i.description@ == "INC R16: "@ + reg16_name(r),
        i.description@ == describe_op(i.op),
{
    Instruction::new(join("INC R16: ", reg16_str(r)), Op::Arith(ArithOp::IncR16(r)))
}

pub fn inc_ar16(r: Registers16) -> (i: Instruction)
    ensures
        i.op == Op::Arith(ArithOp::IncAr16(r)),
        i.description@ == "INC AR16: "@ + reg16_name(r),
        i.description@ == describe_op(i.op),
{
    Instruction::new(join("INC AR16: ", reg16_str(r)), Op::Arith(ArithOp::IncAr16(r)))
}

/// Stores r2 in the memory r1 points at.
pub fn ld_ar16_r8(r1: Registers16, r2: Registers8) -> (i: Instruction)
    ensures
        i.op == Op::Move(MoveOp::LdAr16R8(r1, r2)),
        i.description@ == "LD AR16 R8 | "@ + reg16_name(r1) + " "@ + reg8_name(r2),
        i.description@ == describe_op(i.op),
{
    Instruction::new(join2("LD AR16 R8 | ", reg16_str(r1), reg8_str(r2)), Op::Move(MoveOp::LdAr16R8(r1, r2)))
}

/// Stores the immediate byte in the memory r points at.
pub fn ld_ar16_n8(r: Registers16) -> (i: Instruction)
    ensures
        i.op == Op::Imm(ImmOp::LdAr16N8(r)),
        i.description@ == "LD AR16 N8 | "@ + reg16_name(r),
        i.description@ == describe_op(i.op),
{
    Instruction::new(join("LD AR16 N8 | ", reg16_str(r)), Op::Imm(ImmOp::LdAr16N8(r)))
}

/// Loads r1 from the memory r2 points at.
pub fn ld_r8_ar16(r1: Registers8, r2: Registers16) -> (i: Instruction)
    ensures
        i.op == Op::Move(MoveOp::LdR8Ar16(r1, r2)),
        i.description@ == "LD R8 AR16 | "@ + reg8_name(r1) + " "@ + reg16_name(r2),
        i.description@ == describe_op(i.op),
{
    Instruction::new(join2("LD R8 AR16 | ", reg8_str(r1), reg16_str(r2)), Op::Move(MoveOp::LdR8Ar16(r1, r2)))
}

/// Loads r from the memory at the immediate address.
pub fn ld_r8_an16(r: Registers8) -> (i: Instruction)
    ensures
        i.op == Op::Imm(ImmOp::LdR8An16(r)),
        i.description@ == "LD R8 AN16 | "@ + reg8_name(r),
        i.description@ == describe_op(i.op),
{
    Instruction::new(join("LD R8 AN16 | ", reg8_str(r)), Op::Imm(ImmOp::LdR8An16(r)))
}

/// Loads r1 from the memory r2 points at, then increments r2.
pub fn ldi_r8_ar16(r1: Registers8, r2: Registers16) -> (i: Instruction)
    ensures
        i.op == Op::Move(MoveOp::LdiR8Ar16(r1, r2)),
        i.description@ == "LDI R8 AR16 | "@ + reg8_name(r1) + " "@ + reg16_name(r2),
        i.description@ == describe_op(i.op),
{
    Instruction::new(join2("LDI R8 AR16 | ", reg8_str(r1), reg16_str(r2)), Op::Move(MoveOp::LdiR8Ar16(r1, r2)))
}

/// Loads r1 from the memory r2 points at, then decrements r2.
pub fn ldd_r8_ar16(r1: Registers8, r2: Registers16) -> (i: Instruction)
    ensures
        i.op == Op::Move(MoveOp::LddR8Ar16(r1, r2)),
        i.description@ == "LDD R7 AR16 | "@ + reg8_name(r1) + " "@ + reg16_name(r2),
        i.description@ == describe_op(i.op),
{
    Instruction::new(join2("LDD R7 AR16 | ", reg8_str(r1), reg16_str(r2)), Op::Move(MoveOp::LddR8Ar16(r1, r2)))
}

/// Stores r2 in the memory r1 points at, then increments r1.
pub fn ldi_ar16_r8(r1: Registers16, r2: Registers8) -> (i: Instruction)
    ensures
        i.op == Op::Move(MoveOp::LdiAr16R8(r1, r2)),
        i.description@ == "LDI AR16 R8 | "@ + reg16_name(r1) + " "@ + reg8_name(r2),
        i.description@ == describe_op(i.op),
{
    Instruction::new(join2("LDI AR16 R8 | ", reg16_str(r1), reg8_str(r2)), Op::Move(MoveOp::LdiAr16R8(r1, r2)))
}

/// Stores r2 in the memory r1 points at, then decrements r1.
pub fn ldd_ar16_r8(r1: Registers16, r2: Registers8) -> (i: Instruction)
    ensures
        i.op == Op::Move(MoveOp::LddAr16R8(r1, r2)),
        i.description@ == "LDD AR16 R8 | "@ + reg16_name(r1) + " "@ + reg8_name(r2),
        i.description@ == describe_op(i.op),
{
    Instruction::new(join2("LDD AR16 R8 | ", reg16_str(r1), reg8_str(r2)), Op::Move(MoveOp::LddAr16R8(r1, r2)))
}

/// Loads the immediate byte into r.
pub fn ld_r8_n8(r: Registers8) -> (i: Instruction)
    ensures
        i.op == Op::Imm(ImmOp::LdR8N8(r)),
        i.description@ == "LD R8 N8 | "@ + reg8_name(r),
        i.description@ == describe_op(i.op),
{
    Instruction::new(join("LD R8 N8 | ", reg8_str(r)), Op::Imm(ImmOp::LdR8N8(r)))
}

/// Copies r2 into r1.
pub fn ld_r8_r8(r1: Registers8, r2: Registers8) -> (i: Instruction)
    ensures
        i.op == Op::Move(MoveOp::LdR8R8(r1, r2)),
        i.description@ == "LD R8 R8 | "@ + reg8_name(r1) + " "@ + reg8_name(r2),
        i.description@ == describe_op(i.op),
{
    Instruction::new(join2("LD R8 R8 | ", reg8_str(r1), reg8_str(r2)), Op::Move(MoveOp::LdR8R8(r1, r2)))
}

/// Stores r at the immediate address, high byte first.
pub fn ld_an16_r16(r: Registers16) -> (i: Instruction)
    ensures
        i.op == Op::Imm(ImmOp::LdAn16R16(r)),
        i.description@ == "LD AN16 R16 | "@ + reg16_name(r),
        i.description@ == describe_op(i.op),
{
    Instruction::new(join("LD AN16 R16 | ", reg16_str(r)), Op::Imm(ImmOp::LdAn16R16(r)))
}

/// Stores r at the immediate address.
pub fn ld_an16_r8(r: Registers8) -> (i: Instruction)
    ensures
        i.op == Op::Imm(ImmOp::LdAn16R8(r)),
        i.description@ == "LD AN16 R8 | "@ + reg8_name(r),
        i.description@ == describe_op(i.op),
{
    Instruction::new(join("LD AN16 R8 | ", reg8_str(r)), Op::Imm(ImmOp::LdAn16R8(r)))
}

/// Loads the immediate word into r.
pub fn ld_r16_n16(r: Registers16) -> (i: Instruction)
    ensures
        i.op == Op::Imm(ImmOp::LdR16N16(r)),
        i.description@ == "LD R16 N16 | "@ + reg16_name(r),
        i.description@ == describe_op(i.op),
{
    Instruction::new(join("LD R16 N16 | ", reg16_str(r)), Op::Imm(ImmOp::LdR16N16(r)))
}

/// Copies r1 into r2.
pub fn ld_r16_r16(r1: Registers16, r2: Registers16) -> (i: Instruction)
    ensures
        i.op == Op::Move(MoveOp::LdR16R16(r1, r2)),
        i.description@ == "LD R16 R16 | "@ + reg16_name(r1) + " "@ + reg16_name(r2),
        i.description@ == describe_op(i.op),
{
    Instruction::new(join2("LD R16 R16 | ", reg16_str(r1), reg16_str(r2)), Op::Move(MoveOp::LdR16R16(r1, r2)))
}

/// Loads SP plus the signed immediate byte into r.
pub fn ld_r16_spn8(r: Registers16) -> (i: Instruction)
    ensures
        i.op == Op::Imm(ImmOp::LdR16SpN8(r)),
        i.description@ == "LD R16 SPN8 | "@ + reg16_name(r),
        i.description@ == describe_op(i.op),
{
    Instruction::new(join("LD R16 SPN8 | ", reg16_str(r)), Op::Imm(ImmOp::LdR16SpN8(r)))
}

/// Stores r at 0xFF00 plus the immediate byte.
pub fn ldh_an8_r8(r: Registers8) -> (i: Instruction)
    ensures
        i.op == Op::Imm(ImmOp::LdhAn8R8(r)),
        i.description@ == "LDH AN8 R8 | "@ + reg8_name(r),
        i.description@ == describe_op(i.op),
{
    Instruction::new(join("LDH AN8 R8 | ", reg8_str(r)), Op::Imm(ImmOp::LdhAn8R8(r)))
}

/// Loads r from 0xFF00 plus the immediate byte.
pub fn ldh_r8_an8(r: Registers8) -> (i: Instruction)
    ensures
        i.op == Op::Imm(ImmOp::LdhR8An8(r)),
        i.description@ == "LDH R8 AN8 | "@ + reg8_name(r),
        i.description@ == describe_op(i.op),
{
    Instruction::new(join("LDH R8 AN8 | ", reg8_str(r)), Op::Imm(ImmOp::LdhR8An8(r)))
}

/// Stores r2 at 0xFF00 plus r1.
pub fn ldc_ar8_r8(r1: Registers8, r2: Registers8) -> (i: Instruction)
    ensures
        i.op == Op::Move(MoveOp::LdcAr8R8(r1, r2)),
        i.description@ == "LDC AR8 R8 | "@ + reg8_name(r1) + " "@ + reg8_name(r2),
        i.description@ == describe_op(i.op),
{
    Instruction::new(join2("LDC AR8 R8 | ", reg8_str(r1), reg8_str(r2)), Op::Move(MoveOp::LdcAr8R8(r1, r2)))
}

/// Loads r1 from 0xFF00 plus r2.
pub fn ldc_r8_ar8(r1: Registers8, r2: Registers8) -> (i: Instruction)
    ensures
        i.op == Op::Move(MoveOp::LdcR8Ar8(r1, r2)),
        i.description@ == "LDC R8 AR8 | "@ + reg8_name(r1) + " "@ + reg8_name(r2),
        i.description@ == describe_op(i.op),
{
    Instruction::new(join2("LDC R8 AR8 | ", reg8_str(r1), reg8_str(r2)), Op::Move(MoveOp::LdcR8Ar8(r1, r2)))
}

/// Rotates A left through C; Z is cleared.
pub fn rla() -> (i: Instruction)
    ensures
        i.op == Op::RotateA(ShiftOp::Rl),
        i.description@ == "RLA"@,
        i.description@ == describe_op(i.op),
{
    Instruction::new(String::from_str("RLA"), Op::RotateA(ShiftOp::Rl))
}

/// Rotates A right, bit 0 going to C; Z is cleared.
pub fn rrca() -> (i: Instruction)
    ensures
        i.op == Op::RotateA(ShiftOp::Rrc),
        i.description@ == "RRCA"@,
        i.description@ == describe_op(i.op),
{
    Instruction::new(String::from_str("RRCA"), Op::RotateA(ShiftOp::Rrc))
}

/// Rotates A right through C; Z is cleared.
pub fn rra() -> (i: Instruction)
    ensures
        i.op == Op::RotateA(ShiftOp::Rr),
        i.description@ == "RRA"@,
        i.description@ == describe_op(i.op),
{
    Instruction::new(String::from_str("RRA"), Op::RotateA(ShiftOp::Rr))
}

/// Rotates A left, bit 7 going to C; Z is cleared.
pub fn rlca() -> (i: Instruction)
    ensures
        i.op == Op::RotateA(ShiftOp::Rlc),
        i.description@ == "RLCA"@,
        i.description@ == describe_op(i.op),
{
    Instruction::new(String::from_str("RLCA"), Op::RotateA(ShiftOp::Rlc))
}

pub fn rl_r8(r: Registers8) -> (i: Instruction)
    ensures
        i.op == Op::Shift(ShiftOp::Rl, Target8::Reg(r)),
        i.description@ == "RL R8 | "@ + reg8_name(r),
        i.description@ == describe_op(i.op),
{
    Instruction::new(join("RL R8 | ", reg8_str(r)), Op::Shift(ShiftOp::Rl, Target8::Reg(r)))
}

pub fn rl_ar16(r: Registers16) -> (i: Instruction)
    ensures
        i.op == Op::Shift(ShiftOp::Rl, Target8::Mem(r)),
        i.description@ == "RL AR16 | "@ + reg16_name(r),
        i.description@ == describe_op(i.op),
{
    Instruction::new(join("RL AR16 | ", reg16_str(r)), Op::Shift(ShiftOp::Rl, Target8::Mem(r)))
}

pub fn rrc_r8(r: Registers8) -> (i: Instruction)
    ensures
        i.op == Op::Shift(ShiftOp::Rrc, Target8::Reg(r)),
        i.description@ == "RRC R8 | "@ + reg8_name(r),
        i.description@ == describe_op(i.op),
{
    Instruction::new(join("RRC R8 | ", reg8_str(r)), Op::Shift(ShiftOp::Rrc, Target8::Reg(r)))
}

pub fn rrc_ar16(r: Registers16) -> (i: Instruction)
    ensures
        i.op == Op::Shift(ShiftOp::Rrc, Target8::Mem(r)),
        i.description@ == "RRC AR16 | "@ + reg16_name(r),
        i.description@ == describe_op(i.op),
{
    Instruction::new(join("RRC AR16 | ", reg16_str(r)), Op::Shift(ShiftOp::Rrc, Target8::Mem(r)))
}

pub fn rr_r8(r: Registers8) -> (i: Instruction)
    ensures
        i.op == Op::Shift(ShiftOp::Rr, Target8::Reg(r)),
        i.description@ == "RR R8: | "@ + reg8_name(r),
        i.description@ == describe_op(i.op),
{
    Instruction::new(join("RR R8: | ", reg8_str(r)), Op::Shift(ShiftOp::Rr, Target8::Reg(r)))
}

pub fn rr_ar16(r: Registers16) -> (i: Instruction)
    ensures
        i.op == Op::Shift(ShiftOp::Rr, Target8::Mem(r)),
        i.description@ == "RR AR16 | "@ + reg16_name(r),
        i.description@ == describe_op(i.op),
{
    Instruction::new(join("RR AR16 | ", reg16_str(r)), Op::Shift(ShiftOp::Rr, Target8::Mem(r)))
}

pub fn rlc_r8(r: Registers8) -> (i: Instruction)
    ensures
        i.op == Op::Shift(ShiftOp::Rlc, Target8::Reg(r)),
        i.description@ == "RLC R8 | "@ + reg8_name(r),
        i.description@ == describe_op(i.op),
{
    Instruction::new(join("RLC R8 | ", reg8_str(r)), Op::Shift(ShiftOp::Rlc, Target8::Reg(r)))
}

pub fn rlc_ar16(r: Registers16) -> (i: Instruction)
    ensures
        i.op == Op::Shift(ShiftOp::Rlc, Target8::Mem(r)),
        i.description@ == "RLC AR16 | "@ + reg16_name(r),
        i.description@ == describe_op(i.op),
{
    Instruction::new(join("RLC AR16 | ", reg16_str(r)), Op::Shift(ShiftOp::Rlc, Target8::Mem(r)))
}

pub fn sla_r8(r: Registers8) -> (i: Instruction)
    ensures
        i.op == Op::Shift(ShiftOp::Sla, Target8::Reg(r)),
        i.description@ == "SLA R8 | "@ + reg8_name(r),
        i.description@ == describe_op(i.op),
{
    Instruction::new(join("SLA R8 | ", reg8_str(r)), Op::Shift(ShiftOp::Sla, Target8::Reg(r)))
}

pub fn sla_ar16(r: Registers16) -> (i: Instruction)
    ensures
        i.op == Op::Shift(ShiftOp::Sla, Target8::Mem(r)),
        i.description@ == "SLA AR16 | "@ + reg16_name(r),
        i.description@ == describe_op(i.op),
{
    Instruction::new(join("SLA AR16 | ", reg16_str(r)), Op::Shift(ShiftOp::Sla, Target8::Mem(r)))
}

pub fn sra_r8(r: Registers8) -> (i: Instruction)
    ensures
        i.op == Op::Shift(ShiftOp::Sra, Target8::Reg(r)),
        i.description@ == "SRA R8 | "@ + reg8_name(r),
        i.description@ == describe_op(i.op),
{
    Instruction::new(join("SRA R8 | ", reg8_str(r)), Op::Shift(ShiftOp::Sra, Target8::Reg(r)))
}

pub fn sra_ar16(r: Registers16) -> (i: Instruction)
    ensures
        i.op == Op::Shift(ShiftOp::Sra, Target8::Mem(r)),
        i.description@ == "SRA AR16 | "@ + reg16_name(r),
        i.description@ == describe_op(i.op),
{
    Instruction::new(join("SRA AR16 | ", reg16_str(r)), Op::Shift(ShiftOp::Sra, Target8::Mem(r)))
}

/// Stops the processor and the screen until a button is pressed.
pub fn stop() -> (i: Instruction)
    ensures
        i.op == Op::Ctrl(CtrlOp::Stop),
        i.description@ == "STOP"@,
        i.description@ == describe_op(i.op),
{
    Instruction::new(String::from_str("STOP"), Op::Ctrl(CtrlOp::Stop))
}

/// Halts the processor until an interrupt.
pub fn halt() -> (i: Instruction)
    ensures
        i.op == Op::Ctrl(CtrlOp::Halt),
        i.description@ == "HALT"@,
        i.description@ == describe_op(i.op),
{
    Instruction::new(String::from_str("HALT"), Op::Ctrl(CtrlOp::Halt))
}

/// Jumps to the immediate address when the condition holds.
pub fn jp_f_n16(f: JumpFlag) -> (i: Instruction)
    ensures
        i.op == Op::Flow(FlowOp::JpFN16(f)),
        i.description@ == "JP F | "@ + jump_flag_name(f),
        i.description@ == describe_op(i.op),
{
    Instruction::new(join("JP F | ", jump_flag_str(f)), Op::Flow(FlowOp::JpFN16(f)))
}

/// Jumps to the immediate address.
pub fn jp_n16() -> (i: Instruction)
    ensures
        i.op == Op::Flow(FlowOp::JpN16),
        i.description@ == "JP N16"@,
        i.description@ == describe_op(i.op),
{
    Instruction::new(String::from_str("JP N16"), Op::Flow(FlowOp::JpN16))
}

/// Jumps to the address in r.
pub fn jp_r16(r: Registers16) -> (i: Instruction)
    ensures
        i.op == Op::Flow(FlowOp::JpR16(r)),
        i.description@ == "JP AR16 | "@ + reg16_name(r),
        i.description@ == describe_op(i.op),
{
    Instruction::new(join("JP AR16 | ", reg16_str(r)), Op::Flow(FlowOp::JpR16(r)))
}

/// Jumps to the address in r, under the name the register-indirect jump was first given.
pub fn jp_ar16(r: Registers16) -> (i: Instruction)
    ensures
        i.op == Op::Flow(FlowOp::JpR16(r)),
        i.description@ == "JP AR16 "@ + reg16_name(r),
{
    Instruction::new(join("JP AR16 ", reg16_str(r)), Op::Flow(FlowOp::JpR16(r)))
}

/// Pushes PC and jumps to the immediate address.
pub fn call_n16() -> (i: Instruction)
    ensures
        i.op == Op::Flow(FlowOp::CallN16),
        i.description@ == "CALL N16"@,
        i.description@ == describe_op(i.op),
{
    Instruction::new(String::from_str("CALL N16"), Op::Flow(FlowOp::CallN16))
}

/// Calls the immediate address when the condition holds.
pub fn call_f_n16(f: JumpFlag) -> (i: Instruction)
    ensures
        i.op == Op::Flow(FlowOp::CallFN16(f)),
        i.description@ == "CALL F N16 | "@ + jump_flag_name(f),
        i.description@ == describe_op(i.op),
{
    Instruction::new(join("CALL F N16 | ", jump_flag_str(f)), Op::Flow(FlowOp::CallFN16(f)))
}

/// Pushes r on the stack.
pub fn push_r16(r: Registers16) -> (i: Instruction)
    ensures
        i.op == Op::Flow(FlowOp::PushR16(r)),
        i.description@ == "PUSH R16 | "@ + reg16_name(r),
        i.description@ == describe_op(i.op),
{
    Instruction::new(join("PUSH R16 | ", reg16_str(r)), Op::Flow(FlowOp::PushR16(r)))
}

/// Pushes PC and jumps to the restart vector.
pub fn rst_f(f: RstFlag) -> (i: Instruction)
    ensures
        i.op == Op::Flow(FlowOp::RstF(f)),
        i.description@ == "RST F: "@ + rst_flag_name(f),
        i.description@ == describe_op(i.op),
{
    Instruction::new(join("RST F: ", rst_flag_str(f)), Op::Flow(FlowOp::RstF(f)))
}

/// Disables interrupts.
pub fn di() -> (i: Instruction)
    ensures
        i.op == Op::Ctrl(CtrlOp::Di),
        i.description@ == "DI"@,
        i.description@ == describe_op(i.op),
{
    Instruction::new(String::from_str("DI"), Op::Ctrl(CtrlOp::Di))
}

/// Enables interrupts after the next instruction.
pub fn ei() -> (i: Instruction)
    ensures
        i.op == Op::Ctrl(CtrlOp::Ei),
        i.description@ == "EI"@,
        i.description@ == describe_op(i.op),
{
    Instruction::new(String::from_str("EI"), Op::Ctrl(CtrlOp::Ei))
}

/// Pops two bytes from the stack and jumps to that address.
pub fn ret() -> (i: Instruction)
    ensures
        i.op == Op::Flow(FlowOp::Ret),
        i.description@ == "RET"@,
        i.description@ == describe_op(i.op),
{
    Instruction::new(String::from_str("RET"), Op::Flow(FlowOp::Ret))
}

/// Returns and enables interrupts after the next instruction.
pub fn reti() -> (i: Instruction)
    ensures
        i.op == Op::Flow(FlowOp::Reti),
        i.description@ == "RETI"@,
        i.description@ == describe_op(i.op),
{
    Instruction::new(String::from_str("RETI"), Op::Flow(FlowOp::Reti))
}

/// Returns when the condition holds.
pub fn ret_f(f: JumpFlag) -> (i: Instruction)
    ensures
        i.op == Op::Flow(FlowOp::RetF(f)),
        i.description@ == "RET F | "@ + jump_flag_name(f),
        i.description@ == describe_op(i.op),
{
    Instruction::new(join("RET F | ", jump_flag_str(f)), Op::Flow(FlowOp::RetF(f)))
}

/// Pops the word on top of the stack into r.
pub fn pop_r16(r: Registers16) -> (i: Instruction)
    ensures
        i.op == Op::Flow(FlowOp::PopR16(r)),
        i.description@ == "POP R16 | "@ + reg16_name(r),
        i.description@ == describe_op(i.op),
{
    Instruction::new(join("POP R16 | ", reg16_str(r)), Op::Flow(FlowOp::PopR16(r)))
}

/// Jumps relative to PC by the signed immediate byte.
pub fn jr_n8() -> (i: Instruction)
    ensures
        i.op == Op::Flow(FlowOp::JrN8),
        i.description@ == "JR N8"@,
        i.description@ == describe_op(i.op),
{
    Instruction::new(String::from_str("JR N8"), Op::Flow(FlowOp::JrN8))
}

/// Jumps relative to PC when the condition holds.
pub fn jr_f_n8(f: JumpFlag) -> (i: Instruction)
    ensures
        i.op == Op::Flow(FlowOp::JrFN8(f)),
        i.description@ == "JR F N8 | "@ + jump_flag_name(f),
        i.description@ == describe_op(i.op),
{
    Instruction::new(join("JR F N8 | ", jump_flag_str(f)), Op::Flow(FlowOp::JrFN8(f)))
}

/// Complements A; N and H are set.
pub fn cpl() -> (i: Instruction)
    ensures
        i.op == Op::Ctrl(CtrlOp::Cpl),
        i.description@ == "CPL"@,
        i.description@ == describe_op(i.op),
{
    Instruction::new(String::from_str("CPL"), Op::Ctrl(CtrlOp::Cpl))
}

/// Adjusts A to binary coded decimal after an addition or a subtraction: each nibble
/// of A then holds one decimal digit, so that 49 is held as 0100_1001.
pub fn daa() -> (i: Instruction)
    ensures
        i.op == Op::Ctrl(CtrlOp::Daa),
        i.description@ == "DAA"@,
        i.description@ == describe_op(i.op),
{
    Instruction::new(String::from_str("DAA"), Op::Ctrl(CtrlOp::Daa))
}

/// Sets C; N and H are cleared.
pub fn scf() -> (i: Instruction)
    ensures
        i.op == Op::Ctrl(CtrlOp::Scf),
        i.description@ == "SCF"@,
        i.description@ == describe_op(i.op),
{
    Instruction::new(String::from_str("SCF"), Op::Ctrl(CtrlOp::Scf))
}

/// Complements C; N and H are cleared.
pub fn ccf() -> (i: Instruction)
    ensures
        i.op == Op::Ctrl(CtrlOp::Ccf),
        i.description@ == "CCF"@,
        i.description@ == describe_op(i.op),
{
    Instruction::new(String::from_str("CCF"), Op::Ctrl(CtrlOp::Ccf))
}

/// Adds the signed immediate byte to r.
pub fn add_r16_n8(r: Registers16) -> (i: Instruction)
    ensures
        i.op == Op::Arith(ArithOp::AddR16N8(r)),
        i.description@ == "ADD R16 N8 | "@ + reg16_name(r),
        i.description@ == describe_op(i.op),
{
    Instruction::new(join("ADD R16 N8 | ", reg16_str(r)), Op::Arith(ArithOp::AddR16N8(r)))
}

pub fn add_r8_r8(r1: Registers8, r2: Registers8) -> (i: Instruction)
    ensures
        i.op == Op::Alu(AluOp::Add, r1, Src8::Reg(r2)),
        i.description@ == "ADD R8 R8 | "@ + reg8_name(r1) + " "@ + reg8_name(r2),
        i.description@ == describe_op(i.op),
{
    Instruction::new(join2("ADD R8 R8 | ", reg8_str(r1), reg8_str(r2)), Op::Alu(AluOp::Add, r1, Src8::Reg(r2)))
}

pub fn add_r8_n8(r: Registers8) -> (i: Instruction)
    ensures
        i.op == Op::Alu(AluOp::Add, r, Src8::Imm),
        i.description@ == "ADD R8 N8 | "@ + reg8_name(r),
        i.description@ == describe_op(i.op),
{
    Instruction::new(join("ADD R8 N8 | ", reg8_str(r)), Op::Alu(AluOp::Add, r, Src8::Imm))
}

pub fn add_r8_ar16(r1: Registers8, r2: Registers16) -> (i: Instruction)
    ensures
        i.op == Op::Alu(AluOp::Add, r1, Src8::Mem(r2)),
        i.description@ == "ADD R8 AR16 | "@ + reg8_name(r1) + " "@ + reg16_name(r2),
        i.description@ == describe_op(i.op),
{
    Instruction::new(join2("ADD R8 AR16 | ", reg8_str(r1), reg16_str(r2)), Op::Alu(AluOp::Add, r1, Src8::Mem(r2)))
}

pub fn adc_r8_r8(r1: Registers8, r2: Registers8) -> (i: Instruction)
    ensures
        i.op == Op::Alu(AluOp::Adc, r1, Src8::Reg(r2)),
        i.description@ == "ADC R8 R8 | "@ + reg8_name(r1) + " "@ + reg8_name(r2),
        i.description@ == describe_op(i.op),
{
    Instruction::new(join2("ADC R8 R8 | ", reg8_str(r1), reg8_str(r2)), Op::Alu(AluOp::Adc, r1, Src8::Reg(r2)))
}

pub fn adc_r8_n8(r: Registers8) -> (i: Instruction)
    ensures
        i.op == Op::Alu(AluOp::Adc, r, Src8::Imm),
        i.description@ == "ADC R8 N8 | "@ + reg8_name(r),
        i.description@ == describe_op(i.op),
{
    Instruction::new(join("ADC R8 N8 | ", reg8_str(r)), Op::Alu(AluOp::Adc, r, Src8::Imm))
}

pub fn adc_r8_ar16(r1: Registers8, r2: Registers16) -> (i: Instruction)
    ensures
        i.op == Op::Alu(AluOp::Adc, r1, Src8::Mem(r2)),
        i.description@ == "ADC R8 AR16 | "@ + reg8_name(r1) + " "@ + reg16_name(r2),
        i.description@ == describe_op(i.op),
{
    Instruction::new(join2("ADC R8 AR16 | ", reg8_str(r1), reg16_str(r2)), Op::Alu(AluOp::Adc, r1, Src8::Mem(r2)))
}

/// Adds r2 to r1; Z is kept.
pub fn add_r16_r16(r1: Registers16, r2: Registers16) -> (i: Instruction)
    ensures
        i.op == Op::Arith(ArithOp::AddR16R16(r1, r2)),
        i.description@ == "ADD R16 R16 | "@ + reg16_name(r1) + " "@ + reg16_name(r2),
        i.description@ == describe_op(i.op),
{
    Instruction::new(join2("ADD R16 R16 | ", reg16_str(r1), reg16_str(r2)), Op::Arith(ArithOp::AddR16R16(r1, r2)))
}

pub fn sub_r8_r8(r1: Registers8, r2: Registers8) -> (i: Instruction)
    ensures
        i.op == Op::Alu(AluOp::Sub, r1, Src8::Reg(r2)),
        i.description@ == "SUB R8 R8 | "@ + reg8_name(r1) + " "@ + reg8_name(r2),
        i.description@ == describe_op(i.op),
{
    Instruction::new(join2("SUB R8 R8 | ", reg8_str(r1), reg8_str(r2)), Op::Alu(AluOp::Sub, r1, Src8::Reg(r2)))
}

pub fn sub_r8_n8(r: Registers8) -> (i: Instruction)
    ensures
        i.op == Op::Alu(AluOp::Sub, r, Src8::Imm),
        i.description@ == "SUB R8 N8 | "@ + reg8_name(r),
        i.description@ == describe_op(i.op),
{
    Instruction::new(join("SUB R8 N8 | ", reg8_str(r)), Op::Alu(AluOp::Sub, r, Src8::Imm))
}

pub fn sub_r8_ar16(r1: Registers8, r2: Registers16) -> (i: Instruction)
    ensures
        i.op == Op::Alu(AluOp::Sub, r1, Src8::Mem(r2)),
        i.description@ == "SUB R8 AR16 | "@ + reg8_name(r1) + " "@ + reg16_name(r2),
        i.description@ == describe_op(i.op),
{
    Instruction::new(join2("SUB R8 AR16 | ", reg8_str(r1), reg16_str(r2)), Op::Alu(AluOp::Sub, r1, Src8::Mem(r2)))
}

pub fn sbc_r8_r8(r1: Registers8, r2: Registers8) -> (i: Instruction)
    ensures
        i.op == Op::Alu(AluOp::Sbc, r1, Src8::Reg(r2)),
        i.description@ == "SBC R8 R8 | "@ + reg8_name(r1) + " "@ + reg8_name(r2),
        i.description@ == describe_op(i.op),
{
    Instruction::new(join2("SBC R8 R8 | ", reg8_str(r1), reg8_str(r2)), Op::Alu(AluOp::Sbc, r1, Src8::Reg(r2)))
}

pub fn sbc_r8_n8(r: Registers8) -> (i: Instruction)
    ensures
        i.op == Op::Alu(AluOp::Sbc, r, Src8::Imm),
        i.description@ == "SBC R8 N8 | "@ + reg8_name(r),
        i.description@ == describe_op(i.op),
{
    Instruction::new(join("SBC R8 N8 | ", reg8_str(r)), Op::Alu(AluOp::Sbc, r, Src8::Imm))
}

pub fn sbc_r8_ar16(r1: Registers8, r2: Registers16) -> (i: Instruction)
    ensures
        i.op == Op::Alu(AluOp::Sbc, r1, Src8::Mem(r2)),
        i.description@ == "SBC R8 R16 | "@ + reg8_name(r1) + " "@ + reg16_name(r2),
        i.description@ == describe_op(i.op),
{
    Instruction::new(join2("SBC R8 R16 | ", reg8_str(r1), reg16_str(r2)), Op::Alu(AluOp::Sbc, r1, Src8::Mem(r2)))
}

pub fn and_r8_r8(r1: Registers8, r2: Registers8) -> (i: Instruction)
    ensures
        i.op == Op::Alu(AluOp::And, r1, Src8::Reg(r2)),
        i.description@ == "AND R8 R8 | "@ + reg8_name(r1) + " "@ + reg8_name(r2),
        i.description@ == describe_op(i.op),
{
    Instruction::new(join2("AND R8 R8 | ", reg8_str(r1), reg8_str(r2)), Op::Alu(AluOp::And, r1, Src8::Reg(r2)))
}

pub fn and_r8_n8(r: Registers8) -> (i: Instruction)
    ensures
        i.op == Op::Alu(AluOp::And, r, Src8::Imm),
        i.description@ == "AND R8 N8 | "@ + reg8_name(r),
        i.description@ == describe_op(i.op),
{
    Instruction::new(join("AND R8 N8 | ", reg8_str(r)), Op::Alu(AluOp::And, r, Src8::Imm))
}

pub fn and_r8_ar16(r1: Registers8, r2: Registers16) -> (i: Instruction)
    ensures
        i.op == Op::Alu(AluOp::And, r1, Src8::Mem(r2)),
        i.description@ == "AND R8 AR16 | "@ + reg8_name(r1) + " "@ + reg16_name(r2),
        i.description@ == describe_op(i.op),
{
    Instruction::new(join2("AND R8 AR16 | ", reg8_str(r1), reg16_str(r2)), Op::Alu(AluOp::And, r1, Src8::Mem(r2)))
}

pub fn xor_r8_r8(r1: Registers8, r2: Registers8) -> (i: Instruction)
    ensures
        i.op == Op::Alu(AluOp::Xor, r1, Src8::Reg(r2)),
        i.description@ == "XOR R8 R8 | "@ + reg8_name(r1) + " "@ + reg8_name(r2),
        i.description@ == describe_op(i.op),
{
    Instruction::new(join2("XOR R8 R8 | ", reg8_str(r1), reg8_str(r2)), Op::Alu(AluOp::Xor, r1, Src8::Reg(r2)))
}

pub fn xor_r8_n8(r: Registers8) -> (i: Instruction)
    ensures
        i.op == Op::Alu(AluOp::Xor, r, Src8::Imm),
        i.description@ == "XOR R8 N8 | "@ + reg8_name(r),
        i.description@ == describe_op(i.op),
{
    Instruction::new(join("XOR R8 N8 | ", reg8_str(r)), Op::Alu(AluOp::Xor, r, Src8::Imm))
}

pub fn xor_r8_ar16(r1: Registers8, r2: Registers16) -> (i: Instruction)
    ensures
        i.op == Op::Alu(AluOp::Xor, r1, Src8::Mem(r2)),
        i.description@ == "XOR R8 AR16 | "@ + reg8_name(r1) + " "@ + reg16_name(r2),
        i.description@ == describe_op(i.op),
{
    Instruction::new(join2("XOR R8 AR16 | ", reg8_str(r1), reg16_str(r2)), Op::Alu(AluOp::Xor, r1, Src8::Mem(r2)))
}

pub fn or_r8_r8(r1: Registers8, r2: Registers8) -> (i: Instruction)
    ensures
        i.op == Op::Alu(AluOp::Or, r1, Src8::Reg(r2)),
        i.description@ == "OX R8 R8 | "@ + reg8_name(r1) + " "@ + reg8_name(r2),
        i.description@ == describe_op(i.op),
{
    Instruction::new(join2("OX R8 R8 | ", reg8_str(r1), reg8_str(r2)), Op::Alu(AluOp::Or, r1, Src8::Reg(r2)))
}

pub fn or_r8_n8(r: Registers8) -> (i: Instruction)
    ensures
        i.op == Op::Alu(AluOp::Or, r, Src8::Imm),
        i.description@ == "OR R8 N8 | "@ + reg8_name(r),
        i.description@ == describe_op(i.op),
{
    Instruction::new(join("OR R8 N8 | ", reg8_str(r)), Op::Alu(AluOp::Or, r, Src8::Imm))
}

pub fn or_r8_ar16(r1: Registers8, r2: Registers16) -> (i: Instruction)
    ensures
        i.op == Op::Alu(AluOp::Or, r1, Src8::Mem(r2)),
        i.description@ == "OR R8 AR16 | "@ + reg8_name(r1) + " "@ + reg16_name(r2),
        i.description@ == describe_op(i.op),
{
    Instruction::new(join2("OR R8 AR16 | ", reg8_str(r1), reg16_str(r2)), Op::Alu(AluOp::Or, r1, Src8::Mem(r2)))
}

pub fn cp_r8_r8(r1: Registers8, r2: Registers8) -> (i: Instruction)
    ensures
        i.op == Op::Alu(AluOp::Cp, r1, Src8::Reg(r2)),
        i.description@ == "CP R8 R8 | "@ + reg8_name(r1) + " "@ + reg8_name(r2),
        i.description@ == describe_op(i.op),
{
    Instruction::new(join2("CP R8 R8 | ", reg8_str(r1), reg8_str(r2)), Op::Alu(AluOp::Cp, r1, Src8::Reg(r2)))
}

pub fn cp_r8_n8(r: Registers8) -> (i: Instruction)
    ensures
        i.op == Op::Alu(AluOp::Cp, r, Src8::Imm),
        i.description@ == "CP R8 N8 | "@ + reg8_name(r),
        i.description@ == describe_op(i.op),
{
    Instruction::new(join("CP R8 N8 | ", reg8_str(r)), Op::Alu(AluOp::Cp, r, Src8::Imm))
}

pub fn cp_r8_ar16(r1: Registers8, r2: Registers16) -> (i: Instruction)
    ensures
        i.op == Op::Alu(AluOp::Cp, r1, Src8::Mem(r2)),
        i.description@ == "CP R8 AR16 | "@ + reg8_name(r1) + " "@ + reg16_name(r2),
        i.description@ == describe_op(i.op),
{
    Instruction::new(join2("CP R8 AR16 | ", reg8_str(r1), reg16_str(r2)), Op::Alu(AluOp::Cp, r1, Src8::Mem(r2)))
}

pub fn swap_r8(r: Registers8) -> (i: Instruction)
    ensures
        i.op == Op::Shift(ShiftOp::Swap, Target8::Reg(r)),
        i.description@ == "SWAP | "@ + reg8_name(r),
        i.description@ == describe_op(i.op),
{
    Instruction::new(join("SWAP | ", reg8_str(r)), Op::Shift(ShiftOp::Swap, Target8::Reg(r)))
}

pub fn swap_ar16(r: Registers16) -> (i: Instruction)
    ensures
        i.op == Op::Shift(ShiftOp::Swap, Target8::Mem(r)),
        i.description@ == "SWAP | "@ + reg16_name(r),
        i.description@ == describe_op(i.op),
{
    Instruction::new(join("SWAP | ", reg16_str(r)), Op::Shift(ShiftOp::Swap, Target8::Mem(r)))
}

pub fn srl_r8(r: Registers8) -> (i: Instruction)
    ensures
        i.op == Op::Shift(ShiftOp::Srl, Target8::Reg(r)),
        i.description@ == "SRC R8 | "@ + reg8_name(r),
        i.description@ == describe_op(i.op),
{
    Instruction::new(join("SRC R8 | ", reg8_str(r)), Op::Shift(ShiftOp::Srl, Target8::Reg(r)))
}

pub fn srl_ar16(r: Registers16) -> (i: Instruction)
    ensures
        i.op == Op::Shift(ShiftOp::Srl, Target8::Mem(r)),
        i.description@ == "SRL AR16 | "@ + reg16_name(r),
        i.description@ == describe_op(i.op),
{
    Instruction::new(join("SRL AR16 | ", reg16_str(r)), Op::Shift(ShiftOp::Srl, Target8::Mem(r)))
}

/// Copies the complement of bit n to Z.
pub fn bit_r8(n: u8, r: Registers8) -> (i: Instruction)
    ensures
        i.op == Op::Bit(BitOp::Test, n, Target8::Reg(r)),
        i.description@ == "BIT R8 | "@ + digits(n as nat, 10) + " "@ + reg8_name(r),
        i.description@ == describe_op(i.op),
{
    Instruction::new(join_number("BIT R8 | ", n, reg8_str(r)), Op::Bit(BitOp::Test, n, Target8::Reg(r)))
}

/// Copies the complement of bit n to Z.
pub fn bit_ar16(n: u8, r: Registers16) -> (i: Instruction)
    ensures
        i.op == Op::Bit(BitOp::Test, n, Target8::Mem(r)),
        i.description@ == "BIT AR16 | "@ + digits(n as nat, 10) + " "@ + reg16_name(r),
        i.description@ == describe_op(i.op),
{
    Instruction::new(join_number("BIT AR16 | ", n, reg16_str(r)), Op::Bit(BitOp::Test, n, Target8::Mem(r)))
}

/// Clears bit n.
pub fn res_r8(n: u8, r: Registers8) -> (i: Instruction)
    ensures
        i.op == Op::Bit(BitOp::Reset, n, Target8::Reg(r)),
        i.description@ == "RES R8 | "@ + digits(n as nat, 10) + " "@ + reg8_name(r),
        i.description@ == describe_op(i.op),
{
    Instruction::new(join_number("RES R8 | ", n, reg8_str(r)), Op::Bit(BitOp::Reset, n, Target8::Reg(r)))
}

/// Clears bit n.
pub fn res_ar16(n: u8, r: Registers16) -> (i: Instruction)
    ensures
        i.op == Op::Bit(BitOp::Reset, n, Target8::Mem(r)),
        i.description@ == "RES AR16 | "@ + digits(n as nat, 10) + " "@ + reg16_name(r),
        i.description@ == describe_op(i.op),
{
    Instruction::new(join_number("RES AR16 | ", n, reg16_str(r)), Op::Bit(BitOp::Reset, n, Target8::Mem(r)))
}

/// Sets bit n.
pub fn set_r8(n: u8, r: Registers8) -> (i: Instruction)
    ensures
        i.op == Op::Bit(BitOp::Raise, n, Target8::Reg(r)),
        i.description@ == "SET R8 | "@ + digits(n as nat, 10) + " "@ + reg8_name(r),
        i.description@ == describe_op(i.op),
{
    Instruction::new(join_number("SET R8 | ", n, reg8_str(r)), Op::Bit(BitOp::Raise, n, Target8::Reg(r)))
}

/// Sets bit n.
pub fn set_ar16(n: u8, r: Registers16) -> (i: Instruction)
    ensures
        i.op == Op::Bit(BitOp::Raise, n, Target8::Mem(r)),
        i.description@ == "SET AR16 | "@ + digits(n as nat, 10) + " "@ + reg16_name(r),
        i.description@ == describe_op(i.op),
{
    Instruction::new(join_number("SET AR16 | ", n, reg16_str(r)), Op::Bit(BitOp::Raise, n, Target8::Mem(r)))
}

/// An opcode the processor does not have; it cannot run.
pub fn illegal_opcode(opcode: u32) -> (i: Instruction)
    ensures
        i.op == Op::Illegal(opcode),
        i.description@ == "Illegal opcode: 0x"@ + digits(opcode as nat, 16),
        i.description@ == describe_op(i.op),
{
    Instruction::new(number("Illegal opcode: 0x", opcode, 16), Op::Illegal(opcode))
}

}
