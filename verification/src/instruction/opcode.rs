use vstd::prelude::*;
use crate::instruction;
use crate::instruction::{
    describe_op, Instruction, Op, MoveOp, ImmOp, ArithOp, FlowOp, CtrlOp, AluOp, ShiftOp, BitOp, Src8, Target8,
    RstFlag, JumpFlag,
};
use crate::register::{Registers8, Registers16};

verus! {

/// The register an opcode names in its low three bits (or bits 3 to 5): B, C, D, E, H, L,
/// then (HL) in place 6, and A.
pub open spec fn operand_reg(i: u16) -> Registers8 {
    match i {
        0 => Registers8::B,
        1 => Registers8::C,
        2 => Registers8::D,
        3 => Registers8::E,
        4 => Registers8::H,
        5 => Registers8::L,
        _ => Registers8::A,
    }
}

/// The operand an opcode names: a register, or the memory HL points at in place 6.
pub open spec fn operand_target(i: u16) -> Target8 {
    if i == 6 { Target8::Mem(Registers16::HL) } else { Target8::Reg(operand_reg(i)) }
}

pub open spec fn alu_kind(i: u16) -> AluOp {
    match i {
        0 => AluOp::Add,
        1 => AluOp::Adc,
        2 => AluOp::Sub,
        3 => AluOp::Sbc,
        4 => AluOp::And,
        5 => AluOp::Xor,
        6 => AluOp::Or,
        _ => AluOp::Cp,
    }
}

pub open spec fn shift_kind(i: u16) -> ShiftOp {
    match i {
        0 => ShiftOp::Rlc,
        1 => ShiftOp::Rrc,
        2 => ShiftOp::Rl,
        3 => ShiftOp::Rr,
        4 => ShiftOp::Sla,
        5 => ShiftOp::Sra,
        6 => ShiftOp::Swap,
        _ => ShiftOp::Srl,
    }
}

/// The instructions of opcodes 0x00 to 0x3F.
pub open spec fn decode_low(opcode: u16) -> Op {
    match opcode {
        0x00 => Op::Ctrl(CtrlOp::Nop),
        0x01 => Op::Imm(ImmOp::LdR16N16(Registers16::BC)),
        0x02 => Op::Move(MoveOp::LdAr16R8(Registers16::BC, Registers8::A)),
        0x03 => Op::Arith(ArithOp::IncR16(Registers16::BC)),
        0x04 => Op::Arith(ArithOp::IncR8(Registers8::B)),
        0x05 => Op::Arith(ArithOp::DecR8(Registers8::B)),
        0x06 => Op::Imm(ImmOp::LdR8N8(Registers8::B)),
        0x07 => Op::RotateA(ShiftOp::Rlc),
        0x08 => Op::Imm(ImmOp::LdAn16R16(Registers16::SP)),
        0x09 => Op::Arith(ArithOp::AddR16R16(Registers16::HL, Registers16::BC)),
        0x0A => Op::Move(MoveOp::LdR8Ar16(Registers8::A, Registers16::BC)),
        0x0B => Op::Arith(ArithOp::DecR16(Registers16::BC)),
        0x0C => Op::Arith(ArithOp::IncR8(Registers8::C)),
        0x0D => Op::Arith(ArithOp::DecR8(Registers8::C)),
        0x0E => Op::Imm(ImmOp::LdR8N8(Registers8::C)),
        0x0F => Op::RotateA(ShiftOp::Rrc),
        0x10 => Op::Ctrl(CtrlOp::Stop),
        0x11 => Op::Imm(ImmOp::LdR16N16(Registers16::DE)),
        0x12 => Op::Move(MoveOp::LdAr16R8(Registers16::DE, Registers8::A)),
        0x13 => Op::Arith(ArithOp::IncR16(Registers16::DE)),
        0x14 => Op::Arith(ArithOp::IncR8(Registers8::D)),
        0x15 => Op::Arith(ArithOp::DecR8(Registers8::D)),
        0x16 => Op::Imm(ImmOp::LdR8N8(Registers8::D)),
        0x17 => Op::RotateA(ShiftOp::Rl),
        0x18 => Op::Flow(FlowOp::JrN8),
        0x19 => Op::Arith(ArithOp::AddR16R16(Registers16::HL, Registers16::DE)),
        0x1A => Op::Move(MoveOp::LdR8Ar16(Registers8::A, Registers16::DE)),
        0x1B => Op::Arith(ArithOp::DecR16(Registers16::DE)),
        0x1C => Op::Arith(ArithOp::IncR8(Registers8::E)),
        0x1D => Op::Arith(ArithOp::DecR8(Registers8::E)),
        0x1E => Op::Imm(ImmOp::LdR8N8(Registers8::E)),
        0x1F => Op::RotateA(ShiftOp::Rr),
        0x20 => Op::Flow(FlowOp::JrFN8(JumpFlag::NZ)),
        0x21 => Op::Imm(ImmOp::LdR16N16(Registers16::HL)),
        0x22 => Op::Move(MoveOp::LdiAr16R8(Registers16::HL, Registers8::A)),
        0x23 => Op::Arith(ArithOp::IncR16(Registers16::HL)),
        0x24 => Op::Arith(ArithOp::IncR8(Registers8::H)),
        0x25 => Op::Arith(ArithOp::DecR8(Registers8::H)),
        0x26 => Op::Imm(ImmOp::LdR8N8(Registers8::H)),
        0x27 => Op::Ctrl(CtrlOp::Daa),
        0x28 => Op::Flow(FlowOp::JrFN8(JumpFlag::Z)),
        0x29 => Op::Arith(ArithOp::AddR16R16(Registers16::HL, Registers16::HL)),
        0x2A => Op::Move(MoveOp::LdiR8Ar16(Registers8::A, Registers16::HL)),
        0x2B => Op::Arith(ArithOp::DecR16(Registers16::HL)),
        0x2C => Op::Arith(ArithOp::IncR8(Registers8::L)),
        0x2D => Op::Arith(ArithOp::DecR8(Registers8::L)),
        0x2E => Op::Imm(ImmOp::LdR8N8(Registers8::L)),
        0x2F => Op::Ctrl(CtrlOp::Cpl),
        0x30 => Op::Flow(FlowOp::JrFN8(JumpFlag::NC)),
        0x31 => Op::Imm(ImmOp::LdR16N16(Registers16::SP)),
        0x32 => Op::Move(MoveOp::LddAr16R8(Registers16::HL, Registers8::A)),
        0x33 => Op::Arith(ArithOp::IncR16(Registers16::SP)),
        0x34 => Op::Arith(ArithOp::IncAr16(Registers16::HL)),
        0x35 => Op::Arith(ArithOp::DecAr16(Registers16::HL)),
        0x36 => Op::Imm(ImmOp::LdAr16N8(Registers16::HL)),
        0x37 => Op::Ctrl(CtrlOp::Scf),
        0x38 => Op::Flow(FlowOp::JrFN8(JumpFlag::C)),
        0x39 => Op::Arith(ArithOp::AddR16R16(Registers16::HL, Registers16::SP)),
        0x3A => Op::Move(MoveOp::LddR8Ar16(Registers8::A, Registers16::HL)),
        0x3B => Op::Arith(ArithOp::DecR16(Registers16::SP)),
        0x3C => Op::Arith(ArithOp::IncR8(Registers8::A)),
        0x3D => Op::Arith(ArithOp::DecR8(Registers8::A)),
        0x3E => Op::Imm(ImmOp::LdR8N8(Registers8::A)),
        0x3F => Op::Ctrl(CtrlOp::Ccf),
        _ => Op::Illegal(opcode as u32),
    }
}

/// The instructions of opcodes 0xC0 to 0xFF.
pub open spec fn decode_high(opcode: u16) -> Op {
    match opcode {
        0xC0 => Op::Flow(FlowOp::RetF(JumpFlag::NZ)),
        0xC1 => Op::Flow(FlowOp::PopR16(Registers16::BC)),
        0xC2 => Op::Flow(FlowOp::JpFN16(JumpFlag::NZ)),
        0xC3 => Op::Flow(FlowOp::JpN16),
        0xC4 => Op::Flow(FlowOp::CallFN16(JumpFlag::NZ)),
        0xC5 => Op::Flow(FlowOp::PushR16(Registers16::BC)),
        0xC6 => Op::Alu(AluOp::Add, Registers8::A, Src8::Imm),
        0xC7 => Op::Flow(FlowOp::RstF(RstFlag::H00)),
        0xC8 => Op::Flow(FlowOp::RetF(JumpFlag::Z)),
        0xC9 => Op::Flow(FlowOp::Ret),
        0xCA => Op::Flow(FlowOp::JpFN16(JumpFlag::Z)),
        0xCB => Op::Illegal(0x00CBu32),
        0xCC => Op::Flow(FlowOp::CallFN16(JumpFlag::Z)),
        0xCD => Op::Flow(FlowOp::CallN16),
        0xCE => Op::Alu(AluOp::Adc, Registers8::A, Src8::Imm),
        0xCF => Op::Flow(FlowOp::RstF(RstFlag::H08)),
        0xD0 => Op::Flow(FlowOp::RetF(JumpFlag::NC)),
        0xD1 => Op::Flow(FlowOp::PopR16(Registers16::DE)),
        0xD2 => Op::Flow(FlowOp::JpFN16(JumpFlag::NC)),
        0xD3 => Op::Illegal(0x00D3u32),
        0xD4 => Op::Flow(FlowOp::CallFN16(JumpFlag::NC)),
        0xD5 => Op::Flow(FlowOp::PushR16(Registers16::DE)),
        0xD6 => Op::Alu(AluOp::Sub, Registers8::A, Src8::Imm),
        0xD7 => Op::Flow(FlowOp::RstF(RstFlag::H10)),
        0xD8 => Op::Flow(FlowOp::RetF(JumpFlag::C)),
        0xD9 => Op::Flow(FlowOp::Reti),
        0xDA => Op::Flow(FlowOp::JpFN16(JumpFlag::C)),
        0xDB => Op::Illegal(0x00DBu32),
        0xDC => Op::Flow(FlowOp::CallFN16(JumpFlag::C)),
        0xDD => Op::Illegal(0x00DDu32),
        0xDE => Op::Alu(AluOp::Sbc, Registers8::A, Src8::Imm),
        0xDF => Op::Flow(FlowOp::RstF(RstFlag::H18)),
        0xE0 => Op::Imm(ImmOp::LdhAn8R8(Registers8::A)),
        0xE1 => Op::Flow(FlowOp::PopR16(Registers16::HL)),
        0xE2 => Op::Move(MoveOp::LdcAr8R8(Registers8::C, Registers8::A)),
        0xE3 => Op::Illegal(0x00E3u32),
        0xE4 => Op::Illegal(0x00E4u32),
        0xE5 => Op::Flow(FlowOp::PushR16(Registers16::HL)),
        0xE6 => Op::Alu(AluOp::And, Registers8::A, Src8::Imm),
        0xE7 => Op::Flow(FlowOp::RstF(RstFlag::H20)),
        0xE8 => Op::Arith(ArithOp::AddR16N8(Registers16::SP)),
        0xE9 => Op::Flow(FlowOp::JpR16(Registers16::HL)),
        0xEA => Op::Imm(ImmOp::LdAn16R8(Registers8::A)),
        0xEB => Op::Illegal(0x00EBu32),
        0xEC => Op::Illegal(0x00ECu32),
        0xED => Op::Illegal(0x00EDu32),
        0xEE => Op::Alu(AluOp::Xor, Registers8::A, Src8::Imm),
        0xEF => Op::Flow(FlowOp::RstF(RstFlag::H28)),
        0xF0 => Op::Imm(ImmOp::LdhR8An8(Registers8::A)),
        0xF1 => Op::Flow(FlowOp::PopR16(Registers16::AF)),
        0xF2 => Op::Move(MoveOp::LdcR8Ar8(Registers8::A, Registers8::C)),
        0xF3 => Op::Ctrl(CtrlOp::Di),
        0xF4 => Op::Illegal(0x00F4u32),
        0xF5 => Op::Flow(FlowOp::PushR16(Registers16::AF)),
        0xF6 => Op::Alu(AluOp::Or, Registers8::A, Src8::Imm),
        0xF7 => Op::Flow(FlowOp::RstF(RstFlag::H30)),
        0xF8 => Op::Imm(ImmOp::LdR16SpN8(Registers16::HL)),
        0xF9 => Op::Move(MoveOp::LdR16R16(Registers16::SP, Registers16::HL)),
        0xFA => Op::Imm(ImmOp::LdR8An16(Registers8::A)),
        0xFB => Op::Ctrl(CtrlOp::Ei),
        0xFC => Op::Illegal(0x00FCu32),
        0xFD => Op::Illegal(0x00FDu32),
        0xFE => Op::Alu(AluOp::Cp, Registers8::A, Src8::Imm),
        0xFF => Op::Flow(FlowOp::RstF(RstFlag::H38)),
        _ => Op::Illegal(opcode as u32),
    }
}

/// The instruction of an opcode: 0x000 to 0x0FF for the plain opcodes, 0x100 to 0x1FF for
/// those after the 0xCB prefix.
pub open spec fn decode(opcode: u16) -> Op {
    let high = (opcode / 8) % 8;
    let low = opcode % 8;
    if opcode < 0x40 {
        decode_low(opcode)
    } else if opcode < 0x80 {
        if opcode == 0x76 {
            Op::Ctrl(CtrlOp::Halt)
        } else if high == 6 {
            Op::Move(MoveOp::LdAr16R8(Registers16::HL, operand_reg(low)))
        } else if low == 6 {
            Op::Move(MoveOp::LdR8Ar16(operand_reg(high), Registers16::HL))
        } else {
            Op::Move(MoveOp::LdR8R8(operand_reg(high), operand_reg(low)))
        }
    } else if opcode < 0xC0 {
        if low == 6 {
            Op::Alu(alu_kind(high), Registers8::A, Src8::Mem(Registers16::HL))
        } else {
            Op::Alu(alu_kind(high), Registers8::A, Src8::Reg(operand_reg(low)))
        }
    } else if opcode < 0x100 {
        decode_high(opcode)
    } else if opcode < 0x140 {
        Op::Shift(shift_kind(high), operand_target(low))
    } else if opcode < 0x180 {
        Op::Bit(BitOp::Test, high as u8, operand_target(low))
    } else if opcode < 0x1C0 {
        Op::Bit(BitOp::Reset, high as u8, operand_target(low))
    } else {
        Op::Bit(BitOp::Raise, high as u8, operand_target(low))
    }
}

fn reg_of(i: u16) -> (r: Registers8)
    requires
        i < 8,
        i != 6,
    ensures
        r == operand_reg(i),
{
    match i {
        0 => Registers8::B,
        1 => Registers8::C,
        2 => Registers8::D,
        3 => Registers8::E,
        4 => Registers8::H,
        5 => Registers8::L,
        _ => Registers8::A,
    }
}

fn load_block(opcode: u16) -> (i: Instruction)
    requires
        0x40 <= opcode < 0x80,
    ensures
        i.op == decode(opcode),
        i.description@ == describe_op(i.op),
{
    let high = (opcode / 8) % 8;
    let low = opcode % 8;
    if opcode == 0x76 {
        instruction::halt()
    } else if high == 6 {
        instruction::ld_ar16_r8(Registers16::HL, reg_of(low))
    } else if low == 6 {
        instruction::ld_r8_ar16(reg_of(high), Registers16::HL)
    } else {
        instruction::ld_r8_r8(reg_of(high), reg_of(low))
    }
}

fn alu_block(opcode: u16) -> (i: Instruction)
    requires
        0x80 <= opcode < 0xC0,
    ensures
        i.op == decode(opcode),
        i.description@ == describe_op(i.op),
{
    let high = (opcode / 8) % 8;
    let low = opcode % 8;
    if low == 6 {
        let a = Registers8::A;
        let hl = Registers16::HL;
        match high {
            0 => instruction::add_r8_ar16(a, hl),
            1 => instruction::adc_r8_ar16(a, hl),
            2 => instruction::sub_r8_ar16(a, hl),
            3 => instruction::sbc_r8_ar16(a, hl),
            4 => instruction::and_r8_ar16(a, hl),
            5 => instruction::xor_r8_ar16(a, hl),
            6 => instruction::or_r8_ar16(a, hl),
            _ => instruction::cp_r8_ar16(a, hl),
        }
    } else {
        let a = Registers8::A;
        let r = reg_of(low);
        match high {
            0 => instruction::add_r8_r8(a, r),
            1 => instruction::adc_r8_r8(a, r),
            2 => instruction::sub_r8_r8(a, r),
            3 => instruction::sbc_r8_r8(a, r),
            4 => instruction::and_r8_r8(a, r),
            5 => instruction::xor_r8_r8(a, r),
            6 => instruction::or_r8_r8(a, r),
            _ => instruction::cp_r8_r8(a, r),
        }
    }
}

fn shift_block(opcode: u16) -> (i: Instruction)
    requires
        0x100 <= opcode < 0x140,
    ensures
        i.op == decode(opcode),
        i.description@ == describe_op(i.op),
{
    let high = (opcode / 8) % 8;
    let low = opcode % 8;
    if low == 6 {
        let hl = Registers16::HL;
        match high {
            0 => instruction::rlc_ar16(hl),
            1 => instruction::rrc_ar16(hl),
            2 => instruction::rl_ar16(hl),
            3 => instruction::rr_ar16(hl),
            4 => instruction::sla_ar16(hl),
            5 => instruction::sra_ar16(hl),
            6 => instruction::swap_ar16(hl),
            _ => instruction::srl_ar16(hl),
        }
    } else {
        let r = reg_of(low);
        match high {
            0 => instruction::rlc_r8(r),
            1 => instruction::rrc_r8(r),
            2 => instruction::rl_r8(r),
            3 => instruction::rr_r8(r),
            4 => instruction::sla_r8(r),
            5 => instruction::sra_r8(r),
            6 => instruction::swap_r8(r),
            _ => instruction::srl_r8(r),
        }
    }
}

fn bit_block(opcode: u16) -> (i: Instruction)
    requires
        0x140 <= opcode < 0x200,
    ensures
        i.op == decode(opcode),
        i.description@ == describe_op(i.op),
{
    let n = ((opcode / 8) % 8) as u8;
    let low = opcode % 8;
    if low == 6 {
        let hl = Registers16::HL;
        if opcode < 0x180 {
            instruction::bit_ar16(n, hl)
        } else if opcode < 0x1C0 {
            instruction::res_ar16(n, hl)
        } else {
            instruction::set_ar16(n, hl)
        }
    } else {
        let r = reg_of(low);
        if opcode < 0x180 {
            instruction::bit_r8(n, r)
        } else if opcode < 0x1C0 {
            instruction::res_r8(n, r)
        } else {
            instruction::set_r8(n, r)
        }
    }
}

/// The instruction the table holds for an opcode.
fn instruction_for(opcode: u16) -> (i: Instruction)
    requires
        opcode < 0x200,
    ensures
        i.op == decode(opcode),
        i.description@ == describe_op(i.op),
{
    if opcode < 0x20 {
        low_first(opcode)
    } else if opcode < 0x40 {
        low_second(opcode)
    } else if opcode < 0x80 {
        load_block(opcode)
    } else if opcode < 0xC0 {
        alu_block(opcode)
    } else if opcode < 0xE0 {
        high_first(opcode)
    } else if opcode < 0x100 {
        high_second(opcode)
    } else if opcode < 0x140 {
        shift_block(opcode)
    } else {
        bit_block(opcode)
    }
}

/// The table of all 512 opcodes: entry `i` holds the instruction of opcode `i`.
pub fn build_instructions() -> (v: Vec<Instruction>)
    ensures
        v.len() == 0x200,
        forall|i: int| 0 <= i < 0x200 ==> #[trigger] v[i].op == decode(i as u16),
        forall|i: int| 0 <= i < 0x200 ==> #[trigger] v[i].description@ == describe_op(v[i].op),
{
    let mut v: Vec<Instruction> = Vec::new();
    let mut opcode: u16 = 0;
    while opcode < 0x200
        invariant
            opcode <= 0x200,
            v.len() == opcode,
            forall|i: int| 0 <= i < opcode ==> #[trigger] v[i].op == decode(i as u16),
            forall|i: int| 0 <= i < opcode ==> #[trigger] v[i].description@ == describe_op(v[i].op),
        decreases 0x200 - opcode,
    {
        let i = instruction_for(opcode);
        v.push(i);
        opcode = opcode + 1;
    }
    v
}

/// Looks instructions up by opcode.
pub struct Fetcher {
    instructions: Vec<Instruction>,
}

impl View for Fetcher {
    type V = Seq<(Op, Seq<char>)>;

    /// The operation and the description of each entry, by opcode.
    closed spec fn view(&self) -> Seq<(Op, Seq<char>)> {
        self.instructions@.map_values(|i: Instruction| (i.op, i.description@))
    }
}

/// The table entry of an opcode: its operation and that operation's description.
pub open spec fn table_entry(opcode: u16) -> (Op, Seq<char>) {
    (decode(opcode), describe_op(decode(opcode)))
}

impl Fetcher {
    #[verifier::type_invariant]
    spec fn complete(self) -> bool {
        &&& self.instructions.len() == 0x200
        &&& forall|i: int| 0 <= i < 0x200 ==> #[trigger] self.instructions[i].op == decode(i as u16)
        &&& forall|i: int| 0 <= i < 0x200 ==> #[trigger] self.instructions[i].description@
            == describe_op(self.instructions[i].op)
    }

    /// The table holds, for every opcode below 0x200, the instruction that opcode decodes to
    /// with its description.
    pub fn new() -> (f: Fetcher)
        ensures
            f@ == Seq::new(0x200, |i: int| table_entry(i as u16)),
    {
        let f = Fetcher { instructions: build_instructions() };
        assert(f@ =~= Seq::new(0x200, |i: int| table_entry(i as u16)));
        f
    }

    /// The instruction of an opcode below 0x200; none above.
    pub fn fetch(&self, opcode: u16) -> (r: Option<&Instruction>)
        ensures
            r is Some <==> opcode < 0x200,
            r matches Some(i) ==> i.op == decode(opcode) && (i.op, i.description@) == self@[opcode as int],
    {
        proof {
            use_type_invariant(self);
        }
        if opcode < 0x200 {
            Some(&self.instructions[opcode as usize])
        } else {
            None
        }
    }
}

fn low_first(opcode: u16) -> (i: Instruction)
    requires
        0x00 <= opcode < 0x20,
    ensures
        i.op == decode_low(opcode),
        i.description@ == describe_op(i.op),
{
    match opcode {
        0x00 => instruction::nop(),
        0x01 => instruction::ld_r16_n16(Registers16::BC),
        0x02 => instruction::ld_ar16_r8(Registers16::BC, Registers8::A),
        0x03 => instruction::inc_r16(Registers16::BC),
        0x04 => instruction::inc_r8(Registers8::B),
        0x05 => instruction::dec_r8(Registers8::B),
        0x06 => instruction::ld_r8_n8(Registers8::B),
        0x07 => instruction::rlca(),
        0x08 => instruction::ld_an16_r16(Registers16::SP),
        0x09 => instruction::add_r16_r16(Registers16::HL, Registers16::BC),
        0x0A => instruction::ld_r8_ar16(Registers8::A, Registers16::BC),
        0x0B => instruction::dec_r16(Registers16::BC),
        0x0C => instruction::inc_r8(Registers8::C),
        0x0D => instruction::dec_r8(Registers8::C),
        0x0E => instruction::ld_r8_n8(Registers8::C),
        0x0F => instruction::rrca(),
        0x10 => instruction::stop(),
        0x11 => instruction::ld_r16_n16(Registers16::DE),
        0x12 => instruction::ld_ar16_r8(Registers16::DE, Registers8::A),
        0x13 => instruction::inc_r16(Registers16::DE),
        0x14 => instruction::inc_r8(Registers8::D),
        0x15 => instruction::dec_r8(Registers8::D),
        0x16 => instruction::ld_r8_n8(Registers8::D),
        0x17 => instruction::rla(),
        0x18 => instruction::jr_n8(),
        0x19 => instruction::add_r16_r16(Registers16::HL, Registers16::DE),
        0x1A => instruction::ld_r8_ar16(Registers8::A, Registers16::DE),
        0x1B => instruction::dec_r16(Registers16::DE),
        0x1C => instruction::inc_r8(Registers8::E),
        0x1D => instruction::dec_r8(Registers8::E),
        0x1E => instruction::ld_r8_n8(Registers8::E),
        _ => instruction::rra(),
    }
}

fn low_second(opcode: u16) -> (i: Instruction)
    requires
        0x20 <= opcode < 0x40,
    ensures
        i.op == decode_low(opcode),
        i.description@ == describe_op(i.op),
{
    match opcode {
        0x20 => instruction::jr_f_n8(JumpFlag::NZ),
        0x21 => instruction::ld_r16_n16(Registers16::HL),
        0x22 => instruction::ldi_ar16_r8(Registers16::HL, Registers8::A),
        0x23 => instruction::inc_r16(Registers16::HL),
        0x24 => instruction::inc_r8(Registers8::H),
        0x25 => instruction::dec_r8(Registers8::H),
        0x26 => instruction::ld_r8_n8(Registers8::H),
        0x27 => instruction::daa(),
        0x28 => instruction::jr_f_n8(JumpFlag::Z),
        0x29 => instruction::add_r16_r16(Registers16::HL, Registers16::HL),
        0x2A => instruction::ldi_r8_ar16(Registers8::A, Registers16::HL),
        0x2B => instruction::dec_r16(Registers16::HL),
        0x2C => instruction::inc_r8(Registers8::L),
        0x2D => instruction::dec_r8(Registers8::L),
        0x2E => instruction::ld_r8_n8(Registers8::L),
        0x2F => instruction::cpl(),
        0x30 => instruction::jr_f_n8(JumpFlag::NC),
        0x31 => instruction::ld_r16_n16(Registers16::SP),
        0x32 => instruction::ldd_ar16_r8(Registers16::HL, Registers8::A),
        0x33 => instruction::inc_r16(Registers16::SP),
        0x34 => instruction::inc_ar16(Registers16::HL),
        0x35 => instruction::dec_ar16(Registers16::HL),
        0x36 => instruction::ld_ar16_n8(Registers16::HL),
        0x37 => instruction::scf(),
        0x38 => instruction::jr_f_n8(JumpFlag::C),
        0x39 => instruction::add_r16_r16(Registers16::HL, Registers16::SP),
        0x3A => instruction::ldd_r8_ar16(Registers8::A, Registers16::HL),
        0x3B => instruction::dec_r16(Registers16::SP),
        0x3C => instruction::inc_r8(Registers8::A),
        0x3D => instruction::dec_r8(Registers8::A),
        0x3E => instruction::ld_r8_n8(Registers8::A),
        _ => instruction::ccf(),
    }
}

fn high_first(opcode: u16) -> (i: Instruction)
    requires
        0xC0 <= opcode < 0xE0,
    ensures
        i.op == decode_high(opcode),
        i.description@ == describe_op(i.op),
{
    match opcode {
        0xC0 => instruction::ret_f(JumpFlag::NZ),
        0xC1 => instruction::pop_r16(Registers16::BC),
        0xC2 => instruction::jp_f_n16(JumpFlag::NZ),
        0xC3 => instruction::jp_n16(),
        0xC4 => instruction::call_f_n16(JumpFlag::NZ),
        0xC5 => instruction::push_r16(Registers16::BC),
        0xC6 => instruction::add_r8_n8(Registers8::A),
        0xC7 => instruction::rst_f(RstFlag::H00),
        0xC8 => instruction::ret_f(JumpFlag::Z),
        0xC9 => instruction::ret(),
        0xCA => instruction::jp_f_n16(JumpFlag::Z),
        0xCB => instruction::illegal_opcode(0x00CBu32),
        0xCC => instruction::call_f_n16(JumpFlag::Z),
        0xCD => instruction::call_n16(),
        0xCE => instruction::adc_r8_n8(Registers8::A),
        0xCF => instruction::rst_f(RstFlag::H08),
        0xD0 => instruction::ret_f(JumpFlag::NC),
        0xD1 => instruction::pop_r16(Registers16::DE),
        0xD2 => instruction::jp_f_n16(JumpFlag::NC),
        0xD3 => instruction::illegal_opcode(0x00D3u32),
        0xD4 => instruction::call_f_n16(JumpFlag::NC),
        0xD5 => instruction::push_r16(Registers16::DE),
        0xD6 => instruction::sub_r8_n8(Registers8::A),
        0xD7 => instruction::rst_f(RstFlag::H10),
        0xD8 => instruction::ret_f(JumpFlag::C),
        0xD9 => instruction::reti(),
        0xDA => instruction::jp_f_n16(JumpFlag::C),
        0xDB => instruction::illegal_opcode(0x00DBu32),
        0xDC => instruction::call_f_n16(JumpFlag::C),
        0xDD => instruction::illegal_opcode(0x00DDu32),
        0xDE => instruction::sbc_r8_n8(Registers8::A),
        _ => instruction::rst_f(RstFlag::H18),
    }
}

fn high_second(opcode: u16) -> (i: Instruction)
    requires
        0xE0 <= opcode < 0x100,
    ensures
        i.op == decode_high(opcode),
        i.description@ == describe_op(i.op),
{
    match opcode {
        0xE0 => instruction::ldh_an8_r8(Registers8::A),
        0xE1 => instruction::pop_r16(Registers16::HL),
        0xE2 => instruction::ldc_ar8_r8(Registers8::C, Registers8::A),
        0xE3 => instruction::illegal_opcode(0x00E3u32),
        0xE4 => instruction::illegal_opcode(0x00E4u32),
        0xE5 => instruction::push_r16(Registers16::HL),
        0xE6 => instruction::and_r8_n8(Registers8::A),
        0xE7 => instruction::rst_f(RstFlag::H20),
        0xE8 => instruction::add_r16_n8(Registers16::SP),
        0xE9 => instruction::jp_r16(Registers16::HL),
        0xEA => instruction::ld_an16_r8(Registers8::A),
        0xEB => instruction::illegal_opcode(0x00EBu32),
        0xEC => instruction::illegal_opcode(0x00ECu32),
        0xED => instruction::illegal_opcode(0x00EDu32),
        0xEE => instruction::xor_r8_n8(Registers8::A),
        0xEF => instruction::rst_f(RstFlag::H28),
        0xF0 => instruction::ldh_r8_an8(Registers8::A),
        0xF1 => instruction::pop_r16(Registers16::AF),
        0xF2 => instruction::ldc_r8_ar8(Registers8::A, Registers8::C),
        0xF3 => instruction::di(),
        0xF4 => instruction::illegal_opcode(0x00F4u32),
        0xF5 => instruction::push_r16(Registers16::AF),
        0xF6 => instruction::or_r8_n8(Registers8::A),
        0xF7 => instruction::rst_f(RstFlag::H30),
        0xF8 => instruction::ld_r16_spn8(Registers16::HL),
        0xF9 => instruction::ld_r16_r16(Registers16::SP, Registers16::HL),
        0xFA => instruction::ld_r8_an16(Registers8::A),
        0xFB => instruction::ei(),
        0xFC => instruction::illegal_opcode(0x00FCu32),
        0xFD => instruction::illegal_opcode(0x00FDu32),
        0xFE => instruction::cp_r8_n8(Registers8::A),
        _ => instruction::rst_f(RstFlag::H38),
    }
}

}
