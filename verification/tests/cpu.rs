use gameboy::cartridge::{Cartridge, Header};
use gameboy::cpu::{advance_cycles, try_advance_cycles, CPUAction, CPUManager, CPU};
use gameboy::device::interrupt::Interrupt;
use gameboy::gameboy::Gameboy;
use gameboy::instruction::opcode::{build_instructions, Fetcher};
use gameboy::instruction::{
    bit_r8, halt, illegal_opcode, ld_ar16_r8, ld_r16_r16, ldd_r8_ar16, nop, or_r8_r8, rst_f, JumpFlag,
    Op, RstFlag, ShiftOp, Target8, jr_f_n8, pop_r16, push_r16,
};
use gameboy::mmu::MMU;
use gameboy::register::{HaltedState, Registers, Registers16, Registers8, IME};
use gameboy::rom::BootRom;

fn test_cpu() -> CPU {
    CPU::new(Registers::new(), MMU::new(BootRom::zero(), Cartridge::zero()))
}

/// A processor past the boot ROM, running the program `code` from 0x0100.
fn program_cpu(code: &[u8]) -> CPU {
    let mut rom = vec![0u8; 0x8000];
    for (i, b) in code.iter().enumerate() {
        rom[0x100 + i] = *b;
    }
    let mut cpu = CPU::new(Registers::skip_boot(), MMU::new(BootRom::zero(), Cartridge::new(rom, Header::zero())));
    cpu.mmu.set(0xFF50, 1);
    cpu
}

#[test]
fn descriptions_name_the_operands() {
    assert_eq!(nop().description, "NOP");
    assert_eq!(ld_ar16_r8(Registers16::HL, Registers8::B).description, "LD AR16 R8 | HL B");
    assert_eq!(ldd_r8_ar16(Registers8::A, Registers16::HL).description, "LDD R7 AR16 | A HL");
    assert_eq!(or_r8_r8(Registers8::A, Registers8::C).description, "OX R8 R8 | A C");
    assert_eq!(bit_r8(7, Registers8::H).description, "BIT R8 | 7 H");
    assert_eq!(rst_f(RstFlag::H38).description, "RST F: H38");
    assert_eq!(jr_f_n8(JumpFlag::NC).description, "JR F N8 | NC");
    assert_eq!(illegal_opcode(0xCB).description, "Illegal opcode: 0xCB");
    assert_eq!(illegal_opcode(0x1F4).description, "Illegal opcode: 0x1F4");
}

#[test]
fn the_table_covers_both_opcode_spaces() {
    let table = build_instructions();
    assert_eq!(table.len(), 512);
    let f = Fetcher::new();
    assert_eq!(f.fetch(0x00).unwrap().description, "NOP");
    assert_eq!(f.fetch(0x76).unwrap().description, "HALT");
    assert_eq!(f.fetch(0x41).unwrap().description, "LD R8 R8 | B C");
    assert_eq!(f.fetch(0x86).unwrap().description, "ADD R8 AR16 | A HL");
    assert_eq!(f.fetch(0xCB).unwrap().op, Op::Illegal(0xCB));
    assert_eq!(f.fetch(0x100).unwrap().op, Op::Shift(ShiftOp::Rlc, Target8::Reg(Registers8::B)));
    assert_eq!(f.fetch(0x1FE).unwrap().description, "SET AR16 | 7 HL");
    assert_eq!(f.fetch(0xF9).unwrap().op, ld_r16_r16(Registers16::SP, Registers16::HL).op);
    assert!(f.fetch(0x200).is_none());
}

#[test]
fn opcodes_after_the_prefix_are_offset() {
    // CB 37: SWAP A
    let mut cpu = program_cpu(&[0xCB, 0x37]);
    assert_eq!(cpu.get_opcode(), 0x137);
    assert_eq!(cpu.registers.get16(Registers16::PC), 0x0102);
    let mut cpu = program_cpu(&[0x3E]);
    assert_eq!(cpu.get_opcode(), 0x3E);
}

#[test]
fn a_step_runs_one_instruction() {
    // LD A, 0x42 ; LD B, A
    let mut cpu = program_cpu(&[0x3E, 0x42, 0x47]);
    let f = Fetcher::new();
    assert_eq!(advance_cycles(&mut cpu, &f), CPUAction::Continue);
    assert_eq!(cpu.registers.get8(Registers8::A), 0x42);
    assert_eq!(cpu.registers.get16(Registers16::PC), 0x0102);
    assert_eq!(advance_cycles(&mut cpu, &f), CPUAction::Continue);
    assert_eq!(cpu.registers.get8(Registers8::B), 0x42);
    assert_eq!(cpu.mmu.lcd.mode_clock, 12);
}

#[test]
fn an_illegal_opcode_cannot_step() {
    let mut cpu = program_cpu(&[0xD3]);
    let f = Fetcher::new();
    assert_eq!(try_advance_cycles(&mut cpu, &f), None);
}

#[test]
fn interrupts_call_their_vector() {
    let mut cpu = program_cpu(&[0x00]);
    cpu.registers.ime = IME::Enabled;
    cpu.mmu.interrupt_enable.timer = true;
    cpu.mmu.interrupt_flag.timer = true;
    cpu.mmu.interrupt_flag.serial = true;
    assert_eq!(cpu.interrupt_available(), Some(Interrupt::Timer));
    cpu.handle_interrupts();
    assert_eq!(cpu.registers.get16(Registers16::PC), 0x50);
    assert_eq!(cpu.registers.get16(Registers16::SP), 0xFFFC);
    assert_eq!(cpu.mmu.get(0xFFFD), 0x01);
    assert_eq!(cpu.mmu.get(0xFFFC), 0x00);
    assert!(!cpu.mmu.interrupt_flag.timer);
    assert!(cpu.mmu.interrupt_flag.serial);
    assert_eq!(cpu.registers.ime, IME::Disabled);
    assert_eq!(cpu.interrupt_available(), None);
}

#[test]
fn halt_waits_for_an_interrupt() {
    let mut cpu = test_cpu();
    halt().call(&mut cpu);
    assert_eq!(cpu.registers.halted, HaltedState::HaltedNoJump);

    let mut cpu = test_cpu();
    cpu.mmu.interrupt_enable.vblank = true;
    cpu.mmu.interrupt_flag.vblank = true;
    halt().call(&mut cpu);
    assert_eq!(cpu.registers.halted, HaltedState::HaltBug);

    let mut cpu = test_cpu();
    cpu.registers.ime = IME::Enabled;
    halt().call(&mut cpu);
    assert_eq!(cpu.registers.halted, HaltedState::Halted);
}

#[test]
fn a_halted_processor_wakes_on_a_request() {
    let mut cpu = program_cpu(&[0x76]);
    let f = Fetcher::new();
    advance_cycles(&mut cpu, &f);
    assert_eq!(cpu.registers.halted, HaltedState::HaltedNoJump);
    advance_cycles(&mut cpu, &f);
    assert_eq!(cpu.registers.halted, HaltedState::HaltedNoJump);
    assert_eq!(cpu.mmu.timer.clock, 4);
    cpu.mmu.interrupt_enable.joypad = true;
    cpu.mmu.interrupt_flag.joypad = true;
    advance_cycles(&mut cpu, &f);
    assert_eq!(cpu.registers.halted, HaltedState::Running);
}

#[test]
fn push_then_pop_gives_the_pair_back() {
    let mut cpu = test_cpu();
    cpu.registers.set16(Registers16::BC, 0xBEEF);
    push_r16(Registers16::BC).call(&mut cpu);
    assert_eq!(cpu.registers.get16(Registers16::SP), 0xFFFC);
    pop_r16(Registers16::DE).call(&mut cpu);
    assert_eq!(cpu.registers.get16(Registers16::DE), 0xBEEF);
    assert_eq!(cpu.registers.get16(Registers16::SP), 0xFFFE);
}

#[test]
fn pop_into_af_clears_the_low_flag_bits() {
    let mut cpu = test_cpu();
    cpu.registers.set16(Registers16::BC, 0x12FF);
    push_r16(Registers16::BC).call(&mut cpu);
    pop_r16(Registers16::AF).call(&mut cpu);
    assert_eq!(cpu.registers.get16(Registers16::AF), 0x12F0);
}

#[test]
fn instructions_check_their_memory() {
    let cpu = test_cpu();
    // HL is 0: the boot ROM cannot be written
    assert!(!ld_ar16_r8(Registers16::HL, Registers8::A).can_run(&cpu));
    assert!(nop().can_run(&cpu));
    assert!(!illegal_opcode(0xD3).can_run(&cpu));
    assert!(!bit_r8(8, Registers8::A).can_run(&cpu));
}

#[test]
fn the_manager_draws_frames() {
    let mut m = CPUManager::new(Registers::new(), MMU::new(BootRom::zero(), Cartridge::zero()));
    m.cpu.mmu.set(0x8000, 0xFF);
    m.cpu.mmu.set(0x8001, 0xFF);
    m.cpu.mmu.set(0xFF47, 0b1110_0100);
    let frame = m.frame_info();
    assert_eq!(frame.tiles[0][0], gameboy::shade::Shade::Black);
    assert_eq!(frame.tiles[1][0], gameboy::shade::Shade::White);
    assert_eq!(frame.tile_map.palette.map(gameboy::pixel::Pixel::P3), gameboy::shade::Shade::Black);
    assert_eq!(m.apply(CPUAction::DMA), Some(true));
    assert!(m.cpu.mmu.interrupt_flag.vblank);
    assert_eq!(m.apply(CPUAction::Continue), Some(false));
    m.cpu.mmu.lcd.scroll_x = 200;
    assert_eq!(m.apply(CPUAction::RenderLine), None);
}

#[test]
fn render_line_draws_the_current_line() {
    let mut cpu = test_cpu();
    cpu.mmu.gpu.buffer[3][5] = gameboy::pixel::Pixel::P3;
    cpu.mmu.set(0xFF47, 0b1100_0000);
    cpu.mmu.lcd.lines = 1;
    cpu.mmu.lcd.scroll_y = 2;
    cpu.mmu.lcd.scroll_x = 4;
    cpu.render_line();
    assert_eq!(cpu.buffer[1][1], gameboy::shade::Shade::Black);
    assert_eq!(cpu.buffer[1][0], gameboy::shade::Shade::White);
    assert_eq!(cpu.buffer[0][1], gameboy::shade::Shade::White);
}

#[test]
fn skipping_the_boot_starts_at_the_cartridge() {
    let g = Gameboy::new(BootRom::zero(), Cartridge::zero(), true);
    assert_eq!(g.cpu.registers.get16(Registers16::PC), 0x0100);
    assert_eq!(g.cpu.registers.get16(Registers16::AF), 0x01B0);
    assert_eq!(g.cpu.mmu.get(0xFF40), 0x91);
    let g = Gameboy::new(BootRom::zero(), Cartridge::zero(), false);
    assert_eq!(g.cpu.registers.get16(Registers16::PC), 0x0000);
    assert_eq!(g.cpu.registers.get16(Registers16::SP), 0xFFFE);
}

#[test]
fn register_jump_under_its_first_name() {
    let i = gameboy::instruction::jp_ar16(gameboy::register::Registers16::HL);
    assert_eq!(i.description, "JP AR16 HL");
    assert_eq!(i.op, gameboy::instruction::jp_r16(gameboy::register::Registers16::HL).op);
}

#[test]
fn arguments_follow_the_opcode() {
    let mut cpu = program_cpu(&[0x12, 0x34, 0x56]);
    assert_eq!(cpu.get_arguments(0), 0);
    assert_eq!(cpu.registers.pc, 0x100);
    assert_eq!(cpu.get_arguments(1), 0x12);
    assert_eq!(cpu.registers.pc, 0x101);
    assert_eq!(cpu.get_arguments(2), 0x5634);
    assert_eq!(cpu.registers.pc, 0x103);
}

#[test]
fn the_table_describes_its_entries() {
    let f = Fetcher::new();
    assert_eq!(f.fetch(0x00).unwrap().description, "NOP");
    assert_eq!(f.fetch(0x41).unwrap().description, "LD R8 R8 | B C");
    assert_eq!(f.fetch(0xC3).unwrap().description, "JP N16");
    assert_eq!(f.fetch(0x17C).unwrap().description, "BIT R8 | 7 H");
    assert!(f.fetch(0x200).is_none());
}

#[test]
fn bounded_runs_of_a_frame() {
    let mut m = CPUManager::new(Registers::skip_boot(), program_cpu(&[]).mmu);
    assert_eq!(m.run_frame(100), gameboy::cpu::FrameEnd::Budget);
    assert_eq!(m.run_frame(100_000), gameboy::cpu::FrameEnd::Done);
    assert!(m.cpu.mmu.interrupt_flag.vblank);
}
