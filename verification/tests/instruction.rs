use gameboy::cartridge::Cartridge;
use gameboy::cpu::CPU;
use gameboy::instruction::helper;
use gameboy::instruction::{
    adc_r8_n8, adc_r8_r8, add_r16_n8, add_r8_r8, call_n16, cp_r8_n8, cp_r8_r8, daa, dec_ar16, dec_r8,
    inc_ar16, inc_r8, jp_f_n16, ld_r16_spn8, ret, rlca, sbc_r8_r8, scf, set_r8, sra_r8, sub_r8_r8,
    JumpFlag,
};
use gameboy::mmu::MMU;
use gameboy::register::{Flag, Registers, Registers16, Registers8};
use gameboy::rom::BootRom;

fn test_cpu() -> CPU {
    CPU::new(Registers::new(), MMU::new(BootRom::zero(), Cartridge::zero()))
}

#[test]
fn test_bit_r8() {
    let mut cpu = test_cpu();

    helper::bit(&mut cpu, 7, 0x80);

    assert_eq!(cpu.registers.get_flag(Flag::Z), false);
    assert_eq!(cpu.registers.get_flag(Flag::N), false);
    assert_eq!(cpu.registers.get_flag(Flag::H), true);
}

#[test]
fn test_set_r8() {
    let mut cpu = test_cpu();

    cpu.registers.set8(Registers8::A, 0x80);
    set_r8(3, Registers8::A).call(&mut cpu);

    assert_eq!(cpu.registers.get8(Registers8::A), 0x88);

    assert_eq!(cpu.registers.get_flag(Flag::Z), false);
    assert_eq!(cpu.registers.get_flag(Flag::N), false);
    assert_eq!(cpu.registers.get_flag(Flag::H), false);
    assert_eq!(cpu.registers.get_flag(Flag::C), false);
}

#[test]
fn test_scf() {
    let mut cpu = test_cpu();

    scf().call(&mut cpu);

    assert_eq!(cpu.registers.get_flag(Flag::Z), false);
    assert_eq!(cpu.registers.get_flag(Flag::N), false);
    assert_eq!(cpu.registers.get_flag(Flag::H), false);
    assert_eq!(cpu.registers.get_flag(Flag::C), true);
}

#[test]
fn test_adc_r8_r8() {
    let mut cpu = test_cpu();

    cpu.registers.set8(Registers8::A, 0xE1);
    cpu.registers.set8(Registers8::E, 0x0F);
    cpu.registers.set_flag(Flag::C, true);

    adc_r8_r8(Registers8::A, Registers8::E).call(&mut cpu);

    assert_eq!(cpu.registers.get8(Registers8::A), 0xF1);

    assert_eq!(cpu.registers.get_flag(Flag::Z), false);
    assert_eq!(cpu.registers.get_flag(Flag::H), true);
    assert_eq!(cpu.registers.get_flag(Flag::C), false);
}

#[test]
fn test_adc_r8_n8() {
    let mut cpu = test_cpu();

    cpu.registers.set8(Registers8::A, 0xE1);
    cpu.registers.set_flag(Flag::C, true);
    cpu.push_pc(0xFF80, 0x3B);

    adc_r8_n8(Registers8::A).call(&mut cpu);

    assert_eq!(cpu.registers.get8(Registers8::A), 0x1D);

    assert_eq!(cpu.registers.get_flag(Flag::Z), false);
    assert_eq!(cpu.registers.get_flag(Flag::H), false);
    assert_eq!(cpu.registers.get_flag(Flag::C), true);
}

#[test]
fn test_sdc_r8_r8() {
    let mut cpu = test_cpu();

    cpu.registers.set8(Registers8::A, 0x3B);
    cpu.registers.set8(Registers8::H, 0x2A);
    cpu.registers.set_flag(Flag::C, true);

    sbc_r8_r8(Registers8::A, Registers8::H).call(&mut cpu);

    assert_eq!(cpu.registers.get8(Registers8::A), 0x10);

    assert_eq!(cpu.registers.get_flag(Flag::Z), false);
    assert_eq!(cpu.registers.get_flag(Flag::H), false);
    assert_eq!(cpu.registers.get_flag(Flag::N), true);
    assert_eq!(cpu.registers.get_flag(Flag::C), false);
}

#[test]
fn test_dec_r8() {
    let mut cpu = test_cpu();

    cpu.registers.set8(Registers8::L, 0x01);

    dec_r8(Registers8::L).call(&mut cpu);

    assert_eq!(cpu.registers.get8(Registers8::L), 0x00);

    assert_eq!(cpu.registers.get_flag(Flag::Z), true);
    assert_eq!(cpu.registers.get_flag(Flag::H), false);
    assert_eq!(cpu.registers.get_flag(Flag::N), true);
    // interestingly blarggs says inc and dec nevery set carry
    assert_eq!(cpu.registers.get_flag(Flag::C), false);
}

#[test]
fn test_inc_r8() {
    let mut cpu = test_cpu();

    cpu.registers.set8(Registers8::L, 0x01);

    inc_r8(Registers8::L).call(&mut cpu);

    assert_eq!(cpu.registers.get8(Registers8::L), 0x02);

    assert_eq!(cpu.registers.get_flag(Flag::Z), false);
    assert_eq!(cpu.registers.get_flag(Flag::H), false);
    assert_eq!(cpu.registers.get_flag(Flag::N), false);
    assert_eq!(cpu.registers.get_flag(Flag::C), false);
}

#[test]
fn test_rlca() {
    let mut cpu = test_cpu();

    cpu.registers.set8(Registers8::A, 0x85);

    rlca().call(&mut cpu);

    /* Note this disagrees with the gamboy manual
     * The manual suggests this should be 0x0A but that
     * seems impossible.
     */
    assert_eq!(cpu.registers.get8(Registers8::A), 0x0B);

    assert_eq!(cpu.registers.get_flag(Flag::Z), false);
    assert_eq!(cpu.registers.get_flag(Flag::H), false);
    assert_eq!(cpu.registers.get_flag(Flag::N), false);
    assert_eq!(cpu.registers.get_flag(Flag::C), true);
}

#[test]
fn test_sra() {
    let mut cpu = test_cpu();

    cpu.registers.set8(Registers8::A, 0x8A);

    sra_r8(Registers8::A).call(&mut cpu);

    assert_eq!(cpu.registers.get8(Registers8::A), 0xC5);

    assert_eq!(cpu.registers.get_flag(Flag::Z), false);
    assert_eq!(cpu.registers.get_flag(Flag::H), false);
    assert_eq!(cpu.registers.get_flag(Flag::N), false);
    assert_eq!(cpu.registers.get_flag(Flag::C), false);
}

#[test]
fn test_dec_ar16() {
    let mut cpu = test_cpu();

    cpu.mmu.set(0xFF80, 0x00);
    cpu.registers.set16(Registers16::HL, 0xFF80);
    cpu.registers.set_flag(Flag::C, true);

    dec_ar16(Registers16::HL).call(&mut cpu);

    assert_eq!(cpu.mmu.get(0xFF80), 0xFF);

    assert_eq!(cpu.registers.get_flag(Flag::Z), false);
    assert_eq!(cpu.registers.get_flag(Flag::H), true);
    assert_eq!(cpu.registers.get_flag(Flag::N), true);

    /* assert that C isn't affected */
    assert_eq!(cpu.registers.get_flag(Flag::C), true);
}

#[test]
fn test_inc_ar16() {
    let mut cpu = test_cpu();

    cpu.mmu.set(0xFF80, 0x50);
    cpu.registers.set16(Registers16::HL, 0xFF80);
    cpu.registers.set_flag(Flag::C, true);

    inc_ar16(Registers16::HL).call(&mut cpu);

    assert_eq!(cpu.mmu.get(0xFF80), 0x51);

    assert_eq!(cpu.registers.get_flag(Flag::Z), false);
    assert_eq!(cpu.registers.get_flag(Flag::H), false);
    assert_eq!(cpu.registers.get_flag(Flag::N), false);

    /* assert that C isn't affected */
    assert_eq!(cpu.registers.get_flag(Flag::C), true);
}

#[test]
fn test_daa() {
    let mut cpu = test_cpu();

    cpu.registers.set8(Registers8::A, 0x45);
    cpu.registers.set8(Registers8::B, 0x38);
    cpu.registers.set_flag(Flag::N, true);

    add_r8_r8(Registers8::A, Registers8::B).call(&mut cpu);

    assert_eq!(cpu.registers.get8(Registers8::A), 0x7D);
    assert_eq!(cpu.registers.get_flag(Flag::N), false);

    daa().call(&mut cpu);

    assert_eq!(cpu.registers.get8(Registers8::A), 0x83);
    assert_eq!(cpu.registers.get_flag(Flag::C), false);

    sub_r8_r8(Registers8::A, Registers8::B).call(&mut cpu);

    assert_eq!(cpu.registers.get8(Registers8::A), 0x4B);
    assert_eq!(cpu.registers.get_flag(Flag::N), true);

    daa().call(&mut cpu);

    assert_eq!(cpu.registers.get8(Registers8::A), 0x45);
}

#[test]
fn test_ld_r16_spn8() {
    let mut cpu = test_cpu();

    cpu.registers.set16(Registers16::SP, 0xFFF8);
    cpu.push_pc(0xFF80, 0x02);

    ld_r16_spn8(Registers16::HL).call(&mut cpu);

    assert_eq!(cpu.registers.get16(Registers16::HL), 0xFFFA);
    assert_eq!(cpu.registers.get_flag(Flag::Z), false);
    assert_eq!(cpu.registers.get_flag(Flag::N), false);
    assert_eq!(cpu.registers.get_flag(Flag::H), false);
    assert_eq!(cpu.registers.get_flag(Flag::C), false);
}

#[test]
fn test_ld_r16_spn8_sub() {
    let mut cpu = test_cpu();

    cpu.registers.set16(Registers16::SP, 0xDFFD);
    cpu.push_pc(0xFF80, 0xFE);

    ld_r16_spn8(Registers16::HL).call(&mut cpu);

    assert_eq!(cpu.registers.get16(Registers16::HL), 0xDFFB);
    assert_eq!(cpu.registers.get_flag(Flag::Z), false);
    assert_eq!(cpu.registers.get_flag(Flag::N), false);
    assert_eq!(cpu.registers.get_flag(Flag::H), true);
    assert_eq!(cpu.registers.get_flag(Flag::C), false);
}

#[test]
fn test_add_r16_n8() {
    let mut cpu = test_cpu();

    cpu.registers.set16(Registers16::SP, 0xDFFD);
    cpu.push_pc(0xFF80, 0x01);

    add_r16_n8(Registers16::SP).call(&mut cpu);

    assert_eq!(cpu.registers.get16(Registers16::SP), 0xDFFE);
    assert_eq!(cpu.registers.get_flag(Flag::Z), false);
    assert_eq!(cpu.registers.get_flag(Flag::N), false);
    assert_eq!(cpu.registers.get_flag(Flag::H), false);
    assert_eq!(cpu.registers.get_flag(Flag::C), false);
}

#[test]
fn test_add_r16_n8_sub() {
    let mut cpu = test_cpu();

    cpu.registers.set16(Registers16::SP, 0xDFFD);
    cpu.push_pc(0xFF80, 0xFF);

    add_r16_n8(Registers16::SP).call(&mut cpu);

    assert_eq!(cpu.registers.get16(Registers16::SP), 0xDFFC);
    assert_eq!(cpu.registers.get_flag(Flag::Z), false);
    assert_eq!(cpu.registers.get_flag(Flag::N), false);
    assert_eq!(cpu.registers.get_flag(Flag::H), true);
    assert_eq!(cpu.registers.get_flag(Flag::C), false);
}

#[test]
fn test_jp_f_n16() {
    let mut cpu = test_cpu();

    cpu.registers.set_flag(Flag::Z, true);
    cpu.push_pc(0xFF80, 0x10);

    jp_f_n16(JumpFlag::Z).call(&mut cpu);

    assert_eq!(cpu.registers.get16(Registers16::PC), 0x10);
}

#[test]
fn test_jp_f_n16_no_test() {
    let mut cpu = test_cpu();

    cpu.registers.set_flag(Flag::Z, true);
    cpu.push_pc(0xFF80, 0x10);

    jp_f_n16(JumpFlag::NZ).call(&mut cpu);

    assert_eq!(cpu.registers.get16(Registers16::PC), 0xFF82);
}

#[test]
fn test_call() {
    let mut cpu = test_cpu();

    cpu.push_pc(0x8002, 0x12);
    cpu.push_pc(0x8001, 0x34);
    cpu.registers.set16(Registers16::SP, 0xFFFE);

    call_n16().call(&mut cpu);

    assert_eq!(cpu.registers.get16(Registers16::PC), 0x1234);
    assert_eq!(cpu.registers.get16(Registers16::SP), 0xFFFC);

    assert_eq!(cpu.mmu.get(0xFFFD), 0x80);
    assert_eq!(cpu.mmu.get(0xFFFC), 0x03);
}

#[test]
fn test_ret() {
    let mut cpu = test_cpu();

    cpu.push_pc(0x8002, 0x90);
    cpu.push_pc(0x8001, 0x00);

    call_n16().call(&mut cpu);

    assert_eq!(cpu.registers.get16(Registers16::PC), 0x9000);

    ret().call(&mut cpu);

    assert_eq!(cpu.registers.get16(Registers16::PC), 0x8003);
}

#[test]
fn test_sub_r8_n8() {
    let mut cpu = test_cpu();

    cpu.registers.set8(Registers8::A, 0x3E);
    cpu.registers.set8(Registers8::E, 0x3E);

    sub_r8_r8(Registers8::A, Registers8::E).call(&mut cpu);

    assert_eq!(cpu.registers.get8(Registers8::A), 0x00);

    assert_eq!(cpu.registers.get_flag(Flag::Z), true);
    assert_eq!(cpu.registers.get_flag(Flag::H), false);
    assert_eq!(cpu.registers.get_flag(Flag::N), true);
    assert_eq!(cpu.registers.get_flag(Flag::C), false);
}

#[test]
fn test_cp_r8_r8() {
    let mut cpu = test_cpu();

    cpu.registers.set8(Registers8::A, 0x3C);
    cpu.registers.set8(Registers8::B, 0x2F);

    cp_r8_r8(Registers8::A, Registers8::B).call(&mut cpu);

    assert_eq!(cpu.registers.get8(Registers8::A), 0x3C);

    assert_eq!(cpu.registers.get_flag(Flag::Z), false);
    assert_eq!(cpu.registers.get_flag(Flag::H), true);
    assert_eq!(cpu.registers.get_flag(Flag::N), true);
    assert_eq!(cpu.registers.get_flag(Flag::C), false);
}

#[test]
fn test_cp_r8_n8() {
    let mut cpu = test_cpu();

    cpu.registers.set8(Registers8::A, 0x3C);
    cpu.push_pc(0xFF80, 0x3C);

    cp_r8_n8(Registers8::A).call(&mut cpu);

    assert_eq!(cpu.registers.get_flag(Flag::Z), true);
    assert_eq!(cpu.registers.get_flag(Flag::H), false);
    assert_eq!(cpu.registers.get_flag(Flag::N), true);
    assert_eq!(cpu.registers.get_flag(Flag::C), false);
}
