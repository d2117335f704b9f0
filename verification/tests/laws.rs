use gameboy::cartridge::Cartridge;
use gameboy::cpu::CPU;
use gameboy::instruction::{add_r8_r8, call_n16, daa, pop_r16, push_r16, ret, sub_r8_r8};
use gameboy::mmu::MMU;
use gameboy::register::{Flag, Registers, Registers16, Registers8};
use gameboy::rom::BootRom;

fn test_cpu() -> CPU {
    CPU::new(Registers::new(), MMU::new(BootRom::zero(), Cartridge::zero()))
}

fn bcd(n: u32) -> u8 {
    ((n / 10) * 16 + n % 10) as u8
}

#[test]
fn add_then_daa_adds_decimal_numbers() {
    for x in 0..100u32 {
        for y in 0..100u32 {
            let mut cpu = test_cpu();
            cpu.registers.set8(Registers8::A, bcd(x));
            cpu.registers.set8(Registers8::D, bcd(y));
            add_r8_r8(Registers8::A, Registers8::D).call(&mut cpu);
            daa().call(&mut cpu);
            assert_eq!(cpu.registers.get8(Registers8::A), bcd((x + y) % 100));
            assert_eq!(cpu.registers.get_flag(Flag::C), x + y >= 100);
        }
    }
}

#[test]
fn sub_then_daa_subtracts_decimal_numbers() {
    for x in 0..100u32 {
        for y in 0..100u32 {
            let mut cpu = test_cpu();
            cpu.registers.set8(Registers8::A, bcd(x));
            cpu.registers.set8(Registers8::E, bcd(y));
            sub_r8_r8(Registers8::A, Registers8::E).call(&mut cpu);
            daa().call(&mut cpu);
            assert_eq!(cpu.registers.get8(Registers8::A), bcd((x + 100 - y) % 100));
            assert_eq!(cpu.registers.get_flag(Flag::C), x < y);
        }
    }
}

#[test]
fn push_pop_round_trip_in_work_ram() {
    let mut cpu = test_cpu();
    cpu.registers.set16(Registers16::SP, 0xD000);
    cpu.registers.set16(Registers16::HL, 0x1357);
    push_r16(Registers16::HL).call(&mut cpu);
    assert_eq!(cpu.mmu.get(0xCFFF), 0x13);
    assert_eq!(cpu.mmu.get(0xCFFE), 0x57);
    pop_r16(Registers16::BC).call(&mut cpu);
    assert_eq!(cpu.registers.get16(Registers16::BC), 0x1357);
    assert_eq!(cpu.registers.get16(Registers16::SP), 0xD000);
}

#[test]
fn ret_comes_back_after_the_call() {
    let mut cpu = test_cpu();
    cpu.registers.set16(Registers16::SP, 0xC100);
    cpu.push_pc(0xC002, 0x40);
    cpu.push_pc(0xC001, 0x00);
    call_n16().call(&mut cpu);
    assert_eq!(cpu.registers.get16(Registers16::PC), 0x4000);
    ret().call(&mut cpu);
    assert_eq!(cpu.registers.get16(Registers16::PC), 0xC003);
    assert_eq!(cpu.registers.get16(Registers16::SP), 0xC100);
}

#[test]
fn registers_read_back_what_was_written() {
    let mut r = Registers::new();
    r.set8(Registers8::F, 0xFF);
    assert_eq!(r.get8(Registers8::F), 0xF0);
    r.set16(Registers16::AF, 0x1234);
    assert_eq!(r.get16(Registers16::AF), 0x1230);
    r.set16(Registers16::DE, 0xABCD);
    assert_eq!(r.get8(Registers8::D), 0xAB);
    assert_eq!(r.get8(Registers8::E), 0xCD);
    r.set_flag(Flag::H, true);
    assert!(r.get_flag(Flag::H));
    assert!(!r.get_flag(Flag::N));
    r.inc16(Registers16::SP);
    assert_eq!(r.get16(Registers16::SP), 0xFFFF);
    r.inc16(Registers16::SP);
    assert_eq!(r.get16(Registers16::SP), 0x0000);
    r.dec16(Registers16::SP);
    assert_eq!(r.get16(Registers16::SP), 0xFFFF);
}
