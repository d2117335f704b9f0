use gameboy::cartridge::{CartridgeType, Header, RomSize};
use gameboy::device::interrupt::InterruptFlag;
use gameboy::device::lcd::{Mode, StatusRegister, LCD};
use gameboy::device::Device;
use gameboy::register::watcher::Watcher;
use gameboy::register::{RPair, Registers16, Registers8};
use gameboy::text::number;
use gameboy::tile::Tile;
use gameboy::pixel::Pixel;

#[test]
fn the_lcd_walks_through_its_modes() {
    let mut l = LCD::new();
    assert_eq!(l.advance_cycles(79), None);
    assert_eq!(l.advance_cycles(1), Some(Mode::VRAM));
    assert_eq!(l.advance_cycles(172), Some(Mode::HBlank));
    assert_eq!(l.advance_cycles(200), None);
    assert_eq!(l.advance_cycles(4), Some(Mode::OAM));
    assert_eq!(l.lines, 1);
    assert_eq!(l.mode_clock, 0);
}

#[test]
fn vblank_starts_after_line_143_and_ends_after_152() {
    let mut l = LCD::new();
    l.lines = 143;
    l.status.mode = Mode::HBlank;
    l.mode_clock = 400;
    assert_eq!(l.advance_cycles(56), Some(Mode::VBlank));
    assert_eq!(l.lines, 144);
    l.lines = 152;
    l.mode_clock = 450;
    assert_eq!(l.advance_cycles(6), Some(Mode::OAM));
    assert_eq!(l.lines, 0);
}

#[test]
fn a_line_counter_at_255_would_overflow() {
    let mut l = LCD::new();
    l.lines = 255;
    l.status.mode = Mode::HBlank;
    l.mode_clock = 450;
    assert!(l.overflows_after(6));
    assert!(!l.overflows_after(5));
    l.status.mode = Mode::OAM;
    assert!(!l.overflows_after(6));
}

#[test]
fn the_status_register_keeps_seven_bits() {
    let mut l = LCD::new();
    l.set(0x41, 0xFF);
    assert_eq!(l.get(0x41), 0x7F);
    assert_eq!(l.status, StatusRegister::from(0xFF));
    l.set(0x47, 0xE4);
    assert_eq!(l.get(0x47), 0xE4);
}

#[test]
fn interrupt_flags_round_trip() {
    let f = InterruptFlag::from(0b0001_0101);
    assert!(f.vblank && !f.lcd_stat && f.timer && !f.serial && f.joypad);
    assert_eq!(u8::from(f), 0b0001_0101);
    assert_eq!(u8::from(InterruptFlag::from(0xFF)), 0x1F);
}

#[test]
fn a_break_point_triggers_the_watcher() {
    let mut w = Watcher::new();
    assert!(w.set_break_point(RPair::R8(Registers8::A, 7)));
    assert!(!w.set_break_point(RPair::R8(Registers8::A, 7)));
    assert!(!w.check(RPair::R8(Registers8::A, 6)));
    assert!(!w.triggered());
    assert!(w.check(RPair::R8(Registers8::A, 7)));
    assert!(w.triggered());
    w.clear_trigger();
    assert!(!w.triggered());
    assert!(w.remove_break_point(RPair::R8(Registers8::A, 7)));
    assert!(!w.check(RPair::R8(Registers8::A, 7)));
    assert!(w.set_break_point(RPair::R16(Registers16::PC, 0x0100)));
    assert!(w.check(RPair::R16(Registers16::PC, 0x0100)));
}

#[test]
fn tile_rows_decode_two_bytes() {
    let mut t = Tile::zero();
    t.set_row(2, 0b1000_0001, 0b1000_0000);
    assert_eq!(t.data[2][0], Pixel::P3);
    assert_eq!(t.data[2][7], Pixel::P1);
    assert_eq!(t.data[2][1], Pixel::P0);
    assert_eq!(t.data[1][0], Pixel::P0);
}

#[test]
fn headers_decode_type_and_size() {
    let mut bytes = [0u8; 0x4F];
    bytes[0x34] = b'T';
    bytes[0x35] = b'E';
    bytes[0x47] = 0x01;
    bytes[0x48] = 0x02;
    assert!(Header::can_decode(&bytes));
    let h = Header::new(bytes);
    assert!(h.has_capacity());
    assert_eq!(h.capacity(), 64000);
    bytes[0x48] = 0x09;
    assert!(!Header::can_decode(&bytes));
    bytes[0x48] = 0x00;
    bytes[0x34] = 0xFF;
    assert!(!Header::can_decode(&bytes));
    assert_eq!(RomSize::from(0x53), RomSize::S80);
    assert_eq!(CartridgeType::from(0x13), CartridgeType::MCB3RAMBattery);
    assert_eq!(CartridgeType::from(0x04), CartridgeType::MCB0);
    assert_eq!(Header::zero().capacity(), 32000);
}

#[test]
fn numbers_are_written_without_leading_zeros() {
    assert_eq!(number("x", 0, 10), "x0");
    assert_eq!(number("", 255, 10), "255");
    assert_eq!(number("0x", 0xBEEF, 16), "0xBEEF");
    assert_eq!(number("", 4096, 16), "1000");
}

#[test]
fn the_status_register_numbers_its_modes() {
    assert_eq!(StatusRegister::from(0x00).mode, Mode::HBlank);
    assert_eq!(StatusRegister::from(0x01).mode, Mode::VBlank);
    assert_eq!(StatusRegister::from(0x02).mode, Mode::OAM);
    assert_eq!(StatusRegister::from(0x03).mode, Mode::VRAM);
    for b in 0..=255u8 {
        let r = StatusRegister::from(b);
        assert_eq!(r.mode.value(), b & 0b11);
        assert_eq!(u8::from(r), b & 0x7F);
    }
    let mut r = StatusRegister::new();
    r.mode = Mode::VBlank;
    assert_eq!(u8::from(r), 0x01);
    r.mode = Mode::VRAM;
    assert_eq!(u8::from(r), 0x03);
}

#[test]
fn cartridge_numbers() {
    assert_eq!(RomSize::S0.value(), 2);
    assert_eq!(RomSize::from(0x08).value(), 512);
    assert_eq!(RomSize::from(0x52).value(), 72);
    assert_eq!(RomSize::S96.value(), 96);
    assert_eq!(CartridgeType::MCB0.value(), 0x00);
    assert_eq!(CartridgeType::HuC1RAMBattery.value(), 0xFF);
    for b in [0x00u8, 0x01, 0x13, 0x22, 0xFC, 0xFF] {
        assert_eq!(CartridgeType::from(b).value(), b);
    }
}

#[test]
fn a_removed_break_point_stays_silent() {
    let mut w = Watcher::new();
    let p = RPair::R16(Registers16::PC, 0x0100);
    assert!(w.set_break_point(p));
    assert!(w.remove_break_point(p));
    assert!(!w.check(p));
    assert!(!w.triggered());
    assert!(!w.remove_break_point(p));
    assert!(!w.check(p));
}
