use gameboy::cartridge::Cartridge;
use gameboy::mmu::{TimerControl, MMU};
use gameboy::rom::BootRom;

#[test]
fn mmu_test_get_set_tile_map() {
    let mut m = MMU::new(BootRom::zero(), Cartridge::zero());
    let a = 0x9800 + 272;
    m.set(a, 0x19);
    assert_eq!(m.get(a), 0x19);
}

#[test]
fn memory_reads_back_what_was_written() {
    let mut m = MMU::new(BootRom::zero(), Cartridge::zero());
    for a in [0xC000u16, 0xDFFF, 0xFF80, 0xFFFE, 0xA000, 0x8000] {
        m.set(a, 0x5A);
        assert_eq!(m.get(a), 0x5A);
    }
}

#[test]
fn flag_registers_keep_five_bits() {
    let mut m = MMU::new(BootRom::zero(), Cartridge::zero());
    m.set(0xFF0F, 0xFF);
    assert_eq!(m.get(0xFF0F), 0x1F);
    m.set(0xFFFF, 0xE5);
    assert_eq!(m.get(0xFFFF), 0x05);
}

#[test]
fn div_resets_on_write() {
    let mut m = MMU::new(BootRom::zero(), Cartridge::zero());
    m.timer.clock = 0x1234;
    assert_eq!(m.get(0xFF04), 0x12);
    m.set(0xFF04, 0x77);
    assert_eq!(m.get(0xFF04), 0x00);
}

#[test]
fn timer_control_frequency_bits() {
    assert_eq!(TimerControl::from_byte(0b101).to_byte(), 0b110);
    assert_eq!(TimerControl::from_byte(0b110).to_byte(), 0b101);
    assert_eq!(TimerControl::from_byte(0b111).to_byte(), 0b111);
    assert_eq!(TimerControl::from_byte(0xFC).to_byte(), 0b100);
    assert_eq!(TimerControl::from_byte(0xF8).to_byte(), 0b000);
}

#[test]
fn word_is_stored_high_byte_first() {
    let mut m = MMU::new(BootRom::zero(), Cartridge::zero());
    m.set16(0xC010, 0xBEEF);
    assert_eq!(m.get(0xC010), 0xBE);
    assert_eq!(m.get(0xC011), 0xEF);
    assert_eq!(m.get16(0xC010), 0xEFBE);
}

#[test]
fn boot_rom_covers_the_first_page_until_switched_off() {
    let mut bytes = [0u8; 256];
    bytes[0] = 0x31;
    let mut m = MMU::new(BootRom::from_bytes(bytes), Cartridge::new(vec![0xAA; 0x200], gameboy::cartridge::Header::zero()));
    assert_eq!(m.get(0x0000), 0x31);
    assert!(!m.can_write(0x0000));
    m.set(0xFF50, 1);
    assert_eq!(m.get(0x0000), 0xAA);
    assert!(m.can_read(0x01FF));
    assert!(!m.can_read(0x0200));
}

#[test]
fn unmapped_and_sprite_areas_are_refused() {
    let m = MMU::new(BootRom::zero(), Cartridge::zero());
    assert!(!m.can_read(0xE001));
    assert!(!m.can_read(0xFE00));
    assert!(!m.can_write(0xFDFF));
    assert!(m.can_read(0xFEA0));
    assert_eq!(m.get(0xFEA0), 0);
}

#[test]
fn skip_boot_sets_the_io_registers() {
    let m = MMU::skip_boot(Cartridge::zero());
    assert_eq!(m.get(0xFF40), 0x91);
    assert_eq!(m.get(0xFF47), 0xFC);
    assert_eq!(m.get(0xFFFF), 0x00);
    assert!(m.booted == false);
}
