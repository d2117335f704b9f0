use vstd::prelude::*;
use vstd::std_specs::convert::FromSpec;
use crate::bytes;
use crate::bytes::{bit_of, byte_of_bits};
use crate::gpu::GPU;
use crate::cartridge::{Cartridge, CartridgeView};
use crate::device::Device;
use crate::device::ram::{Ram2k, Ram8k, HighRam};
use crate::device::lcd::LCD;
use crate::device::interrupt::InterruptFlag;
use crate::rom::BootRom;

verus! {

/// How many cycles make one tick of the TIMA counter.
#[derive(Debug, Clone, Copy, PartialEq, Eq, Structural)]
pub enum Frequency {
    F1024,
    F16,
    F64,
    F256,
}

impl Frequency {
    pub open spec fn spec_cycles(self) -> u16 {
        match self {
            Frequency::F1024 => 1024,
            Frequency::F16 => 16,
            Frequency::F64 => 64,
            Frequency::F256 => 256,
        }
    }

    /// The number of cycles of one tick.
    pub fn cycles(&self) -> (r: u16)
        ensures
            r == self.spec_cycles(),
    {
        match self {
            Frequency::F1024 => 1024,
            Frequency::F16 => 16,
            Frequency::F64 => 64,
            Frequency::F256 => 256,
        }
    }
}

/// The frequency named by bits 0 and 1 of the timer control byte.
pub open spec fn frequency_of_bits(bit0: bool, bit1: bool) -> Frequency {
    if !bit0 && !bit1 {
        Frequency::F1024
    } else if !bit0 && bit1 {
        Frequency::F16
    } else if bit0 && !bit1 {
        Frequency::F64
    } else {
        Frequency::F256
    }
}

/// The timer control register (TAC).
#[derive(Debug, Clone, Copy, PartialEq, Eq, Structural)]
pub struct TimerControl {
    pub enabled: bool,
    pub frequency: Frequency,
}

impl TimerControl {
    pub fn new() -> (t: TimerControl)
        ensures
            t == (TimerControl { enabled: false, frequency: Frequency::F1024 }),
    {
        TimerControl { enabled: false, frequency: Frequency::F1024 }
    }
}

impl TimerControl {
    /// The control a byte written to TAC sets: bit 2 enables the timer, bits 0 and 1 pick
    /// the frequency.
    pub open spec fn of_byte(byte: u8) -> TimerControl {
        TimerControl { enabled: bit_of(byte, 2), frequency: frequency_of_bits(bit_of(byte, 0), bit_of(byte, 1)) }
    }

    /// The byte TAC reads as.
    pub open spec fn byte(self) -> u8 {
        (frequency_bits(self.frequency) + if self.enabled { 4int } else { 0 }) as u8
    }

    pub fn from_byte(byte: u8) -> (t: TimerControl)
        ensures
            t == TimerControl::of_byte(byte),
    {
        let f = match (bytes::check_bit(byte, 0), bytes::check_bit(byte, 1)) {
            (false, false) => Frequency::F1024,
            (false, true) => Frequency::F16,
            (true, false) => Frequency::F64,
            (true, true) => Frequency::F256,
        };

        TimerControl { enabled: bytes::check_bit(byte, 2), frequency: f }
    }

    pub fn to_byte(&self) -> (b: u8)
        ensures
            b == self.byte(),
    {
        let mut u: u8 = match self.frequency {
            Frequency::F1024 => 0b0000_0000,
            Frequency::F16 => 0b0000_0001,
            Frequency::F64 => 0b0000_0010,
            Frequency::F256 => 0b0000_0011,
        };
        let ghost low = u;
        proof {
            assert(u == byte_of_bits(u == 1 || u == 3, u == 2 || u == 3, false, false, false, false, false, false));
            bytes::lemma_bits_of_byte(u == 1 || u == 3, u == 2 || u == 3, false, false, false, false, false, false);
        }

        u = bytes::set_bit(u, 2, self.enabled);
        proof {
            bytes::lemma_byte_of_bits(u, low == 1 || low == 3, low == 2 || low == 3, self.enabled, false, false, false, false, false);
        }

        u
    }
}

/// The low two bits that a frequency is written back as.
pub open spec fn frequency_bits(f: Frequency) -> u8 {
    match f {
        Frequency::F1024 => 0,
        Frequency::F16 => 1,
        Frequency::F64 => 2,
        Frequency::F256 => 3,
    }
}

/// The timer: the divider clock, the TIMA counter with its reload value and its control.
pub struct Timer {
    pub clock: u16,
    pub tma: u8,
    pub tima: u8,
    pub tac: TimerControl,

    pub tima_clock: u16,
}

/// Adds a byte to a 16 bit counter, wrapping around.
pub open spec fn wrap16(a: u16, n: u8) -> u16 {
    ((a as int + n as int) % 0x10000) as u16
}

impl Timer {
    /// The timer after `n` more cycles, and whether TIMA overflowed (and was reloaded).
    pub open spec fn advanced(self, n: u8) -> (Timer, bool) {
        let clock = wrap16(self.clock, n);
        if self.tac.enabled {
            let tima_clock = wrap16(clock, n);
            if tima_clock >= self.tac.frequency.spec_cycles() {
                let overflow = self.tima == 255;
                let tima = if overflow { self.tma } else { (self.tima + 1) as u8 };
                (Timer { clock, tima, tima_clock: 0, ..self }, overflow)
            } else {
                (Timer { clock, tima_clock, ..self }, false)
            }
        } else {
            (Timer { clock, ..self }, false)
        }
    }

    pub fn advance_cycles(&mut self, n: u8) -> (r: bool)
        ensures
            (*final(self), r) == old(self).advanced(n),
    {
        self.clock = self.clock.wrapping_add(n as u16);

        if self.tac.enabled {
            self.tima_clock = self.clock.wrapping_add(n as u16);

            if self.tima_clock >= self.tac.frequency.cycles() {
                let overflow = self.tima == 255;
                let v = self.tima.wrapping_add(1);

                if overflow {
                    self.tima = self.tma;
                } else {
                    self.tima = v;
                }

                self.tima_clock = 0;

                return overflow;
            }
        }
        false
    }

    /// The divider register: the high byte of the clock.
    pub fn get_div(&self) -> (r: u8)
        ensures
            r == self.clock / 256,
    {
        let c = self.clock;
        assert(c >> 8 == c / 256) by (bit_vector);
        (c >> 8) as u8
    }

    pub fn new() -> (t: Timer)
        ensures
            t == (Timer { clock: 0, tma: 0, tima: 0, tac: TimerControl { enabled: false, frequency: Frequency::F1024 }, tima_clock: 0 }),
    {
        Timer { clock: 0, tma: 0, tima: 0, tac: TimerControl::new(), tima_clock: 0 }
    }
}


/// The timer control byte reads back as written when bits 0 and 1 agree; when they differ
/// the two bits come back swapped (F16 and F64 are written back as each other's code).
pub proof fn lemma_timer_control_round_trip(byte: u8)
    ensures
        bit_of(byte, 0) == bit_of(byte, 1) ==> TimerControl::of_byte(byte).byte() == byte % 8,
        bit_of(byte, 0) != bit_of(byte, 1) ==> TimerControl::of_byte(byte).byte() == byte_of_bits(bit_of(byte, 1), bit_of(byte, 0), bit_of(byte, 2), false, false, false, false, false),
{
    bytes::lemma_low_bits(byte);
}

/// Where an address is mapped.
enum DeviceRef {
    BootRom,
    Cartridge,
    CartridgeRam,

    VRam,
    Ram,

    SpriteTable,
    Unused,
    IORegisters,
    HighRam,
    InterruptEnable,
}

/// The addresses the memory map covers; 0xE001 to 0xFDFF are not mapped.
pub open spec fn mapped(a: u16) -> bool {
    !(0xE001 <= a <= 0xFDFF)
}

/// What the processor sees of memory.
pub struct MemView {
    pub boot_rom: BootRom,
    pub cartridge: CartridgeView,
    pub io: Ram2k,
    pub ram: Ram8k,
    pub high_ram: HighRam,
    pub interrupt_enable: InterruptFlag,
    pub interrupt_flag: InterruptFlag,
    pub lcd: LCD,
    pub gpu: GPU,
    pub timer: Timer,
    pub booted: bool,
}

/// Whether the boot ROM still covers 0x0000 to 0x00FF.
pub open spec fn in_boot_rom(a: u16, booted: bool) -> bool {
    a <= 0x00FF && !booted
}

/// Whether the address reaches the cartridge ROM (directly addressed).
pub open spec fn in_cartridge(a: u16, booted: bool) -> bool {
    (a <= 0x00FF && booted) || (0x0100 <= a <= 0x7FFF)
}

impl MemView {
    /// The addresses a read accepts.
    pub open spec fn readable(self, a: u16) -> bool {
        if in_boot_rom(a, self.booted) {
            true
        } else if in_cartridge(a, self.booted) {
            a < self.cartridge.storage.len()
        } else if 0xC000 <= a <= 0xE000 {
            a < 0xE000
        } else {
            mapped(a) && !(0xFE00 <= a <= 0xFE9F)
        }
    }

    /// The addresses a write accepts.
    pub open spec fn writable(self, a: u16) -> bool {
        if in_boot_rom(a, self.booted) {
            false
        } else if in_cartridge(a, self.booted) {
            a < self.cartridge.storage.len()
        } else if 0xC000 <= a <= 0xE000 {
            a < 0xE000
        } else {
            mapped(a) && !(0xFE00 <= a <= 0xFE9F)
        }
    }

    /// What a read at `a` returns.
    pub open spec fn read(self, a: u16) -> u8 {
        if in_boot_rom(a, self.booted) {
            self.boot_rom.read(a)
        } else if in_cartridge(a, self.booted) {
            self.cartridge.storage[a as int]
        } else if 0x8000 <= a <= 0x9FFF {
            self.gpu.read(a)
        } else if 0xA000 <= a <= 0xBFFF {
            self.cartridge.ram.read((a - 0xA000) as u16)
        } else if 0xC000 <= a <= 0xE000 {
            self.ram.read((a - 0xC000) as u16)
        } else if 0xFEA0 <= a <= 0xFEFF {
            0
        } else if 0xFF00 <= a <= 0xFF7F {
            if a == 0xFF04 {
                (self.timer.clock / 256) as u8
            } else if a == 0xFF05 {
                self.timer.tima
            } else if a == 0xFF06 {
                self.timer.tma
            } else if a == 0xFF07 {
                self.timer.tac.byte()
            } else if a == 0xFF0F {
                <u8 as FromSpec<InterruptFlag>>::from_spec(self.interrupt_flag)
            } else if 0xFF40 <= a <= 0xFF4B {
                self.lcd.read((a - 0xFF00) as u16)
            } else {
                self.io.read((a - 0xFF00) as u16)
            }
        } else if 0xFF80 <= a <= 0xFFFE {
            self.high_ram.read((a - 0xFF80) as u16)
        } else {
            <u8 as FromSpec<InterruptFlag>>::from_spec(self.interrupt_enable)
        }
    }

    /// Memory after `v` is written at `a`.
    #[verifier::opaque]
    pub open spec fn written(self, a: u16, v: u8) -> MemView {
        if in_cartridge(a, self.booted) {
            MemView { cartridge: CartridgeView { storage: self.cartridge.storage.update(a as int, v), ..self.cartridge }, ..self }
        } else if 0x8000 <= a <= 0x9FFF {
            MemView { gpu: self.gpu.written(a, v), ..self }
        } else if 0xA000 <= a <= 0xBFFF {
            MemView { cartridge: CartridgeView { ram: self.cartridge.ram.written((a - 0xA000) as u16, v), ..self.cartridge }, ..self }
        } else if 0xC000 <= a <= 0xE000 {
            MemView { ram: self.ram.written((a - 0xC000) as u16, v), ..self }
        } else if 0xFF00 <= a <= 0xFF7F {
            if a == 0xFF04 {
                MemView { timer: Timer { clock: 0, ..self.timer }, ..self }
            } else if a == 0xFF05 {
                MemView { timer: Timer { tima: v, ..self.timer }, ..self }
            } else if a == 0xFF06 {
                MemView { timer: Timer { tma: v, ..self.timer }, ..self }
            } else if a == 0xFF07 {
                MemView { timer: Timer { tac: TimerControl::of_byte(v), ..self.timer }, ..self }
            } else if a == 0xFF0F {
                MemView { interrupt_flag: <InterruptFlag as FromSpec<u8>>::from_spec(v), ..self }
            } else if 0xFF40 <= a <= 0xFF4B {
                MemView { lcd: self.lcd.written((a - 0xFF00) as u16, v), ..self }
            } else if a == 0xFF50 {
                MemView { booted: self.booted || v == 1, ..self }
            } else {
                MemView { io: self.io.written((a - 0xFF00) as u16, v), ..self }
            }
        } else if 0xFF80 <= a <= 0xFFFE {
            MemView { high_ram: self.high_ram.written((a - 0xFF80) as u16, v), ..self }
        } else if a == 0xFFFF {
            MemView { interrupt_enable: <InterruptFlag as FromSpec<u8>>::from_spec(v), ..self }
        } else {
            self
        }
    }

    /// The 16 bit value stored little endian at `a` and `a + 1`.
    pub open spec fn read16(self, a: u16) -> u16 {
        (self.read((a + 1) as u16) as int * 256 + self.read(a) as int) as u16
    }
}

/// The I/O register writes that stand for the boot program.
pub open spec fn after_boot_writes(m: MemView) -> MemView {
    m
            .written(0xFF05, 0x00)
            .written(0xFF06, 0x00)
            .written(0xFF07, 0x00)
            .written(0xFF10, 0x80)
            .written(0xFF11, 0xBF)
            .written(0xFF12, 0xF3)
            .written(0xFF14, 0xBF)
            .written(0xFF16, 0x3F)
            .written(0xFF17, 0x00)
            .written(0xFF19, 0xBF)
            .written(0xFF1A, 0x7F)
            .written(0xFF1B, 0xFF)
            .written(0xFF1C, 0x9F)
            .written(0xFF1E, 0xBF)
            .written(0xFF20, 0xFF)
            .written(0xFF21, 0x00)
            .written(0xFF22, 0x00)
            .written(0xFF23, 0xBF)
            .written(0xFF24, 0x77)
            .written(0xFF25, 0xF3)
            .written(0xFF26, 0xF1)
            .written(0xFF40, 0x91)
            .written(0xFF42, 0x00)
            .written(0xFF43, 0x00)
            .written(0xFF45, 0x00)
            .written(0xFF47, 0xFC)
            .written(0xFF48, 0xFF)
            .written(0xFF49, 0xFF)
            .written(0xFF4A, 0x00)
            .written(0xFF4B, 0x00)
            .written(0xFFFF, 0x00)
}

pub struct MMU {
    pub boot_rom: BootRom,
    pub cartridge: Cartridge,
    pub io: Ram2k,
    pub ram: Ram8k,
    pub high_ram: HighRam,

    pub interrupt_enable: InterruptFlag,
    pub interrupt_flag: InterruptFlag,

    pub lcd: LCD,
    pub gpu: GPU,

    pub timer: Timer,

    pub booted: bool,
}

impl View for MMU {
    type V = MemView;

    open spec fn view(&self) -> MemView {
        MemView {
            boot_rom: self.boot_rom,
            cartridge: self.cartridge@,
            io: self.io,
            ram: self.ram,
            high_ram: self.high_ram,
            interrupt_enable: self.interrupt_enable,
            interrupt_flag: self.interrupt_flag,
            lcd: self.lcd,
            gpu: self.gpu,
            timer: self.timer,
            booted: self.booted,
        }
    }
}

impl MMU {
    /// Memory as it starts, around a boot ROM and a cartridge.
    pub open spec fn initial(boot_rom: BootRom, cartridge: CartridgeView) -> MemView {
        MemView {
            boot_rom,
            cartridge,
            io: Ram2k::zeroed(),
            ram: Ram8k::zeroed(),
            high_ram: HighRam::zeroed(),
            interrupt_enable: InterruptFlag { vblank: false, lcd_stat: false, timer: false, serial: false, joypad: false },
            interrupt_flag: InterruptFlag { vblank: false, lcd_stat: false, timer: false, serial: false, joypad: false },
            lcd: LCD::initial(),
            gpu: GPU::initial(),
            timer: Timer { clock: 0, tma: 0, tima: 0, tac: TimerControl { enabled: false, frequency: Frequency::F1024 }, tima_clock: 0 },
            booted: false,
        }
    }

    pub fn new(boot_rom: BootRom, cartridge: Cartridge) -> (m: MMU)
        ensures
            m@ == MMU::initial(boot_rom, cartridge@),
    {
        MMU {
            boot_rom: boot_rom,
            cartridge: cartridge,
            io: Ram2k::new(),
            ram: Ram8k::new(),
            high_ram: HighRam::new(),
            interrupt_enable: InterruptFlag::new(),
            interrupt_flag: InterruptFlag::new(),

            lcd: LCD::new(),
            gpu: GPU::new(),

            timer: Timer::new(),

            booted: false,
        }
    }

    /// Memory as the boot program leaves it: the boot ROM is a zero ROM and the I/O
    /// registers hold the values the boot program writes.
    pub fn skip_boot(cartridge: Cartridge) -> (m: MMU)
        ensures
            m@ == after_boot_writes(MMU::initial(BootRom::zeroed(), cartridge@)),
    {
        let mut mmu = MMU::new(BootRom::zero(), cartridge);
        mmu.set(0xFF05, 0x00);
        mmu.set(0xFF06, 0x00);
        mmu.set(0xFF07, 0x00);
        mmu.set(0xFF10, 0x80);
        mmu.set(0xFF11, 0xBF);
        mmu.set(0xFF12, 0xF3);
        mmu.set(0xFF14, 0xBF);
        mmu.set(0xFF16, 0x3F);
        mmu.set(0xFF17, 0x00);
        mmu.set(0xFF19, 0xBF);
        mmu.set(0xFF1A, 0x7F);
        mmu.set(0xFF1B, 0xFF);
        mmu.set(0xFF1C, 0x9F);
        mmu.set(0xFF1E, 0xBF);
        mmu.set(0xFF20, 0xFF);
        mmu.set(0xFF21, 0x00);
        mmu.set(0xFF22, 0x00);
        mmu.set(0xFF23, 0xBF);
        mmu.set(0xFF24, 0x77);
        mmu.set(0xFF25, 0xF3);
        mmu.set(0xFF26, 0xF1);
        mmu.set(0xFF40, 0x91);
        mmu.set(0xFF42, 0x00);
        mmu.set(0xFF43, 0x00);
        mmu.set(0xFF45, 0x00);
        mmu.set(0xFF47, 0xFC);
        mmu.set(0xFF48, 0xFF);
        mmu.set(0xFF49, 0xFF);
        mmu.set(0xFF4A, 0x00);
        mmu.set(0xFF4B, 0x00);
        mmu.set(0xFFFF, 0x00);
        mmu
    }

    fn get_device(&self, address: u16) -> (r: (u16, DeviceRef))
        requires
            mapped(address),
        ensures
            match r.1 {
                DeviceRef::BootRom => in_boot_rom(address, self.booted) && r.0 == 0,
                DeviceRef::Cartridge => in_cartridge(address, self.booted),
                DeviceRef::VRam => 0x8000 <= address <= 0x9FFF,
                DeviceRef::CartridgeRam => 0xA000 <= address <= 0xBFFF && r.0 == 0xA000,
                DeviceRef::Ram => 0xC000 <= address <= 0xE000 && r.0 == 0xC000,
                DeviceRef::SpriteTable => 0xFE00 <= address <= 0xFE9F,
                DeviceRef::Unused => 0xFEA0 <= address <= 0xFEFF,
                DeviceRef::IORegisters => 0xFF00 <= address <= 0xFF7F && r.0 == 0xFF00,
                DeviceRef::HighRam => 0xFF80 <= address <= 0xFFFE && r.0 == 0xFF80,
                DeviceRef::InterruptEnable => address == 0xFFFF,
            },
    {
        if address <= 0x00FF {
            if self.booted {
                (0x0000, DeviceRef::Cartridge)
            } else {
                (0x0000, DeviceRef::BootRom)
            }
        } else if address <= 0x7FFF {
            (0x0150, DeviceRef::Cartridge)
        } else if address <= 0x9FFF {
            (0x8000, DeviceRef::VRam)
        } else if address <= 0xBFFF {
            (0xA000, DeviceRef::CartridgeRam)
        } else if address <= 0xE000 {
            (0xC000, DeviceRef::Ram)
        } else if address <= 0xFE9F {
            (0xFE00, DeviceRef::SpriteTable)
        } else if address <= 0xFEFF {
            (0xFEA0, DeviceRef::Unused)
        } else if address <= 0xFF7F {
            (0xFF00, DeviceRef::IORegisters)
        } else if address <= 0xFFFE {
            (0xFF80, DeviceRef::HighRam)
        } else {
            (0xFFFF, DeviceRef::InterruptEnable)
        }
    }

    /// Whether a read of `address` is accepted.
    pub fn can_read(&self, address: u16) -> (b: bool)
        ensures
            b == self@.readable(address),
    {
        if address <= 0x00FF && !self.booted {
            true
        } else if (address <= 0x00FF && self.booted) || (0x0100 <= address && address <= 0x7FFF) {
            (address as usize) < self.cartridge.storage.len()
        } else if 0xC000 <= address && address <= 0xE000 {
            address < 0xE000
        } else {
            !(0xE001 <= address && address <= 0xFDFF) && !(0xFE00 <= address && address <= 0xFE9F)
        }
    }

    /// Whether a write to `address` is accepted.
    pub fn can_write(&self, address: u16) -> (b: bool)
        ensures
            b == self@.writable(address),
    {
        if address <= 0x00FF && !self.booted {
            false
        } else {
            self.can_read(address)
        }
    }

    pub fn get(&self, address: u16) -> (r: u8)
        requires
            self@.readable(address),
        ensures
            r == self@.read(address),
    {
        match self.get_device(address) {
            (start, DeviceRef::BootRom) => self.boot_rom.get(address - start),
            (_, DeviceRef::Cartridge) => self.cartridge.get(address),
            (start, DeviceRef::CartridgeRam) => self.cartridge.ram.get(address - start),
            (_, DeviceRef::VRam) => self.gpu.get(address),
            (start, DeviceRef::Ram) => self.ram.get(address - start),
            (_, DeviceRef::Unused) => 0x00,
            (start, DeviceRef::IORegisters) => {
                if address == 0xFF04 {
                    self.timer.get_div()
                } else if address == 0xFF05 {
                    self.timer.tima
                } else if address == 0xFF06 {
                    self.timer.tma
                } else if address == 0xFF07 {
                    self.timer.tac.to_byte()
                } else if address == 0xFF0F {
                    u8::from(self.interrupt_flag)
                } else if 0xFF40 <= address && address <= 0xFF4B {
                    self.lcd.get(address - start)
                } else {
                    self.io.get(address - start)
                }
            },
            (start, DeviceRef::HighRam) => self.high_ram.get(address - start),
            (_, DeviceRef::InterruptEnable) => u8::from(self.interrupt_enable),
            (_, DeviceRef::SpriteTable) => {
                assert(false);
                0x00
            },
        }
    }

    /// Reads the 16 bit value stored little endian at `address` and `address + 1`.
    pub fn get16(&self, address: u16) -> (r: u16)
        requires
            address < 0xFFFF,
            self@.readable(address),
            self@.readable((address + 1) as u16),
        ensures
            r == self@.read16(address),
    {
        let ls = self.get(address);
        let ms = self.get(address + 1);
        bytes::combine_ms_ls(ms, ls)
    }

    #[verifier::rlimit(40)]
    pub fn set(&mut self, address: u16, value: u8)
        requires
            old(self)@.writable(address),
        ensures
            final(self)@ == old(self)@.written(address, value),
    {
        reveal(MemView::written);
        match self.get_device(address) {
            (_, DeviceRef::Cartridge) => self.cartridge.set(address, value),
            (start, DeviceRef::CartridgeRam) => self.cartridge.ram.set(address - start, value),
            (_, DeviceRef::VRam) => self.gpu.set(address, value),
            (start, DeviceRef::Ram) => self.ram.set(address - start, value),
            (_, DeviceRef::Unused) => {},
            (_, DeviceRef::IORegisters) => self.set_io(address, value),
            (start, DeviceRef::HighRam) => self.high_ram.set(address - start, value),
            (_, DeviceRef::InterruptEnable) => {
                self.interrupt_enable = InterruptFlag::from(value);
            },
            (_, DeviceRef::BootRom) => {
                assert(false);
            },
            (_, DeviceRef::SpriteTable) => {
                assert(false);
            },
        }
    }

    /// A write to the I/O registers at 0xFF00 to 0xFF7F.
    #[verifier::rlimit(100)]
    #[verifier::spinoff_prover]
    fn set_io(&mut self, address: u16, value: u8)
        requires
            0xFF00 <= address <= 0xFF7F,
        ensures
            final(self)@ == old(self)@.written(address, value),
    {
        reveal(MemView::written);
        if address == 0xFF04 {
            self.timer.clock = 0;
        } else if address == 0xFF05 {
            self.timer.tima = value;
        } else if address == 0xFF06 {
            self.timer.tma = value;
        } else if address == 0xFF07 {
            self.timer.tac = TimerControl::from_byte(value);
        } else if address == 0xFF0F {
            self.interrupt_flag = InterruptFlag::from(value);
        } else if 0xFF40 <= address && address <= 0xFF4B {
            self.lcd.set(address - 0xFF00, value);
        } else if address == 0xFF50 {
            if value == 1 {
                self.booted = true;
            }
        } else {
            self.io.set(address - 0xFF00, value);
        }
    }

    /// Stores the high byte of `value` at `address` and the low byte at the address after it.
    pub fn set16(&mut self, address: u16, value: u16)
        requires
            old(self)@.writable(address),
            old(self)@.written(address, (value / 256) as u8).writable(((address as int + 1) % 0x10000) as u16),
        ensures
            final(self)@ == old(self)@.written(address, (value / 256) as u8).written(
                ((address as int + 1) % 0x10000) as u16, (value % 256) as u8),
    {
        let (ms, ls) = bytes::split_ms_ls(value);
        self.set(address, ms);
        self.set(address.wrapping_add(1), ls);
    }
}


/// What reading `a` gives right after `v` was written there: the byte itself for memory, zero
/// for the divider and the unused area, the bits the registers keep for the flag and status
/// registers, and for 0xFF50 (which only switches the boot ROM off) what was there.
pub open spec fn read_back(m: MemView, a: u16, v: u8) -> u8 {
    if 0xFEA0 <= a <= 0xFEFF || a == 0xFF04 {
        0
    } else if a == 0xFF07 {
        TimerControl::of_byte(v).byte()
    } else if a == 0xFF0F || a == 0xFFFF {
        v % 32
    } else if a == 0xFF41 {
        v % 128
    } else if a == 0xFF50 {
        m.read(a)
    } else {
        v
    }
}

/// Addresses backed by plain memory: work RAM, high RAM and cartridge RAM.
pub open spec fn plain_memory(a: u16) -> bool {
    (0xA000 <= a <= 0xBFFF) || (0xC000 <= a < 0xE000) || (0xFF80 <= a <= 0xFFFE)
}

/// A read right after a write gives back what `read_back` says: for memory, the byte written.
pub proof fn lemma_read_after_write(m: MemView, a: u16, v: u8)
    requires
        m.writable(a),
    ensures
        m.written(a, v).readable(a),
        m.written(a, v).read(a) == read_back(m, a, v),
{
    broadcast use crate::device::ram::group_ram, vstd::array::group_array_axioms;
    reveal(MemView::written);
    if 0x8000 <= a <= 0x97FF {
        assert(m.written(a, v).gpu.vram.storage[(a - 0x8000) as int] == v);
    } else if 0x9800 <= a <= 0x9FFF {
        let t = (a - 0x9800) as u16;
        assert(m.written(a, v).gpu.tile_map == m.gpu.tile_map.stored(t, v));
    } else if 0xFF40 <= a <= 0xFF4B {
        crate::device::lcd::lemma_lcd_read_after_write(m.lcd, (a - 0xFF00) as u16, v);
    } else if a == 0xFF0F || a == 0xFFFF {
        crate::device::interrupt::lemma_interruptflag_round_trip(v);
    }
}

/// A write to plain memory changes no other byte that a read can see.
pub proof fn lemma_write_plain_frame(m: MemView, a: u16, v: u8, b: u16)
    requires
        plain_memory(a),
        a != b,
    ensures
        m.written(a, v).readable(b) == m.readable(b),
        m.readable(b) ==> m.written(a, v).read(b) == m.read(b),
{
    broadcast use crate::device::ram::group_ram, vstd::array::group_array_axioms;
    reveal(MemView::written);
    let w = m.written(a, v);
    if 0xA000 <= a <= 0xBFFF {
        assert(w == MemView { cartridge: CartridgeView { ram: m.cartridge.ram.written((a - 0xA000) as u16, v), ..m.cartridge }, ..m });
        assert(w.cartridge.ram.bytes() == m.cartridge.ram.bytes().update((a - 0xA000) as int, v));
        if 0xA000 <= b <= 0xBFFF {
            assert(w.cartridge.ram.bytes()[(b - 0xA000) as int] == m.cartridge.ram.bytes()[(b - 0xA000) as int]);
        }
    } else if 0xC000 <= a < 0xE000 {
        assert(w == MemView { ram: m.ram.written((a - 0xC000) as u16, v), ..m });
        assert(w.ram.bytes() == m.ram.bytes().update((a - 0xC000) as int, v));
        if 0xC000 <= b < 0xE000 {
            assert(w.ram.bytes()[(b - 0xC000) as int] == m.ram.bytes()[(b - 0xC000) as int]);
        }
    } else {
        assert(w == MemView { high_ram: m.high_ram.written((a - 0xFF80) as u16, v), ..m });
        assert(w.high_ram.bytes() == m.high_ram.bytes().update((a - 0xFF80) as int, v));
        if 0xFF80 <= b <= 0xFFFE {
            assert(w.high_ram.bytes()[(b - 0xFF80) as int] == m.high_ram.bytes()[(b - 0xFF80) as int]);
        }
    }
}


/// A write that can be made changes which addresses can be read or written only when it switches the boot ROM
/// off, and then only for the boot ROM area.
pub proof fn lemma_written_keeps_access(m: MemView, a: u16, v: u8, b: u16)
    requires
        m.writable(a),
        !(a == 0xFF50 && b <= 0x00FF),
    ensures
        m.written(a, v).writable(b) == m.writable(b),
        m.written(a, v).readable(b) == m.readable(b),
{
    reveal(MemView::written);
    let w = m.written(a, v);
    assert(w.cartridge.storage.len() == m.cartridge.storage.len());
    assert(w.booted != m.booted ==> a == 0xFF50);
    assert(in_boot_rom(b, w.booted) == in_boot_rom(b, m.booted));
    assert(in_cartridge(b, w.booted) == in_cartridge(b, m.booted));
}

}
