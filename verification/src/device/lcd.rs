use vstd::prelude::*;
use vstd::std_specs::convert::FromSpec;
use crate::device::Device;
use crate::bytes;
use crate::bytes::{bit_of, byte_of_bits};

pub use crate::palette::Palette;

verus! {

// 0xFF40 = control register
// 0xFF41 = status register
// 0xFF42 = scroll_y
// 0xFF43 = scroll_x
// 0xFF44 = lcd_y
// 0xFF45 = compare
// 0xFF46 = dma
// 0xFF47 = bg_palette
// 0xFF48 = object_palette_0
// 0xFF49 = object_palette_1
// 0xFF4A = window_y
// 0xFF4B = window_x

#[derive(PartialEq, Eq, Structural, Debug, Clone, Copy)]
pub enum Mode {
    // OAM Read mode
    OAM,
    // VRAM Read mode
    // End of VRAM is a completed scanline
    VRAM,
    // End of a scanline until the beginning of a new scanline
    // At the end of the last hblank we'll render our full frame
    HBlank,
    // End of a frame, vblank lasts ~10 lines
    VBlank,
}

/// The mode that bits 1 and 0 of the status register name.
pub open spec fn mode_of_bits(bit1: bool, bit0: bool) -> Mode {
    if !bit1 && !bit0 {
        Mode::HBlank
    } else if !bit1 && bit0 {
        Mode::VBlank
    } else if bit1 && !bit0 {
        Mode::OAM
    } else {
        Mode::VRAM
    }
}

/// The number of a mode, as bits 1 and 0 of the status register hold it: 0 H-Blank,
/// 1 V-Blank, 2 OAM search, 3 transfer to the LCD driver.
pub open spec fn mode_value(m: Mode) -> u8 {
    match m {
        Mode::HBlank => 0,
        Mode::VBlank => 1,
        Mode::OAM => 2,
        Mode::VRAM => 3,
    }
}

impl Mode {
    /// The number of the mode.
    pub fn value(&self) -> (v: u8)
        ensures
            v == mode_value(*self),
    {
        match self {
            Mode::HBlank => 0,
            Mode::VBlank => 1,
            Mode::OAM => 2,
            Mode::VRAM => 3,
        }
    }
}

/// Bit 0 of the status register in a mode.
pub open spec fn mode_bit0(m: Mode) -> bool {
    m == Mode::VBlank || m == Mode::VRAM
}

/// Bit 1 of the status register in a mode.
pub open spec fn mode_bit1(m: Mode) -> bool {
    m == Mode::OAM || m == Mode::VRAM
}

/// Status Register
/// Bit 6 - LYC=LY Coincidence Interrupt (1=Enable) (Read/Write)
/// Bit 5 - Mode 2 OAM Interrupt         (1=Enable) (Read/Write)
/// Bit 4 - Mode 1 V-Blank Interrupt     (1=Enable) (Read/Write)
/// Bit 3 - Mode 0 H-Blank Interrupt     (1=Enable) (Read/Write)
/// Bit 2 - Coincidence Flag  (0:LYC<>LY, 1:LYC=LY) (Read Only)
/// Bit 1-0 - Mode Flag       (Mode 0-3, see below) (Read Only)
///           0: During H-Blank
///           1: During V-Blank
///           2: During Searching OAM
///           3: During Transferring Data to LCD Driver
#[derive(Debug, Clone, Copy, PartialEq, Eq, Structural)]
pub struct StatusRegister {
    pub ly_coincidence_interrupt: bool,
    pub oam_interrupt: bool,
    pub vblank_interrupt: bool,
    pub hblank_interrupt: bool,
    pub coincidence: bool,
    pub mode: Mode,
}

impl StatusRegister {
    pub fn new() -> (s: StatusRegister)
        ensures
            s == (StatusRegister {
                ly_coincidence_interrupt: false,
                oam_interrupt: false,
                vblank_interrupt: false,
                hblank_interrupt: false,
                coincidence: false,
                mode: Mode::OAM,
            }),
            s == <StatusRegister as FromSpec<u8>>::from_spec(0b10),
    {
        proof {
            bytes::lemma_bits_of_byte(false, true, false, false, false, false, false, false);
        }
        StatusRegister {
            ly_coincidence_interrupt: false,
            oam_interrupt: false,
            vblank_interrupt: false,
            hblank_interrupt: false,
            coincidence: false,
            mode: Mode::OAM,
        }
    }
}

impl From<u8> for StatusRegister {
    fn from(byte: u8) -> (r: Self) {
        let mode = match (bytes::check_bit(byte, 1), bytes::check_bit(byte, 0)) {
            (false, false) => Mode::HBlank,
            (false, true) => Mode::VBlank,
            (true, false) => Mode::OAM,
            (true, true) => Mode::VRAM,
        };

        StatusRegister {
            ly_coincidence_interrupt: bytes::check_bit(byte, 6),
            oam_interrupt: bytes::check_bit(byte, 5),
            vblank_interrupt: bytes::check_bit(byte, 4),
            hblank_interrupt: bytes::check_bit(byte, 3),
            coincidence: bytes::check_bit(byte, 2),
            mode: mode,
        }
    }
}

impl vstd::std_specs::convert::FromSpecImpl<u8> for StatusRegister {
    open spec fn obeys_from_spec() -> bool {
        true
    }

    open spec fn from_spec(byte: u8) -> StatusRegister {
        StatusRegister {
            ly_coincidence_interrupt: bit_of(byte, 6),
            oam_interrupt: bit_of(byte, 5),
            vblank_interrupt: bit_of(byte, 4),
            hblank_interrupt: bit_of(byte, 3),
            coincidence: bit_of(byte, 2),
            mode: mode_of_bits(bit_of(byte, 1), bit_of(byte, 0)),
        }
    }
}

impl From<StatusRegister> for u8 {
    fn from(r: StatusRegister) -> (b: Self) {
        let mut u: u8 = match r.mode {
            Mode::HBlank => 0b00,
            Mode::VBlank => 0b01,
            Mode::OAM => 0b10,
            Mode::VRAM => 0b11,
        };
        proof {
            bytes::lemma_bits_of_byte(mode_bit0(r.mode), mode_bit1(r.mode), false, false, false, false, false, false);
        }

        u = bytes::set_bit(u, 6, r.ly_coincidence_interrupt);
        u = bytes::set_bit(u, 5, r.oam_interrupt);
        u = bytes::set_bit(u, 4, r.vblank_interrupt);
        u = bytes::set_bit(u, 3, r.hblank_interrupt);
        u = bytes::set_bit(u, 2, r.coincidence);

        proof {
            bytes::lemma_byte_of_bits(u, mode_bit0(r.mode), mode_bit1(r.mode), r.coincidence, r.hblank_interrupt,
                r.vblank_interrupt, r.oam_interrupt, r.ly_coincidence_interrupt, false);
        }
        u
    }
}

impl vstd::std_specs::convert::FromSpecImpl<StatusRegister> for u8 {
    open spec fn obeys_from_spec() -> bool {
        true
    }

    open spec fn from_spec(r: StatusRegister) -> u8 {
        byte_of_bits(mode_bit0(r.mode), mode_bit1(r.mode), r.coincidence, r.hblank_interrupt,
            r.vblank_interrupt, r.oam_interrupt, r.ly_coincidence_interrupt, false)
    }
}

/// Reading the status register back keeps bits 0 to 6 of the byte written and clears bit 7.
pub proof fn lemma_status_round_trip(byte: u8)
    ensures
        <u8 as FromSpec<StatusRegister>>::from_spec(<StatusRegister as FromSpec<u8>>::from_spec(byte)) == byte % 128,
{
    bytes::lemma_low_bits(byte);
}

/// The mode read from the status register is the number in its two low bits, and the byte
/// written for a mode holds that number there.
pub proof fn lemma_status_mode_bits(byte: u8, m: Mode)
    ensures
        mode_value(<StatusRegister as FromSpec<u8>>::from_spec(byte).mode) == byte % 4,
        byte_of_bits(mode_bit0(m), mode_bit1(m), false, false, false, false, false, false) == mode_value(m),
{
    vstd::arithmetic::power2::lemma2_to64();
    assert(vstd::arithmetic::power2::pow2(0) == 1 && vstd::arithmetic::power2::pow2(1) == 2);
    assert(byte as int / 1 == byte as int);
    assert(bit_of(byte, 0) == (byte % 2 == 1));
    assert(bit_of(byte, 1) == ((byte / 2) % 2 == 1));
    assert(byte % 4 == byte % 2 + 2 * ((byte / 2) % 2));
}

/// Decoding the byte of a status register gives the same register.
pub proof fn lemma_status_byte_round_trip(r: StatusRegister)
    ensures
        <StatusRegister as FromSpec<u8>>::from_spec(<u8 as FromSpec<StatusRegister>>::from_spec(r)) == r,
{
    bytes::lemma_bits_of_byte(mode_bit0(r.mode), mode_bit1(r.mode), r.coincidence, r.hblank_interrupt,
        r.vblank_interrupt, r.oam_interrupt, r.ly_coincidence_interrupt, false);
}

/// Control Register
///
/// Bit 7 - LCD Display Enable             (0=Off, 1=On)
/// Bit 6 - Window Tile Map Display Select (0=9800-9BFF, 1=9C00-9FFF)
/// Bit 5 - Window Display Enable          (0=Off, 1=On)
/// Bit 4 - BG & Window Tile Data Select   (0=8800-97FF, 1=8000-8FFF)
/// Bit 3 - BG Tile Map Display Select     (0=9800-9BFF, 1=9C00-9FFF)
/// Bit 2 - OBJ (Sprite) Size              (0=8x8, 1=8x16)
/// Bit 1 - OBJ (Sprite) Display Enable    (0=Off, 1=On)
/// Bit 0 - BG/Window Display/Priority     (0=Off, 1=On)
#[derive(Debug, Clone, Copy, PartialEq, Eq, Structural)]
pub struct ControlRegister {
    pub lcd_enabled: bool,
    pub tile_map: bool,
    pub window_enabled: bool,
    pub tile_data: bool,
    pub display_select: bool,
    pub sprite_size: bool,
    pub sprite_enabled: bool,
    pub window_priority: bool,
}

impl ControlRegister {
    pub fn new() -> (c: ControlRegister)
        ensures
            c == <ControlRegister as FromSpec<u8>>::from_spec(0),
    {
        proof {
            bytes::lemma_bits_of_zero();
        }
        ControlRegister {
            lcd_enabled: false,
            tile_map: false,
            window_enabled: false,
            tile_data: false,
            display_select: false,
            sprite_size: false,
            sprite_enabled: false,
            window_priority: false,
        }
    }
}

impl From<u8> for ControlRegister {
    fn from(byte: u8) -> (c: Self) {
        ControlRegister {
            lcd_enabled: bytes::check_bit(byte, 7),
            tile_map: bytes::check_bit(byte, 6),
            window_enabled: bytes::check_bit(byte, 5),
            tile_data: bytes::check_bit(byte, 4),
            display_select: bytes::check_bit(byte, 3),
            sprite_size: bytes::check_bit(byte, 2),
            sprite_enabled: bytes::check_bit(byte, 1),
            window_priority: bytes::check_bit(byte, 0),
        }
    }
}

impl vstd::std_specs::convert::FromSpecImpl<u8> for ControlRegister {
    open spec fn obeys_from_spec() -> bool {
        true
    }

    open spec fn from_spec(byte: u8) -> ControlRegister {
        ControlRegister {
            lcd_enabled: bit_of(byte, 7),
            tile_map: bit_of(byte, 6),
            window_enabled: bit_of(byte, 5),
            tile_data: bit_of(byte, 4),
            display_select: bit_of(byte, 3),
            sprite_size: bit_of(byte, 2),
            sprite_enabled: bit_of(byte, 1),
            window_priority: bit_of(byte, 0),
        }
    }
}

impl From<ControlRegister> for u8 {
    fn from(r: ControlRegister) -> (b: Self) {
        let mut u: u8 = 0;
        proof {
            bytes::lemma_bits_of_zero();
        }

        u = bytes::set_bit(u, 7, r.lcd_enabled);
        u = bytes::set_bit(u, 6, r.tile_map);
        u = bytes::set_bit(u, 5, r.window_enabled);
        u = bytes::set_bit(u, 4, r.tile_data);
        u = bytes::set_bit(u, 3, r.display_select);
        u = bytes::set_bit(u, 2, r.sprite_size);
        u = bytes::set_bit(u, 1, r.sprite_enabled);
        u = bytes::set_bit(u, 0, r.window_priority);

        proof {
            bytes::lemma_byte_of_bits(u, r.window_priority, r.sprite_enabled, r.sprite_size, r.display_select,
                r.tile_data, r.window_enabled, r.tile_map, r.lcd_enabled);
        }
        u
    }
}

impl vstd::std_specs::convert::FromSpecImpl<ControlRegister> for u8 {
    open spec fn obeys_from_spec() -> bool {
        true
    }

    open spec fn from_spec(r: ControlRegister) -> u8 {
        byte_of_bits(r.window_priority, r.sprite_enabled, r.sprite_size, r.display_select,
            r.tile_data, r.window_enabled, r.tile_map, r.lcd_enabled)
    }
}

/// The control register reads back exactly the byte written to it.
pub proof fn lemma_control_round_trip(byte: u8)
    ensures
        <u8 as FromSpec<ControlRegister>>::from_spec(<ControlRegister as FromSpec<u8>>::from_spec(byte)) == byte,
{
    bytes::lemma_byte_of_bits(byte, bit_of(byte, 0), bit_of(byte, 1), bit_of(byte, 2), bit_of(byte, 3),
        bit_of(byte, 4), bit_of(byte, 5), bit_of(byte, 6), bit_of(byte, 7));
}

/// Decoding the byte of a control register gives the same register.
pub proof fn lemma_control_byte_round_trip(r: ControlRegister)
    ensures
        <ControlRegister as FromSpec<u8>>::from_spec(<u8 as FromSpec<ControlRegister>>::from_spec(r)) == r,
{
    bytes::lemma_bits_of_byte(r.window_priority, r.sprite_enabled, r.sprite_size, r.display_select,
        r.tile_data, r.window_enabled, r.tile_map, r.lcd_enabled);
}


pub struct LCD {
    pub cycles: u32,
    pub lines: u8,
    pub mode_clock: u32,

    pub control: ControlRegister,
    pub status: StatusRegister,

    pub scroll_y: u8,
    pub scroll_x: u8,
    pub lcd_y: u8,
    pub ly_compare: u8,
    pub dma: u8,
    pub bg_palette: Palette,
    pub object_palette_0: Palette,
    pub object_palette_1: Palette,
    pub window_y: u8,
    pub window_x: u8,
}

/// Adds a byte to a 32 bit counter, wrapping around.
pub open spec fn wrap32(a: u32, n: u8) -> u32 {
    ((a as int + n as int) % 0x1_0000_0000) as u32
}

impl LCD {
    /// The LCD with its counters, its line and its mode replaced.
    pub open spec fn with_state(self, cycles: u32, lines: u8, mode_clock: u32, mode: Mode) -> LCD {
        LCD { cycles, lines, mode_clock, status: StatusRegister { mode, ..self.status }, ..self }
    }

    /// The LCD after `n` more cycles, and the mode it entered if it changed mode.
    pub open spec fn advanced(self, n: u8) -> (LCD, Option<Mode>) {
        let cycles = wrap32(self.cycles, n);
        let clock = wrap32(self.mode_clock, n);
        match self.status.mode {
            Mode::OAM => if clock >= 80 {
                (self.with_state(cycles, self.lines, clock, Mode::VRAM), Some(Mode::VRAM))
            } else {
                (self.with_state(cycles, self.lines, clock, Mode::OAM), None)
            },
            Mode::VRAM => if clock >= 252 {
                (self.with_state(cycles, self.lines, clock, Mode::HBlank), Some(Mode::HBlank))
            } else {
                (self.with_state(cycles, self.lines, clock, Mode::VRAM), None)
            },
            Mode::HBlank => if clock >= 456 {
                let lines = (self.lines + 1) as u8;
                if lines == 144 {
                    (self.with_state(cycles, lines, (clock - 456) as u32, Mode::VBlank), Some(Mode::VBlank))
                } else {
                    (self.with_state(cycles, lines, (clock - 456) as u32, Mode::OAM), Some(Mode::OAM))
                }
            } else {
                (self.with_state(cycles, self.lines, clock, Mode::HBlank), None)
            },
            Mode::VBlank => {
                let (lines, clock) = if clock >= 456 {
                    ((self.lines + 1) as u8, (clock - 456) as u32)
                } else {
                    (self.lines, clock)
                };
                if lines == 153 {
                    (self.with_state(cycles, 0, clock, Mode::OAM), Some(Mode::OAM))
                } else {
                    (self.with_state(cycles, lines, clock, Mode::VBlank), None)
                }
            },
        }
    }

    /// Advancing `n` cycles would move past line 255: the counter would overflow.
    pub open spec fn line_overflows(self, n: u8) -> bool {
        &&& self.lines == 255
        &&& (self.status.mode == Mode::HBlank || self.status.mode == Mode::VBlank)
        &&& wrap32(self.mode_clock, n) >= 456
    }

    /// The scanline counter is where the state machine can put it: below line 144 while
    /// drawing, on lines 144 to 152 in V-Blank.
    pub open spec fn scan_consistent(self) -> bool {
        if self.status.mode == Mode::VBlank {
            144 <= self.lines <= 152
        } else {
            self.lines < 144
        }
    }

    /// The LCD as it starts: line 0 in OAM mode, every register zero.
    pub open spec fn initial() -> LCD {
        LCD {
            cycles: 0,
            lines: 0,
            mode_clock: 0,
            control: <ControlRegister as FromSpec<u8>>::from_spec(0),
            status: <StatusRegister as FromSpec<u8>>::from_spec(0b10),
            scroll_y: 0,
            scroll_x: 0,
            lcd_y: 0,
            ly_compare: 0,
            dma: 0,
            bg_palette: Palette::of_byte(0),
            object_palette_0: Palette::of_byte(0),
            object_palette_1: Palette::of_byte(0),
            window_y: 0,
            window_x: 0,
        }
    }

    pub fn new() -> (l: LCD)
        ensures
            l == LCD::initial(),
            l.mode_clock == 0,
            l.cycles == 0,
            l.lines == 0,
            l.control == <ControlRegister as FromSpec<u8>>::from_spec(0),
            l.status == <StatusRegister as FromSpec<u8>>::from_spec(0b10),
            l.scroll_y == 0 && l.scroll_x == 0 && l.lcd_y == 0 && l.ly_compare == 0 && l.dma == 0,
            l.window_y == 0 && l.window_x == 0,
            l.bg_palette.byte() == 0 && l.object_palette_0.byte() == 0 && l.object_palette_1.byte() == 0,
            forall|i: int| 0 <= i < 4 ==> #[trigger] l.bg_palette.shade(i) == crate::shade::Shade::White,
            forall|i: int| 0 <= i < 4 ==> #[trigger] l.object_palette_0.shade(i) == crate::shade::Shade::White,
            forall|i: int| 0 <= i < 4 ==> #[trigger] l.object_palette_1.shade(i) == crate::shade::Shade::White,
            l.scan_consistent(),
    {
        LCD {
            cycles: 0,
            lines: 0,
            mode_clock: 0,

            control: ControlRegister::new(),
            status: StatusRegister::new(),
            scroll_y: 0,
            scroll_x: 0,
            lcd_y: 0,
            ly_compare: 0,
            dma: 0,
            bg_palette: Palette::new(),
            object_palette_0: Palette::new(),
            object_palette_1: Palette::new(),
            window_y: 0,
            window_x: 0,
        }
    }

    /// Whether advancing `n` cycles would move the line counter past 255.
    pub fn overflows_after(&self, n: u8) -> (b: bool)
        ensures
            b == self.line_overflows(n),
    {
        let clock = self.mode_clock.wrapping_add(n as u32);
        assert(clock == wrap32(self.mode_clock, n));
        self.lines == 255 && (self.status.mode == Mode::HBlank || self.status.mode == Mode::VBlank) && clock >= 456
    }

    /// Runs the LCD state machine for `n` cycles: OAM for 80 cycles, VRAM until 252, H-Blank
    /// until 456, then the next line (V-Blank after line 143, for lines 144 to 152).
    /// Returns the mode entered, if the mode changed.
    pub fn advance_cycles(&mut self, n: u8) -> (r: Option<Mode>)
        requires
            !old(self).line_overflows(n),
        ensures
            (*final(self), r) == old(self).advanced(n),
    {
        self.cycles = self.cycles.wrapping_add(n as u32);
        self.mode_clock = self.mode_clock.wrapping_add(n as u32);

        match self.status.mode {
            Mode::OAM => {
                if self.mode_clock >= 80 {
                    self.status.mode = Mode::VRAM;
                    Some(self.status.mode)
                } else {
                    None
                }
            }
            Mode::VRAM => {
                if self.mode_clock >= 252 {
                    self.status.mode = Mode::HBlank;
                    Some(self.status.mode)
                } else {
                    None
                }
            }
            Mode::HBlank => {
                if self.mode_clock >= 456 {
                    self.mode_clock -= 456;

                    self.lines += 1;

                    if self.lines == 144 {
                        self.status.mode = Mode::VBlank;
                        Some(self.status.mode)
                    } else {
                        self.status.mode = Mode::OAM;
                        Some(self.status.mode)
                    }
                } else {
                    None
                }
            }
            Mode::VBlank => {
                if self.mode_clock >= 456 {
                    self.mode_clock -= 456;
                    self.lines += 1;
                }

                if self.lines == 153 {
                    self.lines = 0;
                    self.status.mode = Mode::OAM;
                    Some(self.status.mode)
                } else {
                    None
                }
            }
        }
    }

    /// The row of the background under the current line.
    pub fn get_y_offset(&self) -> (r: u8)
        ensures
            r == (self.lines as int + self.scroll_y as int) % 256,
    {
        self.lines.wrapping_add(self.scroll_y)
    }
}

/// Advancing never moves the scanline counter out of the frame: from a consistent state the
/// LCD stays consistent and never overflows its line counter.
pub proof fn lemma_advance_keeps_scan_consistent(l: LCD, n: u8)
    requires
        l.scan_consistent(),
    ensures
        !l.line_overflows(n),
        l.advanced(n).0.scan_consistent(),
{
}

/// The LCD announces V-Blank exactly when H-Blank of line 143 ends.
pub proof fn lemma_vblank_entered(l: LCD, n: u8)
    requires
        l.scan_consistent(),
    ensures
        l.advanced(n).1 == Some(Mode::VBlank) <==> (l.status.mode == Mode::HBlank && l.lines == 143
            && wrap32(l.mode_clock, n) >= 456),
{
}


impl View for LCD {
    type V = LCD;

    open spec fn view(&self) -> LCD {
        *self
    }
}

impl Device for LCD {
    open spec fn readable(&self, a: u16) -> bool {
        0x40 <= a <= 0x4B
    }

    open spec fn writable(&self, a: u16) -> bool {
        0x40 <= a <= 0x4B
    }

    open spec fn read(&self, a: u16) -> u8 {
        if a == 0x40 {
            <u8 as FromSpec<ControlRegister>>::from_spec(self.control)
        } else if a == 0x41 {
            <u8 as FromSpec<StatusRegister>>::from_spec(self.status)
        } else if a == 0x42 {
            self.scroll_y
        } else if a == 0x43 {
            self.scroll_x
        } else if a == 0x44 {
            self.lcd_y
        } else if a == 0x45 {
            self.ly_compare
        } else if a == 0x46 {
            self.dma
        } else if a == 0x47 {
            self.bg_palette.byte()
        } else if a == 0x48 {
            self.object_palette_0.byte()
        } else if a == 0x49 {
            self.object_palette_1.byte()
        } else if a == 0x4A {
            self.window_y
        } else {
            self.window_x
        }
    }

    open spec fn written(&self, a: u16, v: u8) -> LCD {
        if a == 0x40 {
            LCD { control: <ControlRegister as FromSpec<u8>>::from_spec(v), ..*self }
        } else if a == 0x41 {
            LCD { status: <StatusRegister as FromSpec<u8>>::from_spec(v), ..*self }
        } else if a == 0x42 {
            LCD { scroll_y: v, ..*self }
        } else if a == 0x43 {
            LCD { scroll_x: v, ..*self }
        } else if a == 0x44 {
            LCD { lcd_y: v, ..*self }
        } else if a == 0x45 {
            LCD { ly_compare: v, ..*self }
        } else if a == 0x46 {
            LCD { dma: v, ..*self }
        } else if a == 0x47 {
            LCD { bg_palette: Palette::of_byte(v), ..*self }
        } else if a == 0x48 {
            LCD { object_palette_0: Palette::of_byte(v), ..*self }
        } else if a == 0x49 {
            LCD { object_palette_1: Palette::of_byte(v), ..*self }
        } else if a == 0x4A {
            LCD { window_y: v, ..*self }
        } else {
            LCD { window_x: v, ..*self }
        }
    }

    fn get(&self, address: u16) -> u8 {
        broadcast use crate::palette::group_palette;

        match address {
            0x0040 => u8::from(self.control),
            0x0041 => u8::from(self.status),
            0x0042 => self.scroll_y,
            0x0043 => self.scroll_x,
            0x0044 => self.lcd_y,
            0x0045 => self.ly_compare,
            0x0046 => self.dma,
            0x0047 => self.bg_palette.to_byte(),
            0x0048 => self.object_palette_0.to_byte(),
            0x0049 => self.object_palette_1.to_byte(),
            0x004A => self.window_y,
            _ => self.window_x,
        }
    }

    fn set(&mut self, address: u16, v: u8) {
        match address {
            0x0040 => self.control = ControlRegister::from(v),
            0x0041 => self.status = StatusRegister::from(v),
            0x0042 => self.scroll_y = v,
            0x0043 => self.scroll_x = v,
            0x0044 => self.lcd_y = v,
            0x0045 => self.ly_compare = v,
            0x0046 => self.dma = v,
            0x0047 => self.bg_palette = Palette::from(v),
            0x0048 => self.object_palette_0 = Palette::from(v),
            0x0049 => self.object_palette_1 = Palette::from(v),
            0x004A => self.window_y = v,
            _ => self.window_x = v,
        }
    }
}

/// An LCD register reads back what was written to it, except the status register, whose
/// bit 7 reads as zero.
pub proof fn lemma_lcd_read_after_write(l: LCD, a: u16, v: u8)
    requires
        0x40 <= a <= 0x4B,
    ensures
        l.written(a, v).read(a) == if a == 0x41 { v % 128 } else { v },
{
    broadcast use crate::palette::group_palette;

    if a == 0x40 {
        lemma_control_round_trip(v);
    } else if a == 0x41 {
        lemma_status_round_trip(v);
    }
}

}
