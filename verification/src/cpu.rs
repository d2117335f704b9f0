use vstd::prelude::*;
use vstd::std_specs::convert::FromSpec;
use crate::shade::Shade;
use crate::register::{Registers, RegistersView, Registers16, Registers8, IME, HaltedState, Flag};
use crate::mmu::{MMU, MemView};
use crate::bytes;
use crate::device::interrupt::{Interrupt, InterruptFlag};
use crate::framebuffer;



use crate::device::lcd::Mode;
use crate::instruction::{Instruction, OpResult, ready, effect};
use crate::instruction::helper::{call, can_push, pushed};
use crate::instruction::opcode::{Fetcher, decode};
use crate::msg::{Frame, TileMap};
use crate::tile::Tile;
use crate::palette::Palette;
use crate::pixel::pixel_index;
use crate::gpu::GPU;

verus! {

/// What the processor holds: memory, registers and the screen.
pub struct CpuView {
    pub mmu: MemView,
    pub registers: RegistersView,
    pub buffer: framebuffer::Buffer,
}

impl CpuView {
    pub open spec fn r8(self, r: Registers8) -> u8 {
        self.registers.get8(r)
    }

    pub open spec fn r16(self, r: Registers16) -> u16 {
        self.registers.get16(r)
    }

    pub open spec fn flag(self, f: Flag) -> bool {
        self.registers.flag(f)
    }

    pub open spec fn pc(self) -> u16 {
        self.registers.pc
    }

    pub open spec fn with_registers(self, registers: RegistersView) -> CpuView {
        CpuView { registers, ..self }
    }

    pub open spec fn with_mmu(self, mmu: MemView) -> CpuView {
        CpuView { mmu, ..self }
    }

    /// Unwatched write of an 8 bit register.
    pub open spec fn set8(self, r: Registers8, v: u8) -> CpuView {
        self.with_registers(self.registers.set8(r, v))
    }

    /// 16 bit register write as `Registers::set16` does it.
    pub open spec fn set16(self, r: Registers16, v: u16) -> CpuView {
        self.with_registers(self.registers.set16(r, v))
    }

    pub open spec fn set_flag(self, f: Flag, b: bool) -> CpuView {
        self.with_registers(self.registers.set_flag(f, b))
    }

    /// Sets the four flags in the order Z, N, H, C.
    pub open spec fn set_flags(self, z: bool, n: bool, h: bool, c: bool) -> CpuView {
        self.set_flag(Flag::Z, z).set_flag(Flag::N, n).set_flag(Flag::H, h).set_flag(Flag::C, c)
    }

    /// Sets Z, N and H in this order and leaves C.
    pub open spec fn set_znh(self, z: bool, n: bool, h: bool) -> CpuView {
        self.set_flag(Flag::Z, z).set_flag(Flag::N, n).set_flag(Flag::H, h)
    }

    pub open spec fn read(self, a: u16) -> u8 {
        self.mmu.read(a)
    }

    pub open spec fn write(self, a: u16, v: u8) -> CpuView {
        self.with_mmu(self.mmu.written(a, v))
    }

    /// The byte at PC can be read.
    pub open spec fn can_fetch8(self) -> bool {
        self.mmu.readable(self.pc())
    }

    /// The byte at PC, and the processor after PC moved past it.
    #[verifier::opaque]
    pub open spec fn fetch8(self) -> (u8, CpuView) {
        (self.mmu.read(self.pc()), self.with_registers(self.registers.inc16(Registers16::PC)))
    }

    /// The two bytes at PC can be read.
    pub open spec fn can_fetch16(self) -> bool {
        self.can_fetch8() && self.fetch8().1.can_fetch8()
    }

    /// The little endian word at PC, and the processor after PC moved past it.
    #[verifier::opaque]
    pub open spec fn fetch16(self) -> (u16, CpuView) {
        let (lo, s1) = self.fetch8();
        let (hi, s2) = s1.fetch8();
        ((hi as int * 256 + lo as int) as u16, s2)
    }
}

/// Whether some interrupt is both requested and enabled.
pub open spec fn interrupt_pending(m: MemView) -> bool {
    ||| m.interrupt_flag.vblank && m.interrupt_enable.vblank
    ||| m.interrupt_flag.lcd_stat && m.interrupt_enable.lcd_stat
    ||| m.interrupt_flag.timer && m.interrupt_enable.timer
    ||| m.interrupt_flag.serial && m.interrupt_enable.serial
    ||| m.interrupt_flag.joypad && m.interrupt_enable.joypad
}

/// The state HALT puts the processor in: halted with interrupts on; with interrupts off,
/// halted until one is requested, or the halt bug when one is already pending.
pub open spec fn halt_state(s: CpuView) -> HaltedState {
    if s.registers.ime == IME::Enabled {
        HaltedState::Halted
    } else if !interrupt_pending(s.mmu) {
        HaltedState::HaltedNoJump
    } else {
        HaltedState::HaltBug
    }
}

/// Two bytes share a set bit among bits 0 to 4 exactly when their masked conjunction is not zero.
proof fn lemma_common_bits(x: u8, y: u8)
    ensures
        (x & y & 0x1F != 0) == (
            (bytes::bit_of(x, 0) && bytes::bit_of(y, 0)) || (bytes::bit_of(x, 1) && bytes::bit_of(y, 1))
            || (bytes::bit_of(x, 2) && bytes::bit_of(y, 2)) || (bytes::bit_of(x, 3) && bytes::bit_of(y, 3))
            || (bytes::bit_of(x, 4) && bytes::bit_of(y, 4))),
{
    bytes::lemma_bit_of_shift(x, 0);
    bytes::lemma_bit_of_shift(x, 1);
    bytes::lemma_bit_of_shift(x, 2);
    bytes::lemma_bit_of_shift(x, 3);
    bytes::lemma_bit_of_shift(x, 4);
    bytes::lemma_bit_of_shift(y, 0);
    bytes::lemma_bit_of_shift(y, 1);
    bytes::lemma_bit_of_shift(y, 2);
    bytes::lemma_bit_of_shift(y, 3);
    bytes::lemma_bit_of_shift(y, 4);
    assert((x & y & 0x1Fu8 != 0u8) == (
        ((x >> 0u8) & 1u8 == 1u8 && (y >> 0u8) & 1u8 == 1u8) || ((x >> 1u8) & 1u8 == 1u8 && (y >> 1u8) & 1u8 == 1u8)
        || ((x >> 2u8) & 1u8 == 1u8 && (y >> 2u8) & 1u8 == 1u8) || ((x >> 3u8) & 1u8 == 1u8 && (y >> 3u8) & 1u8 == 1u8)
        || ((x >> 4u8) & 1u8 == 1u8 && (y >> 4u8) & 1u8 == 1u8))) by (bit_vector);
}


/// The interrupt that is both requested and enabled, the first in priority order.
pub open spec fn available_interrupt(m: MemView) -> Option<Interrupt> {
    let f = m.interrupt_flag;
    let e = m.interrupt_enable;
    if f.vblank && e.vblank {
        Some(Interrupt::VBlank)
    } else if f.lcd_stat && e.lcd_stat {
        Some(Interrupt::LCDStat)
    } else if f.timer && e.timer {
        Some(Interrupt::Timer)
    } else if f.serial && e.serial {
        Some(Interrupt::Serial)
    } else if f.joypad && e.joypad {
        Some(Interrupt::Joypad)
    } else {
        None
    }
}

/// Where the handler of an interrupt starts.
pub open spec fn interrupt_vector(i: Interrupt) -> u16 {
    match i {
        Interrupt::VBlank => 0x40,
        Interrupt::LCDStat => 0x48,
        Interrupt::Timer => 0x50,
        Interrupt::Serial => 0x58,
        Interrupt::Joypad => 0x60,
    }
}

/// The interrupt flags with the request of `i` cleared.
pub open spec fn request_cleared(f: InterruptFlag, i: Interrupt) -> InterruptFlag {
    match i {
        Interrupt::VBlank => InterruptFlag { vblank: false, ..f },
        Interrupt::LCDStat => InterruptFlag { lcd_stat: false, ..f },
        Interrupt::Timer => InterruptFlag { timer: false, ..f },
        Interrupt::Serial => InterruptFlag { serial: false, ..f },
        Interrupt::Joypad => InterruptFlag { joypad: false, ..f },
    }
}

/// The processor after it took the available interrupt, if any: the request is cleared, the
/// processor runs with interrupts off, and it calls the interrupt's vector.
pub open spec fn interrupt_taken(s: CpuView) -> CpuView {
    match available_interrupt(s.mmu) {
        Some(i) => {
            let s1 = s.with_mmu(MemView { interrupt_flag: request_cleared(s.mmu.interrupt_flag, i), ..s.mmu })
                .with_registers(RegistersView { halted: HaltedState::Running, ime: IME::Disabled, ..s.registers });
            pushed(s1, Registers16::PC).set16(Registers16::PC, interrupt_vector(i))
        },
        None => s,
    }
}

/// An interrupt can be taken: when one is available, the stack can take PC.
pub open spec fn interrupt_ready(s: CpuView) -> bool {
    available_interrupt(s.mmu) is Some ==> can_push(s)
}

/// The processor after the timer ran `n` cycles; a TIMA overflow requests the timer interrupt.
pub open spec fn timer_advanced(s: CpuView, n: u8) -> CpuView {
    let (t, overflow) = s.mmu.timer.advanced(n);
    let f = if overflow { InterruptFlag { timer: true, ..s.mmu.interrupt_flag } } else { s.mmu.interrupt_flag };
    s.with_mmu(MemView { timer: t, interrupt_flag: f, ..s.mmu })
}

/// The opcode at PC (an opcode after the 0xCB prefix is read as 0x100 plus the byte after it),
/// and the processor after PC moved past it.
pub open spec fn opcode_fetched(s: CpuView) -> (u16, CpuView) {
    let (b, s1) = s.fetch8();
    if b == 0xCB {
        let (b2, s2) = s1.fetch8();
        ((b2 as int + 0x100) as u16, s2)
    } else {
        (b as u16, s1)
    }
}

pub open spec fn opcode_ready(s: CpuView) -> bool {
    s.can_fetch8() && (s.fetch8().0 == 0xCB ==> s.fetch8().1.can_fetch8())
}

/// What the LCD asks of the processor after it changed mode.
#[derive(Debug, Clone, Copy, PartialEq, Eq, Structural)]
pub enum CPUAction {
    /// V-Blank ended: the frame is done.
    DMA,
    /// A line was drawn to VRAM and H-Blank started.
    RenderLine,
    /// V-Blank started: the GPU buffer can be refreshed.
    UpdateGPUBuffer,
    Continue,
}

/// The action a mode change asks for: leaving V-Blank, entering H-Blank, entering V-Blank.
pub open spec fn action_of(before: Mode, entered: Option<Mode>) -> CPUAction {
    match entered {
        Some(Mode::OAM) => if before == Mode::VBlank { CPUAction::DMA } else { CPUAction::Continue },
        Some(Mode::HBlank) => CPUAction::RenderLine,
        Some(Mode::VBlank) => CPUAction::UpdateGPUBuffer,
        _ => CPUAction::Continue,
    }
}

/// The processor after the LCD ran `n` cycles, and the action it asks for.
pub open spec fn lcd_advanced(s: CpuView, n: u8) -> (CpuView, CPUAction) {
    let (l, entered) = s.mmu.lcd.advanced(n);
    (s.with_mmu(MemView { lcd: l, ..s.mmu }), action_of(s.mmu.lcd.status.mode, entered))
}

/// The processor before it fetches: an enabled interrupt is taken, then a queued enable
/// takes effect.
pub open spec fn pre_fetch(s: CpuView) -> CpuView {
    let s1 = if s.registers.ime == IME::Enabled { interrupt_taken(s) } else { s };
    if s1.registers.ime == IME::Queued {
        s1.with_registers(RegistersView { ime: IME::Enabled, ..s1.registers })
    } else {
        s1
    }
}

/// What one step of a running processor does: take an interrupt, fetch and decode the next
/// opcode, run its instruction and advance the LCD by the cycles it took.
pub open spec fn running_step(s: CpuView) -> (CpuView, CPUAction) {
    let s1 = pre_fetch(s);
    let (opcode, s2) = opcode_fetched(s1);
    let (s3, cycles) = effect(decode(opcode), s2);
    lcd_advanced(s3, cycles)
}

pub open spec fn running_step_ready(s: CpuView) -> bool {
    let s1 = pre_fetch(s);
    let (opcode, s2) = opcode_fetched(s1);
    let (s3, cycles) = effect(decode(opcode), s2);
    &&& s.registers.ime == IME::Enabled ==> interrupt_ready(s)
    &&& opcode_ready(s1)
    &&& ready(decode(opcode), s2)
    &&& !s3.mmu.lcd.line_overflows(cycles)
}

/// One step of the processor: a running processor runs an instruction; a halted one takes an
/// interrupt (if interrupts are on) and lets the timer run 4 cycles; one halted until an
/// interrupt is requested wakes up when one is available and lets the timer run; the halt
/// bug is not emulated.
pub open spec fn step(s: CpuView) -> (CpuView, CPUAction) {
    match s.registers.halted {
        HaltedState::Running => running_step(s),
        HaltedState::Halted => {
            let s1 = if s.registers.ime == IME::Enabled || s.registers.ime == IME::Queued { interrupt_taken(s) } else { s };
            (timer_advanced(s1, 4), CPUAction::Continue)
        },
        HaltedState::HaltedNoJump => {
            let s1 = if available_interrupt(s.mmu) is Some {
                s.with_registers(RegistersView { halted: HaltedState::Running, ..s.registers })
            } else {
                s
            };
            (timer_advanced(s1, 4), CPUAction::Continue)
        },
        HaltedState::HaltBug => (s, CPUAction::Continue),
    }
}

pub open spec fn step_ready(s: CpuView) -> bool {
    match s.registers.halted {
        HaltedState::Running => running_step_ready(s),
        HaltedState::Halted => (s.registers.ime == IME::Enabled || s.registers.ime == IME::Queued) ==> interrupt_ready(s),
        _ => true,
    }
}

/// Fetching a byte moves PC and leaves memory, the screen and every other register as
/// they were (the watcher aside).
pub broadcast proof fn lemma_fetch8_keeps(s: CpuView)
    ensures
        #![trigger s.fetch8()]
        s.fetch8().1.mmu == s.mmu,
        s.fetch8().1.buffer == s.buffer,
        s.fetch8().1.registers == (RegistersView { pc: s.fetch8().1.registers.pc, watcher: s.fetch8().1.registers.watcher, ..s.registers }),
        s.fetch8().1.pc() == ((s.pc() as int + 1) % 0x10000) as u16,
        s.fetch8().0 == s.read(s.pc()),
{
    reveal(CpuView::fetch8);
    reveal(crate::register::watcher::WatcherView::checked);
}

/// Fetching a word does to everything but PC what fetching a byte does.
pub broadcast proof fn lemma_fetch16_keeps(s: CpuView)
    ensures
        #![trigger s.fetch16()]
        s.fetch16().1.mmu == s.mmu,
        s.fetch16().1.buffer == s.buffer,
        s.fetch16().1.registers == (RegistersView { pc: s.fetch16().1.registers.pc, watcher: s.fetch16().1.registers.watcher, ..s.registers }),
        s.fetch16().0 == (s.read(((s.pc() as int + 1) % 0x10000) as u16) as int * 256 + s.read(s.pc()) as int) as u16,
        s.can_fetch16() == (s.mmu.readable(s.pc()) && s.mmu.readable(((s.pc() as int + 1) % 0x10000) as u16)),
{
    reveal(CpuView::fetch16);
    lemma_fetch8_keeps(s);
    lemma_fetch8_keeps(s.fetch8().1);
}

pub broadcast group group_fetch {
    lemma_fetch8_keeps,
    lemma_fetch16_keeps,
}

pub struct CPU {
    pub mmu: MMU,
    pub registers: Registers,

    pub buffer: framebuffer::Buffer,
}

impl View for CPU {
    type V = CpuView;

    open spec fn view(&self) -> CpuView {
        CpuView { mmu: self.mmu@, registers: self.registers@, buffer: self.buffer }
    }
}

impl CPU {
    pub fn new(registers: Registers, mmu: MMU) -> (c: CPU)
        ensures
            c@ == (CpuView { mmu: mmu@, registers: registers@, buffer: framebuffer::blank() }),
    {
        CPU { mmu: mmu, registers: registers, buffer: framebuffer::new() }
    }

    /// Reads the byte at PC and moves PC past it (a watched write of PC).
    pub fn advance_pc(&mut self) -> (r: u8)
        requires
            old(self)@.can_fetch8(),
        ensures
            (r, final(self)@) == old(self)@.fetch8(),
    {
        reveal(CpuView::fetch8);
        let pc = self.registers.get16(Registers16::PC);
        self.registers.inc16(Registers16::PC);
        self.mmu.get(pc)
    }

    pub fn fetch_arg_8(&mut self) -> (r: u8)
        requires
            old(self)@.can_fetch8(),
        ensures
            (r, final(self)@) == old(self)@.fetch8(),
    {
        self.advance_pc()
    }

    /// Reads the little endian word at PC and moves PC past it.
    pub fn fetch_arg_16(&mut self) -> (r: u16)
        requires
            old(self)@.can_fetch16(),
        ensures
            (r, final(self)@) == old(self)@.fetch16(),
    {
        reveal(CpuView::fetch16);
        let v1 = self.advance_pc();
        let v2 = self.advance_pc();
        bytes::combine_ms_ls(v2, v1)
    }

    /// Reads the `args` immediate bytes (none, a byte or a word) that follow an opcode.
    pub fn get_arguments(&mut self, args: u8) -> (r: u16)
        requires
            args <= 2,
            args == 1 ==> old(self)@.can_fetch8(),
            args == 2 ==> old(self)@.can_fetch16(),
        ensures
            args == 0 ==> r == 0 && final(self)@ == old(self)@,
            args == 1 ==> (r as u8, final(self)@) == old(self)@.fetch8() && r < 0x100,
            args == 2 ==> (r, final(self)@) == old(self)@.fetch16(),
    {
        match args {
            0 => 0,
            1 => self.fetch_arg_8() as u16,
            _ => self.fetch_arg_16(),
        }
    }

    /// Points PC at `address` and stores `value` there.
    pub fn push_pc(&mut self, address: u16, value: u8)
        requires
            old(self)@.mmu.writable(address),
        ensures
            final(self)@ == old(self)@.set16(Registers16::PC, address).write(address, value),
    {
        self.registers.set16(Registers16::PC, address);
        self.mmu.set(address, value);
    }

    pub fn stop(&mut self)
        ensures
            final(self)@ == old(self)@.with_registers(RegistersView { stopped: true, ..old(self)@.registers }),
    {
        self.registers.stopped = true;
    }

    pub fn interrupt_available(&self) -> (r: Option<Interrupt>)
        ensures
            r == available_interrupt(self@.mmu),
    {
        let _if = self.mmu.interrupt_flag;
        let _ie = self.mmu.interrupt_enable;

        if _if.vblank && _ie.vblank {
            Some(Interrupt::VBlank)
        } else if _if.lcd_stat && _ie.lcd_stat {
            Some(Interrupt::LCDStat)
        } else if _if.timer && _ie.timer {
            Some(Interrupt::Timer)
        } else if _if.serial && _ie.serial {
            Some(Interrupt::Serial)
        } else if _if.joypad && _ie.joypad {
            Some(Interrupt::Joypad)
        } else {
            None
        }
    }

    /// Whether the stack can take PC, as taking an interrupt needs.
    pub fn can_push_pc(&self) -> (b: bool)
        ensures
            b == can_push(self@),
    {
        let sp = self.registers.get16(Registers16::SP);
        self.mmu.can_write(sp.wrapping_sub(1)) && self.mmu.can_write(sp.wrapping_sub(2))
    }

    /// Takes the available interrupt, if any: clears its request, wakes the processor, turns
    /// interrupts off and calls the interrupt's vector.
    pub fn handle_interrupts(&mut self)
        requires
            interrupt_ready(old(self)@),
        ensures
            final(self)@ == interrupt_taken(old(self)@),
    {
        let available = self.interrupt_available();
        match available {
            Some(i) => {
                match i {
                    Interrupt::VBlank => self.mmu.interrupt_flag.vblank = false,
                    Interrupt::LCDStat => self.mmu.interrupt_flag.lcd_stat = false,
                    Interrupt::Timer => self.mmu.interrupt_flag.timer = false,
                    Interrupt::Serial => self.mmu.interrupt_flag.serial = false,
                    Interrupt::Joypad => self.mmu.interrupt_flag.joypad = false,
                }
                self.registers.halted = HaltedState::Running;
                self.registers.ime = IME::Disabled;
                let vector: u16 = match i {
                    Interrupt::VBlank => 0x40,
                    Interrupt::LCDStat => 0x48,
                    Interrupt::Timer => 0x50,
                    Interrupt::Serial => 0x58,
                    Interrupt::Joypad => 0x60,
                };
                call(self, vector);
            },
            None => {},
        }
    }

    /// Lets the timer run `cycles` cycles; a TIMA overflow requests the timer interrupt.
    pub fn advance_timer(&mut self, cycles: u8)
        ensures
            final(self)@ == timer_advanced(old(self)@, cycles),
    {
        if self.mmu.timer.advance_cycles(cycles) {
            self.mmu.interrupt_flag.timer = true;
        }
    }

    /// Whether the opcode at PC can be read.
    pub fn can_fetch_opcode(&self) -> (b: bool)
        ensures
            b == opcode_ready(self@),
    {
        let pc = self.registers.get16(Registers16::PC);
        proof {
            lemma_fetch8_keeps(self@);
        }
        let next = pc.wrapping_add(1);
        assert(next == ((pc as int + 1) % 0x10000) as u16);
        if !self.mmu.can_read(pc) {
            false
        } else if self.mmu.get(pc) == 0xCB {
            self.mmu.can_read(next)
        } else {
            true
        }
    }

    /// Reads the opcode at PC. The gameboy has two opcode spaces: an opcode after the 0xCB
    /// prefix is returned as 0x100 plus the byte after the prefix.
    pub fn get_opcode(&mut self) -> (r: u16)
        requires
            opcode_ready(old(self)@),
        ensures
            (r, final(self)@) == opcode_fetched(old(self)@),
    {
        let opcode = self.advance_pc() as u16;

        if opcode == 0x00CB {
            let next = self.advance_pc() as u16;
            assert(next | 0x0100u16 == next + 0x100) by (bit_vector)
                requires next < 256;
            next | 0x0100
        } else {
            opcode
        }
    }

    /// Runs an instruction.
    pub fn execute(&mut self, instruction: &Instruction) -> (r: OpResult)
        requires
            ready(instruction.op, old(self)@),
        ensures
            (final(self)@, r.cycles) == effect(instruction.op, old(self)@),
    {
        instruction.call(self)
    }

    /// Draws the current line of the screen from the background buffer, scrolled, through the
    /// background palette.
    pub fn render_line(&mut self)
        requires
            old(self).mmu.lcd.lines < 144,
            old(self).mmu.lcd.scroll_x <= 96,
        ensures
            final(self).mmu == old(self).mmu,
            final(self).registers == old(self).registers,
            forall|r: int, c: int| 0 <= r < 144 && 0 <= c < 160 ==> #[trigger] final(self).buffer[r][c] == if r == old(self).mmu.lcd.lines {
                old(self).mmu.lcd.bg_palette.shade(pixel_index(old(self).mmu.gpu.buffer[
                    r + old(self).mmu.lcd.scroll_y][old(self).mmu.lcd.scroll_x + c]))
            } else {
                old(self).buffer[r][c]
            },
    {
        /* Where are we in the lcd screen */
        let y = self.mmu.lcd.lines as usize;

        /* y offset tells us which row in the background buffer we're on.*/
        let bg_y = y + self.mmu.lcd.scroll_y as usize;

        /* scroll x tells us which column in the background buffer we're on */
        let bg_x = self.mmu.lcd.scroll_x as usize;

        let mut row = self.buffer[y];
        for x in 0..160usize
            invariant
                y < 144,
                bg_y == y + old(self).mmu.lcd.scroll_y,
                bg_x == old(self).mmu.lcd.scroll_x,
                bg_x <= 96,
                self.mmu == old(self).mmu,
                self.registers == old(self).registers,
                self.buffer == old(self).buffer,
                forall|c: int| 0 <= c < 160 ==> #[trigger] row[c] == if c < x {
                    old(self).mmu.lcd.bg_palette.shade(pixel_index(old(self).mmu.gpu.buffer[bg_y as int][bg_x + c]))
                } else {
                    old(self).buffer[y as int][c]
                },
        {
            let p = self.mmu.gpu.buffer[bg_y][bg_x + x];
            row[x] = self.mmu.lcd.bg_palette.map(p);
        }
        self.buffer[y] = row;
    }

    pub fn halt(&mut self)
        ensures
            final(self)@ == old(self)@.with_registers(RegistersView { halted: halt_state(old(self)@), ..old(self)@.registers }),
    {
        if self.registers.ime.enabled() {
            self.registers.halted = HaltedState::Halted;
        } else {
            let _if = u8::from(self.mmu.interrupt_flag);
            let _ie = u8::from(self.mmu.interrupt_enable);
            proof {
                let f = self.mmu.interrupt_flag;
                let e = self.mmu.interrupt_enable;
                bytes::lemma_bits_of_byte(f.vblank, f.lcd_stat, f.timer, f.serial, f.joypad, false, false, false);
                bytes::lemma_bits_of_byte(e.vblank, e.lcd_stat, e.timer, e.serial, e.joypad, false, false, false);
                lemma_common_bits(_if, _ie);
            }
            if (_if & _ie & 0x1F) == 0 {
                self.registers.halted = HaltedState::HaltedNoJump;
            } else {
                self.registers.halted = HaltedState::HaltBug;
            }
        }
    }

    /// The master enable switched off.
    pub fn disable_interrupts(&mut self)
        ensures
            final(self)@ == old(self)@.with_registers(RegistersView { ime: IME::Disabled, ..old(self)@.registers }),
    {
        self.registers.ime = IME::Disabled;
    }

    /// The master enable switched on after the next instruction.
    pub fn enable_interrupts(&mut self)
        ensures
            final(self)@ == old(self)@.with_registers(RegistersView { ime: IME::Queued, ..old(self)@.registers }),
    {
        self.registers.ime = IME::Queued;
    }
}

/// The instruction of an opcode.
fn get_instruction<'a>(instructions: &'a Fetcher, opcode: u16) -> (r: &'a Instruction)
    requires
        opcode < 0x200,
    ensures
        r.op == decode(opcode),
{
    instructions.fetch(opcode).unwrap()
}

/// Runs the instruction at PC and lets the LCD run for the cycles it took.
fn run_next(cpu: &mut CPU, instructions: &Fetcher) -> (r: CPUAction)
    requires
        old(cpu).registers.halted == HaltedState::Running,
        running_step_ready(old(cpu)@),
    ensures
        (final(cpu)@, r) == running_step(old(cpu)@),
{
    if cpu.registers.ime.enabled() {
        cpu.handle_interrupts();
    }

    if cpu.registers.ime.queued() {
        cpu.registers.ime = IME::Enabled;
    }

    let opcode = cpu.get_opcode();
    let instruction = get_instruction(instructions, opcode);
    let result = instruction.call(cpu);

    let before = cpu.mmu.lcd.status.mode;
    let entered = cpu.mmu.lcd.advance_cycles(result.cycles);
    match entered {
        Some(Mode::OAM) => if before == Mode::VBlank { CPUAction::DMA } else { CPUAction::Continue },
        Some(Mode::HBlank) => CPUAction::RenderLine,
        Some(Mode::VBlank) => CPUAction::UpdateGPUBuffer,
        _ => CPUAction::Continue,
    }
}

/// One step of the processor (see `step`).
pub fn advance_cycles(cpu: &mut CPU, instructions: &Fetcher) -> (r: CPUAction)
    requires
        step_ready(old(cpu)@),
    ensures
        (final(cpu)@, r) == step(old(cpu)@),
{
    match cpu.registers.halted {
        HaltedState::Running => run_next(cpu, instructions),
        HaltedState::Halted => {
            if cpu.registers.ime.flagged_on() {
                cpu.handle_interrupts();
            }
            cpu.advance_timer(4);
            CPUAction::Continue
        },
        HaltedState::HaltedNoJump => {
            if cpu.interrupt_available().is_some() {
                cpu.registers.halted = HaltedState::Running;
            }
            cpu.advance_timer(4);
            CPUAction::Continue
        },
        // halt bug unaccounted for
        HaltedState::HaltBug => CPUAction::Continue,
    }
}

/// One step of the processor where it can be taken: none, and nothing that the step could
/// not take, when an interrupt cannot be pushed, the opcode cannot be read, its instruction
/// cannot run or the LCD line counter would overflow.
pub fn try_advance_cycles(cpu: &mut CPU, instructions: &Fetcher) -> (r: Option<CPUAction>)
    ensures
        r is Some <==> step_ready(old(cpu)@),
        r matches Some(a) ==> (final(cpu)@, a) == step(old(cpu)@),
{
    let ghost s0 = cpu@;
    match cpu.registers.halted {
        HaltedState::Running => {
            if cpu.registers.ime.enabled() {
                if cpu.interrupt_available().is_some() && !cpu.can_push_pc() {
                    return None;
                }
                cpu.handle_interrupts();
            }
            if cpu.registers.ime.queued() {
                cpu.registers.ime = IME::Enabled;
            }
            assert(cpu@ == pre_fetch(s0));
            if !cpu.can_fetch_opcode() {
                return None;
            }
            let opcode = cpu.get_opcode();
            let instruction = get_instruction(instructions, opcode);
            if !instruction.can_run(cpu) {
                return None;
            }
            let result = instruction.call(cpu);
            if cpu.mmu.lcd.overflows_after(result.cycles) {
                return None;
            }
            let before = cpu.mmu.lcd.status.mode;
            let entered = cpu.mmu.lcd.advance_cycles(result.cycles);
            Some(match entered {
                Some(Mode::OAM) => if before == Mode::VBlank { CPUAction::DMA } else { CPUAction::Continue },
                Some(Mode::HBlank) => CPUAction::RenderLine,
                Some(Mode::VBlank) => CPUAction::UpdateGPUBuffer,
                _ => CPUAction::Continue,
            })
        },
        _ => {
            if cpu.registers.halted == HaltedState::Halted && cpu.registers.ime.flagged_on()
                && cpu.interrupt_available().is_some() && !cpu.can_push_pc() {
                return None;
            }
            Some(advance_cycles(cpu, instructions))
        },
    }
}

/// Draws a tile through a palette with its top left corner at (`origin_x`, `origin_y`).
fn draw_tile(buffer: &mut [[Shade; 256]; 96], origin_x: usize, origin_y: usize, tile: Tile, palette: Palette)
    requires
        origin_y + 8 <= 96,
        origin_x + 8 <= 256,
    ensures
        forall|r: int, c: int| 0 <= r < 96 && 0 <= c < 256 ==> #[trigger] final(buffer)[r][c] == if origin_y <= r < origin_y + 8
            && origin_x <= c < origin_x + 8 {
            palette.shade(pixel_index(tile.data[r - origin_y][c - origin_x]))
        } else {
            old(buffer)[r][c]
        },
{
    for y in 0..8usize
        invariant
            origin_y + 8 <= 96,
            origin_x + 8 <= 256,
            forall|r: int, c: int| 0 <= r < 96 && 0 <= c < 256 ==> #[trigger] buffer[r][c] == if origin_y <= r < origin_y + y
                && origin_x <= c < origin_x + 8 {
                palette.shade(pixel_index(tile.data[r - origin_y][c - origin_x]))
            } else {
                old(buffer)[r][c]
            },
    {
        let mut row = buffer[origin_y + y];
        for x in 0..8usize
            invariant
                origin_y + 8 <= 96,
                origin_x + 8 <= 256,
                y < 8,
                forall|c: int| 0 <= c < 256 ==> #[trigger] row[c] == if origin_x <= c < origin_x + x {
                    palette.shade(pixel_index(tile.data[y as int][c - origin_x]))
                } else {
                    buffer[origin_y + y][c]
                },
        {
            let pixel = tile.data[y][x];
            let shade = palette.map(pixel);
            row[origin_x + x] = shade;
        }
        buffer[origin_y + y] = row;
    }
}

/// The tile sheet: the first 384 tiles, 32 to a row of 8 pixel high tiles, through a palette.
pub open spec fn tile_sheet_shade(gpu: GPU, palette: Palette, r: int, c: int) -> Shade {
    palette.shade(pixel_index(gpu.vram.tile_set[(r / 8) * 32 + c / 8].data[r % 8][c % 8]))
}

/// What doing an LCD action takes the machine from `s` to `t`, and whether it ends the frame
/// (`done`): the end of V-Blank requests the V-Blank interrupt and ends the frame; the start of
/// V-Blank refreshes the GPU buffer from the tile map; the start of H-Blank draws the current
/// line, which must lie on the screen and within the buffer.
pub open spec fn applied(s: CpuView, a: CPUAction, t: CpuView, done: bool) -> bool {
    match a {
        CPUAction::DMA => done && t == s.with_mmu(MemView {
            interrupt_flag: InterruptFlag { vblank: true, ..s.mmu.interrupt_flag },
            ..s.mmu
        }),
        CPUAction::Continue => !done && t == s,
        CPUAction::UpdateGPUBuffer => {
            &&& !done
            &&& t.registers == s.registers
            &&& t.buffer == s.buffer
            &&& t.mmu == (MemView { gpu: t.mmu.gpu, ..s.mmu })
            &&& t.mmu.gpu.vram == s.mmu.gpu.vram
            &&& t.mmu.gpu.tile_map == s.mmu.gpu.tile_map
            &&& forall|r: int, c: int| 0 <= r < 512 && 0 <= c < 256 ==> #[trigger] t.mmu.gpu.buffer[r][c]
                == if r < 256 { s.mmu.gpu.background_pixel(r, c) } else { s.mmu.gpu.buffer[r][c] }
        },
        CPUAction::RenderLine => {
            &&& !done
            &&& s.mmu.lcd.lines < 144
            &&& s.mmu.lcd.scroll_x <= 96
            &&& t.mmu == s.mmu
            &&& t.registers == s.registers
            &&& forall|r: int, c: int| 0 <= r < 144 && 0 <= c < 160 ==> #[trigger] t.buffer[r][c]
                == if r == s.mmu.lcd.lines {
                s.mmu.lcd.bg_palette.shade(pixel_index(s.mmu.gpu.buffer[r + s.mmu.lcd.scroll_y][s.mmu.lcd.scroll_x + c]))
            } else {
                s.buffer[r][c]
            }
        },
    }
}

/// One turn of the machine: the processor takes a step and the LCD action it asks for is done,
/// taking it from `s` to `t`; `done` says whether that ended the frame.
pub open spec fn frame_step(s: CpuView, t: CpuView, done: bool) -> bool {
    step_ready(s) && applied(step(s).0, step(s).1, t, done)
}

/// A sequence of machine states, each reached from the one before by a turn that did not end
/// the frame.
pub open spec fn frame_run(tr: Seq<CpuView>) -> bool {
    forall|k: int| 0 <= k < tr.len() - 1 ==> #[trigger] frame_step(tr[k], tr[k + 1], false)
}

/// Where the machine cannot go on from `s`: the processor cannot take its step (`t` is then
/// the machine as far as the step got), or it took it and the line it asks to draw is off the
/// screen or scrolled past the buffer (`t` is the machine after the step).
pub open spec fn stuck_at(s: CpuView, t: CpuView) -> bool {
    ||| !step_ready(s)
    ||| step_ready(s) && step(s).1 == CPUAction::RenderLine
        && !(step(s).0.mmu.lcd.lines < 144 && step(s).0.mmu.lcd.scroll_x <= 96) && t == step(s).0
}

/// How a bounded run of the machine ended.
#[derive(Debug, Clone, Copy, PartialEq, Eq, Structural)]
pub enum FrameEnd {
    /// The frame is done.
    Done,
    /// The given number of turns ran and the frame is not done.
    Budget,
    /// The machine cannot go on.
    Stuck,
}

/// A run from `s` of at most `budget` turns that ended in `t` with `r`: `tr` holds the states
/// after each turn that did not end the frame, starting with `s`.
pub open spec fn frame_ended(s: CpuView, budget: nat, t: CpuView, r: FrameEnd, tr: Seq<CpuView>) -> bool {
    &&& tr.len() >= 1
    &&& tr[0] == s
    &&& frame_run(tr)
    &&& match r {
        FrameEnd::Done => tr.len() <= budget && frame_step(tr.last(), t, true),
        FrameEnd::Budget => tr.len() == budget + 1 && t == tr.last(),
        FrameEnd::Stuck => tr.len() <= budget && stuck_at(tr.last(), t),
    }
}

/// Runs the processor and gives frames to the display.
pub struct CPUManager {
    pub instructions: Fetcher,
    pub cpu: CPU,
}

impl CPUManager {
    pub fn new(rs: Registers, mmu: MMU) -> (m: CPUManager)
        ensures
            m.cpu@ == (CpuView { mmu: mmu@, registers: rs@, buffer: framebuffer::blank() }),
    {
        CPUManager { instructions: Fetcher::new(), cpu: CPU::new(rs, mmu) }
    }

    /// The screen, the tile sheet and the background map, for the display.
    pub fn frame_info(&self) -> (f: Box<Frame>)
        ensures
            f.main == self.cpu.buffer,
            forall|r: int, c: int| 0 <= r < 96 && 0 <= c < 256 ==> #[trigger] f.tiles[r][c]
                == tile_sheet_shade(self.cpu.mmu.gpu, self.cpu.mmu.lcd.bg_palette, r, c),
            f.tile_map.palette == self.cpu.mmu.lcd.bg_palette,
            f.tile_map.pixels == self.cpu.mmu.gpu.buffer,
            f.tile_map.scroll_x == self.cpu.mmu.lcd.scroll_x,
            f.tile_map.scroll_y == self.cpu.mmu.lcd.scroll_y,
    {
        Box::new(Frame { main: self.cpu.buffer, tiles: self.draw_tiles(), tile_map: self.draw_tile_map() })
    }

    /// The background map as the display shows it.
    pub fn draw_tile_map(&self) -> (t: TileMap)
        ensures
            t.palette == self.cpu.mmu.lcd.bg_palette,
            t.pixels == self.cpu.mmu.gpu.buffer,
            t.scroll_x == self.cpu.mmu.lcd.scroll_x,
            t.scroll_y == self.cpu.mmu.lcd.scroll_y,
    {
        TileMap {
            palette: self.cpu.mmu.lcd.bg_palette,
            pixels: self.cpu.mmu.gpu.buffer,
            scroll_x: self.cpu.mmu.lcd.scroll_x,
            scroll_y: self.cpu.mmu.lcd.scroll_y,
        }
    }

    /// Draws the first 384 tiles: 12 rows of 32 tiles (256 pixels).
    fn draw_tiles(&self) -> (b: [[Shade; 256]; 96])
        ensures
            forall|r: int, c: int| 0 <= r < 96 && 0 <= c < 256 ==> #[trigger] b[r][c]
                == tile_sheet_shade(self.cpu.mmu.gpu, self.cpu.mmu.lcd.bg_palette, r, c),
    {
        let mut buffer = [[Shade::White; 256]; 96];
        let palette = self.cpu.mmu.lcd.bg_palette;
        let ghost gpu = self.cpu.mmu.gpu;

        for iy in 0..12usize
            invariant
                palette == self.cpu.mmu.lcd.bg_palette,
                gpu == self.cpu.mmu.gpu,
                forall|r: int, c: int| 0 <= r < 8 * iy && 0 <= c < 256 ==> #[trigger] buffer[r][c]
                    == tile_sheet_shade(gpu, palette, r, c),
        {
            for ix in 0..32usize
                invariant
                    iy < 12,
                    palette == self.cpu.mmu.lcd.bg_palette,
                    gpu == self.cpu.mmu.gpu,
                    forall|r: int, c: int| 0 <= r < 96 && 0 <= c < 256 && (r < 8 * iy || (r < 8 * iy + 8 && c < 8 * ix))
                        ==> #[trigger] buffer[r][c] == tile_sheet_shade(gpu, palette, r, c),
            {
                let tile_index = (iy * 32) + ix;
                let tile = self.cpu.mmu.gpu.vram.tile_set[tile_index];
                draw_tile(&mut buffer, ix * 8, iy * 8, tile, palette);
                assert forall|r: int, c: int| 0 <= r < 96 && 0 <= c < 256 && (r < 8 * iy || (r < 8 * iy + 8 && c < 8 * (ix + 1)))
                    implies #[trigger] buffer[r][c] == tile_sheet_shade(gpu, palette, r, c) by {
                    if 8 * iy <= r < 8 * iy + 8 && 8 * ix <= c < 8 * ix + 8 {
                        assert(r / 8 == iy as int && r % 8 == r - 8 * iy) by (nonlinear_arith)
                            requires 8 * iy <= r < 8 * iy + 8;
                        assert(c / 8 == ix as int && c % 8 == c - 8 * ix) by (nonlinear_arith)
                            requires 8 * ix <= c < 8 * ix + 8;
                    }
                }
            }
        }
        buffer
    }

    /// One step of the processor, where it can be taken (see `try_advance_cycles`).
    pub fn next_instruction(&mut self) -> (r: Option<CPUAction>)
        ensures
            r is Some <==> step_ready(old(self).cpu@),
            r matches Some(a) ==> (final(self).cpu@, a) == step(old(self).cpu@),
    {
        try_advance_cycles(&mut self.cpu, &self.instructions)
    }

    /// Does what an LCD action asks and says whether the frame is done: at the end of
    /// V-Blank the V-Blank interrupt is requested and the frame is done; a line is drawn when
    /// H-Blank starts; the GPU buffer is refreshed when V-Blank starts. None, and nothing
    /// done, when the line to draw is off the screen or scrolled past the buffer.
    pub fn apply(&mut self, action: CPUAction) -> (r: Option<bool>)
        ensures
            r is None <==> (action == CPUAction::RenderLine && !(old(self).cpu.mmu.lcd.lines < 144
                && old(self).cpu.mmu.lcd.scroll_x <= 96)),
            r == Some(true) <==> action == CPUAction::DMA,
            action == CPUAction::DMA ==> final(self).cpu@ == old(self).cpu@.with_mmu(MemView {
                interrupt_flag: InterruptFlag { vblank: true, ..old(self).cpu@.mmu.interrupt_flag },
                ..old(self).cpu@.mmu
            }),
            action == CPUAction::Continue || r is None ==> final(self).cpu@ == old(self).cpu@,
            final(self).instructions == old(self).instructions,
            action == CPUAction::UpdateGPUBuffer ==> {
                &&& final(self).cpu@.mmu == (MemView { gpu: final(self).cpu@.mmu.gpu, ..old(self).cpu@.mmu })
                &&& final(self).cpu.registers == old(self).cpu.registers
                &&& final(self).cpu.buffer == old(self).cpu.buffer
                &&& final(self).cpu.mmu.gpu.vram == old(self).cpu.mmu.gpu.vram
                &&& final(self).cpu.mmu.gpu.tile_map == old(self).cpu.mmu.gpu.tile_map
                &&& forall|r: int, c: int| 0 <= r < 512 && 0 <= c < 256 ==> #[trigger] final(self).cpu.mmu.gpu.buffer[r][c]
                    == if r < 256 { old(self).cpu.mmu.gpu.background_pixel(r, c) } else { old(self).cpu.mmu.gpu.buffer[r][c] }
            },
            action == CPUAction::RenderLine && r is Some ==> {
                &&& final(self).cpu.mmu == old(self).cpu.mmu
                &&& final(self).cpu.registers == old(self).cpu.registers
                &&& forall|r: int, c: int| 0 <= r < 144 && 0 <= c < 160 ==> #[trigger] final(self).cpu.buffer[r][c]
                    == if r == old(self).cpu.mmu.lcd.lines {
                    old(self).cpu.mmu.lcd.bg_palette.shade(pixel_index(old(self).cpu.mmu.gpu.buffer[
                        r + old(self).cpu.mmu.lcd.scroll_y][old(self).cpu.mmu.lcd.scroll_x + c]))
                } else {
                    old(self).cpu.buffer[r][c]
                }
            },
    {
        match action {
            // We've finished VBlank and have moved to OAM
            // Now is the time to access DMA
            CPUAction::DMA => {
                self.cpu.mmu.interrupt_flag.vblank = true;
                Some(true)
            },
            CPUAction::RenderLine => {
                if self.cpu.mmu.lcd.lines < 144 && self.cpu.mmu.lcd.scroll_x <= 96 {
                    self.cpu.render_line();
                    Some(false)
                } else {
                    None
                }
            },
            // GPU is ready to have the frame buffer updated
            CPUAction::UpdateGPUBuffer => {
                self.cpu.mmu.gpu.update_buffer();
                Some(false)
            },
            CPUAction::Continue => Some(false),
        }
    }

    /// Runs at most `budget` turns (a step and its LCD action) and says how the run ended: the
    /// frame is done, the turns ran out, or the machine could not go on.
    pub fn run_frame(&mut self, budget: u32) -> (r: FrameEnd)
        ensures
            exists|tr: Seq<CpuView>| #[trigger] frame_ended(old(self).cpu@, budget as nat, final(self).cpu@, r, tr),
    {
        let ghost start = self.cpu@;
        let ghost mut tr: Seq<CpuView> = seq![self.cpu@];
        let mut n: u32 = 0;
        while n < budget
            invariant
                n <= budget,
                start == old(self).cpu@,
                tr.len() == n + 1,
                tr[0] == start,
                tr.last() == self.cpu@,
                frame_run(tr),
            decreases budget - n,
        {
            let ghost u = self.cpu@;
            let action = match self.next_instruction() {
                Some(a) => a,
                None => {
                    assert(frame_ended(start, budget as nat, self.cpu@, FrameEnd::Stuck, tr));
                    return FrameEnd::Stuck;
                },
            };
            let ghost mid = self.cpu@;
            let done = self.apply(action);
            proof {
                if done is Some {
                    assert(applied(mid, action, self.cpu@, done->0));
                }
            }
            match done {
                Some(true) => {
                    assert(frame_ended(start, budget as nat, self.cpu@, FrameEnd::Done, tr));
                    return FrameEnd::Done;
                },
                Some(false) => {
                    proof {
                        let old_tr = tr;
                        tr = tr.push(self.cpu@);
                        assert forall|k: int| 0 <= k < tr.len() - 1 implies #[trigger] frame_step(tr[k], tr[k + 1], false) by {
                            if k < old_tr.len() - 1 {
                                assert(tr[k] == old_tr[k] && tr[k + 1] == old_tr[k + 1]);
                            }
                        }
                    }
                },
                None => {
                    assert(frame_ended(start, budget as nat, self.cpu@, FrameEnd::Stuck, tr));
                    return FrameEnd::Stuck;
                },
            }
            n = n + 1;
        }
        assert(frame_ended(start, budget as nat, self.cpu@, FrameEnd::Budget, tr));
        FrameEnd::Budget
    }
}

}
