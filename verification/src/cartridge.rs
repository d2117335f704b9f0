use vstd::prelude::*;
use vstd::utf8::{valid_utf8, decode_utf8};
use crate::device::Device;
use crate::device::ram::Ram8k;

verus! {

/// A game cartridge: its ROM bytes, its header and the 8 KiB of RAM it brings.
pub struct Cartridge {
    pub storage: Vec<u8>,
    pub header: Header,
    pub ram: Ram8k,
}

impl Cartridge {
    pub fn new(bytes: Vec<u8>, header: Header) -> (c: Cartridge)
        ensures
            c.storage@ == bytes@,
            c.header == header,
            forall|i: int| 0 <= i < 8192 ==> #[trigger] c.ram.bytes()[i] == 0,
    {
        Cartridge { storage: bytes, header: header, ram: Ram8k::new() }
    }

    pub fn zero() -> (c: Cartridge)
        ensures
            c.storage@.len() == 0,
            c.header.decodes(zero_bytes()),
            forall|i: int| 0 <= i < 8192 ==> #[trigger] c.ram.bytes()[i] == 0,
    {
        Cartridge { storage: Vec::new(), header: Header::zero(), ram: Ram8k::new() }
    }
}

/// What a cartridge holds: its ROM bytes, its header and its RAM.
pub struct CartridgeView {
    pub storage: Seq<u8>,
    pub header: Header,
    pub ram: Ram8k,
}

impl View for Cartridge {
    type V = CartridgeView;

    open spec fn view(&self) -> CartridgeView {
        CartridgeView { storage: self.storage@, header: self.header, ram: self.ram }
    }
}

impl Device for Cartridge {
    open spec fn readable(&self, a: u16) -> bool {
        a < self.storage@.len()
    }

    open spec fn writable(&self, a: u16) -> bool {
        a < self.storage@.len()
    }

    open spec fn read(&self, a: u16) -> u8 {
        self.storage@[a as int]
    }

    open spec fn written(&self, a: u16, v: u8) -> CartridgeView {
        CartridgeView { storage: self.storage@.update(a as int, v), ..self@ }
    }

    fn get(&self, address: u16) -> u8 {
        self.storage[address as usize]
    }

    fn set(&mut self, address: u16, value: u8) {
        self.storage.set(address as usize, value)
    }
}


/// The cartridge header: the 0x4F bytes from 0x100, with the type, the ROM size and the title
/// read out of them.
/// Dig into the header details more here: https://gbdev.gg8.se/wiki/articles/The_Cartridge_Header
pub struct Header {
    storage: [u8; 0x4F],
    cart_type: CartridgeType,
    rom_size: RomSize,
    name: String,
}

/// The zero filled header bytes.
pub open spec fn zero_bytes() -> [u8; 0x4F] {
    vstd::array::spec_array_fill_for_copy_type::<u8, 0x4F>(0)
}

/// The title field of a header: bytes 0x34 to 0x42.
pub open spec fn title_bytes(bytes: [u8; 0x4F]) -> Seq<u8> {
    bytes@.subrange(0x34, 0x43)
}

impl Header {
    pub closed spec fn bytes(self) -> [u8; 0x4F] {
        self.storage
    }

    pub closed spec fn cart_type(self) -> CartridgeType {
        self.cart_type
    }

    pub closed spec fn rom_size(self) -> RomSize {
        self.rom_size
    }

    pub closed spec fn name(self) -> Seq<char> {
        self.name@
    }

    /// The header holds these bytes and what they say.
    pub open spec fn decodes(self, bytes: [u8; 0x4F]) -> bool {
        &&& self.bytes() == bytes
        &&& self.cart_type() == cartridge_type_of(bytes[0x47])
        &&& self.rom_size() == rom_size_of(bytes[0x48])
        &&& self.name() == decode_utf8(title_bytes(bytes))
    }

    /// How many bytes of ROM the cartridge type holds.
    pub fn capacity(&self) -> (r: usize)
        requires
            self.cart_type() == CartridgeType::MCB0 || self.cart_type() == CartridgeType::MCB1,
        ensures
            r == if self.cart_type() == CartridgeType::MCB0 { 32000usize } else { 64000usize },
    {
        // Early tests suggest rom_size isn't reliable, so the type decides.
        match self.cart_type {
            CartridgeType::MCB0 => 32000,
            _ => 64000,
        }
    }

    pub fn new(bytes: [u8; 0x4F]) -> (h: Header)
        requires
            rom_size_valid(bytes[0x48]),
            valid_utf8(title_bytes(bytes)),
        ensures
            h.decodes(bytes),
    {
        let mut title: Vec<u8> = Vec::new();
        for i in 0x34..0x43usize
            invariant
                title@ == bytes@.subrange(0x34, i as int),
        {
            title.push(bytes[i]);
        }
        assert(title@ == title_bytes(bytes));
        let name = match string_from_utf8(title) {
            Some(s) => s,
            None => {
                assert(false);
                String::new()
            }
        };

        Header {
            storage: bytes,
            cart_type: CartridgeType::from(bytes[0x47]),
            rom_size: RomSize::from(bytes[0x48]),
            name: name,
        }
    }

    /// Whether `new` accepts the bytes: a known ROM size and a title that is UTF-8.
    pub fn can_decode(bytes: &[u8; 0x4F]) -> (b: bool)
        ensures
            b == (rom_size_valid(bytes[0x48]) && valid_utf8(title_bytes(*bytes))),
    {
        let size = bytes[0x48];
        let size_known = size <= 0x08 || (0x52 <= size && size <= 0x54);
        let mut title: Vec<u8> = Vec::new();
        for i in 0x34..0x43usize
            invariant
                title@ == bytes@.subrange(0x34, i as int),
        {
            title.push(bytes[i]);
        }
        assert(title@ == title_bytes(*bytes));
        size_known && string_from_utf8(title).is_some()
    }

    /// Whether the cartridge type has a known capacity.
    pub fn has_capacity(&self) -> (b: bool)
        ensures
            b == (self.cart_type() == CartridgeType::MCB0 || self.cart_type() == CartridgeType::MCB1),
    {
        match self.cart_type {
            CartridgeType::MCB0 => true,
            CartridgeType::MCB1 => true,
            _ => false,
        }
    }

    pub fn zero() -> (h: Header)
        ensures
            h.decodes(zero_bytes()),
    {
        let bytes = [0u8; 0x4F];
        proof {
            assert(title_bytes(bytes) =~= Seq::new(15, |i: int| 0u8));
            lemma_ascii_valid_utf8(title_bytes(bytes));
        }
        Header::new(bytes)
    }
}

/// Bytes below 0x80 are valid UTF-8.
pub proof fn lemma_ascii_valid_utf8(bytes: Seq<u8>)
    requires
        forall|i: int| 0 <= i < bytes.len() ==> #[trigger] bytes[i] < 0x80,
    ensures
        valid_utf8(bytes),
    decreases bytes.len(),
{
    if bytes.len() != 0 {
        let rest = vstd::utf8::pop_first_scalar(bytes);
        assert(rest =~= bytes.subrange(1, bytes.len() as int));
        lemma_ascii_valid_utf8(rest);
    }
}

/// Calls `String::from_utf8`. Trusted claim: the call succeeds exactly when the bytes are
/// valid UTF-8 (vstd's `valid_utf8`), and the string it gives holds the characters those
/// bytes encode (vstd's `decode_utf8`); an error is turned into `None`.
#[verifier::external_body]
fn string_from_utf8(bytes: Vec<u8>) -> (r: Option<String>)
    ensures
        r is Some <==> valid_utf8(bytes@),
        r matches Some(s) ==> s@ == decode_utf8(bytes@),
{
    String::from_utf8(bytes).ok()
}

#[derive(Debug, Clone, Copy, PartialEq, Eq, Structural)]
pub enum RomSize {
    S0,
    S4,
    S8,
    S16,
    S32,
    S64,
    S128,
    S256,
    S512,
    S72,
    S80,
    S96,
}

/// The number of the ROM size: 2, 4, 8, ..., 512 for the sizes in powers of two, then 72,
/// 80 and 96.
pub open spec fn rom_size_value(r: RomSize) -> u16 {
    match r {
        RomSize::S0 => 2,
        RomSize::S4 => 4,
        RomSize::S8 => 8,
        RomSize::S16 => 16,
        RomSize::S32 => 32,
        RomSize::S64 => 64,
        RomSize::S128 => 128,
        RomSize::S256 => 256,
        RomSize::S512 => 512,
        RomSize::S72 => 72,
        RomSize::S80 => 80,
        RomSize::S96 => 96,
    }
}

impl RomSize {
    /// The number of the ROM size.
    pub fn value(&self) -> (n: u16)
        ensures
            n == rom_size_value(*self),
    {
        match self {
            RomSize::S0 => 2,
            RomSize::S4 => 4,
            RomSize::S8 => 8,
            RomSize::S16 => 16,
            RomSize::S32 => 32,
            RomSize::S64 => 64,
            RomSize::S128 => 128,
            RomSize::S256 => 256,
            RomSize::S512 => 512,
            RomSize::S72 => 72,
            RomSize::S80 => 80,
            RomSize::S96 => 96,
        }
    }
}

/// The bytes that name a ROM size.
pub open spec fn rom_size_valid(byte: u8) -> bool {
    byte == 0x00 || byte == 0x01 || byte == 0x02 || byte == 0x03 || byte == 0x04 || byte == 0x05 || byte == 0x06 || byte == 0x07 || byte == 0x08 || byte == 0x52 || byte == 0x53 || byte == 0x54
}

/// The ROM size a header byte names.
pub open spec fn rom_size_of(byte: u8) -> RomSize
    recommends
        rom_size_valid(byte),
{
    match byte {
        0x00 => RomSize::S0,
        0x01 => RomSize::S4,
        0x02 => RomSize::S8,
        0x03 => RomSize::S16,
        0x04 => RomSize::S32,
        0x05 => RomSize::S64,
        0x06 => RomSize::S128,
        0x07 => RomSize::S256,
        0x08 => RomSize::S512,
        0x52 => RomSize::S72,
        0x53 => RomSize::S80,
        0x54 => RomSize::S96,
        _ => RomSize::S0,
    }
}

impl RomSize {
    pub fn from(byte: u8) -> (r: RomSize)
        requires
            rom_size_valid(byte),
        ensures
            r == rom_size_of(byte),
    {
        match byte {
            0x00 => RomSize::S0,
            0x01 => RomSize::S4,
            0x02 => RomSize::S8,
            0x03 => RomSize::S16,
            0x04 => RomSize::S32,
            0x05 => RomSize::S64,
            0x06 => RomSize::S128,
            0x07 => RomSize::S256,
            0x08 => RomSize::S512,
            0x52 => RomSize::S72,
            0x53 => RomSize::S80,
            0x54 => RomSize::S96,
            _ => RomSize::S96,
        }
    }
}

#[derive(Debug, Clone, Copy, PartialEq, Eq, Structural)]
pub enum CartridgeType {
    MCB0,
    MCB1,
    MCB1RAM,
    MCB1RAMBattery,
    MCB2,
    MCB2Battery,
    ROMRAM,
    ROMRAMBattery,
    MMM01,
    MMM01RAM,
    MMM01RAMBattery,
    MCB3TimerBattery,
    MCB3TimerRamBattery,
    MCB3,
    MCRB3RAM,
    MCB3RAMBattery,
    MCB5,
    MCB5RAM,
    MCB5RAMBattery,
    MCB5Rumble,
    MCB5RumbleRAM,
    MCB5RumbleRAMBattery,
    MCB6,
    MCB7SensorRumbleRAMBattery,
    PocketCamera,
    BandaiTamas,
    HuC3,
    HuC1RAMBattery,
}

/// The cartridge type a header byte names; an unknown byte is taken as a plain ROM.
pub open spec fn cartridge_type_of(byte: u8) -> CartridgeType {
    match byte {
        0x00 => CartridgeType::MCB0,
        0x01 => CartridgeType::MCB1,
        0x02 => CartridgeType::MCB1RAM,
        0x03 => CartridgeType::MCB1RAMBattery,
        0x05 => CartridgeType::MCB2,
        0x06 => CartridgeType::MCB2Battery,
        0x08 => CartridgeType::ROMRAM,
        0x09 => CartridgeType::ROMRAMBattery,
        0x0B => CartridgeType::MMM01,
        0x0C => CartridgeType::MMM01RAM,
        0x0D => CartridgeType::MMM01RAMBattery,
        0x0F => CartridgeType::MCB3TimerBattery,
        0x10 => CartridgeType::MCB3TimerRamBattery,
        0x11 => CartridgeType::MCB3,
        0x12 => CartridgeType::MCRB3RAM,
        0x13 => CartridgeType::MCB3RAMBattery,
        0x19 => CartridgeType::MCB5,
        0x1A => CartridgeType::MCB5RAM,
        0x1B => CartridgeType::MCB5RAMBattery,
        0x1C => CartridgeType::MCB5Rumble,
        0x1D => CartridgeType::MCB5RumbleRAM,
        0x1E => CartridgeType::MCB5RumbleRAMBattery,
        0x20 => CartridgeType::MCB6,
        0x22 => CartridgeType::MCB7SensorRumbleRAMBattery,
        0xFC => CartridgeType::PocketCamera,
        0xFD => CartridgeType::BandaiTamas,
        0xFE => CartridgeType::HuC3,
        0xFF => CartridgeType::HuC1RAMBattery,
        _ => CartridgeType::MCB0,
    }
}

/// The header byte of a cartridge type.
pub open spec fn cartridge_type_byte(t: CartridgeType) -> u8 {
    match t {
        CartridgeType::MCB0 => 0x00,
        CartridgeType::MCB1 => 0x01,
        CartridgeType::MCB1RAM => 0x02,
        CartridgeType::MCB1RAMBattery => 0x03,
        CartridgeType::MCB2 => 0x05,
        CartridgeType::MCB2Battery => 0x06,
        CartridgeType::ROMRAM => 0x08,
        CartridgeType::ROMRAMBattery => 0x09,
        CartridgeType::MMM01 => 0x0B,
        CartridgeType::MMM01RAM => 0x0C,
        CartridgeType::MMM01RAMBattery => 0x0D,
        CartridgeType::MCB3TimerBattery => 0x0F,
        CartridgeType::MCB3TimerRamBattery => 0x10,
        CartridgeType::MCB3 => 0x11,
        CartridgeType::MCRB3RAM => 0x12,
        CartridgeType::MCB3RAMBattery => 0x13,
        CartridgeType::MCB5 => 0x19,
        CartridgeType::MCB5RAM => 0x1A,
        CartridgeType::MCB5RAMBattery => 0x1B,
        CartridgeType::MCB5Rumble => 0x1C,
        CartridgeType::MCB5RumbleRAM => 0x1D,
        CartridgeType::MCB5RumbleRAMBattery => 0x1E,
        CartridgeType::MCB6 => 0x20,
        CartridgeType::MCB7SensorRumbleRAMBattery => 0x22,
        CartridgeType::PocketCamera => 0xFC,
        CartridgeType::BandaiTamas => 0xFD,
        CartridgeType::HuC3 => 0xFE,
        CartridgeType::HuC1RAMBattery => 0xFF,
    }
}

impl CartridgeType {
    /// The header byte of the cartridge type.
    pub fn value(&self) -> (b: u8)
        ensures
            b == cartridge_type_byte(*self),
    {
        match self {
        CartridgeType::MCB0 => 0x00,
        CartridgeType::MCB1 => 0x01,
        CartridgeType::MCB1RAM => 0x02,
        CartridgeType::MCB1RAMBattery => 0x03,
        CartridgeType::MCB2 => 0x05,
        CartridgeType::MCB2Battery => 0x06,
        CartridgeType::ROMRAM => 0x08,
        CartridgeType::ROMRAMBattery => 0x09,
        CartridgeType::MMM01 => 0x0B,
        CartridgeType::MMM01RAM => 0x0C,
        CartridgeType::MMM01RAMBattery => 0x0D,
        CartridgeType::MCB3TimerBattery => 0x0F,
        CartridgeType::MCB3TimerRamBattery => 0x10,
        CartridgeType::MCB3 => 0x11,
        CartridgeType::MCRB3RAM => 0x12,
        CartridgeType::MCB3RAMBattery => 0x13,
        CartridgeType::MCB5 => 0x19,
        CartridgeType::MCB5RAM => 0x1A,
        CartridgeType::MCB5RAMBattery => 0x1B,
        CartridgeType::MCB5Rumble => 0x1C,
        CartridgeType::MCB5RumbleRAM => 0x1D,
        CartridgeType::MCB5RumbleRAMBattery => 0x1E,
        CartridgeType::MCB6 => 0x20,
        CartridgeType::MCB7SensorRumbleRAMBattery => 0x22,
        CartridgeType::PocketCamera => 0xFC,
        CartridgeType::BandaiTamas => 0xFD,
        CartridgeType::HuC3 => 0xFE,
        CartridgeType::HuC1RAMBattery => 0xFF,
        }
    }
}

/// Reading the byte of a cartridge type gives that type back.
pub proof fn lemma_cartridge_type_round_trip(t: CartridgeType)
    ensures
        cartridge_type_of(cartridge_type_byte(t)) == t,
{
}

impl From<u8> for CartridgeType {
    fn from(byte: u8) -> (r: Self) {
        match byte {
            0x00 => CartridgeType::MCB0,
            0x01 => CartridgeType::MCB1,
            0x02 => CartridgeType::MCB1RAM,
            0x03 => CartridgeType::MCB1RAMBattery,
            0x05 => CartridgeType::MCB2,
            0x06 => CartridgeType::MCB2Battery,
            0x08 => CartridgeType::ROMRAM,
            0x09 => CartridgeType::ROMRAMBattery,
            0x0B => CartridgeType::MMM01,
            0x0C => CartridgeType::MMM01RAM,
            0x0D => CartridgeType::MMM01RAMBattery,
            0x0F => CartridgeType::MCB3TimerBattery,
            0x10 => CartridgeType::MCB3TimerRamBattery,
            0x11 => CartridgeType::MCB3,
            0x12 => CartridgeType::MCRB3RAM,
            0x13 => CartridgeType::MCB3RAMBattery,
            0x19 => CartridgeType::MCB5,
            0x1A => CartridgeType::MCB5RAM,
            0x1B => CartridgeType::MCB5RAMBattery,
            0x1C => CartridgeType::MCB5Rumble,
            0x1D => CartridgeType::MCB5RumbleRAM,
            0x1E => CartridgeType::MCB5RumbleRAMBattery,
            0x20 => CartridgeType::MCB6,
            0x22 => CartridgeType::MCB7SensorRumbleRAMBattery,
            0xFC => CartridgeType::PocketCamera,
            0xFD => CartridgeType::BandaiTamas,
            0xFE => CartridgeType::HuC3,
            0xFF => CartridgeType::HuC1RAMBattery,
            _ => CartridgeType::MCB0,
        }
    }
}

impl vstd::std_specs::convert::FromSpecImpl<u8> for CartridgeType {
    open spec fn obeys_from_spec() -> bool {
        true
    }

    open spec fn from_spec(byte: u8) -> CartridgeType {
        cartridge_type_of(byte)
    }
}

}
