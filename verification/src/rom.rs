use vstd::prelude::*;
use crate::device::Device;

verus! {

/// The 256 byte boot program, mapped at 0x0000 until the boot finishes.
pub struct BootRom {
    storage: [u8; 256],
}

impl BootRom {
    /// The device holding only zero bytes.
    pub closed spec fn zeroed() -> BootRom {
        BootRom { storage: vstd::array::spec_array_fill_for_copy_type::<u8, 256>(0) }
    }

    /// The stored bytes.
    pub closed spec fn bytes(self) -> Seq<u8> {
        self.storage@
    }

    /// A ROM holding the bytes read from its file (zero where the file was shorter).
    pub fn from_bytes(bytes: [u8; 256]) -> (r: BootRom)
        ensures
            r.bytes() == bytes@,
    {
        BootRom { storage: bytes }
    }

    /// A ROM of zero bytes.
    pub fn zero() -> (r: BootRom)
        ensures
            r == BootRom::zeroed(),
            r.bytes().len() == 256,
            forall|i: int| 0 <= i < 256 ==> #[trigger] r.bytes()[i] == 0,
    {
        BootRom { storage: [0; 256] }
    }
}

impl View for BootRom {
    type V = BootRom;

    open spec fn view(&self) -> BootRom {
        *self
    }
}

impl Device for BootRom {
    open spec fn readable(&self, a: u16) -> bool {
        a < 256
    }

    open spec fn writable(&self, a: u16) -> bool {
        a < 256
    }

    open spec fn read(&self, a: u16) -> u8 {
        self.bytes()[a as int]
    }

    closed spec fn written(&self, a: u16, v: u8) -> BootRom {
        BootRom { storage: vstd::array::spec_array_update(self.storage, a as int, v) }
    }

    fn get(&self, address: u16) -> u8 {
        self.storage[address as usize]
    }

    fn set(&mut self, address: u16, value: u8) {
        self.storage[address as usize] = value;
    }
}

/// A game image of up to 32767 bytes.
pub struct GameRom {
    storage: [u8; 32767],
}

impl GameRom {
    /// The device holding only zero bytes.
    pub closed spec fn zeroed() -> GameRom {
        GameRom { storage: vstd::array::spec_array_fill_for_copy_type::<u8, 32767>(0) }
    }

    /// The stored bytes.
    pub closed spec fn bytes(self) -> Seq<u8> {
        self.storage@
    }

    /// A ROM holding the bytes read from its file (zero where the file was shorter).
    pub fn from_bytes(bytes: [u8; 32767]) -> (r: GameRom)
        ensures
            r.bytes() == bytes@,
    {
        GameRom { storage: bytes }
    }

    /// A ROM of zero bytes.
    pub fn zero() -> (r: GameRom)
        ensures
            r == GameRom::zeroed(),
            r.bytes().len() == 32767,
            forall|i: int| 0 <= i < 32767 ==> #[trigger] r.bytes()[i] == 0,
    {
        GameRom { storage: [0; 32767] }
    }
}

impl View for GameRom {
    type V = GameRom;

    open spec fn view(&self) -> GameRom {
        *self
    }
}

impl Device for GameRom {
    open spec fn readable(&self, a: u16) -> bool {
        a < 32767
    }

    open spec fn writable(&self, a: u16) -> bool {
        a < 32767
    }

    open spec fn read(&self, a: u16) -> u8 {
        self.bytes()[a as int]
    }

    closed spec fn written(&self, a: u16, v: u8) -> GameRom {
        GameRom { storage: vstd::array::spec_array_update(self.storage, a as int, v) }
    }

    fn get(&self, address: u16) -> u8 {
        self.storage[address as usize]
    }

    fn set(&mut self, address: u16, value: u8) {
        self.storage[address as usize] = value;
    }
}

}
