use vstd::prelude::*;
use crate::device::Device;

verus! {

pub struct Ram2k {
    storage: [u8; 2048],
}

impl Ram2k {
    /// The device holding only zero bytes.
    pub closed spec fn zeroed() -> Ram2k {
        Ram2k { storage: vstd::array::spec_array_fill_for_copy_type::<u8, 2048>(0) }
    }

    /// The stored bytes.
    pub closed spec fn bytes(self) -> Seq<u8> {
        self.storage@
    }

    pub fn new() -> (r: Ram2k)
        ensures
            r == Ram2k::zeroed(),
            r.bytes().len() == 2048,
            forall|i: int| 0 <= i < 2048 ==> #[trigger] r.bytes()[i] == 0,
    {
        Ram2k { storage: [0; 2048] }
    }
}

impl View for Ram2k {
    type V = Ram2k;

    open spec fn view(&self) -> Ram2k {
        *self
    }
}

impl Device for Ram2k {
    open spec fn readable(&self, a: u16) -> bool {
        a < 2048
    }

    open spec fn writable(&self, a: u16) -> bool {
        a < 2048
    }

    open spec fn read(&self, a: u16) -> u8 {
        self.bytes()[a as int]
    }

    closed spec fn written(&self, a: u16, v: u8) -> Ram2k {
        Ram2k { storage: vstd::array::spec_array_update(self.storage, a as int, v) }
    }

    fn get(&self, address: u16) -> u8 {
        self.storage[address as usize]
    }

    fn set(&mut self, address: u16, value: u8) {
        self.storage[address as usize] = value;
    }
}

/// The memory holds 2048 bytes.
pub broadcast proof fn lemma_ram2k_len(r: Ram2k)
    ensures
        #[trigger] r.bytes().len() == 2048,
{
}

/// A write stores the byte at its address and leaves the other bytes as they were.
pub broadcast proof fn lemma_ram2k_written(r: Ram2k, a: u16, v: u8)
    requires
        a < 2048,
    ensures
        #[trigger] r.written(a, v).bytes() == r.bytes().update(a as int, v),
{
    assert(r.bytes().len() == 2048);
}

pub struct Ram8k {
    storage: [u8; 8192],
}

impl Ram8k {
    /// The device holding only zero bytes.
    pub closed spec fn zeroed() -> Ram8k {
        Ram8k { storage: vstd::array::spec_array_fill_for_copy_type::<u8, 8192>(0) }
    }

    /// The stored bytes.
    pub closed spec fn bytes(self) -> Seq<u8> {
        self.storage@
    }

    pub fn new() -> (r: Ram8k)
        ensures
            r == Ram8k::zeroed(),
            r.bytes().len() == 8192,
            forall|i: int| 0 <= i < 8192 ==> #[trigger] r.bytes()[i] == 0,
    {
        Ram8k { storage: [0; 8192] }
    }
}

impl View for Ram8k {
    type V = Ram8k;

    open spec fn view(&self) -> Ram8k {
        *self
    }
}

impl Device for Ram8k {
    open spec fn readable(&self, a: u16) -> bool {
        a < 8192
    }

    open spec fn writable(&self, a: u16) -> bool {
        a < 8192
    }

    open spec fn read(&self, a: u16) -> u8 {
        self.bytes()[a as int]
    }

    closed spec fn written(&self, a: u16, v: u8) -> Ram8k {
        Ram8k { storage: vstd::array::spec_array_update(self.storage, a as int, v) }
    }

    fn get(&self, address: u16) -> u8 {
        self.storage[address as usize]
    }

    fn set(&mut self, address: u16, value: u8) {
        self.storage[address as usize] = value;
    }
}

/// The memory holds 8192 bytes.
pub broadcast proof fn lemma_ram8k_len(r: Ram8k)
    ensures
        #[trigger] r.bytes().len() == 8192,
{
}

/// A write stores the byte at its address and leaves the other bytes as they were.
pub broadcast proof fn lemma_ram8k_written(r: Ram8k, a: u16, v: u8)
    requires
        a < 8192,
    ensures
        #[trigger] r.written(a, v).bytes() == r.bytes().update(a as int, v),
{
    assert(r.bytes().len() == 8192);
}

pub struct HighRam {
    storage: [u8; 127],
}

impl HighRam {
    /// The device holding only zero bytes.
    pub closed spec fn zeroed() -> HighRam {
        HighRam { storage: vstd::array::spec_array_fill_for_copy_type::<u8, 127>(0) }
    }

    /// The stored bytes.
    pub closed spec fn bytes(self) -> Seq<u8> {
        self.storage@
    }

    pub fn new() -> (r: HighRam)
        ensures
            r == HighRam::zeroed(),
            r.bytes().len() == 127,
            forall|i: int| 0 <= i < 127 ==> #[trigger] r.bytes()[i] == 0,
    {
        HighRam { storage: [0; 127] }
    }
}

impl View for HighRam {
    type V = HighRam;

    open spec fn view(&self) -> HighRam {
        *self
    }
}

impl Device for HighRam {
    open spec fn readable(&self, a: u16) -> bool {
        a < 127
    }

    open spec fn writable(&self, a: u16) -> bool {
        a < 127
    }

    open spec fn read(&self, a: u16) -> u8 {
        self.bytes()[a as int]
    }

    closed spec fn written(&self, a: u16, v: u8) -> HighRam {
        HighRam { storage: vstd::array::spec_array_update(self.storage, a as int, v) }
    }

    fn get(&self, address: u16) -> u8 {
        self.storage[address as usize]
    }

    fn set(&mut self, address: u16, value: u8) {
        self.storage[address as usize] = value;
    }
}

/// The memory holds 127 bytes.
pub broadcast proof fn lemma_highram_len(r: HighRam)
    ensures
        #[trigger] r.bytes().len() == 127,
{
}

/// A write stores the byte at its address and leaves the other bytes as they were.
pub broadcast proof fn lemma_highram_written(r: HighRam, a: u16, v: u8)
    requires
        a < 127,
    ensures
        #[trigger] r.written(a, v).bytes() == r.bytes().update(a as int, v),
{
    assert(r.bytes().len() == 127);
}

pub broadcast group group_ram {
    lemma_ram2k_len,
    lemma_ram8k_len,
    lemma_highram_len,
    lemma_ram2k_written,
    lemma_ram8k_written,
    lemma_highram_written,
}

}
