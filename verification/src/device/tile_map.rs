use vstd::prelude::*;
use crate::device::Device;

verus! {

pub struct TileMap {
    storage: [u8; 2048],
}

impl TileMap {
    /// The device holding only zero bytes.
    pub closed spec fn zeroed() -> TileMap {
        TileMap { storage: vstd::array::spec_array_fill_for_copy_type::<u8, 2048>(0) }
    }

    /// The stored bytes.
    pub closed spec fn bytes(self) -> Seq<u8> {
        self.storage@
    }

    pub fn new() -> (r: TileMap)
        ensures
            r == TileMap::zeroed(),
            r.bytes().len() == 2048,
            forall|i: int| 0 <= i < 2048 ==> #[trigger] r.bytes()[i] == 0,
    {
        TileMap { storage: [0; 2048] }
    }
}

impl View for TileMap {
    type V = TileMap;

    open spec fn view(&self) -> TileMap {
        *self
    }
}

impl Device for TileMap {
    open spec fn readable(&self, a: u16) -> bool {
        a < 2048
    }

    open spec fn writable(&self, a: u16) -> bool {
        a < 2048
    }

    open spec fn read(&self, a: u16) -> u8 {
        self.bytes()[a as int]
    }

    closed spec fn written(&self, a: u16, v: u8) -> TileMap {
        TileMap { storage: vstd::array::spec_array_update(self.storage, a as int, v) }
    }

    fn get(&self, address: u16) -> u8 {
        self.storage[address as usize]
    }

    fn set(&mut self, address: u16, value: u8) {
        self.storage[address as usize] = value;
    }
}

/// A write stores the byte at its address and leaves the other bytes as they were.
pub broadcast proof fn lemma_tilemap_written(r: TileMap, a: u16, v: u8)
    requires
        a < 2048,
    ensures
        #[trigger] r.written(a, v).bytes() == r.bytes().update(a as int, v),
{
    assert(r.bytes().len() == 2048);
}

}
