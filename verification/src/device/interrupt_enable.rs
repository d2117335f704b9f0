use vstd::prelude::*;
use crate::device::Device;

verus! {

/// An interrupt enable register that ignores writes and reads as zero.
pub struct InterruptEnable {}

impl InterruptEnable {
    pub fn new() -> (r: InterruptEnable) {
        InterruptEnable {}
    }
}

impl View for InterruptEnable {
    type V = InterruptEnable;

    open spec fn view(&self) -> InterruptEnable {
        *self
    }
}

impl Device for InterruptEnable {
    open spec fn readable(&self, a: u16) -> bool {
        true
    }

    open spec fn writable(&self, a: u16) -> bool {
        true
    }

    open spec fn read(&self, a: u16) -> u8 {
        0
    }

    open spec fn written(&self, a: u16, v: u8) -> InterruptEnable {
        InterruptEnable {}
    }

    fn get(&self, address: u16) -> u8 {
        0x00
    }

    fn set(&mut self, address: u16, value: u8) {
    }
}

}
