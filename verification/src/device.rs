use vstd::prelude::*;

pub mod tile_map;
pub mod ram;
pub mod lcd;
pub mod interrupt;
pub mod interrupt_enable;
pub mod interrupt_flag;

verus! {

/// A piece of memory mapped hardware, addressed relative to its own start. Its view is what a
/// write changes.
pub trait Device: Sized + View {
    /// The addresses a read accepts.
    spec fn readable(&self, a: u16) -> bool;

    /// The addresses a write accepts.
    spec fn writable(&self, a: u16) -> bool;

    /// What a read at `a` returns.
    spec fn read(&self, a: u16) -> u8;

    /// The device after `v` is written at `a`.
    spec fn written(&self, a: u16, v: u8) -> Self::V;

    fn get(&self, a: u16) -> (v: u8)
        requires
            self.readable(a),
        ensures
            v == self.read(a),
    ;

    fn set(&mut self, a: u16, v: u8)
        requires
            old(self).writable(a),
        ensures
            final(self)@ == old(self).written(a, v),
    ;
}

}
