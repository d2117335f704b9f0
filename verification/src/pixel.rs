use vstd::prelude::*;

verus! {

/// A colour number of the background, before a palette maps it to a shade.
#[derive(Debug, Clone, Copy, PartialEq, Eq, Structural)]
pub enum Pixel {
    P0,
    P1,
    P2,
    P3,
}

/// The colour number of a pixel, an index into a palette.
pub open spec fn pixel_index(p: Pixel) -> int {
    match p {
        Pixel::P0 => 0,
        Pixel::P1 => 1,
        Pixel::P2 => 2,
        Pixel::P3 => 3,
    }
}

impl Pixel {
    /// The colour number of this pixel.
    pub fn index(&self) -> (r: usize)
        ensures
            r == pixel_index(*self),
    {
        match self {
            Pixel::P0 => 0,
            Pixel::P1 => 1,
            Pixel::P2 => 2,
            Pixel::P3 => 3,
        }
    }
}

}
