use vstd::prelude::*;
use crate::bytes;
use crate::bytes::bit_of;
use crate::pixel::{Pixel, pixel_index};
use crate::shade::Shade;

verus! {

/// Shades are stored in palettes as follows
/// Bit 7-6 - Shade for Color Number 3
/// Bit 5-4 - Shade for Color Number 2
/// Bit 3-2 - Shade for Color Number 1
/// Bit 1-0 - Shade for Color Number 0
///
/// Of the two bits of colour number `i`, bit `2i` is read first and bit `2i + 1` second.
pub open spec fn shade_of(byte: u8, i: int) -> Shade {
    let first = bit_of(byte, 2 * i);
    let second = bit_of(byte, 2 * i + 1);
    if !first && !second {
        Shade::White
    } else if !first && second {
        Shade::LightGrey
    } else if first && !second {
        Shade::DarkGrey
    } else {
        Shade::Black
    }
}

/// The four shades a palette byte names, for colour numbers 0 to 3.
pub open spec fn shades_of(byte: u8) -> [Shade; 4] {
    [shade_of(byte, 0), shade_of(byte, 1), shade_of(byte, 2), shade_of(byte, 3)]
}

#[derive(Debug, Clone, Copy)]
pub struct Palette {
    pub shades: [Shade; 4],
    pub value: u8,
}

impl Palette {
    /// The shade that colour number `i` maps to.
    pub open spec fn shade(self, i: int) -> Shade {
        self.shades[i]
    }

    /// The byte the palette was made from.
    pub open spec fn byte(self) -> u8 {
        self.value
    }

    /// The palette of a byte: colour number `i` maps to `shade_of(byte, i)`.
    pub open spec fn decodes(self, byte: u8) -> bool {
        &&& self.byte() == byte
        &&& forall|i: int| 0 <= i < 4 ==> #[trigger] self.shade(i) == shade_of(byte, i)
    }

    pub fn new() -> (p: Palette)
        ensures
            p == Palette::of_byte(0),
            p.byte() == 0,
            forall|i: int| 0 <= i < 4 ==> #[trigger] p.shade(i) == Shade::White,
    {
        let p = Palette { shades: [Shade::White; 4], value: 0 };
        proof {
            crate::bytes::lemma_bits_of_zero();
            assert(p.shades =~= shades_of(0));
        }
        p
    }

    /// The palette that a byte written to a palette register describes.
    pub open spec fn of_byte(byte: u8) -> Palette {
        Palette { value: byte, shades: shades_of(byte) }
    }

    /// The palette that a byte written to a palette register describes.
    pub fn from(byte: u8) -> (p: Palette)
        ensures
            p == Palette::of_byte(byte),
            p.decodes(byte),
    {
        let s0 = get_shade(byte, 0);
        let s1 = get_shade(byte, 1);
        let s2 = get_shade(byte, 2);
        let s3 = get_shade(byte, 3);
        let p = Palette { value: byte, shades: [s0, s1, s2, s3] };
        assert(p.shades =~= shades_of(byte));
        assert forall|i: int| 0 <= i < 4 implies #[trigger] p.shade(i) == shade_of(byte, i) by {
            assert(i == 0 || i == 1 || i == 2 || i == 3);
        }
        p
    }

    /// The byte the palette was made from.
    pub fn to_byte(&self) -> (b: u8)
        ensures
            b == self.byte(),
    {
        self.value
    }

    pub fn map(&self, px: Pixel) -> (s: Shade)
        ensures
            s == self.shade(pixel_index(px)),
    {
        self.shades[px.index()]
    }
}

/// The palette made from a byte maps each colour number as the byte says.
pub broadcast proof fn lemma_palette_of_byte(byte: u8)
    ensures
        #[trigger] Palette::of_byte(byte).decodes(byte),
{
    let p = Palette::of_byte(byte);
    assert forall|i: int| 0 <= i < 4 implies #[trigger] p.shade(i) == shade_of(byte, i) by {
        assert(i == 0 || i == 1 || i == 2 || i == 3);
    }
}

pub broadcast group group_palette {
    lemma_palette_of_byte,
}

/// Writing a byte to a palette and reading it back gives the same byte.
pub proof fn lemma_palette_round_trip(byte: u8)
    ensures
        Palette::of_byte(byte).byte() == byte,
{
}

/// Reads the shade of colour number `i` out of a palette byte.
pub fn get_shade(byte: u8, i: u8) -> (s: Shade)
    requires
        i < 4,
    ensures
        s == shade_of(byte, i as int),
{
    let i = i * 2;

    let v = (bytes::check_bit(byte, i), bytes::check_bit(byte, i + 1));

    match v {
        (false, false) => Shade::White,
        (false, true) => Shade::LightGrey,
        (true, false) => Shade::DarkGrey,
        (true, true) => Shade::Black,
    }
}

}
