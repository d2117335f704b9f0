use vstd::prelude::*;
use crate::bytes;
use crate::bytes::bit_of;
use crate::pixel::Pixel;

verus! {

broadcast use vstd::array::group_array_axioms;

/// The pixel in column `i` of a tile row made of the bytes `top` and `bottom`: its colour
/// number takes bit `7 - i` of `top` as its low bit and bit `7 - i` of `bottom` as its high bit.
pub open spec fn row_pixel(top: u8, bottom: u8, i: int) -> Pixel {
    let low = bit_of(top, 7 - i);
    let high = bit_of(bottom, 7 - i);
    if low && high {
        Pixel::P3
    } else if !low && high {
        Pixel::P2
    } else if low && !high {
        Pixel::P1
    } else {
        Pixel::P0
    }
}

/// The eight pixels of a tile row made of the bytes `top` and `bottom`.
pub open spec fn row_of(top: u8, bottom: u8) -> [Pixel; 8] {
    [
        row_pixel(top, bottom, 0),
        row_pixel(top, bottom, 1),
        row_pixel(top, bottom, 2),
        row_pixel(top, bottom, 3),
        row_pixel(top, bottom, 4),
        row_pixel(top, bottom, 5),
        row_pixel(top, bottom, 6),
        row_pixel(top, bottom, 7),
    ]
}

#[derive(Debug, Clone, Copy)]
pub struct Tile {
    pub data: [[Pixel; 8]; 8],
}

/// Tiles are 8x8 pixels and layed out where every two bits defines a pixel. They are
/// 16 bytes and with every two bytes defining a row. Oddly pixels are aligned vertically
/// in these two byte rows... for example
///
/// 1. [0,1,0,0,1,1,1,0]
/// 2. [1,0,0,0,1,0,1,1]
///
/// results in a row of pixels:
///
/// 1. [2,1,0,0,3,1,3,2]
impl Tile {
    /// The tile with row `row` replaced by the row made of `top` and `bottom`.
    pub open spec fn with_row(self, row: int, top: u8, bottom: u8) -> Tile {
        Tile { data: vstd::array::spec_array_update(self.data, row, row_of(top, bottom)) }
    }

    pub fn set_row(&mut self, row: u8, top_byte: u8, bottom_byte: u8)
        requires
            row < 8,
        ensures
            *final(self) == old(self).with_row(row as int, top_byte, bottom_byte),
    {
        let ghost old_data = self.data;
        let mut new_row = self.data[row as usize];
        for i in 0..8u8
            invariant
                forall|j: int| 0 <= j < i ==> #[trigger] new_row[j] == row_pixel(top_byte, bottom_byte, j),
        {
            let byte_index = 7 - i;

            let bits = (bytes::check_bit(top_byte, byte_index), bytes::check_bit(bottom_byte, byte_index));

            let p = match bits {
                (true, true) => Pixel::P3,
                (false, true) => Pixel::P2,
                (true, false) => Pixel::P1,
                (false, false) => Pixel::P0,
            };

            new_row[i as usize] = p;
        }
        assert(new_row =~= row_of(top_byte, bottom_byte));
        self.data[row as usize] = new_row;
    }

    /// The tile of colour 0 everywhere.
    pub open spec fn zeroed() -> Tile {
        Tile { data: vstd::array::spec_array_fill_for_copy_type::<[Pixel; 8], 8>(vstd::array::spec_array_fill_for_copy_type::<Pixel, 8>(Pixel::P0)) }
    }

    pub fn zero() -> (t: Tile)
        ensures
            t == Tile::zeroed(),
            forall|r: int, c: int| 0 <= r < 8 && 0 <= c < 8 ==> #[trigger] t.data[r][c] == Pixel::P0,
    {
        Tile { data: [[Pixel::P0; 8]; 8] }
    }
}

}
