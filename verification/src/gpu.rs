use vstd::prelude::*;
use crate::tile::Tile;
use crate::device::Device;
use crate::pixel::Pixel;

verus! {

broadcast use vstd::array::group_array_axioms;

pub const VRAM_BEGIN: usize = 0x8000;
pub const VRAM_END: usize = 0x9FFF;
pub const VRAM_SIZE: usize = 0x2000;

/// The background tile map: 64 rows of 32 tile numbers (two maps of 32 rows each).
pub struct TileMap {
    pub storage: [[u8; 32]; 64],
}

impl TileMap {
    /// The tile map after `value` is stored at `address`, that is at row `address / 32`,
    /// column `address % 32`.
    pub open spec fn stored(self, address: u16, value: u8) -> TileMap {
        let y = address / 32;
        let x = address % 32;
        TileMap {
            storage: vstd::array::spec_array_update(
                self.storage,
                y as int,
                vstd::array::spec_array_update(self.storage[y as int], x as int, value),
            ),
        }
    }

    /// The tile map of zeros.
    pub open spec fn zeroed() -> TileMap {
        TileMap { storage: vstd::array::spec_array_fill_for_copy_type::<[u8; 32], 64>(vstd::array::spec_array_fill_for_copy_type::<u8, 32>(0)) }
    }

    pub fn new() -> (t: TileMap)
        ensures
            t == TileMap::zeroed(),
            forall|y: int, x: int| 0 <= y < 64 && 0 <= x < 32 ==> #[trigger] t.storage[y][x] == 0,
    {
        TileMap { storage: [[0; 32]; 64] }
    }

    /// The tile number at row `y`, column `x` of the first map, or of the second map when
    /// `bank` is set.
    pub fn map(&self, y: u8, x: u8, bank: bool) -> (r: u8)
        requires
            x < 32,
            if bank { y < 32 } else { y < 64 },
        ensures
            r == if bank { self.storage[y + 32][x as int] } else { self.storage[y as int][x as int] },
    {
        if bank {
            self.storage[(y as usize) + 32][x as usize]
        } else {
            self.storage[y as usize][x as usize]
        }
    }

    /// Stores a tile number; returns its column and row.
    pub fn set(&mut self, address: u16, value: u8) -> (r: (u8, u8))
        requires
            address <= 2047,
        ensures
            *final(self) == old(self).stored(address, value),
            r == ((address % 32) as u8, (address / 32) as u8),
    {
        let y = address / 32;
        let x = address - (y * 32);

        self.storage[y as usize][x as usize] = value;

        (x as u8, y as u8)
    }

    pub fn get(&self, address: u16) -> (r: u8)
        requires
            address <= 2047,
        ensures
            r == self.storage[(address / 32) as int][(address % 32) as int],
    {
        let y = address / 32;
        let x = address - (y * 32);

        self.storage[y as usize][x as usize]
    }
}

/// Video memory: the bytes as written and the 384 tiles decoded from them.
pub struct VRam {
    pub storage: [u8; VRAM_SIZE],
    pub tile_set: [Tile; 384],
}

/// The even address of the byte pair that holds `i`.
pub open spec fn even_of(i: u16) -> u16 {
    (i - i % 2) as u16
}

impl VRam {
    /// Video memory of zeros, every tile of colour 0.
    pub open spec fn zeroed() -> VRam {
        VRam {
            storage: vstd::array::spec_array_fill_for_copy_type::<u8, VRAM_SIZE>(0),
            tile_set: vstd::array::spec_array_fill_for_copy_type::<Tile, 384>(Tile::zeroed()),
        }
    }

    pub fn new() -> (v: VRam)
        ensures
            v == VRam::zeroed(),
            forall|i: int| 0 <= i < 0x2000 ==> #[trigger] v.storage[i] == 0,
            forall|t: int, r: int, c: int| 0 <= t < 384 && 0 <= r < 8 && 0 <= c < 8
                ==> #[trigger] v.tile_set[t].data[r][c] == Pixel::P0,
    {
        let t = Tile::zero();
        let v = VRam { storage: [0; VRAM_SIZE], tile_set: [t; 384] };
        assert forall|ti: int, r: int, c: int| 0 <= ti < 384 && 0 <= r < 8 && 0 <= c < 8
            implies #[trigger] v.tile_set[ti].data[r][c] == Pixel::P0 by {
            assert(v.tile_set[ti] == t);
        }
        v
    }
}

impl View for VRam {
    type V = VRam;

    open spec fn view(&self) -> VRam {
        *self
    }
}

impl Device for VRam {
    open spec fn readable(&self, a: u16) -> bool {
        a < 0x2000
    }

    open spec fn writable(&self, a: u16) -> bool {
        a < 0x1800
    }

    open spec fn read(&self, a: u16) -> u8 {
        self.storage[a as int]
    }

    /// Tile data is stored in a sequence of pairs of bytes but it always starts on the even
    /// byte; a tile is found every 16 bytes and rows are two bytes long. A write stores the
    /// byte and decodes the row of its pair again.
    open spec fn written(&self, a: u16, v: u8) -> VRam {
        let storage = vstd::array::spec_array_update(self.storage, a as int, v);
        let n = even_of(a) as int;
        let t = (a / 16) as int;
        VRam {
            storage,
            tile_set: vstd::array::spec_array_update(
                self.tile_set,
                t,
                self.tile_set[t].with_row(((a % 16) / 2) as int, storage[n], storage[n + 1]),
            ),
        }
    }

    fn set(&mut self, address: u16, value: u8) {
        self.storage[address as usize] = value;

        let normalized_index = make_even(address) as usize;

        let top_byte = self.storage[normalized_index];
        let bottom_byte = self.storage[normalized_index + 1];

        let tile_index = address as usize / 16;

        let row_index = ((address % 16) / 2) as u8;

        let mut tile = self.tile_set[tile_index];
        tile.set_row(row_index, top_byte, bottom_byte);
        self.tile_set[tile_index] = tile;
    }

    fn get(&self, address: u16) -> u8 {
        self.storage[address as usize]
    }
}

pub struct GPU {
    pub vram: VRam,
    pub tile_map: TileMap,
    pub buffer: [[Pixel; 256]; 512],
}

/// VRAM layout
/// 8000-87FF: First part of tile set #1
/// 8800-8FFF: Second part of tile set #1 / First part of tile set #2
/// 9000-97FF: Second part of tile set #2
/// 9800-9FFF: Tile map
impl GPU {
    /// The GPU as it starts: zero memory and a buffer of colour 0.
    pub open spec fn initial() -> GPU {
        GPU {
            vram: VRam::zeroed(),
            tile_map: TileMap::zeroed(),
            buffer: vstd::array::spec_array_fill_for_copy_type::<[Pixel; 256], 512>(vstd::array::spec_array_fill_for_copy_type::<Pixel, 256>(Pixel::P0)),
        }
    }

    pub fn new() -> (g: GPU)
        ensures
            g == GPU::initial(),
            forall|i: int| 0 <= i < 0x2000 ==> #[trigger] g.vram.storage[i] == 0,
            forall|t: int, r: int, c: int| 0 <= t < 384 && 0 <= r < 8 && 0 <= c < 8
                ==> #[trigger] g.vram.tile_set[t].data[r][c] == Pixel::P0,
            forall|y: int, x: int| 0 <= y < 64 && 0 <= x < 32 ==> #[trigger] g.tile_map.storage[y][x] == 0,
            forall|y: int, x: int| 0 <= y < 512 && 0 <= x < 256 ==> #[trigger] g.buffer[y][x] == Pixel::P0,
    {
        GPU {
            vram: VRam::new(),
            tile_map: TileMap::new(),
            // Buffer is the background full rendered
            buffer: [[Pixel::P0; 256]; 512],
        }
    }
}

impl GPU {
    /// The pixel that the background tile map puts at row `r`, column `c` of the top
    /// 256 x 256 of the buffer.
    pub open spec fn background_pixel(self, r: int, c: int) -> Pixel {
        self.vram.tile_set[self.tile_map.storage[r / 8][c / 8] as int].data[r % 8][c % 8]
    }

    fn draw_tile(&mut self, oy: usize, ox: usize, tile: Tile)
        requires
            oy + 8 <= 512,
            ox + 8 <= 256,
        ensures
            final(self).vram == old(self).vram,
            final(self).tile_map == old(self).tile_map,
            forall|r: int, c: int| 0 <= r < 512 && 0 <= c < 256 ==> #[trigger] final(self).buffer[r][c]
                == if oy <= r < oy + 8 && ox <= c < ox + 8 { tile.data[r - oy][c - ox] } else { old(self).buffer[r][c] },
    {
        for y in 0..8usize
            invariant
                oy + 8 <= 512,
                ox + 8 <= 256,
                self.vram == old(self).vram,
                self.tile_map == old(self).tile_map,
                forall|r: int, c: int| 0 <= r < 512 && 0 <= c < 256 ==> #[trigger] self.buffer[r][c]
                    == if oy <= r < oy + y && ox <= c < ox + 8 { tile.data[r - oy][c - ox] } else { old(self).buffer[r][c] },
        {
            let mut row = self.buffer[oy + y];
            for x in 0..8usize
                invariant
                    oy + 8 <= 512,
                    ox + 8 <= 256,
                    y < 8,
                    forall|c: int| 0 <= c < 256 ==> #[trigger] row[c]
                        == if ox <= c < ox + x { tile.data[y as int][c - ox] } else { self.buffer[oy + y][c] },
            {
                let p = tile.data[y][x];
                row[ox + x] = p;
            }
            self.buffer[oy + y] = row;
        }
    }

    /// Draws the first background map into the top 256 rows of the buffer, tile by tile.
    pub fn update_buffer(&mut self)
        ensures
            final(self).vram == old(self).vram,
            final(self).tile_map == old(self).tile_map,
            forall|r: int, c: int| 0 <= r < 512 && 0 <= c < 256 ==> #[trigger] final(self).buffer[r][c]
                == if r < 256 { old(self).background_pixel(r, c) } else { old(self).buffer[r][c] },
    {
        for y in 0..32u8
            invariant
                self.vram == old(self).vram,
                self.tile_map == old(self).tile_map,
                forall|r: int, c: int| 0 <= r < 512 && 0 <= c < 256 ==> #[trigger] self.buffer[r][c]
                    == if r < 8 * y { old(self).background_pixel(r, c) } else { old(self).buffer[r][c] },
        {
            for x in 0..32u8
                invariant
                    y < 32,
                    self.vram == old(self).vram,
                    self.tile_map == old(self).tile_map,
                    forall|r: int, c: int| 0 <= r < 512 && 0 <= c < 256 ==> #[trigger] self.buffer[r][c]
                        == if r < 8 * y || (r < 8 * y + 8 && c < 8 * x) { old(self).background_pixel(r, c) } else { old(self).buffer[r][c] },
            {
                let mapping = self.tile_map.map(y, x, false);
                let tile = self.vram.tile_set[mapping as usize];
                let ghost before = self.buffer;
                self.draw_tile(y as usize * 8, x as usize * 8, tile);
                assert forall|r: int, c: int| 0 <= r < 512 && 0 <= c < 256 implies #[trigger] self.buffer[r][c]
                    == if r < 8 * y || (r < 8 * y + 8 && c < 8 * (x + 1)) { old(self).background_pixel(r, c) } else { old(self).buffer[r][c] } by {
                    if 8 * y <= r < 8 * y + 8 && 8 * x <= c < 8 * x + 8 {
                        assert(r / 8 == y as int && r % 8 == r - 8 * y) by (nonlinear_arith)
                            requires 8 * y <= r < 8 * y + 8;
                        assert(c / 8 == x as int && c % 8 == c - 8 * x) by (nonlinear_arith)
                            requires 8 * x <= c < 8 * x + 8;
                    }
                }
            }
        }
    }
}

impl View for GPU {
    type V = GPU;

    open spec fn view(&self) -> GPU {
        *self
    }
}

impl Device for GPU {
    open spec fn readable(&self, a: u16) -> bool {
        0x8000 <= a <= 0x97FF || 0x9800 <= a <= 0x9FFF
    }

    open spec fn writable(&self, a: u16) -> bool {
        0x8000 <= a <= 0x97FF || 0x9800 <= a <= 0x9FFF
    }

    open spec fn read(&self, a: u16) -> u8 {
        if a <= 0x97FF {
            self.vram.read((a - 0x8000) as u16)
        } else {
            let m = (a - 0x9800) as u16;
            self.tile_map.storage[(m / 32) as int][(m % 32) as int]
        }
    }

    open spec fn written(&self, a: u16, v: u8) -> GPU {
        if a <= 0x97FF {
            GPU { vram: self.vram.written((a - 0x8000) as u16, v), ..*self }
        } else {
            GPU { tile_map: self.tile_map.stored((a - 0x9800) as u16, v), ..*self }
        }
    }

    fn set(&mut self, address: u16, value: u8) {
        if address <= 0x97FF {
            self.vram.set(address - 0x8000, value);
        } else {
            self.tile_map.set(address - 0x9800, value);
        }
    }

    fn get(&self, address: u16) -> u8 {
        if address <= 0x97FF {
            self.vram.get(address - 0x8000)
        } else {
            self.tile_map.get(address - 0x9800)
        }
    }
}

/// Clears bit 0: the even address of the pair that holds `i`.
pub fn make_even(i: u16) -> (r: u16)
    ensures
        r == even_of(i),
{
    assert(i & !0x0001u16 == i - i % 2) by (bit_vector);
    i & !0x0001
}

}
