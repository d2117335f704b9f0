use vstd::prelude::*;
use crate::shade::Shade;
use crate::pixel::Pixel;
use crate::palette::Palette;
use crate::framebuffer;

verus! {

/// A background buffer of colour 0.
pub open spec fn blank_pixels() -> [[Pixel; 256]; 512] {
    vstd::array::spec_array_fill_for_copy_type::<[Pixel; 256], 512>(
        vstd::array::spec_array_fill_for_copy_type::<Pixel, 256>(Pixel::P0),
    )
}

/// A white tile sheet.
pub open spec fn blank_tiles() -> [[Shade; 256]; 96] {
    vstd::array::spec_array_fill_for_copy_type::<[Shade; 256], 96>(
        vstd::array::spec_array_fill_for_copy_type::<Shade, 256>(Shade::White),
    )
}

/// What the screen shows of the background map: its scroll, its palette and its pixels.
pub struct TileMap {
    pub scroll_x: u8,
    pub scroll_y: u8,
    pub palette: Palette,
    pub pixels: [[Pixel; 256]; 512],
}

impl TileMap {
    pub fn zero() -> (t: TileMap)
        ensures
            t.scroll_x == 0,
            t.scroll_y == 0,
            t.palette == Palette::of_byte(0),
            t.pixels == blank_pixels(),
    {
        TileMap { scroll_x: 0, scroll_y: 0, palette: Palette::new(), pixels: [[Pixel::P0; 256]; 512] }
    }
}

/// One frame for the display: the screen, the tile set and the background map.
pub struct Frame {
    pub main: [[Shade; 160]; 144],
    pub tiles: [[Shade; 256]; 96],
    pub tile_map: TileMap,
}

impl Frame {
    pub fn zero() -> (f: Frame)
        ensures
            f.main == framebuffer::blank(),
            f.tiles == blank_tiles(),
            f.tile_map.scroll_x == 0,
            f.tile_map.scroll_y == 0,
            f.tile_map.palette == Palette::of_byte(0),
            f.tile_map.pixels == blank_pixels(),
    {
        Frame { main: [[Shade::White; 160]; 144], tiles: [[Shade::White; 256]; 96], tile_map: TileMap::zero() }
    }
}

}
