use gameboy::device::Device;
use gameboy::gpu::{make_even, TileMap, VRam, GPU};
use gameboy::pixel::Pixel;

#[test]
fn gpu_test_get_set_tile_map() {
    let mut t = TileMap::new();
    t.set(272, 0x19);
    assert_eq!(t.get(272), 0x19);
}

#[test]
fn test_vram_set() {
    let mut vram = VRam::new();
    /* Set the first tile in the tileset to have pixel values
     * [P3 P2 P1 P0]
     */
    vram.set(0x0000, 0b1010_0000);
    vram.set(0x0001, 0b1100_0000);

    assert_eq!(vram.tile_set[0].data[0][0], Pixel::P3);
    assert_eq!(vram.tile_set[0].data[0][1], Pixel::P2);
    assert_eq!(vram.tile_set[0].data[0][2], Pixel::P1);
    assert_eq!(vram.tile_set[0].data[0][3], Pixel::P0);
}

#[test]
fn tile_map_set_reports_column_and_row() {
    let mut t = TileMap::new();
    assert_eq!(t.set(33, 7), (1, 1));
    assert_eq!(t.map(1, 1, false), 7);
    assert_eq!(t.set(1024 + 5, 9), (5, 32));
    assert_eq!(t.map(0, 5, true), 9);
}

#[test]
fn make_even_clears_bit_zero() {
    assert_eq!(make_even(0x0001), 0x0000);
    assert_eq!(make_even(0x0002), 0x0002);
    assert_eq!(make_even(0x17FF), 0x17FE);
}

#[test]
fn vram_reads_back_and_decodes_the_second_row() {
    let mut vram = VRam::new();
    vram.set(0x0012, 0xFF);
    vram.set(0x0013, 0x00);
    assert_eq!(vram.get(0x0012), 0xFF);
    assert_eq!(vram.tile_set[1].data[1][0], Pixel::P1);
    assert_eq!(vram.tile_set[1].data[1][7], Pixel::P1);
    assert_eq!(vram.tile_set[1].data[0][0], Pixel::P0);
}

#[test]
fn update_buffer_draws_the_background_map() {
    let mut gpu = GPU::new();
    // tile 1, row 0: all pixels colour 3
    gpu.set(0x8010, 0xFF);
    gpu.set(0x8011, 0xFF);
    // map entry (0, 1) shows tile 1
    gpu.set(0x9801, 1);
    gpu.update_buffer();
    assert_eq!(gpu.buffer[0][8], Pixel::P3);
    assert_eq!(gpu.buffer[0][15], Pixel::P3);
    assert_eq!(gpu.buffer[0][7], Pixel::P0);
    assert_eq!(gpu.buffer[1][8], Pixel::P0);
}
