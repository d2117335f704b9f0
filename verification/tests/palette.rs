use gameboy::palette::{get_shade, Palette};
use gameboy::pixel::Pixel;
use gameboy::shade::Shade;

#[test]
fn test_get_shade() {
    assert_eq!(get_shade(0b1100_0000, 3), Shade::Black);
    assert_eq!(get_shade(0b0011_0000, 2), Shade::Black);
    assert_eq!(get_shade(0b0000_1100, 1), Shade::Black);
    assert_eq!(get_shade(0b0000_0011, 0), Shade::Black);

    assert_eq!(get_shade(0b0000_0000, 3), Shade::White);
    assert_eq!(get_shade(0b0100_0000, 3), Shade::DarkGrey);
    assert_eq!(get_shade(0b1000_0000, 3), Shade::LightGrey);
    assert_eq!(get_shade(0b1100_0000, 3), Shade::Black);
}

#[test]
fn palette_maps_each_colour() {
    let p = Palette::from(0b1110_0100);
    assert_eq!(p.map(Pixel::P0), get_shade(0b1110_0100, 0));
    assert_eq!(p.map(Pixel::P1), get_shade(0b1110_0100, 1));
    assert_eq!(p.map(Pixel::P2), get_shade(0b1110_0100, 2));
    assert_eq!(p.map(Pixel::P3), Shade::Black);
    assert_eq!(p.map(Pixel::P0), Shade::White);
}

#[test]
fn palette_reads_back_its_byte() {
    for b in [0x00u8, 0x1B, 0xE4, 0xFF] {
        assert_eq!(Palette::from(b).to_byte(), b);
    }
    assert_eq!(Palette::new().to_byte(), 0);
    assert_eq!(Palette::new().map(Pixel::P3), Shade::White);
}
