use yaemulator::ppu::tile::{expand_bits, GbPalette, RGBPalette, Tile};

#[test]
fn test_bit_expander() {
    let mut byte = 0b1111_1111;
    let mut expanded = expand_bits(byte);
    let mut expected: u16 = 0b01010101_01010101;
    assert_eq!(expanded, expected);

    byte = 0b1001_0110;
    expanded = expand_bits(byte);
    expected = 0b01000001_00010100;
    assert_eq!(expanded, expected);

    byte = 0b0000_0000;
    expanded = expand_bits(byte);
    expected = 0b00000000_00000000;
    assert_eq!(expanded, expected);
}

#[test]
fn test_tile_to_picture() {
    // Row 0: low 0b1010_0000, high 0b1100_0000 -> indexes 3, 2, 1, 0, 0, ...
    let mut data = [0u8; 16];
    data[0] = 0b1010_0000;
    data[1] = 0b1100_0000;
    data[15] = 0x01;
    let picture = Tile::new(data).to_picture();
    assert_eq!(picture[0], GbPalette::Black);
    assert_eq!(picture[1], GbPalette::DarkGray);
    assert_eq!(picture[2], GbPalette::LightGray);
    assert_eq!(picture[3], GbPalette::White);
    assert_eq!(picture[63], GbPalette::DarkGray);
    assert_eq!(picture[62], GbPalette::White);
}

#[test]
fn test_half_nibble_to_palette() {
    assert_eq!(Tile::half_nibble_to_palette(0), GbPalette::White);
    assert_eq!(Tile::half_nibble_to_palette(1), GbPalette::LightGray);
    assert_eq!(Tile::half_nibble_to_palette(6), GbPalette::DarkGray);
    assert_eq!(Tile::half_nibble_to_palette(0xFF), GbPalette::Black);
}

#[test]
fn test_rgb_palette_values() {
    assert_eq!(RGBPalette::White.value(), 0xD1EE54);
    assert_eq!(RGBPalette::Black.value(), 0x0C0F08);
}
