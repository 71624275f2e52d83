use rustyboy::video::color::Color;
use rustyboy::video::tile::Tile;

#[test]
fn colored() {
    let tile_data = [0, 6168, 14392, 6168, 6168, 6168, 15420, 0];
    let tile = Tile::new(tile_data);
    let colored = tile.colored();
    let expected = [
        Color::White, Color::White, Color::White, Color::White, Color::White, Color::White, Color::White, Color::White,
        Color::White, Color::White, Color::White, Color::Black, Color::Black, Color::White, Color::White, Color::White,
        Color::White, Color::White, Color::Black, Color::Black, Color::Black, Color::White, Color::White, Color::White,
        Color::White, Color::White, Color::White, Color::Black, Color::Black, Color::White, Color::White, Color::White,
        Color::White, Color::White, Color::White, Color::Black, Color::Black, Color::White, Color::White, Color::White,
        Color::White, Color::White, Color::White, Color::Black, Color::Black, Color::White, Color::White, Color::White,
        Color::White, Color::White, Color::Black, Color::Black, Color::Black, Color::Black, Color::White, Color::White,
        Color::White, Color::White, Color::White, Color::White, Color::White, Color::White, Color::White, Color::White,
    ];

    assert_eq!(colored.to_vec(), expected.to_vec());
}

#[test]
fn pixel_colors_use_both_bytes() {
    // high byte 0b1000_0000, low byte 0b0100_0000
    let tile = Tile::new([0x8040, 0, 0, 0, 0, 0, 0, 0]);
    assert_eq!(tile.color_at(0, 0), Color::LightGray);
    assert_eq!(tile.color_at(1, 0), Color::DarkGray);
    assert_eq!(tile.color_at(2, 0), Color::White);
}

#[test]
fn packed_fields_of_the_low_byte() {
    let tile = Tile::new([0b1110_0100, 0, 0, 0, 0, 0, 0, 0]);
    assert_eq!(tile.get(0, 0), 0);
    assert_eq!(tile.get(1, 0), 1);
    assert_eq!(tile.get(2, 0), 2);
    assert_eq!(tile.get(3, 0), 3);
    assert_eq!(tile.get(4, 0), 0);
    assert_eq!(tile.formatted_line(0), [0, 1, 2, 3, 0, 1, 2, 3]);
}

#[test]
fn lines_are_set() {
    let mut tile = Tile::new([0; 8]);
    tile.set_line(7, 0xABCD);
    assert_eq!(tile.line(7), 0xABCD);
    assert_eq!(tile.line(6), 0);
}
