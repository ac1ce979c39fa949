use hexachess::hex::HexCoordinate;
use hexachess::piece::PieceType;
use hexachess::tiles::{tile_color, TileColor};

#[test]
fn colours_around_the_origin() {
    assert_eq!(tile_color(HexCoordinate::new(0, 0)), TileColor::Grey);
    assert_eq!(tile_color(HexCoordinate::new(1, 0)), TileColor::Black);
    assert_eq!(tile_color(HexCoordinate::new(2, 0)), TileColor::White);
    assert_eq!(tile_color(HexCoordinate::new(3, 0)), TileColor::Grey);
    assert_eq!(tile_color(HexCoordinate::new(0, 1)), TileColor::White);
    assert_eq!(tile_color(HexCoordinate::new(0, -1)), TileColor::Black);
    assert_eq!(tile_color(HexCoordinate::new(-1, 0)), TileColor::White);
    assert_eq!(tile_color(HexCoordinate::new(-5, 5)), TileColor::White);
    assert_eq!(tile_color(HexCoordinate::new(1, 1)), TileColor::Grey);
}

#[test]
fn colours_at_the_ends_of_the_range() {
    // i32::MAX - i32::MIN = 4294967295, a multiple of three.
    assert_eq!(tile_color(HexCoordinate::new(i32::MAX, i32::MIN)), TileColor::Grey);
    assert_eq!(tile_color(HexCoordinate::new(i32::MIN, i32::MAX)), TileColor::Grey);
    assert_eq!(tile_color(HexCoordinate::new(i32::MIN, 0)), TileColor::Black);
    assert_eq!(tile_color(HexCoordinate::new(0, i32::MIN)), TileColor::White);
}

#[test]
fn neighbours_have_different_colours() {
    for x in -5..=5 {
        for y in -5..=5 {
            let hex = HexCoordinate::new(x, y);
            for neighbour in PieceType::Rook.successors(hex, true) {
                assert_ne!(tile_color(hex), tile_color(neighbour));
            }
        }
    }
}

#[test]
fn each_colour_has_its_share_of_the_board() {
    let mut counts = [0, 0, 0];
    for x in -5..=5 {
        for y in -5..=5 {
            let hex = HexCoordinate::new(x, y);
            if hex.is_on_board() {
                match tile_color(hex) {
                    TileColor::Grey => counts[0] += 1,
                    TileColor::Black => counts[1] += 1,
                    TileColor::White => counts[2] += 1,
                }
            }
        }
    }
    assert_eq!(counts, [31, 30, 30]);
}

#[test]
fn white_is_the_default_colour() {
    assert_eq!(TileColor::default(), TileColor::White);
}
