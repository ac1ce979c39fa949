use hexachess::hex::{HexCoordinate, RADIUS};

#[test]
fn new_keeps_both_coordinates() {
    let hex = HexCoordinate::new(3, -4);
    assert_eq!(hex.x(), 3);
    assert_eq!(hex.y(), -4);
    assert_eq!(hex.x, 3);
    assert_eq!(hex.y, -4);
}

#[test]
fn cube_coordinates_add_up_to_zero() {
    for (x, y) in [(0, 0), (3, -4), (-5, 5), (i32::MAX, i32::MAX), (i32::MIN, i32::MIN)] {
        let hex = HexCoordinate::new(x, y);
        assert_eq!(i64::from(hex.x()) + i64::from(hex.y()) + hex.z(), 0);
    }
    assert_eq!(HexCoordinate::new(3, -4).z(), 1);
    assert_eq!(HexCoordinate::new(i32::MIN, i32::MIN).z(), 4_294_967_296);
}

#[test]
fn equality_goes_by_x_and_y() {
    assert_eq!(HexCoordinate::new(1, 2), HexCoordinate { x: 1, y: 2 });
    assert_ne!(HexCoordinate::new(1, 2), HexCoordinate::new(2, 1));
    assert_ne!(HexCoordinate::new(1, 2), HexCoordinate::new(1, 3));
}

#[test]
fn addition_is_coordinate_wise() {
    assert_eq!(HexCoordinate::new(1, 2) + HexCoordinate::new(0, -1), HexCoordinate::new(1, 1));
    assert_eq!(HexCoordinate::new(-5, 5) + HexCoordinate::new(2, -1), HexCoordinate::new(-3, 4));
    assert_eq!(
        HexCoordinate::new(i32::MAX - 2, i32::MIN + 2) + HexCoordinate::new(2, -2),
        HexCoordinate::new(i32::MAX, i32::MIN)
    );
    let a = HexCoordinate::new(7, -3);
    let b = HexCoordinate::new(-2, 9);
    assert_eq!(a + b, b + a);
    assert_eq!((a + b).z(), a.z() + b.z());
}

#[test]
fn addition_agrees_with_hexx() {
    for (ax, ay, bx, by) in [(0, 0, 0, 0), (1, 2, 3, 4), (-5, 5, 1, -2), (100, -100, -1, 1)] {
        let sum = HexCoordinate::new(ax, ay) + HexCoordinate::new(bx, by);
        let theirs = hexx::Hex::new(ax, ay) + hexx::Hex::new(bx, by);
        assert_eq!((sum.x(), sum.y()), (theirs.x(), theirs.y()));
    }
}

#[test]
fn the_radius_is_five() {
    assert_eq!(RADIUS, 5);
}

#[test]
fn board_membership_on_the_rim() {
    for (x, y) in [(0, 0), (5, 0), (-5, 0), (0, 5), (0, -5), (5, -5), (-5, 5), (3, 2), (-2, -3)] {
        assert!(HexCoordinate::new(x, y).is_on_board(), "({x}, {y})");
    }
    for (x, y) in [(6, 0), (-6, 0), (0, 6), (0, -6), (5, 1), (-5, -1), (3, 3), (-3, -3), (1, 5)] {
        assert!(!HexCoordinate::new(x, y).is_on_board(), "({x}, {y})");
    }
}

#[test]
fn board_membership_at_the_ends_of_the_range() {
    for x in [i32::MIN, i32::MAX] {
        for y in [i32::MIN, -1, 0, 1, i32::MAX] {
            assert!(!HexCoordinate::new(x, y).is_on_board());
            assert!(!HexCoordinate::new(y, x).is_on_board());
        }
    }
}

#[test]
fn the_board_has_91_cells() {
    let mut count = 0;
    for x in -8..=8 {
        for y in -8..=8 {
            if HexCoordinate::new(x, y).is_on_board() {
                count += 1;
            }
        }
    }
    assert_eq!(count, 91);
}

#[test]
fn board_membership_is_the_largest_cube_coordinate() {
    for x in -8i32..=8 {
        for y in -8i32..=8 {
            let largest = x.abs().max(y.abs()).max((x + y).abs());
            assert_eq!(HexCoordinate::new(x, y).is_on_board(), largest <= 5);
        }
    }
}

#[test]
fn board_membership_agrees_with_hexx() {
    let theirs: Vec<(i32, i32)> =
        hexx::shapes::hexagon(hexx::Hex::ZERO, RADIUS).map(|hex| (hex.x(), hex.y())).collect();
    assert_eq!(theirs.len(), 91);
    for x in -8..=8 {
        for y in -8..=8 {
            assert_eq!(HexCoordinate::new(x, y).is_on_board(), theirs.contains(&(x, y)));
        }
    }
}
