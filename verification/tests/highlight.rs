use hexachess::hex::HexCoordinate;
use hexachess::highlight::HighlightedHexes;

#[test]
fn nothing_is_highlighted_at_first() {
    let highlights = HighlightedHexes::default();
    assert_eq!(highlights.hovered, HexCoordinate::new(0, 0));
    assert!(highlights.path.is_empty());
    assert!(highlights.attack.is_empty());
}

#[test]
fn hover_replaces_the_hovered_cell_only() {
    let mut highlights = HighlightedHexes::default();
    highlights.add_to_path(HexCoordinate::new(1, 1));
    highlights.add_to_attack(HexCoordinate::new(2, 2));
    highlights.hover(HexCoordinate::new(3, -1));
    highlights.hover(HexCoordinate::new(4, -2));
    assert_eq!(highlights.hovered, HexCoordinate::new(4, -2));
    assert_eq!(highlights.path, vec![HexCoordinate::new(1, 1)]);
    assert_eq!(highlights.attack, vec![HexCoordinate::new(2, 2)]);
}

#[test]
fn path_and_attack_grow_at_the_end() {
    let mut highlights = HighlightedHexes::default();
    highlights.add_to_path(HexCoordinate::new(0, 1));
    highlights.add_to_path(HexCoordinate::new(0, 2));
    highlights.add_to_path(HexCoordinate::new(0, 1));
    highlights.add_to_attack(HexCoordinate::new(5, 0));
    highlights.add_to_attack(HexCoordinate::new(4, 0));
    assert_eq!(
        highlights.path,
        vec![HexCoordinate::new(0, 1), HexCoordinate::new(0, 2), HexCoordinate::new(0, 1)]
    );
    assert_eq!(highlights.attack, vec![HexCoordinate::new(5, 0), HexCoordinate::new(4, 0)]);
    assert_eq!(highlights.hovered, HexCoordinate::new(0, 0));
}

#[test]
fn reset_clears_and_returns_what_was_highlighted() {
    let mut highlights = HighlightedHexes::default();
    highlights.hover(HexCoordinate::new(3, -1));
    highlights.add_to_path(HexCoordinate::new(0, 1));
    highlights.add_to_path(HexCoordinate::new(0, 2));
    highlights.add_to_attack(HexCoordinate::new(5, 0));
    let restore = highlights.reset();
    assert_eq!(
        restore,
        vec![
            HexCoordinate::new(3, -1),
            HexCoordinate::new(0, 1),
            HexCoordinate::new(0, 2),
            HexCoordinate::new(5, 0),
        ]
    );
    assert_eq!(highlights.hovered, HexCoordinate::new(0, 0));
    assert!(highlights.path.is_empty());
    assert!(highlights.attack.is_empty());
}

#[test]
fn reset_of_nothing_returns_the_origin() {
    let mut highlights = HighlightedHexes::default();
    assert_eq!(highlights.reset(), vec![HexCoordinate::new(0, 0)]);
    assert_eq!(highlights.reset(), vec![HexCoordinate::new(0, 0)]);
}
