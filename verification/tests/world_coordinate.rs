use handmade_hero::point_2d::Point2d;
use handmade_hero::tile_map_coordinate::TileMapCoordinate;
use handmade_hero::tile_map_key::TileMapKey;
use handmade_hero::world::World;
use handmade_hero::world_coordinate::{ShiftedCoordinate, WorldCoordinate};

fn small_world() -> World {
    World { rows: 3, columns: 4, tile_maps: Vec::new(), x_offset: 0, y_offset: 0, tile_size: 10 }
}

fn coordinate_at(key: (isize, isize), tile: (usize, usize), offset: (i64, i64)) -> WorldCoordinate {
    WorldCoordinate::new(
        &small_world(),
        TileMapKey { x: key.0, y: key.1 },
        TileMapCoordinate::at_x_y_offset(tile.0, tile.1, Point2d::from_x_y(offset.0, offset.1)),
    )
}

fn parts(coordinate: &WorldCoordinate) -> ((isize, isize), (usize, usize), (i64, i64)) {
    (
        (coordinate.tile_map_x(), coordinate.tile_map_y()),
        (coordinate.tile_x(), coordinate.tile_y()),
        (coordinate.tile_offset().x(), coordinate.tile_offset().y()),
    )
}

#[test]
fn test_new_takes_measures_from_world() {
    let coordinate = coordinate_at((2, -3), (1, 2), (3, 4));
    assert_eq!(((2, -3), (1, 2), (3, 4)), parts(&coordinate));
    assert_eq!(TileMapKey { x: 2, y: -3 }, coordinate.tile_map_key());
    assert_eq!(10, coordinate.tile_size);
    assert_eq!(3, coordinate.rows);
    assert_eq!(4, coordinate.columns);
    assert!(coordinate.is_well_formed());
}

#[test]
fn test_at_x_y_has_no_offset() {
    let coordinate = TileMapCoordinate::at_x_y(5, 6);
    assert_eq!(5, coordinate.x());
    assert_eq!(6, coordinate.y());
    assert_eq!(0, coordinate.offset().x());
    assert_eq!(0, coordinate.offset().y());
}

#[test]
fn test_shift_inside_tile() {
    let moved = coordinate_at((0, 0), (1, 1), (3, 4)).shifted(5, -4);
    assert_eq!(((0, 0), (1, 1), (8, 0)), parts(&moved));
}

#[test]
fn test_shift_into_next_tile() {
    let moved = coordinate_at((0, 0), (1, 1), (3, 4)).shifted(7, 6);
    assert_eq!(((0, 0), (2, 2), (0, 0)), parts(&moved));
    let moved = coordinate_at((0, 0), (1, 1), (3, 4)).shifted(-4, -5);
    assert_eq!(((0, 0), (0, 0), (9, 9)), parts(&moved));
}

#[test]
fn test_shift_by_exact_tiles_keeps_offset() {
    let moved = coordinate_at((0, 0), (1, 1), (3, 4)).shifted(-10, 10);
    assert_eq!(((0, 0), (0, 2), (3, 4)), parts(&moved));
    // A movement that ends exactly on the lower left corner of a tile.
    let moved = coordinate_at((0, 0), (1, 1), (3, 4)).shifted(-13, -14);
    assert_eq!(((0, 0), (0, 0), (0, 0)), parts(&moved));
    let moved = coordinate_at((0, 0), (1, 1), (3, 4)).shifted(-23, -24);
    assert_eq!(((-1, -1), (3, 2), (0, 0)), parts(&moved));
}

#[test]
fn test_shift_across_seams() {
    let start = coordinate_at((0, 0), (1, 1), (3, 4));
    // Horizontally a map is 40 units wide, vertically 30 units high.
    assert_eq!(((-1, 0), (3, 1), (9, 4)), parts(&start.shifted(-14, 0)));
    assert_eq!(((1, 0), (1, 1), (3, 4)), parts(&start.shifted(40, 0)));
    assert_eq!(((0, -1), (1, 2), (3, 9)), parts(&start.shifted(0, -15)));
    assert_eq!(((0, 1), (1, 0), (3, 0)), parts(&start.shifted(0, 16)));
    assert_eq!(((25, -33), (0, 0), (6, 7)), parts(&start.shifted(993, -997)));
}

#[test]
fn test_shift_by_huge_movement() {
    let start = coordinate_at((0, 0), (0, 0), (0, 0));
    let moved = start.shifted(4_000_000_000_007, -3_000_000_000_001);
    assert_eq!(((100_000_000_000, -100_000_000_001), (0, 2), (7, 9)), parts(&moved));
}

fn position(axis: isize, tile: usize, offset: i64, max_tiles: i128) -> i128 {
    (axis as i128 * max_tiles + tile as i128) * 10 + offset as i128
}

#[test]
fn test_shift_is_normalized_and_exact_for_many_movements() {
    for tile in 0..4usize {
        for offset in 0..10i64 {
            let start = coordinate_at((0, 0), (tile, tile % 3), (offset, offset));
            for delta in -130i64..130 {
                let moved = start.shifted(delta, -delta);
                assert!(moved.is_well_formed());
                assert!(0 <= moved.tile_offset().x() && moved.tile_offset().x() < 10);
                assert!(0 <= moved.tile_offset().y() && moved.tile_offset().y() < 10);
                assert!(moved.tile_x() < 4);
                assert!(moved.tile_y() < 3);
                let before_x = position(0, tile, offset, 4);
                let after_x = position(moved.tile_map_x(), moved.tile_x(), moved.tile_offset().x(), 4);
                assert_eq!(delta as i128, after_x - before_x);
                let before_y = position(0, tile % 3, offset, 3);
                let after_y = position(moved.tile_map_y(), moved.tile_y(), moved.tile_offset().y(), 3);
                assert_eq!(-delta as i128, after_y - before_y);
            }
        }
    }
}

#[test]
fn test_shift_there_and_back() {
    let start = coordinate_at((3, -2), (2, 1), (5, 6));
    for delta in [-1000i64, -41, -1, 0, 1, 39, 1000] {
        let back = start.shifted(delta, delta).shifted(-delta, -delta);
        assert_eq!(parts(&start), parts(&back));
    }
}

#[test]
fn test_shifted_axis() {
    let axis = ShiftedCoordinate { tile_map: 0, tile: 1, tile_offset: 3 };
    let moved = WorldCoordinate::shifted_axis(axis, -14, 10, 4);
    assert_eq!((-1, 3, 9), (moved.tile_map, moved.tile, moved.tile_offset));
    // A start that is not normalized stands for a distance all the same.
    let axis = ShiftedCoordinate { tile_map: 0, tile: 9, tile_offset: 25 };
    let moved = WorldCoordinate::shifted_axis(axis, 0, 10, 4);
    assert_eq!((2, 3, 5), (moved.tile_map, moved.tile, moved.tile_offset));
}

#[test]
fn test_checked_shift_matches_shift() {
    let start = coordinate_at((0, 0), (1, 1), (3, 4));
    let moved = start.checked_shifted(-14, 16).unwrap();
    assert_eq!(parts(&start.shifted(-14, 16)), parts(&moved));
    let axis = ShiftedCoordinate { tile_map: 0, tile: 1, tile_offset: 3 };
    let moved = WorldCoordinate::checked_shifted_axis(axis, 40, 10, 4).unwrap();
    assert_eq!((1, 1, 3), (moved.tile_map, moved.tile, moved.tile_offset));
}

#[test]
fn test_checked_shift_refuses_maps_out_of_range() {
    let start = coordinate_at((isize::MAX - 1, isize::MIN + 1), (3, 0), (9, 0));
    assert!(start.checked_shifted(0, 0).is_some());
    assert!(start.checked_shifted(1, 0).is_none());
    assert!(start.checked_shifted(0, -1).is_none());
    assert!(start.checked_shifted(-1, 1).is_some());
    let axis = ShiftedCoordinate { tile_map: isize::MAX - 1, tile: 3, tile_offset: 9 };
    assert!(WorldCoordinate::checked_shifted_axis(axis, 1, 10, 4).is_none());
}

#[test]
fn test_checked_shift_refuses_a_world_without_measures() {
    let mut start = coordinate_at((0, 0), (1, 1), (3, 4));
    start.tile_size = 0;
    assert!(start.checked_shifted(1, 1).is_none());
    assert!(!start.is_well_formed());
    let mut start = coordinate_at((0, 0), (1, 1), (3, 4));
    start.rows = 0;
    assert!(start.checked_shifted(1, 1).is_none());
}

#[test]
fn test_is_well_formed() {
    assert!(coordinate_at((0, 0), (3, 2), (9, 9)).is_well_formed());
    assert!(!coordinate_at((0, 0), (4, 2), (9, 9)).is_well_formed());
    assert!(!coordinate_at((0, 0), (3, 3), (9, 9)).is_well_formed());
    assert!(!coordinate_at((0, 0), (3, 2), (10, 9)).is_well_formed());
    assert!(!coordinate_at((0, 0), (3, 2), (9, -1)).is_well_formed());
    assert!(!coordinate_at((isize::MAX, 0), (3, 2), (9, 9)).is_well_formed());
    assert!(!coordinate_at((0, isize::MIN), (3, 2), (9, 9)).is_well_formed());
}

#[test]
fn test_tile_map_key() {
    let key = TileMapKey { x: -4, y: 9 };
    assert_eq!(-4, key.x());
    assert_eq!(9, key.y());
    assert!(key.is_in_range());
    assert!(!TileMapKey { x: isize::MIN, y: 0 }.is_in_range());
    assert!(!TileMapKey { x: 0, y: isize::MAX }.is_in_range());
}

#[test]
fn test_two_shifts_end_where_their_sum_ends() {
    let start = coordinate_at((0, 0), (1, 1), (3, 4));
    for first in [-95i64, -40, -7, 0, 13, 41] {
        for second in [-77i64, -1, 0, 9, 40, 123] {
            let in_steps = start.shifted(first, second).shifted(second, first);
            let at_once = start.shifted(first + second, first + second);
            assert_eq!(parts(&at_once), parts(&in_steps));
        }
    }
}

#[test]
fn test_shift_by_nothing_normalizes() {
    // Tile 9 of four and an offset of 25 in tiles of ten.
    let loose = coordinate_at((0, 0), (9, 1), (25, 4));
    assert!(!loose.is_well_formed());
    let tidy = loose.shifted(0, 0);
    assert!(tidy.is_well_formed());
    assert_eq!(((2, 0), (3, 1), (5, 4)), parts(&tidy));
    assert_eq!(parts(&tidy), parts(&tidy.shifted(0, 0)));
}
