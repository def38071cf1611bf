use handmade_hero::point_2d::Point2d;
use handmade_hero::rectangle::Rectangle;
use handmade_hero::tile_map::TileMap;
use handmade_hero::tile_map_coordinate::TileMapCoordinate;
use handmade_hero::tile_map_key::TileMapKey;
use handmade_hero::world::World;
use handmade_hero::world_coordinate::WorldCoordinate;

const ORIGIN: TileMapKey = TileMapKey { x: 0, y: 0 };

fn empty_world() -> World {
    World { rows: 3, columns: 3, tile_maps: Vec::new(), x_offset: 0, y_offset: 0, tile_size: 10 }
}

/// A world of one 3 x 3 map whose middle tile is a wall.
fn walled_world() -> World {
    let mut world = empty_world();
    world.add_tile_map(ORIGIN).set(1, 1, 1);
    world
}

fn at(world: &World, key: TileMapKey, tile: (usize, usize), offset: (i64, i64)) -> WorldCoordinate {
    WorldCoordinate::new(
        world,
        key,
        TileMapCoordinate::at_x_y_offset(tile.0, tile.1, Point2d::from_x_y(offset.0, offset.1)),
    )
}

#[test]
fn test_tile_map_new_is_open_ground() {
    let map = TileMap::new(2, 3);
    assert_eq!(2, map.rows());
    assert_eq!(3, map.columns());
    assert_eq!(6, map.tiles.len());
    for row in 0..2 {
        for column in 0..3 {
            assert_eq!(Some(0), map.get(row, column));
        }
    }
}

#[test]
fn test_tile_map_is_row_major() {
    let mut map = TileMap::new(2, 3);
    map.set(1, 2, 7);
    map.set(0, 1, 5);
    assert_eq!(vec![0, 5, 0, 0, 0, 7], map.tiles);
    assert_eq!(Some(7), map.get(1, 2));
    assert_eq!(Some(5), map.get(0, 1));
    assert_eq!(Some(0), map.get(0, 0));
}

#[test]
fn test_tile_map_get_outside_storage() {
    let map = TileMap::new(2, 3);
    assert_eq!(None, map.get(2, 0));
    assert_eq!(None, map.get(1, 3));
    assert_eq!(None, map.get(usize::MAX, usize::MAX));
    assert_eq!(None, map.get(usize::MAX, 0));
    assert_eq!(None, TileMap::new(0, 0).get(0, 0));
}

#[test]
fn test_world_getters() {
    let world = World { rows: 9, columns: 17, tile_maps: Vec::new(), x_offset: 1, y_offset: 2, tile_size: 5 };
    assert_eq!(9, world.rows());
    assert_eq!(17, world.columns());
    assert_eq!(5, world.tile_size());
    assert_eq!(9, World::TILE_ROWS);
    assert_eq!(17, World::TILE_COLUMNS);
    assert!(world.is_well_formed());
    assert!(!World { tile_size: 0, ..empty_world() }.is_well_formed());
    assert!(!World { rows: 0, ..empty_world() }.is_well_formed());
    assert!(!World { columns: 40_000, ..empty_world() }.is_well_formed());
}

#[test]
fn test_add_tile_map_adds_open_ground_once() {
    let mut world = empty_world();
    assert!(world.get_tile_map(ORIGIN).is_none());
    {
        let map = world.add_tile_map(ORIGIN);
        assert_eq!(3, map.rows());
        assert_eq!(3, map.columns());
        assert_eq!(vec![0; 9], map.tiles);
        map.set(2, 0, 4);
    }
    // Adding the key again hands out the map that is there.
    assert_eq!(Some(4), world.add_tile_map(ORIGIN).get(2, 0));
    assert_eq!(1, world.tile_maps.len());
    world.add_tile_map(TileMapKey { x: 0, y: 1 });
    assert_eq!(2, world.tile_maps.len());
    assert_eq!(Some(4), world.get_tile_map(ORIGIN).unwrap().get(2, 0));
    assert_eq!(Some(0), world.get_tile_map(TileMapKey { x: 0, y: 1 }).unwrap().get(2, 0));
    assert!(world.get_tile_map(TileMapKey { x: 1, y: 0 }).is_none());
    assert_eq!(0, world.position_of(ORIGIN));
    assert_eq!(1, world.position_of(TileMapKey { x: 0, y: 1 }));
    assert_eq!(2, world.position_of(TileMapKey { x: 1, y: 1 }));
}

#[test]
fn test_missing_tile_map_is_not_traversable() {
    let world = walled_world();
    let bounds = Rectangle::new(0, 0, 2, 2);
    let elsewhere = at(&world, TileMapKey { x: 5, y: 5 }, (0, 0), (1, 1));
    assert!(!world.is_traversable(&elsewhere, bounds));
    assert!(!world.is_traversable_coordinate(&elsewhere));
    let nowhere = empty_world();
    assert!(!nowhere.is_traversable(&at(&nowhere, ORIGIN, (0, 0), (1, 1)), bounds));
}

#[test]
fn test_open_ground_is_traversable() {
    let world = walled_world();
    let bounds = Rectangle::new(0, 0, 2, 2);
    assert!(world.is_traversable(&at(&world, ORIGIN, (0, 0), (1, 1)), bounds));
    assert!(world.is_traversable(&at(&world, ORIGIN, (2, 2), (0, 0)), bounds));
    assert!(world.is_traversable_coordinate(&at(&world, ORIGIN, (0, 1), (0, 0))));
}

#[test]
fn test_wall_under_any_corner_blocks() {
    let world = walled_world();
    let bounds = Rectangle::new(0, 0, 4, 4);
    // Lower left corner in the wall.
    assert!(!world.is_traversable(&at(&world, ORIGIN, (1, 1), (5, 5)), bounds));
    // Upper left corner in the wall.
    assert!(!world.is_traversable(&at(&world, ORIGIN, (1, 0), (5, 8)), bounds));
    // Lower right corner in the wall.
    assert!(!world.is_traversable(&at(&world, ORIGIN, (0, 1), (8, 5)), bounds));
    // Upper right corner in the wall.
    assert!(!world.is_traversable(&at(&world, ORIGIN, (0, 0), (8, 8)), bounds));
    // Just short of the wall.
    assert!(world.is_traversable(&at(&world, ORIGIN, (0, 0), (5, 5)), bounds));
    assert!(!world.is_traversable_coordinate(&at(&world, ORIGIN, (1, 1), (0, 0))));
}

#[test]
fn test_corner_in_missing_neighbour_blocks() {
    let mut world = walled_world();
    let bounds = Rectangle::new(0, 0, 4, 4);
    let near_seam = at(&world, ORIGIN, (2, 0), (8, 0));
    assert!(!world.is_traversable(&near_seam, bounds));
    world.add_tile_map(TileMapKey { x: 1, y: 0 });
    assert!(world.is_traversable(&near_seam, bounds));
    world.add_tile_map(TileMapKey { x: 1, y: 0 }).set(0, 0, 1);
    assert!(!world.is_traversable(&near_seam, bounds));
}

#[test]
fn test_corner_that_cannot_be_named_blocks() {
    let mut world = empty_world();
    let key = TileMapKey { x: isize::MAX - 1, y: 0 };
    world.add_tile_map(key);
    let bounds = Rectangle::new(0, 0, 4, 4);
    assert!(world.is_traversable(&at(&world, key, (2, 0), (5, 0)), bounds));
    assert!(!world.is_traversable(&at(&world, key, (2, 0), (8, 0)), bounds));
}

#[test]
fn test_get_tile_x_y() {
    let world = World { rows: 3, columns: 4, ..empty_world() };
    assert_eq!((0, 0), world.get_tile_x_y(Point2d::from_x_y(0, 0)));
    assert_eq!((1, 2), world.get_tile_x_y(Point2d::from_x_y(19, 20)));
    assert_eq!((3, 2), world.get_tile_x_y(Point2d::from_x_y(39, 29)));
    // Points outside the map are given the nearest tile.
    assert_eq!((3, 2), world.get_tile_x_y(Point2d::from_x_y(40, 30)));
    assert_eq!((3, 2), world.get_tile_x_y(Point2d::from_x_y(i64::MAX, i64::MAX)));
    assert_eq!((0, 0), world.get_tile_x_y(Point2d::from_x_y(-1, -15)));
    assert_eq!((0, 0), world.get_tile_x_y(Point2d::from_x_y(i64::MIN, i64::MIN)));
    assert_eq!(2, World::tile_on_axis(25, 10, 4));
}

#[test]
fn test_get_tile_map_coordinate() {
    let world = World { rows: 3, columns: 4, ..empty_world() };
    let coordinate = world.get_tile_map_coordinate(Point2d::from_x_y(19, 20));
    assert_eq!((1, 2), (coordinate.x(), coordinate.y()));
    assert_eq!((9, 0), (coordinate.offset().x(), coordinate.offset().y()));
    // Outside the map the offset is what is left beyond the nearest tile.
    let coordinate = world.get_tile_map_coordinate(Point2d::from_x_y(47, -3));
    assert_eq!((3, 0), (coordinate.x(), coordinate.y()));
    assert_eq!((17, -3), (coordinate.offset().x(), coordinate.offset().y()));
}
