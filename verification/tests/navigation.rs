use handmade_hero::navigation::{Direction, FixedWorld, ScreenRectangle, TileMapId};

fn world(current: TileMapId) -> FixedWorld {
    FixedWorld { current_tile_map_id: current, width: 960, height: 540 }
}

fn edges(rectangle: &ScreenRectangle) -> (i64, i64, i64, i64) {
    (rectangle.top, rectangle.left, rectangle.bottom, rectangle.right)
}

#[test]
fn test_screen_rectangle_new() {
    let rectangle = ScreenRectangle::new(5, 7, 10, 20);
    assert_eq!((5, 7, 15, 27), edges(&rectangle));
}

#[test]
fn test_hub_has_a_neighbour_on_every_side() {
    let hub = world(TileMapId::Hub);
    assert_eq!(Some(TileMapId::North), hub.neighbor(Direction::North));
    assert_eq!(Some(TileMapId::South), hub.neighbor(Direction::South));
    assert_eq!(Some(TileMapId::West), hub.neighbor(Direction::West));
    assert_eq!(Some(TileMapId::East), hub.neighbor(Direction::East));
}

#[test]
fn test_outer_maps_lead_back_to_the_hub_only() {
    for (map, back) in [
        (TileMapId::North, Direction::South),
        (TileMapId::South, Direction::North),
        (TileMapId::West, Direction::East),
        (TileMapId::East, Direction::West),
    ] {
        for direction in [Direction::North, Direction::South, Direction::West, Direction::East] {
            let expected = if direction == back { Some(TileMapId::Hub) } else { None };
            assert_eq!(expected, world(map).neighbor(direction));
        }
    }
}

#[test]
fn test_moving_north_from_the_hub_crosses_the_seam() {
    let mut world = world(TileMapId::Hub);
    // The top edge of the player lies on the upper edge of the screen.
    let player = ScreenRectangle::new(0, 100, 20, 10);
    let moved = world.move_player(player, 0, -1);
    assert_eq!(TileMapId::North, world.current_tile_map_id);
    // The player enters through the opposite edge: its bottom edge lies on
    // the lower edge of the new screen, where it was from left to right.
    assert_eq!(540, moved.bottom);
    assert_eq!(520, moved.top);
    assert_eq!(100, moved.left);
    assert_eq!(110, moved.right);
}

#[test]
fn test_try_navigate_north_from_the_hub() {
    let mut world = world(TileMapId::Hub);
    let player = ScreenRectangle::new(0, 100, 20, 10);
    let entered = world.try_navigate_north(player).unwrap();
    assert_eq!(TileMapId::North, world.current_tile_map_id);
    assert_eq!((520, 100, 540, 110), edges(&entered));
}

#[test]
fn test_try_navigate_in_each_direction() {
    let player = ScreenRectangle::new(200, 100, 20, 10);
    let mut south = world(TileMapId::Hub);
    assert_eq!((0, 100, 20, 110), edges(&south.try_navigate_south(player).unwrap()));
    assert_eq!(TileMapId::South, south.current_tile_map_id);
    let mut west = world(TileMapId::Hub);
    assert_eq!((200, 950, 220, 960), edges(&west.try_navigate_west(player).unwrap()));
    assert_eq!(TileMapId::West, west.current_tile_map_id);
    let mut east = world(TileMapId::Hub);
    assert_eq!((200, 0, 220, 10), edges(&east.try_navigate_east(player).unwrap()));
    assert_eq!(TileMapId::East, east.current_tile_map_id);
    let mut back = world(TileMapId::East);
    assert_eq!((200, 950, 220, 960), edges(&back.try_navigate(Direction::West, player).unwrap()));
    assert_eq!(TileMapId::Hub, back.current_tile_map_id);
}

#[test]
fn test_try_navigate_without_neighbour_changes_nothing() {
    let player = ScreenRectangle::new(200, 100, 20, 10);
    let mut north = world(TileMapId::North);
    assert_eq!(None, north.try_navigate_north(player));
    assert_eq!(None, north.try_navigate_west(player));
    assert_eq!(None, north.try_navigate_east(player));
    assert_eq!(TileMapId::North, north.current_tile_map_id);
    let mut east = world(TileMapId::East);
    assert_eq!(None, east.try_navigate_east(player));
    let mut south = world(TileMapId::South);
    assert_eq!(None, south.try_navigate_south(player));
    assert_eq!(TileMapId::South, south.current_tile_map_id);
}

#[test]
fn test_move_inside_the_screen() {
    let mut world = world(TileMapId::West);
    let moved = world.move_player(ScreenRectangle::new(200, 100, 20, 10), 5, -7);
    assert_eq!((193, 105, 213, 115), edges(&moved));
    assert_eq!(TileMapId::West, world.current_tile_map_id);
    // Touching an edge is not leaving.
    let moved = world.move_player(ScreenRectangle::new(1, 1, 20, 10), -1, -1);
    assert_eq!((0, 0, 20, 10), edges(&moved));
    let moved = world.move_player(ScreenRectangle::new(519, 949, 20, 10), 1, 1);
    assert_eq!((520, 950, 540, 960), edges(&moved));
    assert_eq!(TileMapId::West, world.current_tile_map_id);
}

#[test]
fn test_move_is_held_at_the_edge_of_the_world() {
    let mut world = world(TileMapId::North);
    let moved = world.move_player(ScreenRectangle::new(3, 100, 20, 10), 0, -5);
    assert_eq!(TileMapId::North, world.current_tile_map_id);
    // Each edge is held on its own.
    assert_eq!((0, 100, 18, 110), edges(&moved));
    let moved = world.move_player(ScreenRectangle::new(200, 955, 20, 10), 9, 0);
    assert_eq!((200, 960, 220, 960), edges(&moved));
    assert_eq!(TileMapId::North, world.current_tile_map_id);
}

#[test]
fn test_move_there_and_back() {
    let mut world = world(TileMapId::Hub);
    let moved = world.move_player(ScreenRectangle::new(530, 100, 20, 10), 0, 1);
    assert_eq!(TileMapId::South, world.current_tile_map_id);
    assert_eq!((0, 100, 20, 110), edges(&moved));
    let moved = world.move_player(moved, 0, -1);
    assert_eq!(TileMapId::Hub, world.current_tile_map_id);
    assert_eq!((520, 100, 540, 110), edges(&moved));
}

#[test]
fn test_vertical_seam_is_taken_before_horizontal() {
    // Through the upper left corner of the hub: north wins.
    let mut hub = world(TileMapId::Hub);
    let moved = hub.move_player(ScreenRectangle::new(0, 0, 20, 10), -1, -1);
    assert_eq!(TileMapId::North, hub.current_tile_map_id);
    assert_eq!((520, -1, 540, 9), edges(&moved));
    // Through the lower right corner: south wins.
    let mut hub = world(TileMapId::Hub);
    let moved = hub.move_player(ScreenRectangle::new(520, 950, 20, 10), 1, 1);
    assert_eq!(TileMapId::South, hub.current_tile_map_id);
    assert_eq!((0, 951, 20, 961), edges(&moved));
    // From the west map there is nothing to the north: the player is held,
    // though the hub lies to the east.
    let mut west = world(TileMapId::West);
    let moved = west.move_player(ScreenRectangle::new(0, 950, 20, 10), 1, -1);
    assert_eq!(TileMapId::West, west.current_tile_map_id);
    assert_eq!((0, 951, 19, 960), edges(&moved));
}

#[test]
fn test_hold() {
    assert_eq!(5, FixedWorld::hold(5, 0, 10));
    assert_eq!(0, FixedWorld::hold(-5, 0, 10));
    assert_eq!(10, FixedWorld::hold(15, 0, 10));
}
