//! The five tile maps of the game and how they are put into the world.

use crate::application_plugin::ApplicationPlugin;
use crate::game_state::GameState;
use crate::point_2d::Point2d;
use crate::tile_map::TileMap;
use crate::tile_map_coordinate::TileMapCoordinate;
use crate::tile_map_key::TileMapKey;
use crate::units::{from_pixels, pixels_to_units};
use crate::world::World;
use crate::world_coordinate::WorldCoordinate;
use vstd::prelude::*;

verus! {

/// The map below the origin, as drawn: the first row is the top row.
pub const SOURCE_SOUTH: [u32; 153] = [
    1, 1, 1, 1, 1, 1, 1, 0, 0, 0, 1, 1, 1, 1, 1, 1, 1,
    1, 0, 0, 0, 0, 0, 0, 0, 0, 0, 0, 0, 0, 0, 0, 0, 1,
    1, 0, 0, 0, 1, 0, 0, 0, 0, 0, 0, 0, 0, 0, 0, 0, 1,
    1, 0, 0, 1, 1, 1, 0, 0, 0, 0, 0, 0, 0, 0, 0, 0, 1,
    1, 0, 1, 0, 1, 0, 1, 0, 0, 0, 0, 0, 0, 0, 0, 0, 1,
    1, 0, 0, 0, 1, 0, 0, 0, 0, 0, 0, 0, 0, 0, 0, 0, 1,
    1, 0, 0, 0, 1, 0, 0, 0, 0, 0, 0, 0, 0, 0, 0, 0, 1,
    1, 0, 0, 0, 0, 0, 0, 0, 0, 0, 0, 0, 0, 0, 0, 0, 1,
    1, 1, 1, 1, 1, 1, 1, 1, 1, 1, 1, 1, 1, 1, 1, 1, 1,
];

/// The map at the origin, as drawn: the first row is the top row.
pub const SOURCE_HUB: [u32; 153] = [
    1, 1, 1, 1, 1, 1, 1, 0, 0, 0, 1, 1, 1, 1, 1, 1, 1,
    1, 0, 0, 0, 0, 0, 0, 0, 0, 0, 0, 0, 0, 0, 0, 0, 1,
    1, 0, 0, 0, 0, 0, 0, 0, 0, 0, 0, 0, 0, 0, 0, 0, 1,
    0, 0, 0, 0, 0, 0, 0, 0, 0, 0, 0, 0, 0, 0, 0, 0, 0,
    0, 0, 0, 0, 0, 0, 0, 0, 0, 0, 0, 0, 0, 0, 0, 0, 0,
    0, 0, 0, 0, 0, 0, 0, 0, 0, 0, 0, 0, 0, 0, 0, 0, 0,
    1, 0, 0, 0, 0, 0, 0, 0, 0, 0, 0, 0, 0, 0, 0, 0, 1,
    1, 0, 0, 0, 0, 0, 0, 0, 0, 0, 0, 0, 0, 0, 0, 0, 1,
    1, 1, 1, 1, 1, 1, 1, 0, 0, 0, 1, 1, 1, 1, 1, 1, 1,
];

/// The map left of the origin, as drawn: the first row is the top row.
pub const SOURCE_WEST: [u32; 153] = [
    1, 1, 1, 1, 1, 1, 1, 1, 1, 1, 1, 1, 1, 1, 1, 1, 1,
    1, 0, 0, 0, 0, 0, 0, 0, 0, 0, 0, 0, 0, 0, 0, 0, 1,
    1, 0, 0, 0, 1, 0, 0, 0, 0, 0, 0, 0, 0, 0, 0, 0, 1,
    1, 0, 0, 0, 0, 1, 0, 0, 0, 0, 0, 0, 0, 0, 0, 0, 0,
    1, 0, 1, 1, 1, 1, 1, 0, 0, 0, 0, 0, 0, 0, 0, 0, 0,
    1, 0, 0, 0, 0, 1, 0, 0, 0, 0, 0, 0, 0, 0, 0, 0, 0,
    1, 0, 0, 0, 1, 0, 0, 0, 0, 0, 0, 0, 0, 0, 0, 0, 1,
    1, 0, 0, 0, 0, 0, 0, 0, 0, 0, 0, 0, 0, 0, 0, 0, 1,
    1, 1, 1, 1, 1, 1, 1, 1, 1, 1, 1, 1, 1, 1, 1, 1, 1,
];

/// The map right of the origin, as drawn: the first row is the top row.
pub const SOURCE_EAST: [u32; 153] = [
    1, 1, 1, 1, 1, 1, 1, 1, 1, 1, 1, 1, 1, 1, 1, 1, 1,
    1, 0, 0, 0, 0, 0, 0, 0, 0, 0, 0, 0, 0, 0, 0, 0, 1,
    1, 0, 0, 0, 0, 0, 0, 0, 0, 0, 0, 0, 1, 0, 0, 0, 1,
    0, 0, 0, 0, 0, 0, 0, 0, 0, 0, 0, 1, 0, 0, 0, 0, 1,
    0, 0, 0, 0, 0, 0, 0, 0, 0, 0, 1, 1, 1, 1, 1, 0, 1,
    0, 0, 0, 0, 0, 0, 0, 0, 0, 0, 0, 1, 0, 0, 0, 0, 1,
    1, 0, 0, 0, 0, 0, 0, 0, 0, 0, 0, 0, 1, 0, 0, 0, 1,
    1, 0, 0, 0, 0, 0, 0, 0, 0, 0, 0, 0, 0, 0, 0, 0, 1,
    1, 1, 1, 1, 1, 1, 1, 1, 1, 1, 1, 1, 1, 1, 1, 1, 1,
];

/// The map above the origin, as drawn: the first row is the top row.
pub const SOURCE_NORTH: [u32; 153] = [
    1, 1, 1, 1, 1, 1, 1, 1, 1, 1, 1, 1, 1, 1, 1, 1, 1,
    1, 0, 0, 0, 0, 0, 0, 0, 0, 0, 0, 0, 0, 0, 0, 0, 1,
    1, 0, 0, 0, 1, 0, 0, 0, 0, 0, 0, 0, 0, 0, 0, 0, 1,
    1, 0, 0, 0, 1, 0, 0, 0, 0, 0, 0, 0, 0, 0, 0, 0, 1,
    1, 0, 1, 0, 1, 0, 1, 0, 0, 0, 0, 0, 0, 0, 0, 0, 1,
    1, 0, 0, 1, 1, 1, 0, 0, 0, 0, 0, 0, 0, 0, 0, 0, 1,
    1, 0, 0, 0, 1, 0, 0, 0, 0, 0, 0, 0, 0, 0, 0, 0, 1,
    1, 0, 0, 0, 0, 0, 0, 0, 0, 0, 0, 0, 0, 0, 0, 0, 1,
    1, 1, 1, 1, 1, 1, 1, 0, 0, 0, 1, 1, 1, 1, 1, 1, 1,
];

/// The key of the map at the origin.
pub open spec fn hub_key() -> TileMapKey {
    TileMapKey { x: 0, y: 0 }
}

/// The key of the map below the origin.
pub open spec fn south_key() -> TileMapKey {
    TileMapKey { x: 0, y: -1isize }
}

/// The key of the map left of the origin.
pub open spec fn west_key() -> TileMapKey {
    TileMapKey { x: -1isize, y: 0 }
}

/// The key of the map right of the origin.
pub open spec fn east_key() -> TileMapKey {
    TileMapKey { x: 1, y: 0 }
}

/// The key of the map above the origin.
pub open spec fn north_key() -> TileMapKey {
    TileMapKey { x: 0, y: 1 }
}

/// The tiles of a map drawn as `source`, stored with the rows in the
/// opposite order: the world counts rows from the bottom up, a drawing from
/// the top down.
pub open spec fn flipped(source: Seq<u32>, row_count: int, column_count: int) -> Seq<u32> {
    Seq::new(
        (row_count * column_count) as nat,
        |index: int|
            source[(row_count - 1 - index / column_count) * column_count + index % column_count],
    )
}

/// Whether `map` is the map drawn as `source`.
pub open spec fn is_level(map: Option<TileMap>, source: Seq<u32>) -> bool {
    match map {
        Some(map) => map.rows == World::TILE_ROWS && map.columns == World::TILE_COLUMNS
            && map.tiles@ == flipped(
            source,
            World::TILE_ROWS as int,
            World::TILE_COLUMNS as int,
        ),
        None => false,
    }
}

/// The point, in world units from the lower left corner of a map, that the
/// player is put at when the game starts: half the picture up, and half the
/// picture plus a third of the width of the player to the right.
pub open spec fn starting_point(state: GameState) -> Point2d<i64> {
    Point2d {
        x: (pixels_to_units(state.width as int) / 2 + state.player.width / 3) as i64,
        y: (pixels_to_units(state.height as int) / 2) as i64,
    }
}

/// Where the player is put when the game starts: in the map it is in, on the
/// tile that the starting point falls in, or the nearest tile of the map, and
/// as far from the lower left corner of that tile as the starting point is.
pub open spec fn starting_coordinate(state: GameState) -> WorldCoordinate {
    let point = starting_point(state);
    let tile_x = World::tile_along(
        point.x as int,
        state.world.tile_size as int,
        state.world.columns as int,
    );
    let tile_y = World::tile_along(
        point.y as int,
        state.world.tile_size as int,
        state.world.rows as int,
    );
    WorldCoordinate {
        tile_map_key: state.player.coordinate.tile_map_key,
        tile_map_coordinate: TileMapCoordinate {
            x: tile_x as usize,
            y: tile_y as usize,
            offset: Point2d {
                x: (point.x - tile_x * state.world.tile_size) as i64,
                y: (point.y - tile_y * state.world.tile_size) as i64,
            },
        },
        tile_size: state.world.tile_size,
        rows: state.world.rows,
        columns: state.world.columns,
    }
}

/// Whether the five maps of the game, and no others, are part of the world.
pub open spec fn holds_the_levels(world: World) -> bool {
    &&& is_level(world.tile_map(hub_key()), SOURCE_HUB@)
    &&& is_level(world.tile_map(south_key()), SOURCE_SOUTH@)
    &&& is_level(world.tile_map(west_key()), SOURCE_WEST@)
    &&& is_level(world.tile_map(east_key()), SOURCE_EAST@)
    &&& is_level(world.tile_map(north_key()), SOURCE_NORTH@)
    &&& forall|other: TileMapKey|
        other != hub_key() && other != south_key() && other != west_key() && other != east_key()
            && other != north_key() ==> #[trigger] world.tile_map(other) is None
}

impl ApplicationPlugin {
    /// Starts the game: puts the player near the middle of the picture and
    /// the five maps into the world.
    pub fn initialize_direct(state: &mut GameState)
        requires
            old(state).wf(),
            old(state).world.rows == World::TILE_ROWS,
            old(state).world.columns == World::TILE_COLUMNS,
            old(state).world.tile_maps@.len() == 0,
        ensures
            final(state).player.coordinate == starting_coordinate(*old(state)),
            final(state).player.height == old(state).player.height,
            final(state).player.width == old(state).player.width,
            final(state).player.color == old(state).player.color,
            holds_the_levels(final(state).world),
            final(state).world.rows == old(state).world.rows,
            final(state).world.columns == old(state).world.columns,
            final(state).world.tile_size == old(state).world.tile_size,
            final(state).world.x_offset == old(state).world.x_offset,
            final(state).world.y_offset == old(state).world.y_offset,
            final(state).sound == old(state).sound,
            final(state).width == old(state).width,
            final(state).height == old(state).height,
            final(state).frame_duration == old(state).frame_duration,
            final(state).player.coordinate.wf() ==> final(state).wf(),
    {
        // Put the player somewhere in the middle
        let width = from_pixels(state.width() as i64);
        let height = from_pixels(state.height() as i64);
        let x = width / 2 + state.player().render_bounds().width() / 3;
        let y = height / 2;
        let tile_map_coordinates = state.world().get_tile_map_coordinate(Point2d::from_x_y(x, y));
        let new_coordinates = WorldCoordinate::new(
            state.world(),
            state.player().tile_map_key(),
            tile_map_coordinates,
        );
        state.player.set_coordinates(new_coordinates);

        // Load the world tile maps
        let hub = state.world.add_tile_map(TileMapKey { x: 0, y: 0 });
        Self::load_hub_tile_map(hub);
        let south = state.world.add_tile_map(TileMapKey { x: 0, y: -1 });
        Self::load_south_tile_map(south);
        let west = state.world.add_tile_map(TileMapKey { x: -1, y: 0 });
        Self::load_west_tile_map(west);
        let east = state.world.add_tile_map(TileMapKey { x: 1, y: 0 });
        Self::load_east_tile_map(east);
        let north = state.world.add_tile_map(TileMapKey { x: 0, y: 1 });
        Self::load_north_tile_map(north);
    }

    /// Fills `south` with the map that lies below the origin.
    pub fn load_south_tile_map(south: &mut TileMap)
        requires
            old(south).wf(),
            old(south).rows == World::TILE_ROWS,
            old(south).columns == World::TILE_COLUMNS,
        ensures
            is_level(Some(*final(south)), SOURCE_SOUTH@),
    {
        let source_south = SOURCE_SOUTH;
        Self::load_tile_map(
            south,
            source_south.as_slice(),
            World::TILE_ROWS,
            World::TILE_COLUMNS,
        );
    }

    /// Fills `hub` with the map that lies at the origin.
    pub fn load_hub_tile_map(hub: &mut TileMap)
        requires
            old(hub).wf(),
            old(hub).rows == World::TILE_ROWS,
            old(hub).columns == World::TILE_COLUMNS,
        ensures
            is_level(Some(*final(hub)), SOURCE_HUB@),
    {
        let source_hub = SOURCE_HUB;
        Self::load_tile_map(
            hub,
            source_hub.as_slice(),
            World::TILE_ROWS,
            World::TILE_COLUMNS,
        );
    }

    /// Fills `west` with the map that lies left of the origin.
    pub fn load_west_tile_map(west: &mut TileMap)
        requires
            old(west).wf(),
            old(west).rows == World::TILE_ROWS,
            old(west).columns == World::TILE_COLUMNS,
        ensures
            is_level(Some(*final(west)), SOURCE_WEST@),
    {
        let source_west = SOURCE_WEST;
        Self::load_tile_map(
            west,
            source_west.as_slice(),
            World::TILE_ROWS,
            World::TILE_COLUMNS,
        );
    }

    /// Fills `east` with the map that lies right of the origin.
    pub fn load_east_tile_map(east: &mut TileMap)
        requires
            old(east).wf(),
            old(east).rows == World::TILE_ROWS,
            old(east).columns == World::TILE_COLUMNS,
        ensures
            is_level(Some(*final(east)), SOURCE_EAST@),
    {
        let source_east = SOURCE_EAST;
        Self::load_tile_map(
            east,
            source_east.as_slice(),
            World::TILE_ROWS,
            World::TILE_COLUMNS,
        );
    }

    /// Fills `north` with the map that lies above the origin.
    pub fn load_north_tile_map(north: &mut TileMap)
        requires
            old(north).wf(),
            old(north).rows == World::TILE_ROWS,
            old(north).columns == World::TILE_COLUMNS,
        ensures
            is_level(Some(*final(north)), SOURCE_NORTH@),
    {
        let source_north = SOURCE_NORTH;
        Self::load_tile_map(
            north,
            source_north.as_slice(),
            World::TILE_ROWS,
            World::TILE_COLUMNS,
        );
    }

    /// Copies a drawing of a map into `destination`, the last row of the
    /// drawing first: row zero of a map is its bottom row.
    pub fn load_tile_map(
        destination: &mut TileMap,
        source: &[u32],
        row_count: usize,
        column_count: usize,
    )
        requires
            old(destination).wf(),
            old(destination).rows == row_count,
            old(destination).columns == column_count,
            source@.len() == row_count * column_count,
        ensures
            final(destination).wf(),
            final(destination).rows == row_count,
            final(destination).columns == column_count,
            final(destination).tiles@ == flipped(source@, row_count as int, column_count as int),
    {
        let mut index: usize = 0;
        let mut row_index: usize = 0;
        proof {
            vstd::arithmetic::mul::lemma_mul_basics(column_count as int);
        }
        while row_index < row_count
            invariant
                destination.wf(),
                destination.rows == row_count,
                destination.columns == column_count,
                source@.len() == row_count * column_count,
                row_index <= row_count,
                index == row_index * column_count,
                forall|row: int, column: int|
                    0 <= row < row_index && 0 <= column < column_count
                        ==> #[trigger] destination.tiles@[(row_count - 1 - row) * column_count
                        + column] == source@[row * column_count + column],
            decreases row_count - row_index,
        {
            let mut column_index: usize = 0;
            let destination_row_index = row_count - row_index - 1;
            proof {
                assert((row_index + 1) * column_count <= row_count * column_count)
                    by (nonlinear_arith)
                    requires
                        row_index + 1 <= row_count,
                        column_count >= 0,
                ;
                assert((row_index + 1) * column_count == row_index * column_count + column_count)
                    by (nonlinear_arith);
                assert((destination_row_index + 1) * column_count <= row_count * column_count)
                    by (nonlinear_arith)
                    requires
                        destination_row_index + 1 <= row_count,
                        column_count >= 0,
                ;
                assert((destination_row_index + 1) * column_count == destination_row_index
                    * column_count + column_count) by (nonlinear_arith);
                vstd::arithmetic::mul::lemma_mul_nonnegative(
                    destination_row_index as int,
                    column_count as int,
                );
            }
            while column_index < column_count
                invariant
                    destination.wf(),
                    destination.rows == row_count,
                    destination.columns == column_count,
                    source@.len() == row_count * column_count,
                    row_index < row_count,
                    destination_row_index == row_count - row_index - 1,
                    column_index <= column_count,
                    index == row_index * column_count + column_index,
                    row_index * column_count + column_count <= row_count * column_count,
                    0 <= destination_row_index * column_count,
                    destination_row_index * column_count + column_count <= row_count
                        * column_count,
                    forall|row: int, column: int|
                        0 <= row < row_index && 0 <= column < column_count
                            ==> #[trigger] destination.tiles@[(row_count - 1 - row) * column_count
                            + column] == source@[row * column_count + column],
                    forall|column: int|
                        0 <= column < column_index ==> #[trigger] destination.tiles@[(row_count
                            - 1 - row_index) * column_count + column] == source@[row_index
                            * column_count + column],
                decreases column_count - column_index,
            {
                let value = source[index];
                let ghost earlier = destination.tiles@;
                destination.set(destination_row_index, column_index, value);
                proof {
                    assert forall|row: int, column: int|
                        0 <= row < row_index && 0 <= column < column_count
                        implies #[trigger] destination.tiles@[(row_count - 1 - row) * column_count
                        + column] == source@[row * column_count + column] by {
                        crate::render::lemma_row_column(
                            row_count - 1 - row,
                            column,
                            column_count as int,
                            destination_row_index * column_count + column_index,
                        );
                        crate::render::lemma_row_column(
                            destination_row_index as int,
                            column_index as int,
                            column_count as int,
                            destination_row_index * column_count + column_index,
                        );
                        assert(earlier[(row_count - 1 - row) * column_count + column]
                            == source@[row * column_count + column]);
                        assert(0 <= (row_count - 1 - row) * column_count + column < row_count
                            * column_count) by (nonlinear_arith)
                            requires
                                0 <= row_count - 1 - row < row_count,
                                0 <= column < column_count,
                        ;
                    }
                    assert forall|column: int| 0 <= column < column_index + 1
                        implies #[trigger] destination.tiles@[(row_count - 1 - row_index)
                        * column_count + column] == source@[row_index * column_count
                        + column] by {
                        if column < column_index {
                            assert(earlier[(row_count - 1 - row_index) * column_count + column]
                                == source@[row_index * column_count + column]);
                        }
                    }
                }
                index += 1;
                column_index += 1;
            }
            row_index += 1;
        }
        proof {
            let rows = row_count as int;
            let columns = column_count as int;
            assert forall|place: int| 0 <= place < rows * columns
                implies #[trigger] destination.tiles@[place] == flipped(source@, rows, columns)[place] by {
                let row = place / columns;
                let column = place % columns;
                assert(columns > 0) by (nonlinear_arith)
                    requires
                        0 <= place < rows * columns,
                        columns >= 0,
                ;
                vstd::arithmetic::div_mod::lemma_fundamental_div_mod(place, columns);
                vstd::arithmetic::div_mod::lemma_mod_bound(place, columns);
                assert(0 <= row < rows) by (nonlinear_arith)
                    requires
                        0 <= place < rows * columns,
                        place == columns * row + column,
                        0 <= column < columns,
                ;
                let drawn = rows - 1 - row;
                assert(destination.tiles@[(rows - 1 - drawn) * columns + column]
                    == source@[drawn * columns + column]);
                assert((rows - 1 - drawn) * columns + column == place) by (nonlinear_arith)
                    requires
                        drawn == rows - 1 - row,
                        place == columns * row + column,
                ;
            }
            assert(destination.tiles@ =~= flipped(source@, rows, columns));
        }
    }
}

} // verus!
