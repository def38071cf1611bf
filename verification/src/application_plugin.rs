//! The game itself: what one frame does to the state, the picture and the
//! sound.

use crate::application_error::{ApplicationError, ErrorKind};
use crate::color::Color;
use crate::game_state::GameState;
use crate::rectangle::Rectangle;
use crate::render::{
    lemma_row_column, painted_clipped, pitch_of, render_rectangle, window_fits,
};
use crate::tile_map_key::TileMapKey;
use crate::units::{from_pixels, nearest_pixel, pixels_to_units};
use crate::world::World;
use crate::world_coordinate::WorldCoordinate;
use vstd::prelude::*;

verus! {

/// The game. It holds nothing: all that lasts is kept in the `GameState`.
#[derive(Debug, Clone, Copy)]
pub struct ApplicationPlugin {}

/// The colour of the tile the player stands on and of tiles that no map
/// holds.
pub open spec fn black() -> Color {
    Color { red: 0x00, green: 0x00, blue: 0x00, alpha: 0 }
}

/// The colour of open ground.
pub open spec fn grey() -> Color {
    Color { red: 0xCC, green: 0xCC, blue: 0xCC, alpha: 0 }
}

/// The colour of walls.
pub open spec fn white() -> Color {
    Color { red: 0xFF, green: 0xFF, blue: 0xFF, alpha: 0 }
}

/// The map and tile, along one axis, that the picture starts at so that the
/// tile `tile` of the map `tile_map` comes to lie half a map into the picture.
pub open spec fn start_of(tile_map: int, tile: int, max_tile: int) -> (int, int) {
    let middle = max_tile / 2;
    if tile < middle {
        (tile_map - 1, max_tile - (middle - tile))
    } else {
        (tile_map, tile - middle)
    }
}

/// The map and tile reached `steps` tiles after `start`, for a start inside
/// its map and fewer steps than a map has tiles.
pub open spec fn advanced(start: (int, int), steps: int, max_tile: int) -> (int, int) {
    if start.1 + steps < max_tile {
        (start.0, start.1 + steps)
    } else {
        (start.0 + 1, start.1 + steps - max_tile)
    }
}

/// The colour that the tile `(tile_x, tile_y)` of the map `tile_map_key` is
/// drawn in: black under the player and where there is no such tile, grey for
/// open ground, white for a wall.
pub open spec fn tile_color(
    world: World,
    player_coordinate: WorldCoordinate,
    tile_map_key: TileMapKey,
    tile_x: int,
    tile_y: int,
) -> Color {
    match world.tile_map(tile_map_key) {
        Some(map) => match map.tile_at(tile_y, tile_x) {
            Some(tile) => if tile_map_key == player_coordinate.tile_map_key && tile_y
                == player_coordinate.tile_map_coordinate.y && tile_x
                == player_coordinate.tile_map_coordinate.x {
                black()
            } else if tile == 0 {
                grey()
            } else {
                white()
            },
            None => black(),
        },
        None => black(),
    }
}

/// The window of the picture of `state`: from the origin, as many pixels wide
/// and high as the picture.
pub open spec fn window_of(state: GameState) -> Rectangle<i64> {
    Rectangle {
        top: pixels_to_units(state.height as int) as i64,
        left: 0,
        bottom: 0,
        right: pixels_to_units(state.width as int) as i64,
    }
}

/// Where the cell in row `row` and column `column` of the picture is drawn.
/// Row zero is drawn lowest on the screen, where the vertical axis points
/// down; the whole picture is moved by the offsets of the world.
pub open spec fn cell_rectangle(state: GameState, row: int, column: int) -> Rectangle<i64> {
    let tile_size = state.world.tile_size as int;
    let left = column * tile_size + state.world.x_offset;
    let bottom = pixels_to_units(state.height as int) - (row + 1) * tile_size
        - state.world.y_offset;
    Rectangle {
        top: (bottom + tile_size) as i64,
        left: left as i64,
        bottom: bottom as i64,
        right: (left + tile_size) as i64,
    }
}

/// The colour of the cell in row `row` and column `column` of the picture.
pub open spec fn cell_color(state: GameState, row: int, column: int) -> Color {
    let coordinate = state.player.coordinate;
    let x = advanced(
        start_of(
            coordinate.tile_map_key.x as int,
            coordinate.tile_map_coordinate.x as int,
            state.world.columns as int,
        ),
        column,
        state.world.columns as int,
    );
    let y = advanced(
        start_of(
            coordinate.tile_map_key.y as int,
            coordinate.tile_map_coordinate.y as int,
            state.world.rows as int,
        ),
        row,
        state.world.rows as int,
    );
    tile_color(
        state.world,
        coordinate,
        TileMapKey { x: x.0 as isize, y: y.0 as isize },
        x.1,
        y.1,
    )
}

/// The buffer after the first `count` cells of the picture have been
/// painted, row by row from row zero and in each row from column zero.
pub open spec fn tiles_painted(
    state: GameState,
    window_bounds: Rectangle<i64>,
    buffer: Seq<Color>,
    count: nat,
) -> Seq<Color>
    decreases count,
{
    if count == 0 {
        buffer
    } else {
        let cell = count - 1;
        let row = cell / state.world.columns as int;
        let column = cell % state.world.columns as int;
        painted_clipped(
            tiles_painted(state, window_bounds, buffer, cell as nat),
            window_bounds,
            cell_rectangle(state, row, column),
            cell_color(state, row, column),
        )
    }
}

/// Where the player is drawn: half a map into the picture, moved like the
/// cells.
pub open spec fn player_rectangle(state: GameState) -> Rectangle<i64> {
    let bounds = state.player.drawn();
    let tile_size = state.world.tile_size as int;
    let left = bounds.left + (state.world.columns / 2) * tile_size + state.world.x_offset;
    let top = bounds.top + (state.world.rows / 2) * tile_size;
    let bottom = pixels_to_units(state.height as int) - top - state.world.y_offset;
    Rectangle {
        top: (bottom + bounds.extent_y()) as i64,
        left: left as i64,
        bottom: bottom as i64,
        right: (left + bounds.extent_x()) as i64,
    }
}

/// The window lies in the quarter of the plane where no coordinate is
/// negative, a buffer of `length` pixels holds every pixel of it, and its
/// upper edge has a pixel.
pub open spec fn window_is_screen(window_bounds: Rectangle<i64>, length: int) -> bool {
    &&& window_fits(window_bounds, length)
    &&& window_bounds.left >= 0
    &&& window_bounds.bottom >= 0
    &&& window_bounds.right >= 0
    &&& window_bounds.top >= 0
    &&& nearest_pixel(window_bounds.top as int) <= usize::MAX
}

/// Every rectangle clipped to a screen has a pixel form.
pub proof fn lemma_clipped_to_screen_has_pixels(
    window_bounds: Rectangle<i64>,
    length: int,
    rectangle: Rectangle<i64>,
)
    requires
        window_is_screen(window_bounds, length),
    ensures
        rectangle.bounded_by(window_bounds).rounded() is Ok,
{
}

/// The picture of `state` painted over `buffer`: the cells, where the map
/// under the player is part of the world, and over them the player.
pub open spec fn rendered(state: GameState, buffer: Seq<Color>) -> Seq<Color> {
    let window_bounds = window_of(state);
    let tiles = if state.world.tile_map(state.player.coordinate.tile_map_key) is Some {
        tiles_painted(
            state,
            window_bounds,
            buffer,
            (state.world.rows * state.world.columns) as nat,
        )
    } else {
        buffer
    };
    painted_clipped(tiles, window_bounds, player_rectangle(state), state.player.color)
}

impl ApplicationPlugin {
    /// Paints the picture of `state` into `buffer`.
    ///
    /// Where the map under the player is not part of the world, no cell is
    /// painted; the player is painted in either case.
    pub fn render_direct(state: &GameState, buffer: &mut [Color])
        requires
            state.drawable(),
            old(buffer)@.len() == state.width * state.height,
        ensures
            final(buffer)@ == rendered(*state, old(buffer)@),
    {
        let width = state.width();
        let height = state.height();
        let window_bounds = Rectangle::new(
            0,
            0,
            from_pixels(height as i64),
            from_pixels(width as i64),
        );
        proof {
            assert(window_bounds == window_of(*state));
            assert(pitch_of(window_bounds) == width);
            assert(nearest_pixel(window_bounds.right as int) == width);
            assert(nearest_pixel(window_bounds.top as int) == height);
            vstd::arithmetic::mul::lemma_mul_is_commutative(width as int, height as int);
            assert(window_is_screen(window_bounds, buffer@.len() as int));
        }
        // A frame is not given up over cells that cannot be painted.
        let _ = Self::render_tilemap(state, &window_bounds, buffer);
        let _ = Self::render_player(state, &window_bounds, buffer);
    }

    /// Paints the cells of the picture: one map wide and high, starting half
    /// a map to the left of and below the tile the player stands on, so that
    /// neighbouring maps show where they are part of the world.
    ///
    /// Fails with [`ErrorKind::MissingTileMap`], leaving the buffer as it is,
    /// where the map under the player is not part of the world.
    pub fn render_tilemap(
        state: &GameState,
        window_bounds: &Rectangle<i64>,
        buffer: &mut [Color],
    ) -> (result: Result<(), ApplicationError>)
        requires
            state.drawable(),
            window_is_screen(*window_bounds, old(buffer)@.len() as int),
        ensures
            final(buffer)@.len() == old(buffer)@.len(),
            (match state.world.tile_map(state.player.coordinate.tile_map_key) {
                Some(_) => result is Ok && final(buffer)@ == tiles_painted(
                    *state,
                    *window_bounds,
                    old(buffer)@,
                    (state.world.rows * state.world.columns) as nat,
                ),
                None => result == Err::<(), ApplicationError>(
                    ApplicationError { kind: ErrorKind::MissingTileMap },
                ) && final(buffer)@ == old(buffer)@,
            }),
    {
        let world = state.world();
        let player_coordinate = state.player().coordinate();
        if world.get_tile_map(player_coordinate.tile_map_key()).is_none() {
            return Err(ApplicationError::new(ErrorKind::MissingTileMap));
        }
        let tile_map_x = player_coordinate.tile_map_key().x();
        let tile_x = player_coordinate.tile_x();
        let tile_map_y = player_coordinate.tile_map_key().y();
        let tile_y = player_coordinate.tile_y();
        let (start_tile_map_x, start_tile_x) = Self::determine_start(
            tile_map_x,
            tile_x,
            world.columns(),
        );
        let (start_tile_map_y, start_tile_y) = Self::determine_start(
            tile_map_y,
            tile_y,
            world.rows(),
        );

        let ghost before = buffer@;
        let ghost start_x = (start_tile_map_x as int, start_tile_x as int);
        let ghost start_y = (start_tile_map_y as int, start_tile_y as int);
        let rows = world.rows;
        let columns = world.columns;
        let tile_size = world.tile_size;
        let screen_height = from_pixels(state.height() as i64);
        let mut tile_map_y = start_tile_map_y;
        let mut tile_y = start_tile_y;
        let mut row_index: usize = 0;
        proof {
            vstd::arithmetic::mul::lemma_mul_basics(columns as int);
        }
        while row_index < rows
            invariant
                state.drawable(),
                window_is_screen(*window_bounds, before.len() as int),
                buffer@.len() == before.len(),
                *world == state.world,
                *player_coordinate == state.player.coordinate,
                rows == state.world.rows,
                columns == state.world.columns,
                tile_size == state.world.tile_size,
                screen_height == pixels_to_units(state.height as int),
                row_index <= rows,
                start_x == start_of(
                    state.player.coordinate.tile_map_key.x as int,
                    state.player.coordinate.tile_map_coordinate.x as int,
                    columns as int,
                ),
                start_y == start_of(
                    state.player.coordinate.tile_map_key.y as int,
                    state.player.coordinate.tile_map_coordinate.y as int,
                    rows as int,
                ),
                start_x == (start_tile_map_x as int, start_tile_x as int),
                0 <= start_x.1 < columns,
                0 <= start_y.1 < rows,
                start_y.0 < isize::MAX,
                start_x.0 < isize::MAX,
                row_index < rows ==> (tile_map_y as int, tile_y as int) == advanced(
                    start_y,
                    row_index as int,
                    rows as int,
                ),
                row_index == rows ==> tile_map_y <= start_y.0 + 1 && tile_y <= rows,
                buffer@ == tiles_painted(
                    *state,
                    *window_bounds,
                    before,
                    (row_index * columns) as nat,
                ),
            decreases rows - row_index,
        {
            let mut tile_map_x = start_tile_map_x;
            let mut tile_x = start_tile_x;
            let mut column_index: usize = 0;
            proof {
                assert(row_index * columns + columns == (row_index + 1) * columns)
                    by (nonlinear_arith);
                assert((row_index + 1) * columns <= rows * columns) by (nonlinear_arith)
                    requires
                        row_index + 1 <= rows,
                        columns >= 0,
                ;
                assert(rows * columns <= 0x4000_0000) by (nonlinear_arith)
                    requires
                        0 <= rows <= 32768,
                        0 <= columns <= 32768,
                ;
                vstd::arithmetic::mul::lemma_mul_nonnegative(row_index as int, columns as int);
            }
            while column_index < columns
                invariant
                    state.drawable(),
                    window_is_screen(*window_bounds, before.len() as int),
                    buffer@.len() == before.len(),
                    *world == state.world,
                    *player_coordinate == state.player.coordinate,
                    rows == state.world.rows,
                    columns == state.world.columns,
                    tile_size == state.world.tile_size,
                    screen_height == pixels_to_units(state.height as int),
                    row_index < rows,
                    column_index <= columns,
                    0 <= row_index * columns,
                    row_index * columns + columns <= 0x4000_0000,
                    start_x == start_of(
                        state.player.coordinate.tile_map_key.x as int,
                        state.player.coordinate.tile_map_coordinate.x as int,
                        columns as int,
                    ),
                    start_y == start_of(
                        state.player.coordinate.tile_map_key.y as int,
                        state.player.coordinate.tile_map_coordinate.y as int,
                        rows as int,
                    ),
                    0 <= start_x.1 < columns,
                    start_x.0 < isize::MAX,
                    (tile_map_y as int, tile_y as int) == advanced(
                        start_y,
                        row_index as int,
                        rows as int,
                    ),
                    column_index < columns ==> (tile_map_x as int, tile_x as int) == advanced(
                        start_x,
                        column_index as int,
                        columns as int,
                    ),
                    column_index == columns ==> tile_map_x <= start_x.0 + 1 && tile_x <= columns,
                    buffer@ == tiles_painted(
                        *state,
                        *window_bounds,
                        before,
                        (row_index * columns + column_index) as nat,
                    ),
                decreases columns - column_index,
            {
                proof {
                    assert(0 <= column_index * tile_size <= 0x8000 * 0x8000_0000)
                        by (nonlinear_arith)
                        requires
                            0 <= column_index < 0x8000,
                            0 < tile_size <= 0x8000_0000,
                    ;
                    assert(0 <= row_index * tile_size <= 0x8000 * 0x8000_0000)
                        by (nonlinear_arith)
                        requires
                            0 <= row_index < 0x8000,
                            0 < tile_size <= 0x8000_0000,
                    ;
                    assert((row_index + 1) * tile_size == row_index * tile_size + tile_size)
                        by (nonlinear_arith);
                }
                let left = column_index as i64 * tile_size;
                let bottom = row_index as i64 * tile_size;
                let tile_rectangle = Rectangle::new(bottom, left, tile_size, tile_size);
                let tile_map_key = TileMapKey { x: tile_map_x, y: tile_map_y };
                let color = Self::determine_tile_color(
                    world,
                    player_coordinate,
                    tile_map_key,
                    tile_x,
                    tile_y,
                );
                let tile_rectangle = tile_rectangle.moved_to(
                    tile_rectangle.left(),
                    screen_height - tile_rectangle.top(),
                );
                let tile_rectangle = tile_rectangle.shifted(world.x_offset, -world.y_offset);
                proof {
                    let cell = row_index * columns + column_index;
                    lemma_row_column(row_index as int, column_index as int, columns as int, cell);
                    assert(tile_rectangle == cell_rectangle(
                        *state,
                        row_index as int,
                        column_index as int,
                    ));
                    assert(color == cell_color(*state, row_index as int, column_index as int));
                    lemma_clipped_to_screen_has_pixels(
                        *window_bounds,
                        before.len() as int,
                        tile_rectangle,
                    );
                }
                let painted = render_rectangle(window_bounds, &tile_rectangle, color, buffer);
                match painted {
                    Ok(()) => {},
                    Err(error) => {
                        return Err(error);
                    },
                }
                tile_x += 1;
                if tile_x >= columns {
                    tile_map_x += 1;
                    tile_x = 0;
                }
                column_index += 1;
            }

            tile_y += 1;
            if tile_y >= rows {
                tile_map_y += 1;
                tile_y = 0;
            }
            row_index += 1;
            proof {
                assert(row_index * columns == (row_index - 1) * columns + columns)
                    by (nonlinear_arith);
            }
        }
        Ok(())
    }

    /// The colour that the tile `(tile_x, tile_y)` of the map `tile_map_key`
    /// is drawn in.
    pub fn determine_tile_color(
        world: &World,
        player_coordinate: &WorldCoordinate,
        tile_map_key: TileMapKey,
        tile_x: usize,
        tile_y: usize,
    ) -> (color: Color)
        ensures
            color == tile_color(
                *world,
                *player_coordinate,
                tile_map_key,
                tile_x as int,
                tile_y as int,
            ),
    {
        let tile = match world.get_tile_map(tile_map_key) {
            Some(map) => map.get(tile_y, tile_x),
            None => None,
        };
        if let Some(tile) = tile {
            if tile_map_key == player_coordinate.tile_map_key() && tile_y
                == player_coordinate.tile_y() && tile_x == player_coordinate.tile_x() {
                Color::from_rgb(0x00, 0x00, 0x00)
            } else if tile == 0 {
                Color::from_rgb(0xCC, 0xCC, 0xCC)
            } else {
                Color::from_rgb(0xFF, 0xFF, 0xFF)
            }
        } else {
            Color::from_rgb(0x00, 0x00, 0x00)
        }
    }

    /// Paints the player.
    pub fn render_player(
        state: &GameState,
        window_bounds: &Rectangle<i64>,
        buffer: &mut [Color],
    ) -> (result: Result<(), ApplicationError>)
        requires
            state.drawable(),
            window_is_screen(*window_bounds, old(buffer)@.len() as int),
        ensures
            result is Ok,
            final(buffer)@ == painted_clipped(
                old(buffer)@,
                *window_bounds,
                player_rectangle(*state),
                state.player.color,
            ),
    {
        let world = state.world();
        let player = state.player();
        let player_coordinate = player.coordinate();
        let tile_size = world.tile_size();
        let x_offset = Self::determine_player_offset(
            player_coordinate.tile_map_key().x(),
            player_coordinate.tile_x(),
            tile_size,
            world.columns(),
        );
        let y_offset = Self::determine_player_offset(
            player_coordinate.tile_map_key().y(),
            player_coordinate.tile_y(),
            tile_size,
            world.rows(),
        );
        let player_bounds = player.render_bounds();
        let player_bounds = player_bounds.shifted(x_offset, y_offset);
        let height = from_pixels(state.height() as i64);
        let player_bounds = player_bounds.moved_to(
            player_bounds.left(),
            height - player_bounds.top(),
        );
        let player_bounds = player_bounds.shifted(world.x_offset, -world.y_offset);
        proof {
            assert(player_bounds == player_rectangle(*state));
            lemma_clipped_to_screen_has_pixels(
                *window_bounds,
                buffer@.len() as int,
                player_bounds,
            );
        }
        render_rectangle(window_bounds, &player_bounds, player.color(), buffer)
    }

    /// How far the tile `tile` of the map `tile_map` lies from where the
    /// picture starts, along one axis: half a map.
    pub fn determine_player_offset(
        tile_map: isize,
        tile: usize,
        tile_size: i64,
        max_tile: usize,
    ) -> (offset: i64)
        requires
            isize::MIN < tile_map,
            tile < max_tile <= 0x8000,
            0 < tile_size <= 0x8000_0000,
        ensures
            offset == (max_tile / 2) * tile_size,
            0 <= offset <= 0x4000 * 0x8000_0000,
    {
        let (start_tile_map, start_tile) = Self::determine_start(tile_map, tile, max_tile);
        let tile_map_diff = (tile_map - start_tile_map) as i64;
        proof {
            let middle = (max_tile / 2) as int;
            assert(0 <= max_tile * tile_size <= 0x8000 * 0x8000_0000) by (nonlinear_arith)
                requires
                    0 <= max_tile <= 0x8000,
                    0 < tile_size <= 0x8000_0000,
            ;
            assert(0 <= middle * tile_size <= 0x4000 * 0x8000_0000) by (nonlinear_arith)
                requires
                    0 <= middle <= 0x4000,
                    0 < tile_size <= 0x8000_0000,
            ;
            assert(max_tile * tile_size - (max_tile - middle) * tile_size == middle * tile_size)
                by (nonlinear_arith);
            assert(-0x8000 * 0x8000_0000 <= (tile - start_tile) * tile_size <= 0x8000
                * 0x8000_0000) by (nonlinear_arith)
                requires
                    -0x8000 <= tile - start_tile <= 0x8000,
                    0 < tile_size <= 0x8000_0000,
            ;
            if tile < middle {
                assert(tile - start_tile == -(max_tile - middle));
                assert((tile - start_tile) * tile_size == -((max_tile - middle) * tile_size))
                    by (nonlinear_arith)
                    requires
                        tile - start_tile == -(max_tile - middle),
                ;
                assert(tile_map_diff == 1);
                assert(tile_map_diff * (max_tile as i64) == max_tile) by (nonlinear_arith)
                    requires
                        tile_map_diff == 1,
                        max_tile as i64 == max_tile,
                ;
            } else {
                assert(tile_map_diff == 0);
                assert(tile_map_diff * (max_tile as i64) == 0) by (nonlinear_arith)
                    requires
                        tile_map_diff == 0,
                ;
                vstd::arithmetic::mul::lemma_mul_basics(tile_size as int);
            }
        }
        let tile_map_diff = tile_map_diff * max_tile as i64 * tile_size;
        let tile_diff = tile as i64 - start_tile as i64;
        let tile_diff = tile_diff * tile_size;
        tile_map_diff + tile_diff
    }

    /// The map and tile, along one axis, that the picture starts at.
    pub fn determine_start(tile_map: isize, tile: usize, max_tile: usize) -> (start: (
        isize,
        usize,
    ))
        requires
            isize::MIN < tile_map,
            tile < max_tile,
        ensures
            (start.0 as int, start.1 as int) == start_of(
                tile_map as int,
                tile as int,
                max_tile as int,
            ),
            0 <= start.1 < max_tile,
            tile_map - 1 <= start.0 <= tile_map,
    {
        let current_tile_map = tile_map;
        let middle = max_tile / 2;
        if tile < middle {
            (current_tile_map - 1, max_tile - (middle - tile))
        } else if tile > middle {
            (current_tile_map, tile - middle)
        } else {
            (current_tile_map, 0)
        }
    }
}

} // verus!
