//! Positions in a world made of equal tile maps laid side by side.
//!
//! Along each axis a position is a map index, a tile inside that map and an
//! offset inside that tile. The three stand for one integer, the distance in
//! world units from the lower left corner of the map at the origin.

use crate::point_2d::Point2d;
use crate::tile_map_coordinate::TileMapCoordinate;
use crate::tile_map_key::{index_in_range, TileMapKey};
use crate::units::floor_div_rem;
use crate::world::World;
use vstd::prelude::*;

verus! {

/// The distance that a map index, a tile and an offset stand for.
pub open spec fn axis_position(
    tile_map: int,
    tile: int,
    offset: int,
    tile_size: int,
    max_tiles: int,
) -> int {
    (tile_map * max_tiles + tile) * tile_size + offset
}

/// The map that a distance falls in.
pub open spec fn tile_map_of(position: int, tile_size: int, max_tiles: int) -> int {
    (position / tile_size) / max_tiles
}

/// The tile, counted inside its map, that a distance falls in.
pub open spec fn tile_of(position: int, tile_size: int, max_tiles: int) -> int {
    (position / tile_size) % max_tiles
}

/// What is left of a distance inside its tile.
pub open spec fn offset_of(position: int, tile_size: int) -> int {
    position % tile_size
}

/// One axis of a world coordinate.
#[derive(Debug, Clone, Copy)]
pub struct ShiftedCoordinate {
    pub tile_map: isize,
    pub tile: usize,
    pub tile_offset: i64,
}

impl ShiftedCoordinate {
    /// The distance this axis stands for.
    pub open spec fn position(self, tile_size: int, max_tiles: int) -> int {
        axis_position(
            self.tile_map as int,
            self.tile as int,
            self.tile_offset as int,
            tile_size,
            max_tiles,
        )
    }

    /// The tile lies inside its map and the offset inside its tile.
    pub open spec fn normalized(self, tile_size: int, max_tiles: int) -> bool {
        &&& 0 <= self.tile < max_tiles
        &&& 0 <= self.tile_offset < tile_size
    }

    /// The map reached by moving `delta` is one whose index is in range.
    pub open spec fn shift_fits(self, delta: int, tile_size: int, max_tiles: int) -> bool {
        index_in_range(tile_map_of(self.position(tile_size, max_tiles) + delta, tile_size, max_tiles))
    }

    /// The axis after moving `delta`: the map, tile and offset of the new
    /// distance.
    pub open spec fn shifted_by(self, delta: int, tile_size: int, max_tiles: int) -> Self {
        let position = self.position(tile_size, max_tiles) + delta;
        ShiftedCoordinate {
            tile_map: tile_map_of(position, tile_size, max_tiles) as isize,
            tile: tile_of(position, tile_size, max_tiles) as usize,
            tile_offset: offset_of(position, tile_size) as i64,
        }
    }
}

/// Splitting the sum of offset and movement into tiles first, and the
/// resulting tile into maps next, finds the map, tile and offset of the new
/// distance.
pub proof fn lemma_carry_by_steps(
    tile_map: int,
    tile: int,
    offset: int,
    delta: int,
    tile_size: int,
    max_tiles: int,
)
    requires
        tile_size > 0,
        max_tiles > 0,
    ensures
        ({
            let position = axis_position(tile_map, tile, offset, tile_size, max_tiles) + delta;
            let carried_tile = tile + (offset + delta) / tile_size;
            &&& offset_of(position, tile_size) == (offset + delta) % tile_size
            &&& tile_of(position, tile_size, max_tiles) == carried_tile % max_tiles
            &&& tile_map_of(position, tile_size, max_tiles) == tile_map + carried_tile / max_tiles
        }),
{
    let position = axis_position(tile_map, tile, offset, tile_size, max_tiles) + delta;
    let moved = offset + delta;
    let carried_tile = tile + moved / tile_size;
    let tiles = tile_map * max_tiles + carried_tile;
    vstd::arithmetic::div_mod::lemma_fundamental_div_mod(moved, tile_size);
    vstd::arithmetic::div_mod::lemma_mod_bound(moved, tile_size);
    assert(position == tiles * tile_size + moved % tile_size) by (nonlinear_arith)
        requires
            position == (tile_map * max_tiles + tile) * tile_size + moved,
            moved == tile_size * (moved / tile_size) + moved % tile_size,
            tiles == tile_map * max_tiles + tile + moved / tile_size,
    ;
    vstd::arithmetic::div_mod::lemma_fundamental_div_mod_converse(
        position,
        tile_size,
        tiles,
        moved % tile_size,
    );
    vstd::arithmetic::div_mod::lemma_fundamental_div_mod(carried_tile, max_tiles);
    vstd::arithmetic::div_mod::lemma_mod_bound(carried_tile, max_tiles);
    let maps = tile_map + carried_tile / max_tiles;
    assert(tiles == maps * max_tiles + carried_tile % max_tiles) by (nonlinear_arith)
        requires
            tiles == tile_map * max_tiles + carried_tile,
            carried_tile == max_tiles * (carried_tile / max_tiles) + carried_tile % max_tiles,
            maps == tile_map + carried_tile / max_tiles,
    ;
    vstd::arithmetic::div_mod::lemma_fundamental_div_mod_converse(
        tiles,
        max_tiles,
        maps,
        carried_tile % max_tiles,
    );
}

/// Map, tile and offset of a distance put together give the distance back,
/// with the tile inside its map and the offset inside its tile.
pub proof fn lemma_position_round_trip(position: int, tile_size: int, max_tiles: int)
    requires
        tile_size > 0,
        max_tiles > 0,
    ensures
        0 <= offset_of(position, tile_size) < tile_size,
        0 <= tile_of(position, tile_size, max_tiles) < max_tiles,
        axis_position(
            tile_map_of(position, tile_size, max_tiles),
            tile_of(position, tile_size, max_tiles),
            offset_of(position, tile_size),
            tile_size,
            max_tiles,
        ) == position,
{
    let tiles = position / tile_size;
    vstd::arithmetic::div_mod::lemma_fundamental_div_mod(position, tile_size);
    vstd::arithmetic::div_mod::lemma_mod_bound(position, tile_size);
    vstd::arithmetic::div_mod::lemma_fundamental_div_mod(tiles, max_tiles);
    vstd::arithmetic::div_mod::lemma_mod_bound(tiles, max_tiles);
    assert((tiles / max_tiles) * max_tiles + tiles % max_tiles == tiles) by (nonlinear_arith)
        requires
            tiles == max_tiles * (tiles / max_tiles) + tiles % max_tiles,
    ;
    assert(tiles * tile_size + position % tile_size == position) by (nonlinear_arith)
        requires
            position == tile_size * tiles + position % tile_size,
    ;
}

/// Shifting an axis by any amount gives an axis whose tile lies inside its
/// map and whose offset lies inside its tile, and the distance it stands for
/// has grown by exactly that amount.
pub proof fn lemma_shift_normalizes(
    axis: ShiftedCoordinate,
    delta: int,
    tile_size: i64,
    max_tiles: usize,
)
    requires
        tile_size > 0,
        max_tiles > 0,
        axis.shift_fits(delta, tile_size as int, max_tiles as int),
    ensures
        axis.shifted_by(delta, tile_size as int, max_tiles as int).normalized(
            tile_size as int,
            max_tiles as int,
        ),
        axis.shifted_by(delta, tile_size as int, max_tiles as int).position(
            tile_size as int,
            max_tiles as int,
        ) - axis.position(tile_size as int, max_tiles as int) == delta,
{
    let position = axis.position(tile_size as int, max_tiles as int) + delta;
    lemma_position_round_trip(position, tile_size as int, max_tiles as int);
}

/// An axis whose tile lies inside its map and whose offset lies inside its
/// tile is the only such axis that stands for its distance: map, tile and
/// offset of that distance are its own.
pub proof fn lemma_normal_form_is_unique(axis: ShiftedCoordinate, tile_size: i64, max_tiles: usize)
    requires
        tile_size > 0,
        max_tiles > 0,
        axis.normalized(tile_size as int, max_tiles as int),
    ensures
        axis.shifted_by(0, tile_size as int, max_tiles as int) == axis,
{
    lemma_carry_by_steps(
        axis.tile_map as int,
        axis.tile as int,
        axis.tile_offset as int,
        0,
        tile_size as int,
        max_tiles as int,
    );
    vstd::arithmetic::div_mod::lemma_small_mod(axis.tile_offset as nat, tile_size as nat);
    vstd::arithmetic::div_mod::lemma_basic_div(axis.tile_offset as int, tile_size as int);
    vstd::arithmetic::div_mod::lemma_small_mod(axis.tile as nat, max_tiles as nat);
    vstd::arithmetic::div_mod::lemma_basic_div(axis.tile as int, max_tiles as int);
}

/// Two shifts in a row end where one shift by the sum of both ends. In
/// particular a shift and the opposite shift lead back to where a normalized
/// axis started.
pub proof fn lemma_shifts_add_up(
    axis: ShiftedCoordinate,
    first: int,
    second: int,
    tile_size: i64,
    max_tiles: usize,
)
    requires
        tile_size > 0,
        max_tiles > 0,
        axis.shift_fits(first, tile_size as int, max_tiles as int),
    ensures
        axis.shifted_by(first, tile_size as int, max_tiles as int).shifted_by(
            second,
            tile_size as int,
            max_tiles as int,
        ) == axis.shifted_by(first + second, tile_size as int, max_tiles as int),
{
    lemma_shift_normalizes(axis, first, tile_size, max_tiles);
}

/// A coordinate of positive measures, moved by any amount that ends in a map
/// whose key is in range, is well formed: its tile lies inside its map and
/// its offset inside its tile, along both axes.
pub proof fn lemma_shifted_is_well_formed(from: WorldCoordinate, delta_x: int, delta_y: int)
    requires
        from.can_shift(delta_x, delta_y),
    ensures
        from.shifted_to(delta_x, delta_y).wf(),
        from.shifted_to(delta_x, delta_y).tile_size == from.tile_size,
        from.shifted_to(delta_x, delta_y).rows == from.rows,
        from.shifted_to(delta_x, delta_y).columns == from.columns,
{
    lemma_shift_normalizes(from.x_axis(), delta_x, from.tile_size, from.columns);
    lemma_shift_normalizes(from.y_axis(), delta_y, from.tile_size, from.rows);
}

/// A position in the world: a tile map, a tile of it and an offset inside
/// that tile, with the measures of the world it belongs to.
#[derive(Debug, Clone, Copy)]
pub struct WorldCoordinate {
    pub tile_map_key: TileMapKey,
    pub tile_map_coordinate: TileMapCoordinate,
    pub tile_size: i64,
    pub rows: usize,
    pub columns: usize,
}

impl WorldCoordinate {
    /// The horizontal axis of the coordinate.
    pub open spec fn x_axis(self) -> ShiftedCoordinate {
        ShiftedCoordinate {
            tile_map: self.tile_map_key.x,
            tile: self.tile_map_coordinate.x,
            tile_offset: self.tile_map_coordinate.offset.x,
        }
    }

    /// The vertical axis of the coordinate.
    pub open spec fn y_axis(self) -> ShiftedCoordinate {
        ShiftedCoordinate {
            tile_map: self.tile_map_key.y,
            tile: self.tile_map_coordinate.y,
            tile_offset: self.tile_map_coordinate.offset.y,
        }
    }

    /// The measures of the world are positive.
    pub open spec fn measured(self) -> bool {
        &&& self.tile_size > 0
        &&& self.rows > 0
        &&& self.columns > 0
    }

    /// The measures are positive, the key is in range, the tile lies inside
    /// its map and the offset inside its tile.
    pub open spec fn wf(self) -> bool {
        &&& self.measured()
        &&& self.tile_map_key.in_range()
        &&& self.x_axis().normalized(self.tile_size as int, self.columns as int)
        &&& self.y_axis().normalized(self.tile_size as int, self.rows as int)
    }

    /// Moving by `(delta_x, delta_y)` ends in a map whose key is in range.
    pub open spec fn can_shift(self, delta_x: int, delta_y: int) -> bool {
        &&& self.measured()
        &&& self.x_axis().shift_fits(delta_x, self.tile_size as int, self.columns as int)
        &&& self.y_axis().shift_fits(delta_y, self.tile_size as int, self.rows as int)
    }

    /// The coordinate `(delta_x, delta_y)` away from this one.
    pub open spec fn shifted_to(self, delta_x: int, delta_y: int) -> Self {
        let x = self.x_axis().shifted_by(delta_x, self.tile_size as int, self.columns as int);
        let y = self.y_axis().shifted_by(delta_y, self.tile_size as int, self.rows as int);
        WorldCoordinate {
            tile_map_key: TileMapKey { x: x.tile_map, y: y.tile_map },
            tile_map_coordinate: TileMapCoordinate {
                x: x.tile,
                y: y.tile,
                offset: Point2d { x: x.tile_offset, y: y.tile_offset },
            },
            tile_size: self.tile_size,
            rows: self.rows,
            columns: self.columns,
        }
    }

    /// The coordinate at `tile_map_coordinate` of the map `key` of `world`.
    #[must_use]
    pub fn new(world: &World, key: TileMapKey, tile_map_coordinate: TileMapCoordinate) -> (coordinate:
        Self)
        ensures
            coordinate == (WorldCoordinate {
                tile_map_key: key,
                tile_map_coordinate,
                tile_size: world.tile_size,
                rows: world.rows,
                columns: world.columns,
            }),
    {
        Self::new_internal(
            key,
            tile_map_coordinate,
            world.rows(),
            world.columns(),
            world.tile_size(),
        )
    }

    /// The coordinate with the given parts.
    #[must_use]
    pub fn new_internal(
        key: TileMapKey,
        tile_map_coordinate: TileMapCoordinate,
        rows: usize,
        columns: usize,
        tile_size: i64,
    ) -> (coordinate: Self)
        ensures
            coordinate == (WorldCoordinate {
                tile_map_key: key,
                tile_map_coordinate,
                tile_size,
                rows,
                columns,
            }),
    {
        WorldCoordinate { tile_map_key: key, tile_map_coordinate, rows, columns, tile_size }
    }

    /// The key of the tile map.
    #[must_use]
    pub fn tile_map_key(&self) -> (key: TileMapKey)
        ensures
            key == self.tile_map_key,
    {
        self.tile_map_key
    }

    /// The horizontal index of the tile map.
    #[must_use]
    pub fn tile_map_x(&self) -> (x: isize)
        ensures
            x == self.tile_map_key.x,
    {
        self.tile_map_key.x()
    }

    /// The vertical index of the tile map.
    #[must_use]
    pub fn tile_map_y(&self) -> (y: isize)
        ensures
            y == self.tile_map_key.y,
    {
        self.tile_map_key.y()
    }

    /// The column of the tile.
    #[must_use]
    pub fn tile_x(&self) -> (x: usize)
        ensures
            x == self.tile_map_coordinate.x,
    {
        self.tile_map_coordinate.x()
    }

    /// The row of the tile.
    #[must_use]
    pub fn tile_y(&self) -> (y: usize)
        ensures
            y == self.tile_map_coordinate.y,
    {
        self.tile_map_coordinate.y()
    }

    /// The offset inside the tile.
    #[must_use]
    pub fn tile_offset(&self) -> (offset: Point2d<i64>)
        ensures
            offset == self.tile_map_coordinate.offset,
    {
        self.tile_map_coordinate.offset()
    }

    /// Exec form of [`WorldCoordinate::wf`].
    pub fn is_well_formed(&self) -> (well_formed: bool)
        ensures
            well_formed == self.wf(),
    {
        let offset = self.tile_map_coordinate.offset;
        self.tile_size > 0 && self.rows > 0 && self.columns > 0 && self.tile_map_key.is_in_range()
            && self.tile_map_coordinate.x < self.columns && 0 <= offset.x && offset.x
            < self.tile_size && self.tile_map_coordinate.y < self.rows && 0 <= offset.y && offset.y
            < self.tile_size
    }

    /// The coordinate `(delta_x, delta_y)` away, crossing into neighbouring
    /// tiles and tile maps as far as the movement reaches.
    #[must_use]
    pub fn shifted(&self, delta_x: i64, delta_y: i64) -> (moved: WorldCoordinate)
        requires
            self.can_shift(delta_x as int, delta_y as int),
        ensures
            moved == self.shifted_to(delta_x as int, delta_y as int),
            moved.wf(),
    {
        proof {
            lemma_shifted_is_well_formed(*self, delta_x as int, delta_y as int);
        }
        match self.checked_shifted(delta_x, delta_y) {
            Some(moved) => moved,
            None => *self,
        }
    }

    /// The coordinate `(delta_x, delta_y)` away, or `None` where the measures
    /// of the world are not positive or the movement ends in a map whose key
    /// is out of range.
    #[must_use]
    pub fn checked_shifted(&self, delta_x: i64, delta_y: i64) -> (moved: Option<WorldCoordinate>)
        ensures
            moved == (if self.can_shift(delta_x as int, delta_y as int) {
                Some(self.shifted_to(delta_x as int, delta_y as int))
            } else {
                None
            }),
            moved is Some ==> moved->Some_0.wf(),
    {
        proof {
            if self.can_shift(delta_x as int, delta_y as int) {
                lemma_shifted_is_well_formed(*self, delta_x as int, delta_y as int);
            }
        }
        if self.tile_size <= 0 || self.rows == 0 || self.columns == 0 {
            return None;
        }
        let tile_offset = self.tile_offset();
        let x_shift = ShiftedCoordinate {
            tile_map: self.tile_map_key.x(),
            tile: self.tile_x(),
            tile_offset: tile_offset.x(),
        };
        let x = match Self::checked_shifted_axis(x_shift, delta_x, self.tile_size, self.columns) {
            Some(x) => x,
            None => {
                return None;
            },
        };
        let y_shift = ShiftedCoordinate {
            tile_map: self.tile_map_key.y(),
            tile: self.tile_y(),
            tile_offset: tile_offset.y(),
        };
        let y = match Self::checked_shifted_axis(y_shift, delta_y, self.tile_size, self.rows) {
            Some(y) => y,
            None => {
                return None;
            },
        };
        let new_tile_map_key = TileMapKey { x: x.tile_map, y: y.tile_map };
        let new_tile_offset = Point2d::from_x_y(x.tile_offset, y.tile_offset);
        let new_tile_coordinate = TileMapCoordinate::at_x_y_offset(x.tile, y.tile, new_tile_offset);
        Some(
            WorldCoordinate::new_internal(
                new_tile_map_key,
                new_tile_coordinate,
                self.rows,
                self.columns,
                self.tile_size,
            ),
        )
    }

    /// One axis moved by `delta`.
    #[must_use]
    pub fn shifted_axis(
        axis: ShiftedCoordinate,
        delta: i64,
        tile_size: i64,
        max_tiles: usize,
    ) -> (moved: ShiftedCoordinate)
        requires
            tile_size > 0,
            max_tiles > 0,
            axis.shift_fits(delta as int, tile_size as int, max_tiles as int),
        ensures
            moved == axis.shifted_by(delta as int, tile_size as int, max_tiles as int),
    {
        match Self::checked_shifted_axis(axis, delta, tile_size, max_tiles) {
            Some(moved) => moved,
            None => axis,
        }
    }

    /// One axis moved by `delta`, or `None` where the movement ends in a map
    /// whose index is out of range.
    ///
    /// The sum of offset and movement is split into whole tiles and a rest
    /// inside the tile; the whole tiles are added to the tile, and that sum is
    /// split into whole maps and a tile inside the map. Both splits round
    /// toward negative infinity.
    #[must_use]
    pub fn checked_shifted_axis(
        axis: ShiftedCoordinate,
        delta: i64,
        tile_size: i64,
        max_tiles: usize,
    ) -> (moved: Option<ShiftedCoordinate>)
        requires
            tile_size > 0,
            max_tiles > 0,
        ensures
            moved == (if axis.shift_fits(delta as int, tile_size as int, max_tiles as int) {
                Some(axis.shifted_by(delta as int, tile_size as int, max_tiles as int))
            } else {
                None
            }),
    {
        let tile_offset: i128 = axis.tile_offset as i128 + delta as i128;
        let (delta_tile, tile_offset) = floor_div_rem(tile_offset, tile_size as i128);
        let tile: i128 = axis.tile as i128 + delta_tile;
        let (delta_tile_map, tile) = floor_div_rem(tile, max_tiles as i128);
        let tile_map: i128 = axis.tile_map as i128 + delta_tile_map;
        proof {
            lemma_carry_by_steps(
                axis.tile_map as int,
                axis.tile as int,
                axis.tile_offset as int,
                delta as int,
                tile_size as int,
                max_tiles as int,
            );
        }
        if tile_map <= isize::MIN as i128 || tile_map >= isize::MAX as i128 {
            return None;
        }
        Some(
            ShiftedCoordinate {
                tile_map: tile_map as isize,
                tile: tile as usize,
                tile_offset: tile_offset as i64,
            },
        )
    }
}

} // verus!
