//! The world: equal tile maps addressed by key.

use crate::point_2d::Point2d;
use crate::rectangle::{clamped, Rectangle};
use crate::tile_map::TileMap;
use crate::tile_map_coordinate::TileMapCoordinate;
use crate::tile_map_key::TileMapKey;
use crate::units::{div_toward_zero, trunc_div};
use crate::world_coordinate::WorldCoordinate;
use vstd::prelude::*;

verus! {

/// The most rows or columns that a tile map may have.
pub const MAX_TILES: usize = 32_768;

/// The longest side that a tile may have, in world units.
pub const MAX_TILE_SIZE: i64 = 0x8000_0000;

/// The farthest that the picture of the world may be moved on the screen, in
/// world units, along either axis and in either direction.
pub const MAX_OFFSET: i64 = 0x100_0000_0000;

/// One tile map of the world with its key.
#[derive(Debug, Clone)]
pub struct TileMapEntry {
    pub key: TileMapKey,
    pub map: TileMap,
}

/// The tile maps of the game with their common measures. A key is looked up
/// from the front: where two entries carry one key, the first one counts.
#[derive(Debug, Clone)]
pub struct World {
    pub rows: usize,
    pub columns: usize,
    pub tile_maps: Vec<TileMapEntry>,
    pub x_offset: i64,
    pub y_offset: i64,
    pub tile_size: i64,
}

/// The place of the first entry at or after `start` that carries `key`, or the
/// number of entries where there is none.
pub open spec fn find_from(entries: Seq<TileMapEntry>, key: TileMapKey, start: int) -> int
    decreases entries.len() - start,
{
    if start < 0 || start >= entries.len() {
        entries.len() as int
    } else if entries[start].key == key {
        start
    } else {
        find_from(entries, key, start + 1)
    }
}

/// The place of the first entry that carries `key`, or the number of entries.
pub open spec fn find(entries: Seq<TileMapEntry>, key: TileMapKey) -> int {
    find_from(entries, key, 0)
}

/// The tile map stored under `key`, if any.
pub open spec fn lookup(entries: Seq<TileMapEntry>, key: TileMapKey) -> Option<TileMap> {
    let place = find(entries, key);
    if place < entries.len() {
        Some(entries[place].map)
    } else {
        None
    }
}

/// The entries with an empty map of the given measures added under `key`,
/// unless `key` is taken already.
pub open spec fn with_key(
    entries: Seq<TileMapEntry>,
    key: TileMapKey,
    fresh: TileMap,
) -> Seq<TileMapEntry> {
    if find(entries, key) < entries.len() {
        entries
    } else {
        entries.push(TileMapEntry { key, map: fresh })
    }
}

/// What `find_from` returns is a place at or after `start` that carries the
/// key, with no earlier such place, or the number of entries.
pub proof fn lemma_find_from(entries: Seq<TileMapEntry>, key: TileMapKey, start: int)
    requires
        0 <= start <= entries.len(),
    ensures
        start <= find_from(entries, key, start) <= entries.len(),
        find_from(entries, key, start) < entries.len() ==> entries[find_from(
            entries,
            key,
            start,
        )].key == key,
        forall|i: int| start <= i < find_from(entries, key, start) ==> entries[i].key != key,
    decreases entries.len() - start,
{
    if start < entries.len() && entries[start].key != key {
        lemma_find_from(entries, key, start + 1);
    }
}

/// A place that carries the key, with no earlier such place from `start` on,
/// is what `find_from` returns.
pub proof fn lemma_found_at(entries: Seq<TileMapEntry>, key: TileMapKey, start: int, place: int)
    requires
        0 <= start <= place <= entries.len(),
        place < entries.len() ==> entries[place].key == key,
        forall|i: int| start <= i < place ==> entries[i].key != key,
    ensures
        find_from(entries, key, start) == place,
    decreases place - start,
{
    if start < place {
        lemma_found_at(entries, key, start + 1, place);
    }
}

/// Replacing the map of the entry that `key` is found at changes what is
/// stored under `key` and nothing else.
pub proof fn lemma_lookup_after_replace(
    entries: Seq<TileMapEntry>,
    key: TileMapKey,
    map: TileMap,
    other: TileMapKey,
)
    requires
        find(entries, key) < entries.len(),
    ensures
        lookup(entries.update(find(entries, key), TileMapEntry { key, map }), other) == (if other
            == key {
            Some(map)
        } else {
            lookup(entries, other)
        }),
{
    let place = find(entries, key);
    let replaced = entries.update(place, TileMapEntry { key, map });
    lemma_find_from(entries, key, 0);
    lemma_find_from(entries, other, 0);
    let found = find(entries, other);
    assert forall|i: int| 0 <= i < found implies replaced[i].key != other by {
        assert(entries[i].key != other);
    }
    lemma_found_at(replaced, other, 0, found);
}

/// Adding a key that is not there changes what is stored under that key and
/// nothing else.
pub proof fn lemma_lookup_after_push(
    entries: Seq<TileMapEntry>,
    key: TileMapKey,
    map: TileMap,
    other: TileMapKey,
)
    requires
        find(entries, key) == entries.len(),
    ensures
        find(entries.push(TileMapEntry { key, map }), key) == entries.len(),
        lookup(entries.push(TileMapEntry { key, map }), other) == (if other == key {
            Some(map)
        } else {
            lookup(entries, other)
        }),
{
    let pushed = entries.push(TileMapEntry { key, map });
    lemma_find_from(entries, key, 0);
    lemma_find_from(entries, other, 0);
    let found = find(entries, other);
    assert forall|i: int| 0 <= i < entries.len() implies pushed[i].key != key by {
        assert(entries[i].key != key);
    }
    lemma_found_at(pushed, key, 0, entries.len() as int);
    if other != key {
        assert forall|i: int| 0 <= i < found implies pushed[i].key != other by {
            assert(entries[i].key != other);
        }
        if found < entries.len() {
            assert(pushed[found] == entries[found]);
            lemma_found_at(pushed, other, 0, found);
        } else {
            lemma_found_at(pushed, other, 0, pushed.len() as int);
        }
    }
}

impl World {
    /// The number of rows of the maps made for the game.
    pub const TILE_ROWS: usize = 9;

    /// The number of columns of the maps made for the game.
    pub const TILE_COLUMNS: usize = 17;

    /// The measures are positive and within the limits of the library.
    pub open spec fn wf(self) -> bool {
        &&& 0 < self.rows <= MAX_TILES
        &&& 0 < self.columns <= MAX_TILES
        &&& 0 < self.tile_size <= MAX_TILE_SIZE
        &&& -MAX_OFFSET <= self.x_offset <= MAX_OFFSET
        &&& -MAX_OFFSET <= self.y_offset <= MAX_OFFSET
    }

    /// The tile map stored under `key`, if any.
    pub open spec fn tile_map(self, key: TileMapKey) -> Option<TileMap> {
        lookup(self.tile_maps@, key)
    }

    /// Whether the tile that `coordinate` names exists and is open ground.
    pub open spec fn passable(self, coordinate: WorldCoordinate) -> bool {
        match self.tile_map(coordinate.tile_map_key) {
            Some(map) => map.tile_at(
                coordinate.tile_map_coordinate.y as int,
                coordinate.tile_map_coordinate.x as int,
            ) == Some(0u32),
            None => false,
        }
    }

    /// Whether the point `(delta_x, delta_y)` away from `coordinate` can be
    /// named and lies on open ground.
    pub open spec fn passable_at(
        self,
        coordinate: WorldCoordinate,
        delta_x: int,
        delta_y: int,
    ) -> bool {
        &&& coordinate.can_shift(delta_x, delta_y)
        &&& self.passable(coordinate.shifted_to(delta_x, delta_y))
    }

    /// Whether a rectangle of the extents of `bounds`, with its lower left
    /// corner at `coordinate`, has all four corners on open ground.
    pub open spec fn traversable(self, coordinate: WorldCoordinate, bounds: Rectangle<i64>) -> bool {
        &&& self.passable(coordinate)
        &&& self.passable_at(coordinate, 0, bounds.extent_y())
        &&& self.passable_at(coordinate, bounds.extent_x(), 0)
        &&& self.passable_at(coordinate, bounds.extent_x(), bounds.extent_y())
    }

    /// The tile that a length along one axis falls in, kept inside the map.
    pub open spec fn tile_along(position: int, tile_size: int, max_tiles: int) -> int {
        clamped(trunc_div(position, tile_size), 0, max_tiles - 1)
    }

    /// The number of tile rows of every map.
    #[must_use]
    pub fn rows(&self) -> (rows: usize)
        ensures
            rows == self.rows,
    {
        self.rows
    }

    /// The number of tile columns of every map.
    #[must_use]
    pub fn columns(&self) -> (columns: usize)
        ensures
            columns == self.columns,
    {
        self.columns
    }

    /// The side of a tile in world units.
    #[must_use]
    pub fn tile_size(&self) -> (tile_size: i64)
        ensures
            tile_size == self.tile_size,
    {
        self.tile_size
    }

    /// Exec form of [`World::wf`].
    pub fn is_well_formed(&self) -> (well_formed: bool)
        ensures
            well_formed == self.wf(),
    {
        0 < self.rows && self.rows <= MAX_TILES && 0 < self.columns && self.columns <= MAX_TILES
            && 0 < self.tile_size && self.tile_size <= MAX_TILE_SIZE && -MAX_OFFSET
            <= self.x_offset && self.x_offset <= MAX_OFFSET && -MAX_OFFSET <= self.y_offset
            && self.y_offset <= MAX_OFFSET
    }

    /// The place of the first entry that carries `key`, or the number of
    /// entries.
    pub fn position_of(&self, key: TileMapKey) -> (place: usize)
        ensures
            place == find(self.tile_maps@, key),
            place <= self.tile_maps@.len(),
    {
        let mut place: usize = 0;
        while place < self.tile_maps.len()
            invariant
                place <= self.tile_maps@.len(),
                find(self.tile_maps@, key) == find_from(self.tile_maps@, key, place as int),
            decreases self.tile_maps@.len() - place,
        {
            if self.tile_maps[place].key == key {
                return place;
            }
            place += 1;
        }
        place
    }

    /// The tile map stored under `id`, which is added, with every tile open
    /// ground, where there was none.
    pub fn add_tile_map(&mut self, id: TileMapKey) -> (map: &mut TileMap)
        requires
            old(self).rows * old(self).columns <= usize::MAX,
        ensures
            old(self).tile_map(id) is Some ==> Some(*map) == old(self).tile_map(id),
            old(self).tile_map(id) is None ==> map.wf() && map.rows == old(self).rows
                && map.columns == old(self).columns && forall|i: int|
                0 <= i < map.tiles@.len() ==> map.tiles@[i] == 0,
            old(self).wf() ==> final(self).wf(),
            final(self).rows == old(self).rows,
            final(self).columns == old(self).columns,
            final(self).x_offset == old(self).x_offset,
            final(self).y_offset == old(self).y_offset,
            final(self).tile_size == old(self).tile_size,
            forall|other: TileMapKey|
                #[trigger] final(self).tile_map(other) == (if other == id {
                    Some(*final(map))
                } else {
                    old(self).tile_map(other)
                }),
    {
        let place = self.position_of(id);
        if place == self.tile_maps.len() {
            let tile_map = TileMap::new(self.rows, self.columns);
            self.tile_maps.push(TileMapEntry { key: id, map: tile_map });
            proof {
                lemma_lookup_after_push(old(self).tile_maps@, id, tile_map, id);
            }
        }
        let ghost entries = self.tile_maps@;
        proof {
            lemma_find_from(old(self).tile_maps@, id, 0);
            assert forall|other: TileMapKey, map: TileMap|
                #[trigger] lookup(
                    entries.update(place as int, TileMapEntry { key: id, map }),
                    other,
                ) == if other == id {
                    Some(map)
                } else {
                    old(self).tile_map(other)
                } by {
                lemma_lookup_after_replace(entries, id, map, other);
                if old(self).tile_map(id) is None {
                    lemma_lookup_after_push(old(self).tile_maps@, id, entries[place as int].map, other);
                }
            }
        }
        let entry = &mut self.tile_maps[place];
        &mut entry.map
    }

    /// Whether a rectangle of the extents of `bounds`, with its lower left
    /// corner at `coordinate`, has all four corners on open ground.
    ///
    /// A corner in a tile map that the world does not hold, or that cannot be
    /// named at all, is not open ground.
    #[must_use]
    pub fn is_traversable(&self, coordinate: &WorldCoordinate, bounds: Rectangle<i64>) -> (open:
        bool)
        requires
            bounds.extents_fit(),
        ensures
            open == self.traversable(*coordinate, bounds),
            self.tile_map(coordinate.tile_map_key) is None ==> !open,
    {
        if !self.is_traversable_coordinate(coordinate) {
            return false;
        }
        let top_left = match coordinate.checked_shifted(0, bounds.height()) {
            Some(top_left) => top_left,
            None => {
                return false;
            },
        };
        if !self.is_traversable_coordinate(&top_left) {
            return false;
        }
        let bottom_right = match coordinate.checked_shifted(bounds.width(), 0) {
            Some(bottom_right) => bottom_right,
            None => {
                return false;
            },
        };
        if !self.is_traversable_coordinate(&bottom_right) {
            return false;
        }
        match coordinate.checked_shifted(bounds.width(), bounds.height()) {
            Some(top_right) => self.is_traversable_coordinate(&top_right),
            None => false,
        }
    }

    /// Whether the tile that `coordinate` names exists and is open ground.
    #[must_use]
    pub fn is_traversable_coordinate(&self, coordinate: &WorldCoordinate) -> (open: bool)
        ensures
            open == self.passable(*coordinate),
    {
        match self.get_tile_map(coordinate.tile_map_key()) {
            Some(map) => match map.get(coordinate.tile_y(), coordinate.tile_x()) {
                Some(tile) => tile == 0,
                None => false,
            },
            None => false,
        }
    }

    /// The tile map stored under `key`, if any.
    #[must_use]
    pub fn get_tile_map(&self, key: TileMapKey) -> (map: Option<&TileMap>)
        ensures
            (match map {
                Some(map) => self.tile_map(key) == Some(*map),
                None => self.tile_map(key) is None,
            }),
    {
        let place = self.position_of(key);
        if place < self.tile_maps.len() {
            Some(&self.tile_maps[place].map)
        } else {
            None
        }
    }

    /// The tile that `point` falls in and the offset of the point from the
    /// lower left corner of that tile. A point outside the map is given the
    /// nearest tile of the map.
    #[must_use]
    pub fn get_tile_map_coordinate(&self, point: Point2d<i64>) -> (coordinate: TileMapCoordinate)
        requires
            self.rows > 0,
            self.columns > 0,
            self.tile_size > 0,
        ensures
            coordinate.x == Self::tile_along(
                point.x as int,
                self.tile_size as int,
                self.columns as int,
            ),
            coordinate.y == Self::tile_along(point.y as int, self.tile_size as int, self.rows as int),
            coordinate.offset.x == point.x - coordinate.x * self.tile_size,
            coordinate.offset.y == point.y - coordinate.y * self.tile_size,
    {
        let (tile_x, tile_y) = self.get_tile_x_y(point);
        let tile_size = self.tile_size;
        proof {
            Self::lemma_tile_along_below(point.x as int, tile_size as int, self.columns as int);
            Self::lemma_tile_along_below(point.y as int, tile_size as int, self.rows as int);
        }
        let (tile_x_offset, tile_y_offset) = (tile_x as i64 * tile_size, tile_y as i64 * tile_size);
        let offset = Point2d::from_x_y(point.x() - tile_x_offset, point.y() - tile_y_offset);
        TileMapCoordinate::at_x_y_offset(tile_x, tile_y, offset)
    }

    /// The tile that `point` falls in. A point outside the map is given the
    /// nearest tile of the map.
    #[must_use]
    pub fn get_tile_x_y(&self, point: Point2d<i64>) -> (tile: (usize, usize))
        requires
            self.rows > 0,
            self.columns > 0,
            self.tile_size > 0,
        ensures
            tile.0 == Self::tile_along(point.x as int, self.tile_size as int, self.columns as int),
            tile.1 == Self::tile_along(point.y as int, self.tile_size as int, self.rows as int),
    {
        let tile_x = Self::tile_on_axis(point.x(), self.tile_size, self.columns);
        let tile_y = Self::tile_on_axis(point.y(), self.tile_size, self.rows);
        (tile_x, tile_y)
    }

    /// The tile that a length along one axis falls in, kept inside the map.
    pub fn tile_on_axis(position: i64, tile_size: i64, max_tiles: usize) -> (tile: usize)
        requires
            tile_size > 0,
            max_tiles > 0,
        ensures
            tile == Self::tile_along(position as int, tile_size as int, max_tiles as int),
    {
        let tile = div_toward_zero(position, tile_size);
        if tile < 0 {
            0
        } else if tile as u64 > (max_tiles - 1) as u64 {
            max_tiles - 1
        } else {
            tile as usize
        }
    }

    /// The tile that a length falls in starts at or before the length, and
    /// at zero for a length below zero.
    pub proof fn lemma_tile_along_below(position: int, tile_size: int, max_tiles: int)
        requires
            tile_size > 0,
            max_tiles > 0,
        ensures
            0 <= Self::tile_along(position, tile_size, max_tiles) < max_tiles,
            position >= 0 ==> 0 <= Self::tile_along(position, tile_size, max_tiles) * tile_size
                <= position,
            position >= 0 ==> Self::tile_along(position, tile_size, max_tiles) <= position,
            position < 0 ==> Self::tile_along(position, tile_size, max_tiles) == 0,
            position < 0 ==> Self::tile_along(position, tile_size, max_tiles) * tile_size == 0,
    {
        if position >= 0 {
            let tile = Self::tile_along(position, tile_size, max_tiles);
            vstd::arithmetic::div_mod::lemma_fundamental_div_mod(position, tile_size);
            vstd::arithmetic::div_mod::lemma_mod_bound(position, tile_size);
            vstd::arithmetic::div_mod::lemma_div_pos_is_pos(position, tile_size);
            vstd::arithmetic::div_mod::lemma_div_nonincreasing(position, tile_size);
            assert(0 <= tile * tile_size <= position) by (nonlinear_arith)
                requires
                    0 <= tile <= position / tile_size,
                    tile_size > 0,
                    position == tile_size * (position / tile_size) + position % tile_size,
                    0 <= position % tile_size,
            ;
        } else {
            vstd::arithmetic::div_mod::lemma_div_pos_is_pos(-position, tile_size);
            vstd::arithmetic::mul::lemma_mul_basics(tile_size);
        }
    }
}

} // verus!
