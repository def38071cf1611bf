//! One map of tiles.

use vstd::prelude::*;

verus! {

/// A grid of tile codes stored row by row. Code `0` is open ground, any other
/// code is a wall.
#[derive(Debug, Clone)]
pub struct TileMap {
    pub tiles: Vec<u32>,
    pub rows: usize,
    pub columns: usize,
}

/// The place of tile `(row, column)` in row-major storage.
pub open spec fn tile_index(row: int, column: int, columns: int) -> int {
    row * columns + column
}

impl TileMap {
    /// The storage holds exactly `rows * columns` tiles.
    pub open spec fn wf(self) -> bool {
        self.tiles@.len() == self.rows * self.columns
    }

    /// The code stored for `(row, column)`, if its place lies inside the
    /// storage.
    pub open spec fn tile_at(self, row: int, column: int) -> Option<u32> {
        let index = tile_index(row, column, self.columns as int);
        if 0 <= index < self.tiles@.len() {
            Some(self.tiles@[index])
        } else {
            None
        }
    }

    /// A map of `rows * columns` tiles of open ground.
    #[must_use]
    pub fn new(rows: usize, columns: usize) -> (map: Self)
        requires
            rows * columns <= usize::MAX,
        ensures
            map.wf(),
            map.rows == rows,
            map.columns == columns,
            forall|i: int| 0 <= i < map.tiles@.len() ==> map.tiles@[i] == 0,
    {
        let tiles = vec![0u32; rows * columns];
        TileMap { tiles, rows, columns }
    }

    /// The number of rows.
    #[must_use]
    pub fn rows(&self) -> (rows: usize)
        ensures
            rows == self.rows,
    {
        self.rows
    }

    /// The number of columns.
    #[must_use]
    pub fn columns(&self) -> (columns: usize)
        ensures
            columns == self.columns,
    {
        self.columns
    }

    /// The code of the tile at `(row, column)`, or `None` where the storage
    /// has no such place.
    #[must_use]
    pub fn get(&self, row: usize, column: usize) -> (tile: Option<u32>)
        ensures
            tile == self.tile_at(row as int, column as int),
    {
        let length = self.tiles.len();
        proof {
            vstd::arithmetic::mul::lemma_mul_nonnegative(row as int, self.columns as int);
        }
        let index = match row.checked_mul(self.columns) {
            Some(offset) => match offset.checked_add(column) {
                Some(index) => index,
                None => {
                    return None;
                },
            },
            None => {
                return None;
            },
        };
        if index < length {
            Some(self.tiles[index])
        } else {
            None
        }
    }

    /// Stores `value` for the tile at `(row, column)`.
    pub fn set(&mut self, row: usize, column: usize, value: u32)
        requires
            tile_index(row as int, column as int, old(self).columns as int) < old(self).tiles@.len(),
        ensures
            old(self).wf() ==> final(self).wf(),
            final(self).rows == old(self).rows,
            final(self).columns == old(self).columns,
            final(self).tiles@ == old(self).tiles@.update(
                tile_index(row as int, column as int, old(self).columns as int),
                value,
            ),
    {
        let length = self.tiles.len();
        proof {
            vstd::arithmetic::mul::lemma_mul_nonnegative(row as int, self.columns as int);
        }
        let index = row * self.columns + column;
        self.tiles[index] = value;
    }
}

} // verus!
