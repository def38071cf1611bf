//! A position inside one tile map.

use crate::point_2d::Point2d;
use vstd::prelude::*;

verus! {

/// A tile of a map and an offset from the lower left corner of that tile, in
/// world units.
#[derive(Debug, Clone, Copy)]
pub struct TileMapCoordinate {
    pub x: usize,
    pub y: usize,
    pub offset: Point2d<i64>,
}

impl TileMapCoordinate {
    /// The lower left corner of tile `(x, y)`.
    #[must_use]
    pub fn at_x_y(x: usize, y: usize) -> (coordinate: Self)
        ensures
            coordinate == (TileMapCoordinate { x, y, offset: Point2d { x: 0, y: 0 } }),
    {
        TileMapCoordinate { x, y, offset: Point2d { x: 0, y: 0 } }
    }

    /// The point `offset` away from the lower left corner of tile `(x, y)`.
    #[must_use]
    pub fn at_x_y_offset(x: usize, y: usize, offset: Point2d<i64>) -> (coordinate: Self)
        ensures
            coordinate == (TileMapCoordinate { x, y, offset }),
    {
        TileMapCoordinate { x, y, offset }
    }

    /// The column of the tile.
    #[must_use]
    pub fn x(&self) -> (x: usize)
        ensures
            x == self.x,
    {
        self.x
    }

    /// The row of the tile.
    #[must_use]
    pub fn y(&self) -> (y: usize)
        ensures
            y == self.y,
    {
        self.y
    }

    /// The offset inside the tile.
    #[must_use]
    pub fn offset(&self) -> (offset: Point2d<i64>)
        ensures
            offset == self.offset,
    {
        self.offset
    }
}

} // verus!
