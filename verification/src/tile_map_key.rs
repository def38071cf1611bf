//! The address of one tile map among its neighbours.

use vstd::prelude::*;

verus! {

/// The position of a tile map relative to the map at the origin, counted in
/// whole maps along each axis.
#[derive(Debug, PartialEq, Eq, Hash, Clone, Copy, Structural)]
pub struct TileMapKey {
    pub x: isize,
    pub y: isize,
}

/// Whether a map index along one axis leaves room for a neighbour on both
/// sides.
pub open spec fn index_in_range(index: int) -> bool {
    isize::MIN < index < isize::MAX
}

impl TileMapKey {
    /// Both indices leave room for a neighbour on both sides.
    pub open spec fn in_range(self) -> bool {
        index_in_range(self.x as int) && index_in_range(self.y as int)
    }

    /// The index along the horizontal axis.
    #[must_use]
    pub fn x(&self) -> (x: isize)
        ensures
            x == self.x,
    {
        self.x
    }

    /// The index along the vertical axis.
    #[must_use]
    pub fn y(&self) -> (y: isize)
        ensures
            y == self.y,
    {
        self.y
    }

    /// Exec form of [`TileMapKey::in_range`].
    pub fn is_in_range(&self) -> (in_range: bool)
        ensures
            in_range == self.in_range(),
    {
        isize::MIN < self.x && self.x < isize::MAX && isize::MIN < self.y && self.y < isize::MAX
    }
}

} // verus!
