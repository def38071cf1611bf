//! A point of the plane.

use vstd::prelude::*;

verus! {

/// A pair of coordinates.
#[derive(Debug, Clone, Copy)]
pub struct Point2d<T> {
    pub x: T,
    pub y: T,
}

impl<T: Copy> Point2d<T> {
    /// The point at `(x, y)`.
    #[must_use]
    pub fn from_x_y(x: T, y: T) -> (point: Self)
        ensures
            point == (Point2d { x, y }),
    {
        Point2d { x, y }
    }

    /// The horizontal coordinate.
    #[must_use]
    pub fn x(self) -> (x: T)
        ensures
            x == self.x,
    {
        self.x
    }

    /// The vertical coordinate.
    #[must_use]
    pub fn y(self) -> (y: T)
        ensures
            y == self.y,
    {
        self.y
    }
}

} // verus!
