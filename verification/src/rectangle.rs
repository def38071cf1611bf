//! Axis-aligned rectangles, in world units and in pixels.
//!
//! World space has its vertical axis pointing up: `bottom <= top` for a
//! rectangle of non-negative height.

use crate::application_error::{ApplicationError, ErrorKind};
use crate::point_2d::Point2d;
use crate::units::{nearest_pixel, UNITS_PER_PIXEL};
use vstd::prelude::*;

verus! {

/// An axis-aligned box given by its four edges.
#[derive(Debug, Clone, Copy)]
pub struct Rectangle<T> {
    pub top: T,
    pub left: T,
    pub bottom: T,
    pub right: T,
}

/// `value` moved into `[min, max]`: raised to `min` first, then lowered to
/// `max`.
pub open spec fn clamped(value: int, min: int, max: int) -> int {
    let raised = if value < min {
        min
    } else {
        value
    };
    if raised > max {
        max
    } else {
        raised
    }
}

/// The pixel that one edge of a rectangle rounds to, or why it has none.
pub open spec fn rounded_edge(value: int) -> Result<usize, ApplicationError> {
    if value < 0 {
        Err(ApplicationError { kind: ErrorKind::NegativeVertex })
    } else if nearest_pixel(value) > usize::MAX {
        Err(ApplicationError { kind: ErrorKind::Truncation })
    } else {
        Ok(nearest_pixel(value) as usize)
    }
}

impl<T: Copy> Rectangle<T> {
    /// The upper edge.
    #[must_use]
    pub fn top(&self) -> (top: T)
        ensures
            top == self.top,
    {
        self.top
    }

    /// The left edge.
    #[must_use]
    pub fn left(&self) -> (left: T)
        ensures
            left == self.left,
    {
        self.left
    }

    /// The lower edge.
    #[must_use]
    pub fn bottom(&self) -> (bottom: T)
        ensures
            bottom == self.bottom,
    {
        self.bottom
    }

    /// The right edge.
    #[must_use]
    pub fn right(&self) -> (right: T)
        ensures
            right == self.right,
    {
        self.right
    }

    /// The corner at the left of the upper edge.
    #[must_use]
    pub fn top_left(&self) -> (corner: Point2d<T>)
        ensures
            corner == (Point2d { x: self.left, y: self.top }),
    {
        Point2d::from_x_y(self.left, self.top)
    }

    /// The corner at the left of the lower edge.
    #[must_use]
    pub fn bottom_left(&self) -> (corner: Point2d<T>)
        ensures
            corner == (Point2d { x: self.left, y: self.bottom }),
    {
        Point2d::from_x_y(self.left, self.bottom)
    }

    /// The corner at the right of the upper edge.
    #[must_use]
    pub fn top_right(&self) -> (corner: Point2d<T>)
        ensures
            corner == (Point2d { x: self.right, y: self.top }),
    {
        Point2d::from_x_y(self.right, self.top)
    }

    /// The corner at the right of the lower edge.
    #[must_use]
    pub fn bottom_right(&self) -> (corner: Point2d<T>)
        ensures
            corner == (Point2d { x: self.right, y: self.bottom }),
    {
        Point2d::from_x_y(self.right, self.bottom)
    }
}

impl Rectangle<i64> {
    /// The horizontal extent, as a mathematical integer.
    pub open spec fn extent_x(self) -> int {
        self.right - self.left
    }

    /// The vertical extent, as a mathematical integer.
    pub open spec fn extent_y(self) -> int {
        self.top - self.bottom
    }

    /// Both extents can be held in an `i64`.
    pub open spec fn extents_fit(self) -> bool {
        &&& i64::MIN <= self.extent_x() <= i64::MAX
        &&& i64::MIN <= self.extent_y() <= i64::MAX
    }

    /// The rectangle with the same extents whose lower left corner is `(x, y)`.
    pub open spec fn at(self, x: int, y: int) -> (int, int, int, int) {
        (y + self.extent_y(), x, y, x + self.extent_x())
    }

    /// The four edges as a tuple `(top, left, bottom, right)` of integers.
    pub open spec fn edges(self) -> (int, int, int, int) {
        (self.top as int, self.left as int, self.bottom as int, self.right as int)
    }

    /// Whether the point lies inside: the left and lower edges belong to the
    /// rectangle, the right and upper edges do not.
    pub open spec fn holds(self, point: Point2d<i64>) -> bool {
        &&& self.left <= point.x < self.right
        &&& self.bottom <= point.y < self.top
    }

    /// Whether the interiors of the two rectangles meet.
    pub open spec fn meets(self, other: Self) -> bool {
        &&& other.left < self.right
        &&& other.right > self.left
        &&& other.bottom < self.top
        &&& other.top > self.bottom
    }

    /// Each edge moved into the range that `container` spans on its axis.
    pub open spec fn bounded_by(self, container: Self) -> Self {
        Rectangle {
            top: clamped(self.top as int, container.bottom as int, container.top as int) as i64,
            left: clamped(self.left as int, container.left as int, container.right as int) as i64,
            bottom: clamped(
                self.bottom as int,
                container.bottom as int,
                container.top as int,
            ) as i64,
            right: clamped(
                self.right as int,
                container.left as int,
                container.right as int,
            ) as i64,
        }
    }

    /// Every edge that is not negative has a pixel that fits in `usize`.
    pub open spec fn pixels_fit(self) -> bool {
        &&& self.top < 0 || nearest_pixel(self.top as int) <= usize::MAX
        &&& self.left < 0 || nearest_pixel(self.left as int) <= usize::MAX
        &&& self.bottom < 0 || nearest_pixel(self.bottom as int) <= usize::MAX
        &&& self.right < 0 || nearest_pixel(self.right as int) <= usize::MAX
    }

    /// The rectangle in pixels, or the error of the first edge that has no
    /// pixel; the edges are taken in the order top, left, bottom, right.
    pub open spec fn rounded(self) -> Result<Rectangle<usize>, ApplicationError> {
        match rounded_edge(self.top as int) {
            Err(error) => Err(error),
            Ok(top) => match rounded_edge(self.left as int) {
                Err(error) => Err(error),
                Ok(left) => match rounded_edge(self.bottom as int) {
                    Err(error) => Err(error),
                    Ok(bottom) => match rounded_edge(self.right as int) {
                        Err(error) => Err(error),
                        Ok(right) => Ok(Rectangle { top, left, bottom, right }),
                    },
                },
            },
        }
    }

    /// The rectangle of the given extents whose lower left corner is
    /// `(left, bottom)`.
    #[must_use]
    pub fn new(bottom: i64, left: i64, height: i64, width: i64) -> (rectangle: Self)
        requires
            i64::MIN <= bottom + height <= i64::MAX,
            i64::MIN <= left + width <= i64::MAX,
        ensures
            rectangle.edges() == (bottom + height, left as int, bottom as int, left + width),
    {
        Rectangle { top: bottom + height, left, bottom, right: left + width }
    }

    /// The distance from the left edge to the right edge.
    #[must_use]
    pub fn width(&self) -> (width: i64)
        requires
            i64::MIN <= self.extent_x() <= i64::MAX,
        ensures
            width == self.extent_x(),
    {
        self.right - self.left
    }

    /// The distance from the lower edge to the upper edge.
    #[must_use]
    pub fn height(&self) -> (height: i64)
        requires
            i64::MIN <= self.extent_y() <= i64::MAX,
        ensures
            height == self.extent_y(),
    {
        self.top - self.bottom
    }

    /// The same rectangle with its lower left corner at `(x, y)`.
    #[must_use]
    pub fn moved_to(&self, x: i64, y: i64) -> (moved: Self)
        requires
            self.extents_fit(),
            i64::MIN <= x + self.extent_x() <= i64::MAX,
            i64::MIN <= y + self.extent_y() <= i64::MAX,
        ensures
            moved.edges() == self.at(x as int, y as int),
    {
        let right = x + self.width();
        let top = y + self.height();
        Rectangle { top, left: x, right, bottom: y }
    }

    /// The same rectangle with its lower left corner at `point`.
    #[must_use]
    pub fn moved_to_point(&self, point: Point2d<i64>) -> (moved: Self)
        requires
            self.extents_fit(),
            i64::MIN <= point.x + self.extent_x() <= i64::MAX,
            i64::MIN <= point.y + self.extent_y() <= i64::MAX,
        ensures
            moved.edges() == self.at(point.x as int, point.y as int),
    {
        self.moved_to(point.x(), point.y())
    }

    /// The same rectangle moved by `(delta_x, delta_y)`.
    #[must_use]
    pub fn shifted(&self, delta_x: i64, delta_y: i64) -> (moved: Self)
        requires
            self.extents_fit(),
            i64::MIN <= self.left + delta_x <= i64::MAX,
            i64::MIN <= self.right + delta_x <= i64::MAX,
            i64::MIN <= self.bottom + delta_y <= i64::MAX,
            i64::MIN <= self.top + delta_y <= i64::MAX,
        ensures
            moved.edges() == (
                self.top + delta_y,
                self.left + delta_x,
                self.bottom + delta_y,
                self.right + delta_x,
            ),
    {
        self.moved_to(self.left + delta_x, self.bottom + delta_y)
    }

    /// The rectangle with the same lower left corner and the given extents.
    #[must_use]
    pub fn resized(&self, height: i64, width: i64) -> (resized: Self)
        requires
            i64::MIN <= self.bottom + height <= i64::MAX,
            i64::MIN <= self.left + width <= i64::MAX,
        ensures
            resized.edges() == (
                self.bottom + height,
                self.left as int,
                self.bottom as int,
                self.left + width,
            ),
    {
        Rectangle {
            top: self.bottom + height,
            left: self.left,
            bottom: self.bottom,
            right: self.left + width,
        }
    }

    /// Whether `point` lies inside the rectangle (half-open on both axes).
    #[must_use]
    pub fn contains_point(&self, point: Point2d<i64>) -> (inside: bool)
        ensures
            inside == self.holds(point),
    {
        point.x() >= self.left && point.x() < self.right && point.y() < self.top && point.y()
            >= self.bottom
    }

    /// Whether the two rectangles share interior points; rectangles that only
    /// touch along an edge do not overlap.
    #[must_use]
    pub fn overlaps(&self, other: &Self) -> (overlap: bool)
        ensures
            overlap == self.meets(*other),
    {
        other.left < self.right && other.right > self.left && other.bottom < self.top && other.top
            > self.bottom
    }

    /// Clamps each of the four edges into the range of `other` on its axis.
    #[must_use]
    pub fn bound_to(&self, other: &Self) -> (bounded: Self)
        ensures
            bounded == self.bounded_by(*other),
    {
        Rectangle {
            top: Self::clamp(self.top, other.bottom, other.top),
            left: Self::clamp(self.left, other.left, other.right),
            bottom: Self::clamp(self.bottom, other.bottom, other.top),
            right: Self::clamp(self.right, other.left, other.right),
        }
    }

    /// Raises `value` to `min` where it is lower, then lowers the result to
    /// `max` where it is higher.
    pub fn clamp(value: i64, min: i64, max: i64) -> (result: i64)
        ensures
            result == clamped(value as int, min as int, max as int),
    {
        let mut result = value;
        if value < min {
            result = min;
        }
        if result > max {
            result = max;
        }
        result
    }

    /// Rounds every edge to the nearest pixel.
    ///
    /// Fails with [`ErrorKind::NegativeVertex`] at the first edge below zero
    /// and with [`ErrorKind::Truncation`] at the first edge whose pixel does
    /// not fit in `usize`.
    pub fn round_to_usize(&self) -> (result: Result<Rectangle<usize>, ApplicationError>)
        ensures
            result == self.rounded(),
    {
        let top = match Self::round_safe(self.top) {
            Ok(top) => top,
            Err(error) => {
                return Err(error);
            },
        };
        let left = match Self::round_safe(self.left) {
            Ok(left) => left,
            Err(error) => {
                return Err(error);
            },
        };
        let bottom = match Self::round_safe(self.bottom) {
            Ok(bottom) => bottom,
            Err(error) => {
                return Err(error);
            },
        };
        let right = match Self::round_safe(self.right) {
            Ok(right) => right,
            Err(error) => {
                return Err(error);
            },
        };
        Ok(Rectangle { top, left, bottom, right })
    }

    /// Rounds one edge to the nearest pixel.
    pub fn round_safe(value: i64) -> (result: Result<usize, ApplicationError>)
        ensures
            result == rounded_edge(value as int),
    {
        if value < 0 {
            return Err(ApplicationError::new(ErrorKind::NegativeVertex));
        }
        let whole: i64 = value / UNITS_PER_PIXEL;
        let rest: i64 = value % UNITS_PER_PIXEL;
        let rounded: i64 = if rest >= UNITS_PER_PIXEL / 2 {
            whole + 1
        } else {
            whole
        };
        assert(rounded == nearest_pixel(value as int));
        if rounded as u64 > usize::MAX as u64 {
            return Err(ApplicationError::new(ErrorKind::Truncation));
        }
        Ok(rounded as usize)
    }
}

impl Rectangle<usize> {
    /// The number of pixel columns, where the right edge is not left of the
    /// left edge.
    #[must_use]
    pub fn width(&self) -> (width: usize)
        requires
            self.left <= self.right,
        ensures
            width == self.right - self.left,
    {
        self.right - self.left
    }

    /// The number of pixel rows, where the upper edge is not below the lower
    /// edge.
    #[must_use]
    pub fn height(&self) -> (height: usize)
        requires
            self.bottom <= self.top,
        ensures
            height == self.top - self.bottom,
    {
        self.top - self.bottom
    }
}

/// Overlap does not depend on which rectangle is asked.
pub proof fn lemma_overlap_symmetric(a: Rectangle<i64>, b: Rectangle<i64>)
    ensures
        a.meets(b) == b.meets(a),
{
}

/// Two rectangles of which one ends where the other begins, on either axis,
/// do not overlap.
pub proof fn lemma_touching_rectangles_do_not_overlap(a: Rectangle<i64>, b: Rectangle<i64>)
    requires
        a.right == b.left || a.left == b.right || a.top == b.bottom || a.bottom == b.top,
    ensures
        !a.meets(b),
        !b.meets(a),
{
}

/// A rectangle bound to a container whose edges are in order lies inside the
/// container, and binding it once more changes nothing.
pub proof fn lemma_bound_rectangle_lies_inside(rectangle: Rectangle<i64>, container: Rectangle<i64>)
    requires
        container.left <= container.right,
        container.bottom <= container.top,
    ensures
        container.left <= rectangle.bounded_by(container).left <= container.right,
        container.left <= rectangle.bounded_by(container).right <= container.right,
        container.bottom <= rectangle.bounded_by(container).bottom <= container.top,
        container.bottom <= rectangle.bounded_by(container).top <= container.top,
        rectangle.bounded_by(container).bounded_by(container) == rectangle.bounded_by(container),
{
}

/// A rectangle whose edges are whole, non-negative numbers of pixels that fit
/// in `usize` rounds to exactly those pixels.
pub proof fn lemma_whole_pixels_round_to_themselves(
    top: usize,
    left: usize,
    bottom: usize,
    right: usize,
    rectangle: Rectangle<i64>,
)
    requires
        rectangle.edges() == (
            top * UNITS_PER_PIXEL,
            left * UNITS_PER_PIXEL,
            bottom * UNITS_PER_PIXEL,
            right * UNITS_PER_PIXEL,
        ),
    ensures
        rectangle.rounded() == Ok::<Rectangle<usize>, ApplicationError>(
            Rectangle { top, left, bottom, right },
        ),
{
    assert(nearest_pixel(top * UNITS_PER_PIXEL) == top);
    assert(nearest_pixel(left * UNITS_PER_PIXEL) == left);
    assert(nearest_pixel(bottom * UNITS_PER_PIXEL) == bottom);
    assert(nearest_pixel(right * UNITS_PER_PIXEL) == right);
}

/// A rectangle with an edge below zero has no pixel form. The error is the
/// negative-vertex error wherever every edge that is not negative has a pixel
/// that fits in `usize`.
pub proof fn lemma_negative_edge_is_rejected(rectangle: Rectangle<i64>)
    requires
        rectangle.top < 0 || rectangle.left < 0 || rectangle.bottom < 0 || rectangle.right < 0,
    ensures
        rectangle.rounded() is Err,
        rectangle.pixels_fit() ==> rectangle.rounded() == Err::<Rectangle<usize>, ApplicationError>(
            ApplicationError { kind: ErrorKind::NegativeVertex },
        ),
{
}

} // verus!
