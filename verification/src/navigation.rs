//! A world of five screens laid out as a plus: a hub and one screen on each
//! side of it.
//!
//! Positions are screen coordinates: the vertical axis points down, so the
//! top of a rectangle is its smallest vertical coordinate and north is the
//! direction in which that coordinate falls.

use vstd::prelude::*;

verus! {

/// The five screens.
#[derive(Debug, Clone, Copy, PartialEq, Eq, Hash, Structural)]
pub enum TileMapId {
    South,
    Hub,
    West,
    East,
    North,
}

/// The four sides of a screen.
#[derive(Debug, Clone, Copy, PartialEq, Eq, Structural)]
pub enum Direction {
    North,
    South,
    West,
    East,
}

/// A rectangle on the screen, from `top` down to `bottom` and from `left` to
/// `right`.
#[derive(Debug, Clone, Copy, PartialEq, Eq, Structural)]
pub struct ScreenRectangle {
    pub top: i64,
    pub left: i64,
    pub bottom: i64,
    pub right: i64,
}

/// The screen in view and the size that all screens share.
#[derive(Debug, Clone, Copy, PartialEq, Eq, Structural)]
pub struct FixedWorld {
    pub current_tile_map_id: TileMapId,
    pub width: i64,
    pub height: i64,
}

/// The screen that lies next to `from` in the given direction, if any: the
/// hub has a neighbour on every side, every other screen has the hub on the
/// side it came from and nothing else.
pub open spec fn neighbor_of(from: TileMapId, direction: Direction) -> Option<TileMapId> {
    match (from, direction) {
        (TileMapId::Hub, Direction::North) => Some(TileMapId::North),
        (TileMapId::Hub, Direction::South) => Some(TileMapId::South),
        (TileMapId::Hub, Direction::West) => Some(TileMapId::West),
        (TileMapId::Hub, Direction::East) => Some(TileMapId::East),
        (TileMapId::North, Direction::South) => Some(TileMapId::Hub),
        (TileMapId::South, Direction::North) => Some(TileMapId::Hub),
        (TileMapId::West, Direction::East) => Some(TileMapId::Hub),
        (TileMapId::East, Direction::West) => Some(TileMapId::Hub),
        _ => None,
    }
}

/// The side through which a rectangle has left a screen of the given size,
/// if it has: north and south are looked at before west and east.
pub open spec fn side_left(player: ScreenRectangle, width: int, height: int) -> Option<Direction> {
    if player.top < 0 {
        Some(Direction::North)
    } else if player.bottom > height {
        Some(Direction::South)
    } else if player.left < 0 {
        Some(Direction::West)
    } else if player.right > width {
        Some(Direction::East)
    } else {
        None
    }
}

/// A coordinate moved back into `[low, high]`: raised to `low` first, then
/// lowered to `high`.
pub open spec fn held(value: int, low: int, high: int) -> int {
    let raised = if value < low {
        low
    } else {
        value
    };
    if raised > high {
        high
    } else {
        raised
    }
}

impl ScreenRectangle {
    /// The distance from the top to the bottom.
    pub open spec fn extent_y(self) -> int {
        self.bottom - self.top
    }

    /// The distance from the left to the right.
    pub open spec fn extent_x(self) -> int {
        self.right - self.left
    }

    /// The same rectangle with its upper left corner at `(left, top)`.
    pub open spec fn placed_at(self, top: int, left: int) -> (int, int, int, int) {
        (top, left, top + self.extent_y(), left + self.extent_x())
    }

    /// The four edges as a tuple `(top, left, bottom, right)` of integers.
    pub open spec fn edges(self) -> (int, int, int, int) {
        (self.top as int, self.left as int, self.bottom as int, self.right as int)
    }

    /// The rectangle as it enters the neighbouring screen of the given size
    /// through the side opposite to `direction`: flush with that side, and
    /// where it was along the other axis.
    pub open spec fn entering(self, direction: Direction, width: int, height: int) -> (
        int,
        int,
        int,
        int,
    ) {
        match direction {
            Direction::North => self.placed_at(height - self.extent_y(), self.left as int),
            Direction::South => self.placed_at(0, self.left as int),
            Direction::West => self.placed_at(self.top as int, width - self.extent_x()),
            Direction::East => self.placed_at(self.top as int, 0),
        }
    }

    /// Every edge moved back into the screen.
    pub open spec fn held_in(self, width: int, height: int) -> (int, int, int, int) {
        (
            held(self.top as int, 0, height),
            held(self.left as int, 0, width),
            held(self.bottom as int, 0, height),
            held(self.right as int, 0, width),
        )
    }

    /// The rectangle of the given extents whose upper left corner is
    /// `(left, top)`.
    #[must_use]
    pub fn new(top: i64, left: i64, height: i64, width: i64) -> (rectangle: Self)
        requires
            i64::MIN <= top + height <= i64::MAX,
            i64::MIN <= left + width <= i64::MAX,
        ensures
            rectangle.edges() == (top as int, left as int, top + height, left + width),
    {
        ScreenRectangle { top, left, bottom: top + height, right: left + width }
    }
}

impl FixedWorld {
    /// The size is not negative and small enough for a rectangle as large as
    /// the screen to be moved by its own size.
    pub open spec fn wf(self) -> bool {
        &&& 0 <= self.width <= 0x4000_0000_0000_0000
        &&& 0 <= self.height <= 0x4000_0000_0000_0000
    }

    /// The rectangle fits into the screen.
    pub open spec fn fits(self, player: ScreenRectangle) -> bool {
        &&& 0 <= player.extent_x() <= self.width
        &&& 0 <= player.extent_y() <= self.height
    }

    /// What a move does: the screen in view and the rectangle afterwards.
    ///
    /// A rectangle that stays in view is left where the move took it. One
    /// that leaves through a side with a neighbour enters that neighbour
    /// through the opposite side. One that leaves through a side without a
    /// neighbour is held back at the edges of the screen.
    pub open spec fn after_move(self, moved: ScreenRectangle) -> (TileMapId, (int, int, int, int)) {
        match side_left(moved, self.width as int, self.height as int) {
            None => (self.current_tile_map_id, moved.edges()),
            Some(direction) => match neighbor_of(self.current_tile_map_id, direction) {
                Some(neighbor) => (
                    neighbor,
                    moved.entering(direction, self.width as int, self.height as int),
                ),
                None => (
                    self.current_tile_map_id,
                    moved.held_in(self.width as int, self.height as int),
                ),
            },
        }
    }

    /// The screen next to the one in view, in the given direction.
    pub fn neighbor(&self, direction: Direction) -> (neighbor: Option<TileMapId>)
        ensures
            neighbor == neighbor_of(self.current_tile_map_id, direction),
    {
        match (self.current_tile_map_id, direction) {
            (TileMapId::Hub, Direction::North) => Some(TileMapId::North),
            (TileMapId::Hub, Direction::South) => Some(TileMapId::South),
            (TileMapId::Hub, Direction::West) => Some(TileMapId::West),
            (TileMapId::Hub, Direction::East) => Some(TileMapId::East),
            (TileMapId::North, Direction::South) => Some(TileMapId::Hub),
            (TileMapId::South, Direction::North) => Some(TileMapId::Hub),
            (TileMapId::West, Direction::East) => Some(TileMapId::Hub),
            (TileMapId::East, Direction::West) => Some(TileMapId::Hub),
            _ => None,
        }
    }

    /// Brings the screen in the given direction into view, if there is one,
    /// and returns the rectangle as it enters that screen. Where there is no
    /// screen in that direction nothing changes and `None` is returned: it is
    /// for the caller to hold the rectangle back.
    pub fn try_navigate(&mut self, direction: Direction, player: ScreenRectangle) -> (entered:
        Option<ScreenRectangle>)
        requires
            old(self).wf(),
            old(self).fits(player),
        ensures
            final(self).width == old(self).width,
            final(self).height == old(self).height,
            (match neighbor_of(old(self).current_tile_map_id, direction) {
                Some(neighbor) => final(self).current_tile_map_id == neighbor && entered is Some
                    && entered->Some_0.edges() == player.entering(
                    direction,
                    old(self).width as int,
                    old(self).height as int,
                ),
                None => final(self).current_tile_map_id == old(self).current_tile_map_id
                    && entered is None,
            }),
    {
        let neighbor = match self.neighbor(direction) {
            Some(neighbor) => neighbor,
            None => {
                return None;
            },
        };
        self.current_tile_map_id = neighbor;
        let height = player.bottom - player.top;
        let width = player.right - player.left;
        let (top, left) = match direction {
            Direction::North => (self.height - height, player.left),
            Direction::South => (0, player.left),
            Direction::West => (player.top, self.width - width),
            Direction::East => (player.top, 0),
        };
        Some(ScreenRectangle { top, left, bottom: top + height, right: left + width })
    }

    /// Brings the screen to the north into view, if there is one.
    pub fn try_navigate_north(&mut self, player: ScreenRectangle) -> (entered: Option<
        ScreenRectangle,
    >)
        requires
            old(self).wf(),
            old(self).fits(player),
        ensures
            final(self).width == old(self).width,
            final(self).height == old(self).height,
            (match neighbor_of(old(self).current_tile_map_id, Direction::North) {
                Some(neighbor) => final(self).current_tile_map_id == neighbor && entered is Some
                    && entered->Some_0.edges() == player.entering(
                    Direction::North,
                    old(self).width as int,
                    old(self).height as int,
                ),
                None => final(self).current_tile_map_id == old(self).current_tile_map_id
                    && entered is None,
            }),
    {
        self.try_navigate(Direction::North, player)
    }

    /// Brings the screen to the south into view, if there is one.
    pub fn try_navigate_south(&mut self, player: ScreenRectangle) -> (entered: Option<
        ScreenRectangle,
    >)
        requires
            old(self).wf(),
            old(self).fits(player),
        ensures
            final(self).width == old(self).width,
            final(self).height == old(self).height,
            (match neighbor_of(old(self).current_tile_map_id, Direction::South) {
                Some(neighbor) => final(self).current_tile_map_id == neighbor && entered is Some
                    && entered->Some_0.edges() == player.entering(
                    Direction::South,
                    old(self).width as int,
                    old(self).height as int,
                ),
                None => final(self).current_tile_map_id == old(self).current_tile_map_id
                    && entered is None,
            }),
    {
        self.try_navigate(Direction::South, player)
    }

    /// Brings the screen to the west into view, if there is one.
    pub fn try_navigate_west(&mut self, player: ScreenRectangle) -> (entered: Option<
        ScreenRectangle,
    >)
        requires
            old(self).wf(),
            old(self).fits(player),
        ensures
            final(self).width == old(self).width,
            final(self).height == old(self).height,
            (match neighbor_of(old(self).current_tile_map_id, Direction::West) {
                Some(neighbor) => final(self).current_tile_map_id == neighbor && entered is Some
                    && entered->Some_0.edges() == player.entering(
                    Direction::West,
                    old(self).width as int,
                    old(self).height as int,
                ),
                None => final(self).current_tile_map_id == old(self).current_tile_map_id
                    && entered is None,
            }),
    {
        self.try_navigate(Direction::West, player)
    }

    /// Brings the screen to the east into view, if there is one.
    pub fn try_navigate_east(&mut self, player: ScreenRectangle) -> (entered: Option<
        ScreenRectangle,
    >)
        requires
            old(self).wf(),
            old(self).fits(player),
        ensures
            final(self).width == old(self).width,
            final(self).height == old(self).height,
            (match neighbor_of(old(self).current_tile_map_id, Direction::East) {
                Some(neighbor) => final(self).current_tile_map_id == neighbor && entered is Some
                    && entered->Some_0.edges() == player.entering(
                    Direction::East,
                    old(self).width as int,
                    old(self).height as int,
                ),
                None => final(self).current_tile_map_id == old(self).current_tile_map_id
                    && entered is None,
            }),
    {
        self.try_navigate(Direction::East, player)
    }

    /// Moves the rectangle by `(delta_x, delta_y)` and, where that takes it
    /// out of view, into the neighbouring screen or back to the edge.
    ///
    /// The upper and lower sides are looked at before the left and right
    /// ones: a rectangle that leaves through a corner goes north or south.
    pub fn move_player(&mut self, player: ScreenRectangle, delta_x: i64, delta_y: i64) -> (moved:
        ScreenRectangle)
        requires
            old(self).wf(),
            old(self).fits(player),
            i64::MIN <= player.left + delta_x,
            player.right + delta_x <= i64::MAX,
            i64::MIN <= player.top + delta_y,
            player.bottom + delta_y <= i64::MAX,
        ensures
            final(self).width == old(self).width,
            final(self).height == old(self).height,
            (final(self).current_tile_map_id, moved.edges()) == old(self).after_move(
                ScreenRectangle {
                    top: (player.top + delta_y) as i64,
                    left: (player.left + delta_x) as i64,
                    bottom: (player.bottom + delta_y) as i64,
                    right: (player.right + delta_x) as i64,
                },
            ),
    {
        let shifted = ScreenRectangle {
            top: player.top + delta_y,
            left: player.left + delta_x,
            bottom: player.bottom + delta_y,
            right: player.right + delta_x,
        };
        let entered = if shifted.top < 0 {
            self.try_navigate_north(shifted)
        } else if shifted.bottom > self.height {
            self.try_navigate_south(shifted)
        } else if shifted.left < 0 {
            self.try_navigate_west(shifted)
        } else if shifted.right > self.width {
            self.try_navigate_east(shifted)
        } else {
            return shifted;
        };
        match entered {
            Some(entered) => entered,
            None => ScreenRectangle {
                top: Self::hold(shifted.top, 0, self.height),
                left: Self::hold(shifted.left, 0, self.width),
                bottom: Self::hold(shifted.bottom, 0, self.height),
                right: Self::hold(shifted.right, 0, self.width),
            },
        }
    }

    /// Raises `value` to `low` where it is lower, then lowers the result to
    /// `high` where it is higher.
    pub fn hold(value: i64, low: i64, high: i64) -> (result: i64)
        ensures
            result == held(value as int, low as int, high as int),
    {
        let mut result = value;
        if value < low {
            result = low;
        }
        if result > high {
            result = high;
        }
        result
    }
}

} // verus!
