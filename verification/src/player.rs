//! The player.

use crate::color::Color;
use crate::point_2d::Point2d;
use crate::rectangle::Rectangle;
use crate::tile_map_coordinate::TileMapCoordinate;
use crate::tile_map_key::TileMapKey;
use crate::world::{World, MAX_TILES, MAX_TILE_SIZE};
use crate::world_coordinate::WorldCoordinate;
use vstd::prelude::*;

verus! {

/// Where the player stands, how large the player is drawn, and in which
/// colour.
#[derive(Debug, Clone, Copy)]
pub struct Player {
    pub coordinate: WorldCoordinate,
    pub height: i64,
    pub width: i64,
    pub color: Color,
}

impl Player {
    /// The coordinate is well formed, its measures are within the limits of
    /// the library, and the extents are not negative and no longer than the
    /// longest tile.
    pub open spec fn wf(self) -> bool {
        &&& self.coordinate.wf()
        &&& self.coordinate.tile_size <= MAX_TILE_SIZE
        &&& self.coordinate.rows <= MAX_TILES
        &&& self.coordinate.columns <= MAX_TILES
        &&& 0 <= self.height <= MAX_TILE_SIZE
        &&& 0 <= self.width <= MAX_TILE_SIZE
    }

    /// The rectangle that the player is drawn in, relative to the lower left
    /// corner of the tile the player stands on.
    pub open spec fn drawn(self) -> Rectangle<i64> {
        let offset = self.coordinate.tile_map_coordinate.offset;
        Rectangle {
            top: (offset.y + self.height) as i64,
            left: offset.x,
            bottom: offset.y,
            right: (offset.x + self.width) as i64,
        }
    }

    /// The rectangle that must stand on open ground: as wide as the player
    /// is drawn and a quarter as high.
    pub open spec fn footing(self) -> Rectangle<i64> {
        let offset = self.coordinate.tile_map_coordinate.offset;
        Rectangle {
            top: (offset.y + self.height / 4) as i64,
            left: offset.x,
            bottom: offset.y,
            right: (offset.x + self.width) as i64,
        }
    }

    /// A yellow player at the lower left corner of the map `tile_map_key`,
    /// nine tenths of a tile high and three quarters of a tile wide.
    pub open spec fn placed(world: World, tile_map_key: TileMapKey) -> Self {
        Player {
            coordinate: WorldCoordinate {
                tile_map_key,
                tile_map_coordinate: TileMapCoordinate {
                    x: 0,
                    y: 0,
                    offset: Point2d { x: 0, y: 0 },
                },
                tile_size: world.tile_size,
                rows: world.rows,
                columns: world.columns,
            },
            height: (world.tile_size * 9 / 10) as i64,
            width: (world.tile_size * 3 / 4) as i64,
            color: Color { red: 0xFF, green: 0xFF, blue: 0x00, alpha: 0 },
        }
    }

    /// A yellow player at the lower left corner of the map `tile_map_key`,
    /// nine tenths of a tile high and three quarters of a tile wide.
    #[must_use]
    pub fn new(world: &World, tile_map_key: TileMapKey) -> (player: Self)
        requires
            world.wf(),
        ensures
            player == Self::placed(*world, tile_map_key),
            tile_map_key.in_range() ==> player.wf(),
    {
        let tile_map_coordinate = TileMapCoordinate::at_x_y(0, 0);
        let coordinate = WorldCoordinate::new(world, tile_map_key, tile_map_coordinate);
        let height = world.tile_size() * 9 / 10;
        let width = world.tile_size() * 3 / 4;
        let color = Color::from_rgb(0xFF, 0xFF, 0x00);
        Player { coordinate, height, width, color }
    }

    /// The rectangle that the player is drawn in, relative to the lower left
    /// corner of the tile the player stands on.
    #[must_use]
    pub fn render_bounds(&self) -> (bounds: Rectangle<i64>)
        requires
            self.wf(),
        ensures
            bounds == self.drawn(),
    {
        let offset = self.coordinate.tile_offset();
        Rectangle::new(offset.y(), offset.x(), self.height, self.width)
    }

    /// The rectangle that must stand on open ground.
    #[must_use]
    pub fn collision_bounds(&self) -> (bounds: Rectangle<i64>)
        requires
            self.wf(),
        ensures
            bounds == self.footing(),
    {
        let offset = self.coordinate.tile_offset();
        let bound_height = self.height / 4;
        let bound_width = self.width;
        Rectangle::new(offset.y(), offset.x(), bound_height, bound_width)
    }

    /// The colour the player is drawn in.
    #[must_use]
    pub fn color(&self) -> (color: Color)
        ensures
            color == self.color,
    {
        self.color
    }

    /// The key of the tile map the player stands on.
    #[must_use]
    pub fn tile_map_key(&self) -> (key: TileMapKey)
        ensures
            key == self.coordinate.tile_map_key,
    {
        self.coordinate.tile_map_key()
    }

    /// Where the player stands.
    #[must_use]
    pub fn coordinate(&self) -> (coordinate: &WorldCoordinate)
        ensures
            *coordinate == self.coordinate,
    {
        &self.coordinate
    }

    /// Puts the player at `coordinate`.
    pub fn set_coordinates(&mut self, coordinate: WorldCoordinate)
        ensures
            *final(self) == (Player { coordinate, ..*old(self) }),
    {
        self.coordinate = coordinate;
    }

    /// Exec form of [`Player::wf`].
    pub fn is_well_formed(&self) -> (well_formed: bool)
        ensures
            well_formed == self.wf(),
    {
        self.coordinate.is_well_formed() && self.coordinate.tile_size <= MAX_TILE_SIZE
            && self.coordinate.rows <= MAX_TILES && self.coordinate.columns <= MAX_TILES && 0
            <= self.height && self.height <= MAX_TILE_SIZE && 0 <= self.width && self.width
            <= MAX_TILE_SIZE
    }
}

} // verus!
