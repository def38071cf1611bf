//! Everything the game remembers from one frame to the next.

use crate::player::Player;
use crate::sound_state::{initial_tone, SoundState};
use crate::tile_map_key::TileMapKey;
use crate::units::{div_toward_zero, from_millimeters, millimeters_to_units, trunc_div};
use crate::world::World;
use vstd::prelude::*;

verus! {

/// The longest frame the game accounts for, in microseconds.
pub const MAX_FRAME_MICROS: u64 = 1_000_000_000;

/// The size of the picture in pixels, the tone, the player, the time one
/// frame takes in microseconds, and the world.
#[derive(Debug, Clone)]
pub struct GameState {
    pub width: u16,
    pub height: u16,
    pub sound: SoundState,
    pub player: Player,
    pub frame_duration: u64,
    pub world: World,
}

impl GameState {
    /// What it takes to paint the picture: world and player are well formed
    /// and the player is measured by the measures of the world.
    pub open spec fn drawable(self) -> bool {
        &&& self.world.wf()
        &&& self.player.wf()
        &&& self.player.coordinate.tile_size == self.world.tile_size
        &&& self.player.coordinate.rows == self.world.rows
        &&& self.player.coordinate.columns == self.world.columns
    }

    /// What it takes to move the player: the player is well formed and a
    /// frame is no longer than the longest frame.
    pub open spec fn movable(self) -> bool {
        &&& self.player.wf()
        &&& self.frame_duration <= MAX_FRAME_MICROS
    }

    /// Every part is well formed, the player is measured by the measures of
    /// the world, and a frame is no longer than the longest frame.
    pub open spec fn wf(self) -> bool {
        &&& self.drawable()
        &&& self.movable()
        &&& self.sound.wf()
    }

    /// Whether this is the state the game starts in: no picture yet, the
    /// tone at its first pitch, a world without maps whose tiles are 1.4
    /// meters wide and whose picture is moved by fixed parts of a tile, and
    /// the player in the map at the origin.
    pub open spec fn is_initial(self) -> bool {
        &&& self.width == 0
        &&& self.height == 0
        &&& self.frame_duration == 0
        &&& self.sound == initial_tone()
        &&& self.world.rows == World::TILE_ROWS
        &&& self.world.columns == World::TILE_COLUMNS
        &&& self.world.tile_size == millimeters_to_units(1400)
        &&& self.world.x_offset == -trunc_div(self.world.tile_size * 10, 16)
        &&& self.world.y_offset == -trunc_div(self.world.tile_size * 10, 35)
        &&& self.world.tile_maps@.len() == 0
        &&& self.player == Player::placed(self.world, TileMapKey { x: 0, y: 0 })
    }

    /// The state the game starts in: no picture yet, an empty world of tiles
    /// 1.4 meters wide, and the player in the map at the origin.
    #[must_use]
    pub fn new() -> (state: Self)
        ensures
            state.is_initial(),
            state.wf(),
    {
        let sound = SoundState::new();
        let tile_size = from_millimeters(1400);
        let x_offset = -div_toward_zero(tile_size * 10, 16);
        let y_offset = -div_toward_zero(tile_size * 10, 35);
        let current_tile_map_key = TileMapKey { x: 0, y: 0 };
        let world = World {
            rows: World::TILE_ROWS,
            columns: World::TILE_COLUMNS,
            x_offset,
            y_offset,
            tile_maps: Vec::new(),
            tile_size,
        };
        let player = Player::new(&world, current_tile_map_key);
        GameState { width: 0, height: 0, sound, player, frame_duration: 0, world }
    }

    /// The tone.
    #[must_use]
    pub fn sound(&self) -> (sound: &SoundState)
        ensures
            *sound == self.sound,
    {
        &self.sound
    }

    /// The tone, to be changed.
    #[must_use]
    pub fn sound_mut(&mut self) -> (sound: &mut SoundState)
        ensures
            *sound == old(self).sound,
            final(self).sound == *final(sound),
            final(self).width == old(self).width,
            final(self).height == old(self).height,
            final(self).player == old(self).player,
            final(self).frame_duration == old(self).frame_duration,
            final(self).world == old(self).world,
    {
        &mut self.sound
    }

    /// The width of the picture in pixels.
    #[must_use]
    pub fn width(&self) -> (width: u16)
        ensures
            width == self.width,
    {
        self.width
    }

    /// Records the width of the picture.
    pub fn set_width(&mut self, value: u16)
        ensures
            final(self).width == value,
            final(self).height == old(self).height,
            final(self).sound == old(self).sound,
            final(self).player == old(self).player,
            final(self).frame_duration == old(self).frame_duration,
            final(self).world == old(self).world,
    {
        self.width = value;
    }

    /// The height of the picture in pixels.
    #[must_use]
    pub fn height(&self) -> (height: u16)
        ensures
            height == self.height,
    {
        self.height
    }

    /// Records the height of the picture.
    pub fn set_height(&mut self, value: u16)
        ensures
            final(self).height == value,
            final(self).width == old(self).width,
            final(self).sound == old(self).sound,
            final(self).player == old(self).player,
            final(self).frame_duration == old(self).frame_duration,
            final(self).world == old(self).world,
    {
        self.height = value;
    }

    /// The time one frame takes, in microseconds.
    #[must_use]
    pub fn frame_duration(&self) -> (micros: u64)
        ensures
            micros == self.frame_duration,
    {
        self.frame_duration
    }

    /// Records the time one frame takes, in microseconds.
    pub fn set_frame_duration(&mut self, value: u64)
        ensures
            final(self).frame_duration == value,
            final(self).width == old(self).width,
            final(self).height == old(self).height,
            final(self).sound == old(self).sound,
            final(self).player == old(self).player,
            final(self).world == old(self).world,
    {
        self.frame_duration = value;
    }

    /// The player.
    #[must_use]
    pub fn player(&self) -> (player: &Player)
        ensures
            *player == self.player,
    {
        &self.player
    }

    /// The player, to be changed.
    #[must_use]
    pub fn player_mut(&mut self) -> (player: &mut Player)
        ensures
            *player == old(self).player,
            final(self).player == *final(player),
            final(self).width == old(self).width,
            final(self).height == old(self).height,
            final(self).sound == old(self).sound,
            final(self).frame_duration == old(self).frame_duration,
            final(self).world == old(self).world,
    {
        &mut self.player
    }

    /// The world.
    #[must_use]
    pub fn world(&self) -> (world: &World)
        ensures
            *world == self.world,
    {
        &self.world
    }

    /// The world, to be changed.
    #[must_use]
    pub fn world_mut(&mut self) -> (world: &mut World)
        ensures
            *world == old(self).world,
            final(self).world == *final(world),
            final(self).width == old(self).width,
            final(self).height == old(self).height,
            final(self).sound == old(self).sound,
            final(self).player == old(self).player,
            final(self).frame_duration == old(self).frame_duration,
    {
        &mut self.world
    }

    /// Exec form of [`GameState::wf`].
    pub fn is_well_formed(&self) -> (well_formed: bool)
        ensures
            well_formed == self.wf(),
    {
        self.world.is_well_formed() && self.player.is_well_formed() && self.sound.is_well_formed()
            && self.player.coordinate.tile_size == self.world.tile_size
            && self.player.coordinate.rows == self.world.rows && self.player.coordinate.columns
            == self.world.columns && self.frame_duration <= MAX_FRAME_MICROS
    }
}

impl Default for GameState {
    /// The state the game starts in.
    fn default() -> (state: Self)
        ensures
            state.is_initial(),
            state.wf(),
    {
        Self::new()
    }
}

} // verus!
