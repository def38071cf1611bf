//! The interface between the platform and the game.
//!
//! The platform owns the state, the input, the picture and the sound buffer
//! and lends them to the game once per frame: first the input, then the
//! picture, then the sound.

use crate::application_plugin::{rendered, ApplicationPlugin};
use crate::color::Color;
use crate::game_state::GameState;
use crate::input_state::InputState;
use crate::levels::{holds_the_levels, starting_coordinate};
use crate::movement::destination;
use crate::sound_state::{phase_after, synthesized, SoundState};
use crate::stereo_sample::StereoSample;
use crate::world::World;
use vstd::prelude::*;

verus! {

/// What the platform lends to the game when the game starts.
#[derive(Debug)]
pub struct InitializeContext<'a> {
    pub state: &'a mut GameState,
}

/// What the platform lends to the game for the input of a frame.
#[derive(Debug)]
pub struct InputContext<'a> {
    pub input: &'a InputState,
    pub state: &'a mut GameState,
}

/// What the platform lends to the game for the picture of a frame. The
/// buffer holds the picture row by row, from the top row down.
#[derive(Debug)]
pub struct RenderContext<'a> {
    pub input: &'a InputState,
    pub state: &'a mut GameState,
    pub buffer: &'a mut [Color],
}

/// What the platform lends to the game for the sound of a frame: one turn of
/// the wave, and as many samples to fill as the device needs.
#[derive(Debug)]
pub struct AudioContext<'a> {
    pub state: &'a mut GameState,
    pub wave: &'a [i16],
    pub sound_buffer: &'a mut [StereoSample],
}

/// Whether a state is one that a game may be started in: well formed, with
/// maps of the size made for the game, and with no map yet.
pub open spec fn ready_to_start(state: GameState) -> bool {
    &&& state.wf()
    &&& state.world.rows == World::TILE_ROWS
    &&& state.world.columns == World::TILE_COLUMNS
    &&& state.world.tile_maps@.len() == 0
}

/// A game, as the platform sees it. The methods are called once per frame in
/// the order input, picture, sound, after one call to `initialize`.
pub trait Application {
    /// Prepares the state for the first frame.
    fn initialize(&self, context: InitializeContext<'_>)
        requires
            ready_to_start(*context.state),
        ensures
            final(context.state).world.wf(),
            final(context.state).sound == old(context.state).sound,
            final(context.state).width == old(context.state).width,
            final(context.state).height == old(context.state).height,
            final(context.state).frame_duration == old(context.state).frame_duration,
    ;

    /// Applies the input of the frame to the state.
    fn process_input(&self, context: InputContext<'_>)
        requires
            context.input.normalized(),
            context.state.wf(),
        ensures
            final(context.state).wf(),
            final(context.state).width == old(context.state).width,
            final(context.state).height == old(context.state).height,
            final(context.state).sound.samples_per_seconds == old(
                context.state,
            ).sound.samples_per_seconds,
    ;

    /// Paints the picture of the frame.
    fn render(&self, context: RenderContext<'_>)
        requires
            context.state.wf(),
            context.buffer@.len() == context.state.width * context.state.height,
        ensures
            final(context.state).wf(),
            final(context.state).width == old(context.state).width,
            final(context.state).height == old(context.state).height,
            final(context.state).sound.samples_per_seconds == old(
                context.state,
            ).sound.samples_per_seconds,
    ;

    /// Fills the sound buffer with the sound of the frame.
    fn write_sound(&self, context: AudioContext<'_>)
        requires
            context.state.wf(),
            context.wave@.len() == context.state.sound.samples_per_seconds,
        ensures
            final(context.state).wf(),
            final(context.state).width == old(context.state).width,
            final(context.state).height == old(context.state).height,
            final(context.state).sound.samples_per_seconds == old(
                context.state,
            ).sound.samples_per_seconds,
    ;
}

impl Application for ApplicationPlugin {
    /// Puts the player near the middle of the picture and the five maps of
    /// the game into the world.
    fn initialize(&self, context: InitializeContext<'_>)
        ensures
            holds_the_levels(final(context.state).world),
            final(context.state).player.coordinate == starting_coordinate(*old(context.state)),
            final(context.state).player.height == old(context.state).player.height,
            final(context.state).player.width == old(context.state).player.width,
            final(context.state).player.color == old(context.state).player.color,
            final(context.state).world.rows == old(context.state).world.rows,
            final(context.state).world.columns == old(context.state).world.columns,
            final(context.state).world.tile_size == old(context.state).world.tile_size,
            final(context.state).world.x_offset == old(context.state).world.x_offset,
            final(context.state).world.y_offset == old(context.state).world.y_offset,
            final(context.state).player.coordinate.wf() ==> final(context.state).wf(),
    {
        let InitializeContext { state } = context;
        Self::initialize_direct(state);
    }

    /// Moves the player by what the input asks for, all the way or not at
    /// all, and changes nothing else.
    fn process_input(&self, context: InputContext<'_>)
        ensures
            final(context.state).player.coordinate == destination(
                *context.input,
                *old(context.state),
            ),
            final(context.state).player.height == old(context.state).player.height,
            final(context.state).player.width == old(context.state).player.width,
            final(context.state).player.color == old(context.state).player.color,
            final(context.state).world == old(context.state).world,
            final(context.state).sound == old(context.state).sound,
            final(context.state).frame_duration == old(context.state).frame_duration,
    {
        let InputContext { input, state } = context;
        Self::process_input_direct(input, state);
    }

    /// Paints the tiles around the player and the player, and leaves the
    /// state as it is.
    fn render(&self, context: RenderContext<'_>)
        ensures
            final(context.buffer)@ == rendered(*old(context.state), old(context.buffer)@),
            *final(context.state) == *old(context.state),
    {
        let RenderContext { input: _input, state, buffer } = context;
        Self::render_direct(state, buffer);
    }

    /// Fills the sound buffer with the tone and advances the phase of the
    /// tone past the last sample.
    fn write_sound(&self, context: AudioContext<'_>)
        ensures
            final(context.sound_buffer)@ == synthesized(
                context.wave@,
                old(context.state).sound.theta as int,
                old(context.state).sound.step(),
                old(context.sound_buffer)@.len(),
            ),
            final(context.state).sound == (SoundState {
                theta: phase_after(
                    old(context.state).sound.theta as int,
                    old(context.state).sound.step(),
                    old(context.sound_buffer)@.len() as int,
                    old(context.state).sound.samples_per_seconds as int,
                ) as u32,
                ..old(context.state).sound
            }),
            final(context.state).player == old(context.state).player,
            final(context.state).world == old(context.state).world,
            final(context.state).frame_duration == old(context.state).frame_duration,
    {
        let AudioContext { state, wave, sound_buffer } = context;
        state.sound.write_sound(wave, sound_buffer);
    }
}

} // verus!
