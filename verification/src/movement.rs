//! Moving the player from the input of one frame.

use crate::application_plugin::ApplicationPlugin;
use crate::button_state::ButtonState;
use crate::controller_state::ControllerState;
use crate::game_state::GameState;
use crate::input_state::InputState;
use crate::units::{div_toward_zero, trunc_div, MICROS_PER_SECOND, RATIO_ONE, UNITS_PER_METER};
use crate::world_coordinate::{lemma_shifted_is_well_formed, WorldCoordinate};
use vstd::prelude::*;

verus! {

/// The speed of the player at full tilt, in meters per second.
pub const MAX_SPEED: i64 = 3;

/// The ratio that a pair of opposite buttons stands for: one where only the
/// first is down, minus one where only the second is down, zero otherwise.
pub open spec fn input_delta(positive: ButtonState, negative: ButtonState) -> int {
    if positive.ended_down {
        if negative.ended_down {
            0
        } else {
            RATIO_ONE as int
        }
    } else if negative.ended_down {
        -RATIO_ONE
    } else {
        0
    }
}

/// The ratios along both axes that the keyboard stands for. Down counts as
/// positive.
pub open spec fn keyboard_ratios(keyboard: ControllerState) -> (int, int) {
    (input_delta(keyboard.right, keyboard.left), input_delta(keyboard.down, keyboard.up))
}

/// The ratios of the left stick of the first controller, from number `from`
/// on, that is connected and whose left stick is not at rest; zero where
/// there is none.
pub open spec fn controller_ratios(controllers: Seq<ControllerState>, from: int) -> (int, int)
    decreases controllers.len() - from,
{
    if from < 0 || from >= controllers.len() {
        (0, 0)
    } else if controllers[from].enabled && (controllers[from].left_joystick.x_ratio != 0
        || controllers[from].left_joystick.y_ratio != 0) {
        (
            controllers[from].left_joystick.x_ratio as int,
            controllers[from].left_joystick.y_ratio as int,
        )
    } else {
        controller_ratios(controllers, from + 1)
    }
}

/// The ratios that the input stands for: those of the keyboard, and those of
/// the controllers only where the keyboard gives zero on both axes.
pub open spec fn input_ratios(input: InputState) -> (int, int) {
    let keyboard = keyboard_ratios(input.keyboard);
    if keyboard == (0int, 0int) {
        controller_ratios(input.controllers@, 0)
    } else {
        keyboard
    }
}

/// How far the player gets at full tilt in a frame of `frame_micros`
/// microseconds, in world units.
pub open spec fn max_distance(frame_micros: int) -> int {
    frame_micros * (MAX_SPEED * UNITS_PER_METER) / (MICROS_PER_SECOND as int)
}

/// The movement that the input asks for in this frame, in world units. On the
/// screen down is positive, in the world up is: the vertical ratio changes
/// sign.
pub open spec fn movement(input: InputState, state: GameState) -> (int, int) {
    let ratios = input_ratios(input);
    let distance = max_distance(state.frame_duration as int);
    (
        trunc_div(ratios.0 * distance, RATIO_ONE as int),
        -trunc_div(ratios.1 * distance, RATIO_ONE as int),
    )
}

/// Where the player stands after the frame: at the end of the movement where
/// that place can be named and the footing of the player has all four
/// corners on open ground there; where the player stood, otherwise.
pub open spec fn destination(input: InputState, state: GameState) -> WorldCoordinate {
    let delta = movement(input, state);
    let from = state.player.coordinate;
    if delta == (0int, 0int) {
        from
    } else if !from.can_shift(delta.0, delta.1) {
        from
    } else if state.world.traversable(from.shifted_to(delta.0, delta.1), state.player.footing()) {
        from.shifted_to(delta.0, delta.1)
    } else {
        from
    }
}

/// The ratios of every controller from `from` on lie between minus one and
/// one, so those that stand for all of them do.
pub proof fn lemma_controller_ratios_in_range(controllers: Seq<ControllerState>, from: int)
    requires
        0 <= from,
        forall|i: int| 0 <= i < controllers.len() ==> (#[trigger] controllers[i]).normalized(),
    ensures
        -RATIO_ONE <= controller_ratios(controllers, from).0 <= RATIO_ONE,
        -RATIO_ONE <= controller_ratios(controllers, from).1 <= RATIO_ONE,
    decreases controllers.len() - from,
{
    if from < controllers.len() {
        assert(controllers[from].normalized());
        lemma_controller_ratios_in_range(controllers, from + 1);
    }
}

impl ApplicationPlugin {
    /// Moves the player by what the input asks for, all the way or not at
    /// all.
    pub fn process_input_direct(input: &InputState, state: &mut GameState)
        requires
            input.normalized(),
            old(state).movable(),
        ensures
            final(state).movable(),
            old(state).wf() ==> final(state).wf(),
            final(state).player.coordinate == destination(*input, *old(state)),
            final(state).player.height == old(state).player.height,
            final(state).player.width == old(state).player.width,
            final(state).player.color == old(state).player.color,
            final(state).world == old(state).world,
            final(state).sound == old(state).sound,
            final(state).width == old(state).width,
            final(state).height == old(state).height,
            final(state).frame_duration == old(state).frame_duration,
    {
        let (delta_x, delta_y) = Self::calculate_delta_x_y(input, state);
        if delta_x == 0 && delta_y == 0 {
            return;
        }
        let new_coordinates = match state.player.coordinate.checked_shifted(delta_x, delta_y) {
            Some(new_coordinates) => new_coordinates,
            None => {
                return;
            },
        };
        if !state.world.is_traversable(&new_coordinates, state.player.collision_bounds()) {
            return;
        }
        proof {
            lemma_shifted_is_well_formed(state.player.coordinate, delta_x as int, delta_y as int);
        }
        state.player.set_coordinates(new_coordinates);
    }

    /// The movement that the input asks for in this frame, in world units.
    pub fn calculate_delta_x_y(input: &InputState, state: &GameState) -> (delta: (i64, i64))
        requires
            input.normalized(),
            state.frame_duration <= crate::game_state::MAX_FRAME_MICROS,
        ensures
            (delta.0 as int, delta.1 as int) == movement(*input, *state),
    {
        let keyboard = input.keyboard();
        let mut delta_x = Self::calculate_keyboard_delta_x(keyboard);
        let mut delta_y = Self::calculate_keyboard_delta_y(keyboard);
        if delta_x == 0 && delta_y == 0 {
            let controllers = input.controllers();
            let mut index: usize = 0;
            proof {
                lemma_controller_ratios_in_range(input.controllers@, 0);
            }
            while index < controllers.len()
                invariant_except_break
                    index <= controllers@.len(),
                    delta_x == 0,
                    delta_y == 0,
                    controller_ratios(controllers@, 0) == controller_ratios(
                        controllers@,
                        index as int,
                    ),
                invariant
                    controllers@ == input.controllers@,
                ensures
                    (delta_x as int, delta_y as int) == controller_ratios(controllers@, 0),
                decreases controllers@.len() - index,
            {
                let controller = &controllers[index];
                if controller.enabled() {
                    delta_x = Self::calculate_controller_delta_x(controller);
                    delta_y = Self::calculate_controller_delta_y(controller);
                    if delta_x != 0 || delta_y != 0 {
                        break;
                    }
                }
                index += 1;
            }
        }
        let frame_duration = state.frame_duration();
        let max_distance_units = (frame_duration as i64 * (MAX_SPEED * UNITS_PER_METER)) / (
        MICROS_PER_SECOND as i64);
        proof {
            let ratios = input_ratios(*input);
            assert(0 <= max_distance_units <= 128_550_000);
            assert(-RATIO_ONE <= ratios.0 <= RATIO_ONE);
            assert(-RATIO_ONE <= ratios.1 <= RATIO_ONE);
            assert(-128_550_000_000_000 <= delta_x * max_distance_units <= 128_550_000_000_000)
                by (nonlinear_arith)
                requires
                    -1_000_000 <= delta_x <= 1_000_000,
                    0 <= max_distance_units <= 128_550_000,
            ;
            assert(-128_550_000_000_000 <= delta_y * max_distance_units <= 128_550_000_000_000)
                by (nonlinear_arith)
                requires
                    -1_000_000 <= delta_y <= 1_000_000,
                    0 <= max_distance_units <= 128_550_000,
            ;
        }
        let delta_x = div_toward_zero(delta_x * max_distance_units, RATIO_ONE);
        let delta_y = div_toward_zero(delta_y * max_distance_units, RATIO_ONE);
        (delta_x, -delta_y)
    }

    /// The horizontal ratio that the keyboard stands for.
    #[must_use]
    pub fn calculate_keyboard_delta_x(keyboard: &ControllerState) -> (ratio: i64)
        ensures
            ratio == keyboard_ratios(*keyboard).0,
    {
        Self::calculate_input_delta(*keyboard.right(), *keyboard.left())
    }

    /// The vertical ratio that the keyboard stands for.
    #[must_use]
    pub fn calculate_keyboard_delta_y(keyboard: &ControllerState) -> (ratio: i64)
        ensures
            ratio == keyboard_ratios(*keyboard).1,
    {
        Self::calculate_input_delta(*keyboard.down(), *keyboard.up())
    }

    /// The ratio that a pair of opposite buttons stands for.
    #[must_use]
    pub fn calculate_input_delta(positive: ButtonState, negative: ButtonState) -> (ratio: i64)
        ensures
            ratio == input_delta(positive, negative),
    {
        if positive.ended_down() {
            if negative.ended_down() {
                0
            } else {
                RATIO_ONE
            }
        } else if negative.ended_down() {
            -RATIO_ONE
        } else {
            0
        }
    }

    /// The horizontal ratio of the left stick.
    #[must_use]
    pub fn calculate_controller_delta_x(controller: &ControllerState) -> (ratio: i64)
        ensures
            ratio == controller.left_joystick.x_ratio,
    {
        controller.left_joystick().x_ratio()
    }

    /// The vertical ratio of the left stick.
    #[must_use]
    pub fn calculate_controller_delta_y(controller_state: &ControllerState) -> (ratio: i64)
        ensures
            ratio == controller_state.left_joystick.y_ratio,
    {
        controller_state.left_joystick().y_ratio()
    }
}

} // verus!
