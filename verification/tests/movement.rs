use handmade_hero::application::{Application, InputContext};
use handmade_hero::application_plugin::ApplicationPlugin;
use handmade_hero::button_state::ButtonState;
use handmade_hero::color::Color;
use handmade_hero::controller_state::ControllerState;
use handmade_hero::game_state::GameState;
use handmade_hero::input_state::InputState;
use handmade_hero::player::Player;
use handmade_hero::point_2d::Point2d;
use handmade_hero::sound_state::SoundState;
use handmade_hero::tile_map_coordinate::TileMapCoordinate;
use handmade_hero::tile_map_key::TileMapKey;
use handmade_hero::units::RATIO_ONE;
use handmade_hero::world::World;
use handmade_hero::world_coordinate::WorldCoordinate;

const ORIGIN: TileMapKey = TileMapKey { x: 0, y: 0 };

/// A third of a tenth of a second: a frame at thirty frames per second.
const FRAME: u64 = 33_333;

/// How far the player gets in such a frame at full tilt: 3 meters per second
/// are 128_550 units per second.
const STEP: i64 = 4284;

/// A world of one 3 x 3 map of tiles 10_000 units wide whose middle tile is a
/// wall, and a player 3000 units wide and 4000 units high on the given tile.
fn walled_state(tile: (usize, usize), offset: (i64, i64)) -> GameState {
    let mut world = World {
        rows: 3,
        columns: 3,
        tile_maps: Vec::new(),
        x_offset: 0,
        y_offset: 0,
        tile_size: 10_000,
    };
    world.add_tile_map(ORIGIN).set(1, 1, 1);
    let coordinate = WorldCoordinate::new(
        &world,
        ORIGIN,
        TileMapCoordinate::at_x_y_offset(tile.0, tile.1, Point2d::from_x_y(offset.0, offset.1)),
    );
    let state = GameState {
        width: 30,
        height: 30,
        sound: SoundState::new(),
        player: Player { coordinate, height: 4000, width: 3000, color: Color::from_rgb(255, 255, 0) },
        frame_duration: FRAME,
        world,
    };
    assert!(state.is_well_formed());
    state
}

fn place(state: &GameState) -> ((isize, isize), (usize, usize), (i64, i64)) {
    let coordinate = state.player().coordinate();
    (
        (coordinate.tile_map_x(), coordinate.tile_map_y()),
        (coordinate.tile_x(), coordinate.tile_y()),
        (coordinate.tile_offset().x(), coordinate.tile_offset().y()),
    )
}

fn down() -> ButtonState {
    ButtonState { ended_down: true, half_transition_count: 1 }
}

fn keys(up: bool, down_key: bool, left: bool, right: bool) -> InputState {
    let mut input = InputState::new();
    let keyboard = input.keyboard_mut();
    keyboard.up_mut().set_ended_down(up);
    keyboard.down_mut().set_ended_down(down_key);
    keyboard.left_mut().set_ended_down(left);
    keyboard.right_mut().set_ended_down(right);
    input
}

fn stick(x_ratio: i64, y_ratio: i64, enabled: bool) -> ControllerState {
    let mut controller = ControllerState::default();
    controller.set_enabled(enabled);
    controller.left_joystick_mut().set_x_ratio(x_ratio);
    controller.left_joystick_mut().set_y_ratio(y_ratio);
    controller
}

#[test]
fn test_input_delta() {
    let up = ButtonState::default();
    assert_eq!(RATIO_ONE, ApplicationPlugin::calculate_input_delta(down(), up));
    assert_eq!(-RATIO_ONE, ApplicationPlugin::calculate_input_delta(up, down()));
    assert_eq!(0, ApplicationPlugin::calculate_input_delta(down(), down()));
    assert_eq!(0, ApplicationPlugin::calculate_input_delta(up, up));
}

#[test]
fn test_keyboard_deltas() {
    let input = keys(false, true, false, true);
    assert_eq!(RATIO_ONE, ApplicationPlugin::calculate_keyboard_delta_x(input.keyboard()));
    assert_eq!(RATIO_ONE, ApplicationPlugin::calculate_keyboard_delta_y(input.keyboard()));
    let input = keys(true, false, true, false);
    assert_eq!(-RATIO_ONE, ApplicationPlugin::calculate_keyboard_delta_x(input.keyboard()));
    assert_eq!(-RATIO_ONE, ApplicationPlugin::calculate_keyboard_delta_y(input.keyboard()));
}

#[test]
fn test_controller_deltas() {
    let controller = stick(250_000, -750_000, true);
    assert_eq!(250_000, ApplicationPlugin::calculate_controller_delta_x(&controller));
    assert_eq!(-750_000, ApplicationPlugin::calculate_controller_delta_y(&controller));
}

#[test]
fn test_delta_scales_with_frame_duration() {
    let mut state = walled_state((0, 0), (0, 0));
    let input = keys(false, false, false, true);
    assert_eq!((STEP, 0), ApplicationPlugin::calculate_delta_x_y(&input, &state));
    state.set_frame_duration(1_000_000);
    assert_eq!((128_550, 0), ApplicationPlugin::calculate_delta_x_y(&input, &state));
    state.set_frame_duration(0);
    assert_eq!((0, 0), ApplicationPlugin::calculate_delta_x_y(&input, &state));
}

#[test]
fn test_up_on_the_keyboard_is_up_in_the_world() {
    let state = walled_state((0, 0), (0, 0));
    assert_eq!((0, STEP), ApplicationPlugin::calculate_delta_x_y(&keys(true, false, false, false), &state));
    assert_eq!((0, -STEP), ApplicationPlugin::calculate_delta_x_y(&keys(false, true, false, false), &state));
    assert_eq!((-STEP, 0), ApplicationPlugin::calculate_delta_x_y(&keys(false, false, true, false), &state));
    assert_eq!((0, 0), ApplicationPlugin::calculate_delta_x_y(&keys(true, true, true, true), &state));
}

#[test]
fn test_keyboard_pre_empts_controller() {
    let state = walled_state((0, 0), (0, 0));
    let mut input = keys(false, false, false, true);
    *input.get_or_insert_controller_mut(0) = stick(-RATIO_ONE, RATIO_ONE, true);
    assert_eq!((STEP, 0), ApplicationPlugin::calculate_delta_x_y(&input, &state));
}

#[test]
fn test_first_connected_controller_with_a_push_counts() {
    let state = walled_state((0, 0), (0, 0));
    let mut input = InputState::new();
    *input.get_or_insert_controller_mut(0) = stick(RATIO_ONE, 0, false);
    *input.get_or_insert_controller_mut(1) = stick(0, 0, true);
    *input.get_or_insert_controller_mut(2) = stick(500_000, -250_000, true);
    *input.get_or_insert_controller_mut(3) = stick(-RATIO_ONE, -RATIO_ONE, true);
    // Half of 4284 units to the right; a quarter, rounded toward zero, up.
    assert_eq!((2142, 1071), ApplicationPlugin::calculate_delta_x_y(&input, &state));
}

#[test]
fn test_no_input_gives_no_movement() {
    let mut state = walled_state((0, 0), (5000, 5000));
    let mut input = InputState::new();
    assert_eq!((0, 0), ApplicationPlugin::calculate_delta_x_y(&input, &state));
    *input.get_or_insert_controller_mut(0) = stick(0, 0, true);
    assert_eq!((0, 0), ApplicationPlugin::calculate_delta_x_y(&input, &state));
    ApplicationPlugin::process_input_direct(&input, &mut state);
    assert_eq!(((0, 0), (0, 0), (5000, 5000)), place(&state));
}

#[test]
fn test_small_ratios_round_toward_zero_in_both_directions() {
    let state = walled_state((0, 0), (0, 0));
    let mut input = InputState::new();
    *input.get_or_insert_controller_mut(0) = stick(100, -100, true);
    // A ten-thousandth of 4284 units is less than one unit.
    assert_eq!((0, 0), ApplicationPlugin::calculate_delta_x_y(&input, &state));
    *input.get_or_insert_controller_mut(0) = stick(-1000, 1000, true);
    assert_eq!((-4, -4), ApplicationPlugin::calculate_delta_x_y(&input, &state));
}

#[test]
fn test_player_moves_over_open_ground() {
    let mut state = walled_state((0, 0), (1000, 1000));
    ApplicationPlugin::process_input_direct(&keys(false, false, false, true), &mut state);
    assert_eq!(((0, 0), (0, 0), (1000 + STEP, 1000)), place(&state));
    ApplicationPlugin::process_input_direct(&keys(true, false, false, false), &mut state);
    assert_eq!(((0, 0), (0, 0), (1000 + STEP, 1000 + STEP)), place(&state));
    assert!(state.is_well_formed());
}

#[test]
fn test_player_is_blocked_by_wall() {
    // The player stands on the tile left of the wall, its right edge 1000
    // units short of it. A step to the right would put both right corners
    // into the wall tile (1, 1).
    let mut state = walled_state((0, 1), (6000, 2000));
    let before = place(&state);
    ApplicationPlugin::process_input_direct(&keys(false, false, false, true), &mut state);
    assert_eq!(before, place(&state));
    // Nothing slides: a step up and to the right is refused as a whole.
    ApplicationPlugin::process_input_direct(&keys(true, false, false, true), &mut state);
    assert_eq!(before, place(&state));
    // A step to the left is free.
    ApplicationPlugin::process_input_direct(&keys(false, false, true, false), &mut state);
    assert_eq!(((0, 0), (0, 1), (6000 - STEP, 2000)), place(&state));
}

#[test]
fn test_player_is_blocked_when_only_its_footing_touches_the_wall() {
    // Only the upper corners of the footing, 1000 units above its base, would
    // reach into the wall above.
    let mut state = walled_state((1, 0), (1000, 9000 - STEP));
    let before = place(&state);
    ApplicationPlugin::process_input_direct(&keys(true, false, false, false), &mut state);
    assert_eq!(before, place(&state));
    // One unit lower the footing stays clear of the wall after the step.
    let mut state = walled_state((1, 0), (1000, 9000 - STEP - 1));
    ApplicationPlugin::process_input_direct(&keys(true, false, false, false), &mut state);
    assert_eq!(((0, 0), (1, 0), (1000, 8999)), place(&state));
}

#[test]
fn test_player_cannot_leave_into_a_missing_map() {
    let mut state = walled_state((0, 0), (1000, 1000));
    let before = place(&state);
    ApplicationPlugin::process_input_direct(&keys(false, false, true, false), &mut state);
    assert_eq!(before, place(&state));
    ApplicationPlugin::process_input_direct(&keys(false, true, false, false), &mut state);
    assert_eq!(before, place(&state));
}

#[test]
fn test_player_crosses_seam_into_neighbouring_map() {
    let mut state = walled_state((0, 0), (1000, 1000));
    state.world_mut().add_tile_map(TileMapKey { x: -1, y: 0 });
    ApplicationPlugin::process_input_direct(&keys(false, false, true, false), &mut state);
    assert_eq!(((-1, 0), (2, 0), (10_000 + 1000 - STEP, 1000)), place(&state));
    assert!(state.is_well_formed());
    ApplicationPlugin::process_input_direct(&keys(false, false, false, true), &mut state);
    assert_eq!(((0, 0), (0, 0), (1000, 1000)), place(&state));
}

#[test]
fn test_process_input_changes_only_the_place_of_the_player() {
    let mut state = walled_state((0, 0), (1000, 1000));
    state.sound_mut().set_hertz(300);
    ApplicationPlugin {}.process_input(InputContext {
        input: &keys(false, false, false, true),
        state: &mut state,
    });
    assert_eq!(((0, 0), (0, 0), (1000 + STEP, 1000)), place(&state));
    assert_eq!(300, state.sound().hertz());
    assert_eq!(FRAME, state.frame_duration());
    assert_eq!(4000, state.player().height);
    assert_eq!(3000, state.player().width);
    assert_eq!(1, state.world().tile_maps.len());
    assert_eq!(Some(1), state.world().get_tile_map(ORIGIN).unwrap().get(1, 1));
}
