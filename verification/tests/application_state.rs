use handmade_hero::application_state::{ApplicationState, JUMP_START, JUMP_STEP};
use handmade_hero::controller_state::ControllerState;
use handmade_hero::input_state::InputState;
use handmade_hero::pixel::Pixel;
use handmade_hero::units::RATIO_ONE;

fn sized(width: u16, height: u16) -> ApplicationState {
    let mut state = ApplicationState::new();
    state.set_width(width);
    state.set_height(height);
    state
}

fn connected() -> ControllerState {
    let mut controller = ControllerState::default();
    controller.set_enabled(true);
    controller
}

fn with_controller(controller: ControllerState) -> InputState {
    let mut input = InputState::new();
    *input.get_or_insert_controller_mut(0) = controller;
    input
}

#[test]
fn test_new_application_state() {
    let state = ApplicationState::new();
    assert_eq!((0, 0), (state.x_offset(), state.y_offset()));
    assert_eq!((0, 0), (state.player_x(), state.player_y()));
    assert_eq!((0, 0), (state.width(), state.height()));
    assert_eq!(0, state.jump_time());
    assert_eq!(0, state.sound_theta());
    assert_eq!(500, state.sound_volume());
    assert_eq!(2, state.sound_channel_count());
    assert_eq!(48_000, state.sound_samples_per_second());
    assert_eq!(16, state.sound_bits_per_sample());
    assert_eq!(4, state.sound_bytes_per_sample());
    assert_eq!(192_000, state.sound_buffer_size());
    assert_eq!(256, state.time_delta());
    assert_eq!(10, ApplicationState::PLAYER_WIDTH);
    assert_eq!(10, ApplicationState::PLAYER_HEIGHT);
    assert_eq!(0, ApplicationState::default().jump_time());
}

#[test]
fn test_shift_wraps_at_both_ends() {
    assert_eq!(65_535, ApplicationState::shift(0, -1));
    assert_eq!(0, ApplicationState::shift(65_535, 1));
    assert_eq!(32_768, ApplicationState::shift(0, i16::MIN));
    assert_eq!(32_766, ApplicationState::shift(65_535, i16::MAX));
    assert_eq!(105, ApplicationState::shift(100, 5));
    assert_eq!(95, ApplicationState::shift(100, -5));
    let mut state = ApplicationState::new();
    state.shift_x(-3);
    state.shift_y(4);
    assert_eq!((65_533, 4), (state.x_offset(), state.y_offset()));
    state.shift_x(3);
    state.shift_y(-5);
    assert_eq!((0, 65_535), (state.x_offset(), state.y_offset()));
}

#[test]
fn test_keyboard_scrolls_five_pixels_a_press() {
    let mut state = sized(100, 100);
    let mut input = InputState::new();
    input.keyboard_mut().left_mut().half_transition_count = 2;
    input.keyboard_mut().up_mut().half_transition_count = 3;
    state.handle_input(&input);
    assert_eq!((10, 15), (state.x_offset(), state.y_offset()));
    let mut input = InputState::new();
    input.keyboard_mut().right_mut().half_transition_count = 3;
    input.keyboard_mut().down_mut().half_transition_count = 4;
    state.handle_input(&input);
    assert_eq!((65_531, 65_531), (state.x_offset(), state.y_offset()));
}

#[test]
fn test_keyboard_scroll_saturates() {
    assert_eq!(5, ApplicationState::keyboard_step(1, 0));
    assert_eq!(-5, ApplicationState::keyboard_step(0, 1));
    assert_eq!(i16::MAX, ApplicationState::keyboard_step(10_000, 0));
    assert_eq!(i16::MIN, ApplicationState::keyboard_step(0, 10_000));
    // Counts above 32_767 read as negative numbers.
    assert_eq!(-5, ApplicationState::keyboard_step(u16::MAX, 0));
    assert_eq!(5, ApplicationState::keyboard_step(u16::MAX, u16::MAX - 1));
}

#[test]
fn test_disconnected_keyboard_and_controller_are_ignored() {
    let mut state = sized(100, 100);
    let mut input = InputState::new();
    input.keyboard_mut().set_enabled(false);
    input.keyboard_mut().left_mut().half_transition_count = 2;
    let mut controller = ControllerState::default();
    controller.left_mut().set_ended_down(true);
    controller.a_mut().set_ended_down(true);
    *input.get_or_insert_controller_mut(0) = controller;
    state.handle_input(&input);
    assert_eq!((0, 0), (state.x_offset(), state.y_offset()));
    assert_eq!((0, 0), (state.player_x(), state.player_y()));
    assert_eq!(0, state.jump_time());
    assert_eq!(256, state.sound.hertz());
}

#[test]
fn test_controller_steers_and_scrolls() {
    let mut state = sized(100, 100);
    state.set_player_x(50);
    state.set_player_y(50);
    let mut controller = connected();
    controller.left_mut().set_ended_down(true);
    controller.up_mut().set_ended_down(true);
    state.handle_input(&with_controller(controller));
    // A step of five: the picture scrolls back by five, the box moves on.
    assert_eq!((65_531, 65_531), (state.x_offset(), state.y_offset()));
    assert_eq!((45, 45), (state.player_x(), state.player_y()));
    let mut controller = connected();
    controller.right_mut().set_ended_down(true);
    controller.down_mut().set_ended_down(true);
    state.handle_input(&with_controller(controller));
    assert_eq!((0, 0), (state.x_offset(), state.y_offset()));
    assert_eq!((50, 50), (state.player_x(), state.player_y()));
}

#[test]
fn test_sticks_steer_by_their_sum() {
    let mut state = sized(100, 100);
    state.set_player_x(50);
    state.set_player_y(50);
    let mut controller = connected();
    controller.left_joystick_mut().set_x_ratio(RATIO_ONE / 2);
    controller.right_joystick_mut().set_x_ratio(RATIO_ONE / 4);
    controller.left_joystick_mut().set_y_ratio(-RATIO_ONE);
    state.handle_input(&with_controller(controller));
    // Minus three quarters of five pixels, rounded toward zero, across; minus
    // five pixels down.
    assert_eq!((3, 5), (state.x_offset(), state.y_offset()));
    assert_eq!((53, 55), (state.player_x(), state.player_y()));
    assert_eq!(-3, ApplicationState::ratio_step(-750_000));
    assert_eq!(3, ApplicationState::ratio_step(750_000));
    assert_eq!(10, ApplicationState::ratio_step(2_000_000));
    assert_eq!(i16::MAX, ApplicationState::ratio_step(i64::MAX as i128));
    assert_eq!(i16::MIN, ApplicationState::ratio_step(i64::MIN as i128));
}

#[test]
fn test_box_stays_in_the_picture() {
    let mut state = sized(100, 60);
    state.set_player_x(95);
    assert_eq!(90, state.player_x());
    state.set_player_y(50);
    assert_eq!(50, state.player_y());
    state.set_player_y(51);
    assert_eq!(50, state.player_y());
    state.set_player_x(0);
    assert_eq!(0, state.player_x());
    // At the left edge a step to the left bounces back.
    assert_eq!(2, ApplicationState::step_from(3, 5));
    assert_eq!(95, ApplicationState::step_from(100, 5));
    assert_eq!(105, ApplicationState::step_from(100, -5));
    assert_eq!(32_768, ApplicationState::step_from(32_767, -1));
    assert_eq!(32_767, ApplicationState::step_from(32_768, 1));
}

#[test]
fn test_pitch_follows_the_vertical_ratios() {
    let mut state = sized(100, 100);
    state.handle_input(&with_controller(connected()));
    assert_eq!(512, state.sound.hertz());
    let mut controller = connected();
    controller.up_mut().set_ended_down(true);
    state.handle_input(&with_controller(controller));
    assert_eq!(640, state.sound.hertz());
    let mut controller = connected();
    controller.down_mut().set_ended_down(true);
    controller.right_joystick_mut().set_y_ratio(-RATIO_ONE);
    state.handle_input(&with_controller(controller));
    assert_eq!(256, state.sound.hertz());
    let mut controller = connected();
    controller.left_joystick_mut().set_y_ratio(RATIO_ONE);
    controller.right_joystick_mut().set_y_ratio(RATIO_ONE);
    state.handle_input(&with_controller(controller));
    assert_eq!(768, state.sound.hertz());
    let mut controller = connected();
    controller.left_joystick_mut().set_y_ratio(1);
    state.handle_input(&with_controller(controller));
    assert_eq!(512, state.sound.hertz());
    let mut controller = connected();
    controller.left_joystick_mut().set_y_ratio(-1);
    state.handle_input(&with_controller(controller));
    assert_eq!(511, state.sound.hertz());
    // The phase is kept when the pitch changes.
    state.advance_sound_theta(100);
    state.set_hertz_using_controller(&connected());
    assert_eq!(100, state.sound_theta());
}

#[test]
fn test_pitch_is_kept_in_range() {
    let mut state = sized(100, 100);
    let mut controller = connected();
    controller.left_joystick_mut().set_y_ratio(i64::MIN);
    controller.right_joystick_mut().set_y_ratio(i64::MIN);
    state.set_hertz_using_controller(&controller);
    assert_eq!(0, state.sound.hertz());
    controller.left_joystick_mut().set_y_ratio(i64::MAX);
    controller.right_joystick_mut().set_y_ratio(i64::MAX);
    state.set_hertz_using_controller(&controller);
    assert_eq!(u32::MAX, state.sound.hertz());
}

#[test]
fn test_jump_rises_at_once_and_decays_by_steps() {
    assert_eq!(1000, JUMP_START);
    assert_eq!(33, JUMP_STEP);
    let mut state = sized(100, 100);
    let mut pressed = connected();
    pressed.a_mut().set_ended_down(true);
    state.handle_input(&with_controller(pressed));
    assert_eq!(1000, state.jump_time());
    // Holding the button does not begin another jump.
    state.handle_input(&with_controller(pressed));
    assert_eq!(967, state.jump_time());
    let mut frames = 1;
    while state.jump_time() > 0 {
        let before = state.jump_time();
        state.handle_input(&with_controller(connected()));
        assert!(state.jump_time() < before);
        assert!(before - state.jump_time() <= 33);
        frames += 1;
    }
    // One thousand thousandths at thirty-three a frame.
    assert_eq!(31, frames);
    state.handle_input(&with_controller(connected()));
    assert_eq!(0, state.jump_time());
    state.jump();
    assert_eq!(1000, state.jump_time());
    state.jump_time = 500;
    state.jump();
    assert_eq!(500, state.jump_time());
}

#[test]
fn test_every_controller_is_applied_in_turn() {
    let mut state = sized(100, 100);
    let mut left = connected();
    left.left_mut().set_ended_down(true);
    let mut input = InputState::new();
    *input.get_or_insert_controller_mut(0) = left;
    *input.get_or_insert_controller_mut(1) = left;
    *input.get_or_insert_controller_mut(3) = left;
    state.handle_input(&input);
    assert_eq!(65_536 - 15, u32::from(state.x_offset()));
}

#[test]
fn test_render_paints_a_scrolling_gradient() {
    let mut state = sized(4, 2);
    state.shift_x(1);
    state.shift_y(2);
    let sentinel = Pixel { red: 9, green: 9, blue: 9, alpha: 9 };
    let mut buffer = vec![sentinel; 10];
    state.render(&mut buffer);
    let painted: Vec<(u8, u8, u8, u8)> = buffer
        .iter()
        .map(|pixel| (pixel.red, pixel.green, pixel.blue, pixel.alpha))
        .collect();
    assert_eq!(
        vec![
            (0, 2, 1, 0),
            (0, 2, 2, 0),
            (0, 2, 3, 0),
            (0, 2, 4, 0),
            (0, 3, 1, 0),
            (0, 3, 2, 0),
            (0, 3, 3, 0),
            (0, 3, 4, 0),
            (9, 9, 9, 9),
            (9, 9, 9, 9),
        ],
        painted
    );
}

#[test]
fn test_gradient_starts_again_every_256_pixels() {
    let mut state = sized(300, 1);
    state.shift_x(-1);
    state.shift_y(255);
    let mut buffer = vec![Pixel::default(); 300];
    state.render(&mut buffer);
    assert_eq!((255, 255), (buffer[0].green, buffer[0].blue));
    assert_eq!((255, 0), (buffer[1].green, buffer[1].blue));
    assert_eq!((255, 255), (buffer[256].green, buffer[256].blue));
    assert_eq!((255, 42), (buffer[299].green, buffer[299].blue));
}

#[test]
fn test_cast_and_saturate() {
    assert_eq!(-1, ApplicationState::cast_signed(u16::MAX));
    assert_eq!(i16::MIN, ApplicationState::cast_signed(32_768));
    assert_eq!(i16::MAX, ApplicationState::cast_signed(32_767));
    assert_eq!(i16::MAX, ApplicationState::saturate(40_000));
    assert_eq!(i16::MIN, ApplicationState::saturate(-40_000));
    assert_eq!(-7, ApplicationState::saturate(-7));
    assert_eq!(i16::MAX, ApplicationState::saturating_neg(i16::MIN));
    assert_eq!(-5, ApplicationState::saturating_neg(5));
}
