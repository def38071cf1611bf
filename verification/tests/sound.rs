use handmade_hero::application::{Application, AudioContext};
use handmade_hero::application_plugin::ApplicationPlugin;
use handmade_hero::game_state::GameState;
use handmade_hero::sound_output::{
    advance_sound_index, calculate_bytes_per_frame, calculate_bytes_to_write,
    calculate_remaining_bytes, calculate_sound_safety_bytes, calculate_target_cursor,
    calculate_write_offset, get_sample_index, plan_sound_write, SoundWrite,
};
use handmade_hero::sound_state::{
    SoundState, BITS_PER_SAMPLE, BYTES_PER_SAMPLE, DEFAULT_VOLUME, SAMPLES_PER_SECOND,
};
use handmade_hero::stereo_sample::StereoSample;

/// One second of sound at 48_000 samples of four bytes.
const BUFFER_LENGTH: u32 = 192_000;

#[test]
fn test_new_sound_state() {
    let sound = SoundState::new();
    assert_eq!(256, sound.hertz());
    assert_eq!(0, sound.theta());
    assert_eq!(48_000, sound.samples_per_second());
    assert_eq!(4, sound.bytes_per_sample());
    assert_eq!(16, sound.bits_per_sample());
    assert_eq!(2, sound.channel_count());
    assert_eq!(500, sound.volume());
    assert_eq!(192_000, sound.buffer_size());
    assert_eq!(256, sound.time_delta());
    assert!(sound.is_well_formed());
    assert_eq!(48_000, SAMPLES_PER_SECOND);
    assert_eq!(4, BYTES_PER_SAMPLE);
    assert_eq!(16, BITS_PER_SAMPLE);
    assert_eq!(500, DEFAULT_VOLUME);
    assert_eq!(2, StereoSample::CHANNEL_COUNT);
    assert_eq!(256, SoundState::default().hertz());
}

#[test]
fn test_stereo_sample() {
    let sample = StereoSample::from_left_right(-3, 7);
    assert_eq!((-3, 7), (sample.left, sample.right));
    let silence = StereoSample::default();
    assert_eq!((0, 0), (silence.left, silence.right));
}

#[test]
fn test_advance_theta_wraps_by_whole_turns() {
    let mut sound = SoundState::new();
    sound.advance_theta(47_999);
    assert_eq!(47_999, sound.theta());
    sound.advance_theta(1);
    assert_eq!(0, sound.theta());
    sound.advance_theta(48_000 * 3 + 5);
    assert_eq!(5, sound.theta());
    sound.advance_theta(u32::MAX);
    assert_eq!((5 + u32::MAX as u64) % 48_000, sound.theta() as u64);
}

#[test]
fn test_time_delta_is_less_than_a_turn() {
    let mut sound = SoundState::new();
    sound.set_hertz(48_000);
    assert_eq!(0, sound.time_delta());
    sound.set_hertz(48_001);
    assert_eq!(1, sound.time_delta());
    sound.set_hertz(0);
    assert_eq!(0, sound.time_delta());
    sound.set_hertz(47_999);
    assert_eq!(47_999, sound.time_delta());
}

#[test]
fn test_phase_advances_by_the_same_step_every_sample() {
    for hertz in [0u32, 1, 256, 440, 23_999, 24_000, 47_999, 48_000, 100_000] {
        let mut sound = SoundState::new();
        sound.set_hertz(hertz);
        let step = sound.time_delta();
        assert!(step < 48_000);
        assert_eq!(hertz % 48_000, step);
        let mut before = sound.theta();
        for _ in 0..1000 {
            sound.advance_theta(step);
            let after = sound.theta();
            assert!(after < 48_000);
            assert_eq!(step, (after + 48_000 - before) % 48_000);
            before = after;
        }
    }
}

fn ramp(length: usize) -> Vec<i16> {
    (0..length).map(|step| step as i16).collect()
}

#[test]
fn test_write_sound_reads_the_wave_at_each_phase() {
    let mut sound = SoundState { samples_per_seconds: 8, hertz: 3, theta: 0, ..SoundState::new() };
    let mut buffer = vec![StereoSample::default(); 5];
    sound.write_sound(&ramp(8), &mut buffer);
    let left: Vec<i16> = buffer.iter().map(|sample| sample.left).collect();
    let right: Vec<i16> = buffer.iter().map(|sample| sample.right).collect();
    assert_eq!(vec![0, 3, 6, 1, 4], left);
    assert_eq!(left, right);
    assert_eq!(7, sound.theta());
    assert_eq!(3, sound.hertz());
}

#[test]
fn test_write_sound_goes_on_where_it_stopped() {
    let mut at_once = SoundState { samples_per_seconds: 10, hertz: 7, theta: 4, ..SoundState::new() };
    let mut in_parts = at_once;
    let mut whole = vec![StereoSample::default(); 9];
    at_once.write_sound(&ramp(10), &mut whole);
    let mut first = vec![StereoSample::default(); 4];
    let mut second = vec![StereoSample::default(); 5];
    in_parts.write_sound(&ramp(10), &mut first);
    in_parts.write_sound(&ramp(10), &mut second);
    first.extend(second);
    let whole: Vec<i16> = whole.iter().map(|sample| sample.left).collect();
    let parts: Vec<i16> = first.iter().map(|sample| sample.left).collect();
    assert_eq!(vec![4, 1, 8, 5, 2, 9, 6, 3, 0], whole);
    assert_eq!(whole, parts);
    assert_eq!(at_once.theta(), in_parts.theta());
    assert_eq!(7, at_once.theta());
}

#[test]
fn test_write_sound_into_empty_buffer_changes_nothing() {
    let mut sound = SoundState { samples_per_seconds: 8, hertz: 3, theta: 5, ..SoundState::new() };
    let mut buffer: Vec<StereoSample> = Vec::new();
    sound.write_sound(&ramp(8), &mut buffer);
    assert_eq!(5, sound.theta());
}

#[test]
fn test_change_of_pitch_takes_effect_with_next_sample() {
    let mut sound = SoundState { samples_per_seconds: 100, hertz: 1, theta: 0, ..SoundState::new() };
    let mut buffer = vec![StereoSample::default(); 3];
    sound.write_sound(&ramp(100), &mut buffer);
    sound.set_hertz(10);
    let mut more = vec![StereoSample::default(); 3];
    sound.write_sound(&ramp(100), &mut more);
    let left: Vec<i16> = buffer.iter().chain(more.iter()).map(|sample| sample.left).collect();
    assert_eq!(vec![0, 1, 2, 3, 13, 23], left);
}

#[test]
fn test_write_sound_of_a_sine_wave() {
    let volume = f64::from(DEFAULT_VOLUME);
    let wave: Vec<i16> = (0..48_000)
        .map(|step| ((f64::from(step) / 48_000.0 * std::f64::consts::TAU).sin() * volume).round() as i16)
        .collect();
    let mut state = GameState::new();
    state.sound_mut().set_hertz(6000);
    let mut buffer = vec![StereoSample::default(); 9];
    ApplicationPlugin {}.write_sound(AudioContext {
        state: &mut state,
        wave: &wave,
        sound_buffer: &mut buffer,
    });
    // Eight samples to the turn: zero, 500 times the sine of 45 degrees, 500...
    let left: Vec<i16> = buffer.iter().map(|sample| sample.left).collect();
    assert_eq!(vec![0, 354, 500, 354, 0, -354, -500, -354, 0], left);
    assert_eq!(6000, state.sound().theta());
    assert!(state.is_well_formed());
}

#[test]
fn test_sound_safety_bytes_are_half_a_frame() {
    // 192_000 bytes a second at thirty frames a second are 6400 bytes a frame.
    assert_eq!(6400, calculate_bytes_per_frame(48_000, 4, 60));
    assert_eq!(3200, calculate_sound_safety_bytes(48_000, 4, 60));
    // At 72 frames a second: 2666.67 bytes a frame.
    assert_eq!(2666, calculate_bytes_per_frame(48_000, 4, 144));
    assert_eq!(1333, calculate_sound_safety_bytes(48_000, 4, 144));
    assert_eq!(0, calculate_bytes_per_frame(0, 4, 60));
}

#[test]
fn test_remaining_bytes() {
    assert_eq!(800, calculate_remaining_bytes(0, 33_333, 800));
    assert_eq!(0, calculate_remaining_bytes(33_333, 33_333, 800));
    assert_eq!(0, calculate_remaining_bytes(50_000, 33_333, 800));
    // 16_667 of 33_333 microseconds are left: 400.008 bytes.
    assert_eq!(400, calculate_remaining_bytes(16_666, 33_333, 800));
    assert_eq!(0, calculate_remaining_bytes(0, 0, 800));
    assert_eq!(u32::MAX, calculate_remaining_bytes(0, u64::MAX, u32::MAX));
    assert_eq!(u32::MAX - 1, calculate_remaining_bytes(1, u64::MAX, u32::MAX));
}

#[test]
fn test_target_cursor_when_audio_is_latent() {
    // The frame has taken all its time: it is expected to end at the play
    // cursor, which the write cursor and the safety margin have passed. The
    // target is one frame past them: 1050 + 200 + 800.
    assert_eq!(2050, calculate_target_cursor(1000, 1050, 200, 800, 0, BUFFER_LENGTH));
    // So it is where they have just reached the expected end: 1050 + 200 =
    // 1000 + 250.
    assert_eq!(2050, calculate_target_cursor(1000, 1050, 200, 800, 250, BUFFER_LENGTH));
}

#[test]
fn test_target_cursor_when_audio_is_on_time() {
    // The frame is expected to end at 1000 + 400, ahead of 1050 + 200: the
    // target is one frame past that end.
    assert_eq!(2200, calculate_target_cursor(1000, 1050, 200, 800, 400, BUFFER_LENGTH));
    assert_eq!(2051, calculate_target_cursor(1000, 1050, 200, 800, 251, BUFFER_LENGTH));
}

#[test]
fn test_target_cursor_wraps_round_the_buffer() {
    // A write cursor behind the play cursor has gone round the buffer.
    assert_eq!(1500, calculate_target_cursor(1000, 500, 200, 800, 0, BUFFER_LENGTH));
    assert_eq!(1500, calculate_target_cursor(1000, 500, 200, 800, 800, BUFFER_LENGTH));
    assert_eq!(50, calculate_target_cursor(191_000, 191_050, 200, 800, 0, BUFFER_LENGTH));
    assert_eq!(600, calculate_target_cursor(191_000, 191_050, 200, 800, 800, BUFFER_LENGTH));
    assert_eq!(
        ((u32::MAX as u64 * 3) % 1000) as u32,
        calculate_target_cursor(0, u32::MAX, u32::MAX, u32::MAX, 0, 1000)
    );
}

#[test]
fn test_write_offset() {
    assert_eq!(0, calculate_write_offset(0, 4, BUFFER_LENGTH));
    assert_eq!(400, calculate_write_offset(100, 4, BUFFER_LENGTH));
    assert_eq!(0, calculate_write_offset(48_000, 4, BUFFER_LENGTH));
    assert_eq!(4, calculate_write_offset(48_001, 4, BUFFER_LENGTH));
    assert_eq!(
        ((u32::MAX as u64 * 4) % 192_000) as u32,
        calculate_write_offset(u32::MAX, 4, BUFFER_LENGTH)
    );
}

#[test]
fn test_bytes_to_write_go_round_the_end() {
    assert_eq!(50, calculate_bytes_to_write(50, 100, 1000));
    assert_eq!(950, calculate_bytes_to_write(100, 50, 1000));
    assert_eq!(0, calculate_bytes_to_write(100, 100, 1000));
    assert_eq!(999, calculate_bytes_to_write(0, 999, 1000));
    assert_eq!(1, calculate_bytes_to_write(999, 0, 1000));
}

#[test]
fn test_plan_sound_write() {
    // The sample after the 250 written so far starts at byte 1000.
    let write = plan_sound_write(1000, 1050, 250, 4, 200, 800, 0, BUFFER_LENGTH).unwrap();
    assert_eq!(
        SoundWrite { write_offset: 1000, bytes_to_write: 1050, target_cursor: 2050, sample_count: 262 },
        write
    );
    let write = plan_sound_write(191_000, 191_050, 47_900, 4, 200, 800, 0, BUFFER_LENGTH).unwrap();
    assert_eq!(
        SoundWrite { write_offset: 191_600, bytes_to_write: 450, target_cursor: 50, sample_count: 112 },
        write
    );
}

#[test]
fn test_plan_sound_write_skips_empty_write() {
    // Early on the cursors stand still and the target is where writing
    // stopped.
    assert_eq!(None, plan_sound_write(0, 0, 250, 4, 200, 800, 0, BUFFER_LENGTH));
    assert_eq!(None, plan_sound_write(0, 0, 0, 4, 0, 0, 0, BUFFER_LENGTH));
}

#[test]
fn test_sample_index() {
    assert_eq!(Some(262), get_sample_index(1050, 4));
    assert_eq!(Some(0), get_sample_index(3, 4));
    assert_eq!(None, get_sample_index(1050, 0));
    assert_eq!(262, advance_sound_index(0, 262));
    assert_eq!(1, advance_sound_index(u32::MAX, 2));
}
