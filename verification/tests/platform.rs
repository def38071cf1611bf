use handmade_hero::application_loader::{ApplicationLoader, LoadAction};
use handmade_hero::input_capture::{
    decode_key_message, KeyMessage, KEY_FLAG_ALT, KEY_FLAG_RELEASED, KEY_FLAG_WAS_DOWN,
};
use handmade_hero::performance_counter::PerformanceCounter;
use handmade_hero::playback_recorder::{
    PlaybackAction, PlaybackRecorder, RecordAction, RecorderMode,
};
use handmade_hero::sound_output::{create_buffer_format, BufferFormat};

#[test]
fn test_decode_key_message() {
    assert_eq!(
        KeyMessage { was_down: false, is_down: true, is_alt_down: false },
        decode_key_message(0)
    );
    assert_eq!(
        KeyMessage { was_down: true, is_down: false, is_alt_down: false },
        decode_key_message(0xC000_0000)
    );
    assert_eq!(
        KeyMessage { was_down: true, is_down: true, is_alt_down: true },
        decode_key_message(0x6000_0001)
    );
    assert_eq!(
        KeyMessage { was_down: false, is_down: false, is_alt_down: true },
        decode_key_message(KEY_FLAG_RELEASED | KEY_FLAG_ALT)
    );
    assert_eq!(0x4000_0000, KEY_FLAG_WAS_DOWN);
}

#[test]
fn test_repeated_key_messages() {
    // A key that was down and is down repeats; so does one that was up and
    // is up.
    assert!(decode_key_message(KEY_FLAG_WAS_DOWN).is_repeat());
    assert!(decode_key_message(KEY_FLAG_RELEASED).is_repeat());
    assert!(!decode_key_message(0).is_repeat());
    assert!(!decode_key_message(KEY_FLAG_WAS_DOWN | KEY_FLAG_RELEASED).is_repeat());
}

#[test]
fn test_recorder_creates_the_file_then_appends() {
    let mut recorder = PlaybackRecorder::new();
    assert_eq!(RecorderMode::Idle, recorder.mode);
    assert_eq!(RecordAction::Create, recorder.record());
    recorder.created();
    recorder.recorded();
    assert_eq!(RecordAction::Append, recorder.record());
    recorder.recorded();
    recorder.recorded();
    assert_eq!(RecorderMode::Recording, recorder.mode);
    assert_eq!(3, recorder.total_recordings);
}

#[test]
fn test_recorder_plays_every_frame_once_then_starts_again() {
    let mut recorder = PlaybackRecorder::new();
    recorder.created();
    recorder.recorded();
    recorder.recorded();
    assert!(!recorder.reset_playback());
    assert_eq!(PlaybackAction::Open, recorder.playback());
    recorder.opened();
    assert_eq!(2, recorder.remaining_recordings);
    recorder.played(true);
    assert_eq!(PlaybackAction::Read, recorder.playback());
    recorder.played(true);
    assert_eq!(0, recorder.remaining_recordings);
    assert_eq!(PlaybackAction::Skip, recorder.playback());
    assert!(recorder.reset_playback());
    recorder.opened();
    assert_eq!(2, recorder.remaining_recordings);
    assert_eq!(PlaybackAction::Read, recorder.playback());
    assert_eq!(2, recorder.total_recordings);
}

#[test]
fn test_recorder_gives_up_playing_when_a_frame_cannot_be_read() {
    let mut recorder = PlaybackRecorder::new();
    recorder.created();
    recorder.recorded();
    recorder.opened();
    recorder.played(false);
    assert_eq!(RecorderMode::Idle, recorder.mode);
    assert_eq!(PlaybackAction::Skip, recorder.playback());
    assert!(!recorder.reset_playback());
    // Recording again starts the file anew.
    assert_eq!(RecordAction::Create, recorder.record());
    recorder.created();
    assert_eq!(0, recorder.total_recordings);
}

#[test]
fn test_idle_recorder_has_nothing_to_play() {
    let recorder = PlaybackRecorder::default();
    assert_eq!(PlaybackAction::Skip, recorder.playback());
    assert!(!recorder.reset_playback());
    assert_eq!(PlaybackRecorder::new(), recorder);
}

#[test]
fn test_recording_while_playing_starts_the_file_anew() {
    let mut recorder = PlaybackRecorder::new();
    recorder.created();
    recorder.recorded();
    recorder.opened();
    assert_eq!(RecordAction::Create, recorder.record());
}

#[test]
fn test_loader_copies_first_then_when_the_file_is_newer() {
    let mut loader = ApplicationLoader::new();
    assert_eq!(LoadAction::First, loader.load(100));
    loader.copied(100);
    assert_eq!(LoadAction::Keep, loader.load(100));
    assert_eq!(LoadAction::Keep, loader.load(99));
    assert_eq!(LoadAction::Replace, loader.load(101));
    loader.copy_failed();
    loader.copy_failed();
    loader.copied(101);
    assert_eq!(2, loader.last_counter);
    assert_eq!(Some(101), loader.last_modified);
    assert_eq!(LoadAction::Keep, loader.load(101));
    assert_eq!(ApplicationLoader::new(), ApplicationLoader::default());
    assert_eq!(LoadAction::First, ApplicationLoader::default().load(0));
}

#[test]
fn test_performance_counter() {
    let mut counter = PerformanceCounter::start(1_000);
    assert_eq!(0, counter.metrics(1_000).elapsed_time());
    assert_eq!(33_333, counter.metrics(34_333).elapsed_time());
    // A clock that has gone backwards measures nothing.
    assert_eq!(0, counter.metrics(999).elapsed_time());
    counter.restart(34_333);
    assert_eq!(10, counter.metrics(34_343).elapsed_time());
    assert_eq!(u64::MAX, PerformanceCounter::start(0).metrics(u64::MAX).elapsed_time());
}

#[test]
fn test_buffer_format() {
    assert_eq!(
        BufferFormat {
            channel_count: 2,
            samples_per_second: 48_000,
            bits_per_sample: 16,
            block_align: 4,
            average_bytes_per_second: 192_000,
        },
        create_buffer_format(2, 48_000, 16)
    );
    let mono = create_buffer_format(1, 44_100, 8);
    assert_eq!(1, mono.block_align);
    assert_eq!(44_100, mono.average_bytes_per_second);
    // Twelve bits are one byte and a half: the half is dropped.
    assert_eq!(1, create_buffer_format(1, 8_000, 12).block_align);
}
