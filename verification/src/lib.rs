//! The core of a tile-based 2D game: geometry, input snapshots, the tile-map
//! world with seam-crossing navigation, a clipped rectangle rasterizer and the
//! bookkeeping of a frame-paced audio ring buffer.
//!
//! All quantities are integers. Lengths are counted in world units
//! (`units::UNITS_PER_PIXEL` to the pixel), ratios in millionths, time in
//! microseconds and oscillator phase in fractions of a turn.

pub mod application;
pub mod application_error;
pub mod application_loader;
pub mod application_plugin;
pub mod application_state;
pub mod button_state;
pub mod color;
pub mod controller_state;
pub mod frame_pacing;
pub mod game_state;
pub mod input_capture;
pub mod input_state;
pub mod joystick_state;
pub mod levels;
pub mod mouse_state;
pub mod movement;
pub mod navigation;
pub mod performance_counter;
pub mod pixel;
pub mod playback_recorder;
pub mod player;
pub mod point_2d;
pub mod rectangle;
pub mod render;
pub mod sound_output;
pub mod sound_state;
pub mod stereo_sample;
pub mod tile_map;
pub mod tile_map_coordinate;
pub mod tile_map_key;
pub mod u8_color;
pub mod units;
pub mod world;
pub mod world_coordinate;
