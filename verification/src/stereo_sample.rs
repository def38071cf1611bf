//! One frame of two-channel sound.

use vstd::prelude::*;

verus! {

/// A signed 16-bit value for each of the two channels.
#[derive(Debug, Clone, Copy)]
pub struct StereoSample {
    pub left: i16,
    pub right: i16,
}

impl StereoSample {
    /// The number of channels of a sample.
    pub const CHANNEL_COUNT: u16 = 2;

    /// The sample with the given value on each channel.
    pub fn from_left_right(left: i16, right: i16) -> (sample: Self)
        ensures
            sample == (StereoSample { left, right }),
    {
        StereoSample { left, right }
    }
}

impl Default for StereoSample {
    /// Silence on both channels.
    fn default() -> (sample: Self)
        ensures
            sample == (StereoSample { left: 0, right: 0 }),
    {
        StereoSample { left: 0, right: 0 }
    }
}

} // verus!
