//! How long a frame should take, and how long to wait for its end.

use crate::units::MICROS_PER_SECOND;
use vstd::prelude::*;

verus! {

/// The refresh rate taken for a monitor that does not tell its own.
pub const DEFAULT_REFRESH_RATE: u32 = 60;

/// The refresh rate to go by: the one the monitor reports, unless the
/// question failed or the answer was zero or one, which stand for "the
/// default of the hardware".
pub open spec fn refresh_rate(success: bool, frequency: u32) -> u32 {
    if !success || frequency == 0 || frequency == 1 {
        DEFAULT_REFRESH_RATE
    } else {
        frequency
    }
}

/// The time one frame should take, in microseconds, for a game that updates
/// once in two refreshes of the monitor.
pub open spec fn frame_micros(monitor_refresh_hertz: int) -> int {
    2 * MICROS_PER_SECOND / monitor_refresh_hertz
}

/// The whole milliseconds to sleep before looking at the clock again, or
/// `None` once the frame has taken its time.
pub open spec fn sleep_millis(elapsed_micros: int, frame_duration_micros: int) -> Option<int> {
    if elapsed_micros < frame_duration_micros {
        Some((frame_duration_micros - elapsed_micros) / 1000)
    } else {
        None
    }
}

/// The refresh rate to go by.
pub fn find_monitor_refresh_hertz(success: bool, frequency: u32) -> (hertz: u32)
    ensures
        hertz == refresh_rate(success, frequency),
        hertz >= 2,
{
    if !success {
        return DEFAULT_REFRESH_RATE;
    }
    if frequency == 0 || frequency == 1 {
        return DEFAULT_REFRESH_RATE;
    }
    frequency
}

/// The time one frame should take, in microseconds.
pub fn target_frame_duration(monitor_refresh_hertz: u32) -> (micros: u64)
    requires
        monitor_refresh_hertz > 0,
    ensures
        micros == frame_micros(monitor_refresh_hertz as int),
        micros <= 2 * MICROS_PER_SECOND,
{
    2 * MICROS_PER_SECOND / monitor_refresh_hertz as u64
}

/// How long to sleep before looking at the clock again, in whole
/// milliseconds, or `None` once the frame has taken its time.
pub fn remaining_sleep(elapsed_micros: u64, frame_duration_micros: u64) -> (millis: Option<u64>)
    ensures
        (match millis {
            Some(millis) => sleep_millis(elapsed_micros as int, frame_duration_micros as int)
                == Some(millis as int),
            None => sleep_millis(elapsed_micros as int, frame_duration_micros as int) is None,
        }),
{
    if elapsed_micros < frame_duration_micros {
        Some((frame_duration_micros - elapsed_micros) / 1000)
    } else {
        None
    }
}

} // verus!
