//! Turning the raw readings of the platform into an input state.

use crate::button_state::{saturating_increment, ButtonState};
use crate::joystick_state::ratio_in_range;
use crate::units::RATIO_ONE;
use vstd::prelude::*;

verus! {

/// What is being done with the input of each frame.
#[derive(Debug, Clone, Copy, PartialEq, Eq, Structural)]
pub enum RecordingState {
    /// The input is used as it comes.
    Idle,
    /// The input is used as it comes and written down.
    Recording,
    /// The input written down is used over and over.
    Playing,
}

/// The state after the recording key has gone down: with the control key
/// held, recording and playing stop; without it, recording starts, or stops
/// and is played where it was under way.
pub open spec fn after_recording_key(state: RecordingState, is_control_down: bool) -> RecordingState {
    if is_control_down {
        RecordingState::Idle
    } else {
        match state {
            RecordingState::Idle => RecordingState::Recording,
            RecordingState::Playing => RecordingState::Recording,
            RecordingState::Recording => RecordingState::Playing,
        }
    }
}

/// The distance of a reading from zero.
pub open spec fn reading_size(amount: int) -> int {
    if amount < 0 {
        -amount
    } else {
        amount
    }
}

/// The ratio that a reading of a thumb stick stands for, in millionths.
///
/// A reading inside the dead zone round the centre counts as zero. Outside
/// it the ratio grows evenly from zero at the rim of the dead zone to one at
/// the largest reading on that side; it is rounded toward zero.
pub open spec fn stick_ratio(amount: int, dead_zone: int) -> int {
    if reading_size(amount) <= dead_zone {
        0
    } else if amount < 0 {
        -(((-amount - dead_zone) * RATIO_ONE) / (-(i16::MIN as int) - dead_zone))
    } else {
        ((amount - dead_zone) * RATIO_ONE) / (i16::MAX as int - dead_zone)
    }
}

/// The ratio that a reading of a trigger stands for, in millionths: zero up
/// to the threshold, growing evenly to one at the largest reading.
pub open spec fn pull_ratio(amount: int, threshold: int) -> int {
    if amount <= threshold {
        0
    } else {
        ((amount - threshold) * RATIO_ONE) / (u8::MAX as int - threshold)
    }
}

/// A button of a controller after a reading: it is down where the reading
/// says so, and a reading that agrees with the last one is counted.
pub open spec fn after_reading(button: ButtonState, is_pressed: bool) -> ButtonState {
    ButtonState {
        ended_down: is_pressed,
        half_transition_count: if button.ended_down == is_pressed {
            saturating_increment(button.half_transition_count)
        } else {
            button.half_transition_count
        },
    }
}

/// A key after it has gone down or up: going down is counted, going up sets
/// the count back to zero.
pub open spec fn after_key(button: ButtonState, is_down: bool) -> ButtonState {
    ButtonState {
        ended_down: is_down,
        half_transition_count: if is_down {
            saturating_increment(button.half_transition_count)
        } else {
            0
        },
    }
}

/// A mouse button after a reading: a button that is down is counted once
/// more, a button that is up keeps its count.
pub open spec fn after_mouse_reading(button: ButtonState, is_down: bool) -> ButtonState {
    ButtonState {
        ended_down: is_down,
        half_transition_count: if is_down {
            saturating_increment(button.half_transition_count)
        } else {
            button.half_transition_count
        },
    }
}

impl RecordingState {
    /// The state after the recording key has gone down.
    pub fn toggled(self, is_control_down: bool) -> (next: RecordingState)
        ensures
            next == after_recording_key(self, is_control_down),
    {
        match (self, is_control_down) {
            (RecordingState::Idle, false) => RecordingState::Recording,
            (RecordingState::Playing, false) => RecordingState::Recording,
            (RecordingState::Recording, false) => RecordingState::Playing,
            (_, true) => RecordingState::Idle,
        }
    }
}

/// The ratio that a reading of a thumb stick stands for.
#[must_use]
pub fn thumb_stick_ratio(amount: i16, dead_zone: u16) -> (ratio: i64)
    ensures
        ratio == stick_ratio(amount as int, dead_zone as int),
        ratio_in_range(ratio as int),
{
    let size: i64 = if amount < 0 {
        0 - amount as i64
    } else {
        amount as i64
    };
    if size <= dead_zone as i64 {
        0
    } else if amount < 0 {
        let span: i64 = 0x8000 - dead_zone as i64;
        let part: i64 = size - dead_zone as i64;
        proof {
            lemma_part_of_span(part as int, span as int);
        }
        0 - (part * RATIO_ONE) / span
    } else {
        let span: i64 = 0x7FFF - dead_zone as i64;
        let part: i64 = size - dead_zone as i64;
        proof {
            lemma_part_of_span(part as int, span as int);
        }
        (part * RATIO_ONE) / span
    }
}

/// The ratio that a reading of a trigger stands for.
#[must_use]
pub fn trigger_ratio(amount: u8, threshold: u8) -> (ratio: i64)
    ensures
        ratio == pull_ratio(amount as int, threshold as int),
        ratio_in_range(ratio as int),
{
    if amount <= threshold {
        0
    } else {
        let span: i64 = 0xFF - threshold as i64;
        let part: i64 = amount as i64 - threshold as i64;
        proof {
            lemma_part_of_span(part as int, span as int);
        }
        (part * RATIO_ONE) / span
    }
}

/// A part of a span, taken in millionths, lies between zero and one.
pub proof fn lemma_part_of_span(part: int, span: int)
    requires
        0 <= part <= span,
        0 < span <= 0x1_0000,
    ensures
        0 <= part * RATIO_ONE <= 0x1_0000 * RATIO_ONE,
        0 <= (part * RATIO_ONE) / span <= RATIO_ONE,
{
    assert(0 <= part * RATIO_ONE <= span * RATIO_ONE) by (nonlinear_arith)
        requires
            0 <= part <= span,
            RATIO_ONE == 1_000_000,
    ;
    assert(span * RATIO_ONE <= 0x1_0000 * RATIO_ONE) by (nonlinear_arith)
        requires
            span <= 0x1_0000,
            RATIO_ONE == 1_000_000,
    ;
    vstd::arithmetic::div_mod::lemma_div_pos_is_pos(part * RATIO_ONE, span);
    vstd::arithmetic::div_mod::lemma_div_is_ordered(part * RATIO_ONE, span * RATIO_ONE, span);
    vstd::arithmetic::div_mod::lemma_div_multiples_vanish(RATIO_ONE as int, span);
    vstd::arithmetic::mul::lemma_mul_is_commutative(RATIO_ONE as int, span);
}

/// Records a reading of a button of a controller.
pub fn set_button_state(button_state: &mut ButtonState, is_pressed: bool)
    ensures
        *final(button_state) == after_reading(*old(button_state), is_pressed),
{
    let was_pressed = button_state.ended_down();
    if was_pressed == is_pressed {
        button_state.increment_half_transition_count();
    }
    button_state.set_ended_down(is_pressed);
}

/// Records that a key has gone down or up.
pub fn set_key_state(button_state: &mut ButtonState, is_down: bool)
    ensures
        *final(button_state) == after_key(*old(button_state), is_down),
{
    button_state.set_ended_down(is_down);
    if is_down {
        button_state.increment_half_transition_count();
    } else {
        button_state.reset_half_transition_count();
    }
}

/// Records a reading of a mouse button.
pub fn set_mouse_button(button: &mut ButtonState, is_down: bool)
    ensures
        *final(button) == after_mouse_reading(*old(button), is_down),
{
    if is_down {
        button.set_ended_down(true);
        button.increment_half_transition_count();
    } else {
        button.set_ended_down(false);
    }
}

/// What the flags of a keyboard message say about the key.
#[derive(Debug, Clone, Copy, PartialEq, Eq, Structural)]
pub struct KeyMessage {
    /// The key was down before the message.
    pub was_down: bool,
    /// The key is down after the message.
    pub is_down: bool,
    /// The alt key was held.
    pub is_alt_down: bool,
}

/// The bit of the flags of a keyboard message that is set while the alt key
/// is held.
pub const KEY_FLAG_ALT: u32 = 0x2000_0000;

/// The bit that is set where the key was down before the message.
pub const KEY_FLAG_WAS_DOWN: u32 = 0x4000_0000;

/// The bit that is set where the key is being released.
pub const KEY_FLAG_RELEASED: u32 = 0x8000_0000;

impl KeyMessage {
    /// Whether the message only repeats what is known: the key is where it
    /// was.
    pub open spec fn repeats(self) -> bool {
        self.was_down == self.is_down
    }

    /// Exec form of [`KeyMessage::repeats`].
    pub fn is_repeat(&self) -> (repeat: bool)
        ensures
            repeat == self.repeats(),
    {
        self.was_down == self.is_down
    }
}

/// Reads the flags of a keyboard message: the low 32 bits of its second
/// parameter.
pub fn decode_key_message(flags: u32) -> (message: KeyMessage)
    ensures
        message == (KeyMessage {
            was_down: flags & KEY_FLAG_WAS_DOWN != 0,
            is_down: flags & KEY_FLAG_RELEASED == 0,
            is_alt_down: flags & KEY_FLAG_ALT != 0,
        }),
{
    KeyMessage {
        was_down: (flags & KEY_FLAG_WAS_DOWN) != 0,
        is_down: (flags & KEY_FLAG_RELEASED) == 0,
        is_alt_down: (flags & KEY_FLAG_ALT) != 0,
    }
}

} // verus!
