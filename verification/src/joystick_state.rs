//! The state of one thumb stick.

use crate::units::RATIO_ONE;
use vstd::prelude::*;

verus! {

/// How far a stick is pushed along each axis, in millionths of its full
/// travel: `RATIO_ONE` is all the way to the right or down.
#[derive(Debug, Clone, Copy)]
pub struct JoystickState {
    pub x_ratio: i64,
    pub y_ratio: i64,
}

/// Whether a ratio lies between minus one and one.
pub open spec fn ratio_in_range(ratio: int) -> bool {
    -RATIO_ONE <= ratio <= RATIO_ONE
}

impl JoystickState {
    /// Both ratios lie between minus one and one.
    pub open spec fn normalized(self) -> bool {
        ratio_in_range(self.x_ratio as int) && ratio_in_range(self.y_ratio as int)
    }

    /// The horizontal ratio.
    #[must_use]
    pub fn x_ratio(self) -> (ratio: i64)
        ensures
            ratio == self.x_ratio,
    {
        self.x_ratio
    }

    /// Records the horizontal ratio.
    pub fn set_x_ratio(&mut self, value: i64)
        ensures
            *final(self) == (JoystickState { x_ratio: value, ..*old(self) }),
    {
        self.x_ratio = value;
    }

    /// The vertical ratio.
    #[must_use]
    pub fn y_ratio(self) -> (ratio: i64)
        ensures
            ratio == self.y_ratio,
    {
        self.y_ratio
    }

    /// Records the vertical ratio.
    pub fn set_y_ratio(&mut self, value: i64)
        ensures
            *final(self) == (JoystickState { y_ratio: value, ..*old(self) }),
    {
        self.y_ratio = value;
    }

    /// Exec form of [`JoystickState::normalized`].
    pub fn is_normalized(self) -> (normalized: bool)
        ensures
            normalized == self.normalized(),
    {
        -RATIO_ONE <= self.x_ratio && self.x_ratio <= RATIO_ONE && -RATIO_ONE <= self.y_ratio
            && self.y_ratio <= RATIO_ONE
    }
}

impl Default for JoystickState {
    /// A stick at rest.
    fn default() -> (state: Self)
        ensures
            state == (JoystickState { x_ratio: 0, y_ratio: 0 }),
    {
        JoystickState { x_ratio: 0, y_ratio: 0 }
    }
}

} // verus!
