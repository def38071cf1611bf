//! The state of one button over a frame.

use vstd::prelude::*;

verus! {

/// Whether a button was down when the frame ended, and how often it changed
/// between up and down during the frame.
#[derive(Debug, Clone, Copy)]
pub struct ButtonState {
    pub ended_down: bool,
    pub half_transition_count: u16,
}

/// A count raised by one, which stays at the highest count once it is there.
pub open spec fn saturating_increment(count: u16) -> u16 {
    if count == u16::MAX {
        count
    } else {
        (count + 1) as u16
    }
}

impl ButtonState {
    /// Whether the button was down when the frame ended.
    #[must_use]
    pub fn ended_down(self) -> (ended_down: bool)
        ensures
            ended_down == self.ended_down,
    {
        self.ended_down
    }

    /// Records whether the button is down.
    pub fn set_ended_down(&mut self, value: bool)
        ensures
            *final(self) == (ButtonState { ended_down: value, ..*old(self) }),
    {
        self.ended_down = value;
    }

    /// The number of changes between up and down.
    #[must_use]
    pub fn half_transition_count(self) -> (count: u16)
        ensures
            count == self.half_transition_count,
    {
        self.half_transition_count
    }

    /// Counts one more change; the count stays at `u16::MAX` once there.
    pub fn increment_half_transition_count(&mut self)
        ensures
            *final(self) == (ButtonState {
                half_transition_count: saturating_increment(old(self).half_transition_count),
                ..*old(self)
            }),
    {
        self.half_transition_count = self.half_transition_count.saturating_add(1);
    }

    /// Sets the number of changes back to zero.
    pub fn reset_half_transition_count(&mut self)
        ensures
            *final(self) == (ButtonState { half_transition_count: 0, ..*old(self) }),
    {
        self.half_transition_count = 0;
    }

    /// Sets the button to up with no changes counted.
    pub fn clear(&mut self)
        ensures
            *final(self) == (ButtonState { ended_down: false, half_transition_count: 0 }),
    {
        self.ended_down = false;
        self.half_transition_count = 0;
    }
}

impl Default for ButtonState {
    /// A button that is up with no changes counted.
    fn default() -> (state: Self)
        ensures
            state == (ButtonState { ended_down: false, half_transition_count: 0 }),
    {
        ButtonState { ended_down: false, half_transition_count: 0 }
    }
}

} // verus!
