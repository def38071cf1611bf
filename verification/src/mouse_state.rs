//! The state of the mouse over a frame.

use crate::button_state::ButtonState;
use crate::controller_state::released;
use vstd::prelude::*;

verus! {

/// The place of the pointer inside the window and the three buttons.
#[derive(Debug, Clone, Copy)]
pub struct MouseState {
    pub x: u32,
    pub y: u32,
    pub left: ButtonState,
    pub middle: ButtonState,
    pub right: ButtonState,
}

/// A pointer at the origin with all three buttons released.
pub open spec fn idle() -> MouseState {
    MouseState { x: 0, y: 0, left: released(), middle: released(), right: released() }
}

impl MouseState {
    /// The horizontal place of the pointer.
    #[must_use]
    pub fn x(&self) -> (x: u32)
        ensures
            x == self.x,
    {
        self.x
    }

    /// Records the horizontal place of the pointer.
    pub fn set_x(&mut self, value: u32)
        ensures
            *final(self) == (MouseState { x: value, ..*old(self) }),
    {
        self.x = value;
    }

    /// The vertical place of the pointer.
    #[must_use]
    pub fn y(&self) -> (y: u32)
        ensures
            y == self.y,
    {
        self.y
    }

    /// Records the vertical place of the pointer.
    pub fn set_y(&mut self, value: u32)
        ensures
            *final(self) == (MouseState { y: value, ..*old(self) }),
    {
        self.y = value;
    }

    /// The left button.
    #[must_use]
    pub fn left(&self) -> (button: &ButtonState)
        ensures
            *button == self.left,
    {
        &self.left
    }

    /// The left button, to be changed.
    #[must_use]
    pub fn left_mut(&mut self) -> (button: &mut ButtonState)
        ensures
            *button == old(self).left,
            *final(self) == (MouseState { left: *final(button), ..*old(self) }),
    {
        &mut self.left
    }

    /// The middle button.
    #[must_use]
    pub fn middle(&self) -> (button: &ButtonState)
        ensures
            *button == self.middle,
    {
        &self.middle
    }

    /// The middle button, to be changed.
    #[must_use]
    pub fn middle_mut(&mut self) -> (button: &mut ButtonState)
        ensures
            *button == old(self).middle,
            *final(self) == (MouseState { middle: *final(button), ..*old(self) }),
    {
        &mut self.middle
    }

    /// The right button.
    #[must_use]
    pub fn right(&self) -> (button: &ButtonState)
        ensures
            *button == self.right,
    {
        &self.right
    }

    /// The right button, to be changed.
    #[must_use]
    pub fn right_mut(&mut self) -> (button: &mut ButtonState)
        ensures
            *button == old(self).right,
            *final(self) == (MouseState { right: *final(button), ..*old(self) }),
    {
        &mut self.right
    }
}

impl Default for MouseState {
    /// A pointer at the origin with all three buttons released.
    fn default() -> (state: Self)
        ensures
            state == idle(),
    {
        MouseState {
            x: 0,
            y: 0,
            left: ButtonState::default(),
            middle: ButtonState::default(),
            right: ButtonState::default(),
        }
    }
}

} // verus!
