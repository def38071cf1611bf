//! The state of one controller, or of the keyboard seen as one, over a frame.

use crate::button_state::ButtonState;
use crate::joystick_state::JoystickState;
use vstd::prelude::*;

verus! {

/// Twelve buttons, two sticks, two triggers, and whether the controller is
/// connected.
#[derive(Debug, Clone, Copy)]
pub struct ControllerState {
    pub a: ButtonState,
    pub b: ButtonState,
    pub x: ButtonState,
    pub y: ButtonState,
    pub left_shoulder: ButtonState,
    pub right_shoulder: ButtonState,
    pub up: ButtonState,
    pub down: ButtonState,
    pub left: ButtonState,
    pub right: ButtonState,
    pub start: ButtonState,
    pub back: ButtonState,
    pub left_joystick: JoystickState,
    pub right_joystick: JoystickState,
    pub left_trigger_ratio: i64,
    pub right_trigger_ratio: i64,
    pub enabled: bool,
}

/// A button that is up with no changes counted.
pub open spec fn released() -> ButtonState {
    ButtonState { ended_down: false, half_transition_count: 0 }
}

/// A controller that is not connected, with every button released and every
/// stick and trigger at rest.
pub open spec fn at_rest() -> ControllerState {
    ControllerState {
        a: released(),
        b: released(),
        x: released(),
        y: released(),
        left_shoulder: released(),
        right_shoulder: released(),
        up: released(),
        down: released(),
        left: released(),
        right: released(),
        start: released(),
        back: released(),
        left_joystick: JoystickState { x_ratio: 0, y_ratio: 0 },
        right_joystick: JoystickState { x_ratio: 0, y_ratio: 0 },
        left_trigger_ratio: 0,
        right_trigger_ratio: 0,
        enabled: false,
    }
}

impl ControllerState {
    /// The ratios of both sticks lie between minus one and one.
    pub open spec fn normalized(self) -> bool {
        self.left_joystick.normalized() && self.right_joystick.normalized()
    }

    /// The state with all twelve buttons released.
    pub open spec fn cleared(self) -> Self {
        ControllerState {
            a: released(),
            b: released(),
            x: released(),
            y: released(),
            left_shoulder: released(),
            right_shoulder: released(),
            up: released(),
            down: released(),
            left: released(),
            right: released(),
            start: released(),
            back: released(),
            ..self
        }
    }

    /// Whether the controller is connected.
    #[must_use]
    pub fn enabled(&self) -> (enabled: bool)
        ensures
            enabled == self.enabled,
    {
        self.enabled
    }

    /// Records whether the controller is connected.
    pub fn set_enabled(&mut self, value: bool)
        ensures
            *final(self) == (ControllerState { enabled: value, ..*old(self) }),
    {
        self.enabled = value;
    }

    /// The A button.
    #[must_use]
    pub fn a(&self) -> (button: &ButtonState)
        ensures
            *button == self.a,
    {
        &self.a
    }

    /// The A button, to be changed.
    #[must_use]
    pub fn a_mut(&mut self) -> (button: &mut ButtonState)
        ensures
            *button == old(self).a,
            *final(self) == (ControllerState { a: *final(button), ..*old(self) }),
    {
        &mut self.a
    }

    /// The B button.
    #[must_use]
    pub fn b(&self) -> (button: &ButtonState)
        ensures
            *button == self.b,
    {
        &self.b
    }

    /// The B button, to be changed.
    #[must_use]
    pub fn b_mut(&mut self) -> (button: &mut ButtonState)
        ensures
            *button == old(self).b,
            *final(self) == (ControllerState { b: *final(button), ..*old(self) }),
    {
        &mut self.b
    }

    /// The X button.
    #[must_use]
    pub fn x(&self) -> (button: &ButtonState)
        ensures
            *button == self.x,
    {
        &self.x
    }

    /// The X button, to be changed.
    #[must_use]
    pub fn x_mut(&mut self) -> (button: &mut ButtonState)
        ensures
            *button == old(self).x,
            *final(self) == (ControllerState { x: *final(button), ..*old(self) }),
    {
        &mut self.x
    }

    /// The Y button.
    #[must_use]
    pub fn y(&self) -> (button: &ButtonState)
        ensures
            *button == self.y,
    {
        &self.y
    }

    /// The Y button, to be changed.
    #[must_use]
    pub fn y_mut(&mut self) -> (button: &mut ButtonState)
        ensures
            *button == old(self).y,
            *final(self) == (ControllerState { y: *final(button), ..*old(self) }),
    {
        &mut self.y
    }

    /// The start button.
    #[must_use]
    pub fn start(&self) -> (button: &ButtonState)
        ensures
            *button == self.start,
    {
        &self.start
    }

    /// The start button, to be changed.
    #[must_use]
    pub fn start_mut(&mut self) -> (button: &mut ButtonState)
        ensures
            *button == old(self).start,
            *final(self) == (ControllerState { start: *final(button), ..*old(self) }),
    {
        &mut self.start
    }

    /// The back button.
    #[must_use]
    pub fn back(&self) -> (button: &ButtonState)
        ensures
            *button == self.back,
    {
        &self.back
    }

    /// The back button, to be changed.
    #[must_use]
    pub fn back_mut(&mut self) -> (button: &mut ButtonState)
        ensures
            *button == old(self).back,
            *final(self) == (ControllerState { back: *final(button), ..*old(self) }),
    {
        &mut self.back
    }

    /// The up direction.
    #[must_use]
    pub fn up(&self) -> (button: &ButtonState)
        ensures
            *button == self.up,
    {
        &self.up
    }

    /// The up direction, to be changed.
    #[must_use]
    pub fn up_mut(&mut self) -> (button: &mut ButtonState)
        ensures
            *button == old(self).up,
            *final(self) == (ControllerState { up: *final(button), ..*old(self) }),
    {
        &mut self.up
    }

    /// The down direction.
    #[must_use]
    pub fn down(&self) -> (button: &ButtonState)
        ensures
            *button == self.down,
    {
        &self.down
    }

    /// The down direction, to be changed.
    #[must_use]
    pub fn down_mut(&mut self) -> (button: &mut ButtonState)
        ensures
            *button == old(self).down,
            *final(self) == (ControllerState { down: *final(button), ..*old(self) }),
    {
        &mut self.down
    }

    /// The left direction.
    #[must_use]
    pub fn left(&self) -> (button: &ButtonState)
        ensures
            *button == self.left,
    {
        &self.left
    }

    /// The left direction, to be changed.
    #[must_use]
    pub fn left_mut(&mut self) -> (button: &mut ButtonState)
        ensures
            *button == old(self).left,
            *final(self) == (ControllerState { left: *final(button), ..*old(self) }),
    {
        &mut self.left
    }

    /// The right direction.
    #[must_use]
    pub fn right(&self) -> (button: &ButtonState)
        ensures
            *button == self.right,
    {
        &self.right
    }

    /// The right direction, to be changed.
    #[must_use]
    pub fn right_mut(&mut self) -> (button: &mut ButtonState)
        ensures
            *button == old(self).right,
            *final(self) == (ControllerState { right: *final(button), ..*old(self) }),
    {
        &mut self.right
    }

    /// The left shoulder button.
    #[must_use]
    pub fn left_shoulder(&self) -> (button: &ButtonState)
        ensures
            *button == self.left_shoulder,
    {
        &self.left_shoulder
    }

    /// The left shoulder button, to be changed.
    #[must_use]
    pub fn left_shoulder_mut(&mut self) -> (button: &mut ButtonState)
        ensures
            *button == old(self).left_shoulder,
            *final(self) == (ControllerState { left_shoulder: *final(button), ..*old(self) }),
    {
        &mut self.left_shoulder
    }

    /// The right shoulder button.
    #[must_use]
    pub fn right_shoulder(&self) -> (button: &ButtonState)
        ensures
            *button == self.right_shoulder,
    {
        &self.right_shoulder
    }

    /// The right shoulder button, to be changed.
    #[must_use]
    pub fn right_shoulder_mut(&mut self) -> (button: &mut ButtonState)
        ensures
            *button == old(self).right_shoulder,
            *final(self) == (ControllerState { right_shoulder: *final(button), ..*old(self) }),
    {
        &mut self.right_shoulder
    }

    /// How far the left trigger is pulled, in millionths of its full travel.
    #[must_use]
    pub fn left_trigger_ratio(&self) -> (ratio: i64)
        ensures
            ratio == self.left_trigger_ratio,
    {
        self.left_trigger_ratio
    }

    /// Records how far the left trigger is pulled.
    pub fn set_left_trigger_ratio(&mut self, value: i64)
        ensures
            *final(self) == (ControllerState { left_trigger_ratio: value, ..*old(self) }),
    {
        self.left_trigger_ratio = value;
    }

    /// How far the right trigger is pulled, in millionths of its full travel.
    #[must_use]
    pub fn right_trigger_ratio(&self) -> (ratio: i64)
        ensures
            ratio == self.right_trigger_ratio,
    {
        self.right_trigger_ratio
    }

    /// Records how far the right trigger is pulled.
    pub fn set_right_trigger_ratio(&mut self, value: i64)
        ensures
            *final(self) == (ControllerState { right_trigger_ratio: value, ..*old(self) }),
    {
        self.right_trigger_ratio = value;
    }

    /// The left stick.
    #[must_use]
    pub fn left_joystick(&self) -> (joystick: &JoystickState)
        ensures
            *joystick == self.left_joystick,
    {
        &self.left_joystick
    }

    /// The left stick, to be changed.
    #[must_use]
    pub fn left_joystick_mut(&mut self) -> (joystick: &mut JoystickState)
        ensures
            *joystick == old(self).left_joystick,
            *final(self) == (ControllerState { left_joystick: *final(joystick), ..*old(self) }),
    {
        &mut self.left_joystick
    }

    /// The right stick.
    #[must_use]
    pub fn right_joystick(&self) -> (joystick: &JoystickState)
        ensures
            *joystick == self.right_joystick,
    {
        &self.right_joystick
    }

    /// The right stick, to be changed.
    #[must_use]
    pub fn right_joystick_mut(&mut self) -> (joystick: &mut JoystickState)
        ensures
            *joystick == old(self).right_joystick,
            *final(self) == (ControllerState { right_joystick: *final(joystick), ..*old(self) }),
    {
        &mut self.right_joystick
    }

    /// Releases all twelve buttons. Sticks, triggers and the connection are
    /// left as they are.
    pub fn clear(&mut self)
        ensures
            *final(self) == old(self).cleared(),
    {
        self.a.clear();
        self.b.clear();
        self.x.clear();
        self.y.clear();
        self.left_shoulder.clear();
        self.right_shoulder.clear();
        self.up.clear();
        self.down.clear();
        self.left.clear();
        self.right.clear();
        self.start.clear();
        self.back.clear();
    }

    /// Exec form of [`ControllerState::normalized`].
    pub fn is_normalized(&self) -> (normalized: bool)
        ensures
            normalized == self.normalized(),
    {
        self.left_joystick.is_normalized() && self.right_joystick.is_normalized()
    }
}

impl Default for ControllerState {
    /// A controller that is not connected and at rest.
    fn default() -> (state: Self)
        ensures
            state == at_rest(),
    {
        ControllerState {
            a: ButtonState::default(),
            b: ButtonState::default(),
            x: ButtonState::default(),
            y: ButtonState::default(),
            left_shoulder: ButtonState::default(),
            right_shoulder: ButtonState::default(),
            up: ButtonState::default(),
            down: ButtonState::default(),
            left: ButtonState::default(),
            right: ButtonState::default(),
            start: ButtonState::default(),
            back: ButtonState::default(),
            left_joystick: JoystickState::default(),
            right_joystick: JoystickState::default(),
            left_trigger_ratio: 0,
            right_trigger_ratio: 0,
            enabled: false,
        }
    }
}

} // verus!
