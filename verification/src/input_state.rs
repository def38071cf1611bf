//! Everything the player did during one frame.

use crate::controller_state::{at_rest, ControllerState};
use crate::mouse_state::{idle, MouseState};
use vstd::prelude::*;

verus! {

/// The mouse, the keyboard seen as a controller, and the controllers by
/// number.
#[derive(Debug, Clone)]
pub struct InputState {
    pub mouse: MouseState,
    pub keyboard: ControllerState,
    pub controllers: Vec<ControllerState>,
}

/// The controllers, with controllers at rest added at the end until there are
/// at least `count` of them.
pub open spec fn padded(controllers: Seq<ControllerState>, count: int) -> Seq<ControllerState> {
    if count <= controllers.len() {
        controllers
    } else {
        controllers + Seq::new((count - controllers.len()) as nat, |i: int| at_rest())
    }
}

impl InputState {
    /// The ratios of every stick lie between minus one and one.
    pub open spec fn normalized(self) -> bool {
        &&& self.keyboard.normalized()
        &&& forall|i: int|
            0 <= i < self.controllers@.len() ==> (#[trigger] self.controllers@[i]).normalized()
    }

    /// No input: the keyboard connected, as it always is, and no controller.
    #[must_use]
    pub fn new() -> (input: Self)
        ensures
            input.mouse == idle(),
            input.keyboard == (ControllerState { enabled: true, ..at_rest() }),
            input.controllers@.len() == 0,
    {
        let mut keyboard = ControllerState::default();
        keyboard.set_enabled(true);
        InputState { mouse: MouseState::default(), keyboard, controllers: Vec::new() }
    }

    /// The mouse.
    #[must_use]
    pub fn mouse(&self) -> (mouse: &MouseState)
        ensures
            *mouse == self.mouse,
    {
        &self.mouse
    }

    /// The mouse, to be changed.
    #[must_use]
    pub fn mouse_mut(&mut self) -> (mouse: &mut MouseState)
        ensures
            *mouse == old(self).mouse,
            final(self).mouse == *final(mouse),
            final(self).keyboard == old(self).keyboard,
            final(self).controllers == old(self).controllers,
    {
        &mut self.mouse
    }

    /// The keyboard.
    #[must_use]
    pub fn keyboard(&self) -> (keyboard: &ControllerState)
        ensures
            *keyboard == self.keyboard,
    {
        &self.keyboard
    }

    /// The keyboard, to be changed.
    #[must_use]
    pub fn keyboard_mut(&mut self) -> (keyboard: &mut ControllerState)
        ensures
            *keyboard == old(self).keyboard,
            final(self).keyboard == *final(keyboard),
            final(self).mouse == old(self).mouse,
            final(self).controllers == old(self).controllers,
    {
        &mut self.keyboard
    }

    /// The controller of the given number, if there is one.
    #[must_use]
    pub fn get_controller(&self, index: usize) -> (controller: Option<&ControllerState>)
        ensures
            (match controller {
                Some(controller) => index < self.controllers@.len() && *controller
                    == self.controllers@[index as int],
                None => index >= self.controllers@.len(),
            }),
    {
        if index < self.controllers.len() {
            Some(&self.controllers[index])
        } else {
            None
        }
    }

    /// The controller of the given number, to be changed. Where there are too
    /// few controllers, controllers at rest are added up to that number first.
    #[must_use]
    pub fn get_or_insert_controller_mut(&mut self, index: usize) -> (controller:
        &mut ControllerState)
        requires
            index < usize::MAX,
        ensures
            *controller == padded(old(self).controllers@, index + 1)[index as int],
            final(self).controllers@ == padded(old(self).controllers@, index + 1).update(
                index as int,
                *final(controller),
            ),
            final(self).mouse == old(self).mouse,
            final(self).keyboard == old(self).keyboard,
    {
        if index >= self.controllers.len() {
            self.controllers.resize(index + 1, ControllerState::default());
            assert(self.controllers@ =~= padded(old(self).controllers@, index + 1));
        }
        &mut self.controllers[index]
    }

    /// All controllers, by number.
    #[must_use]
    pub fn controllers(&self) -> (controllers: &[ControllerState])
        ensures
            controllers@ == self.controllers@,
    {
        self.controllers.as_slice()
    }

    /// Exec form of [`InputState::normalized`].
    pub fn is_normalized(&self) -> (normalized: bool)
        ensures
            normalized == self.normalized(),
    {
        if !self.keyboard.is_normalized() {
            return false;
        }
        let mut index: usize = 0;
        while index < self.controllers.len()
            invariant
                index <= self.controllers@.len(),
                forall|i: int| 0 <= i < index ==> (#[trigger] self.controllers@[i]).normalized(),
            decreases self.controllers@.len() - index,
        {
            if !self.controllers[index].is_normalized() {
                return false;
            }
            index += 1;
        }
        true
    }
}

impl Default for InputState {
    /// No input: the keyboard connected and no controller.
    fn default() -> (input: Self)
        ensures
            input.mouse == idle(),
            input.keyboard == (ControllerState { enabled: true, ..at_rest() }),
            input.controllers@.len() == 0,
    {
        Self::new()
    }
}

} // verus!
