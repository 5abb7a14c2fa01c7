//! Whether the user interface holds the keyboard or the pointer, and what
//! that means for the camera.

use vstd::prelude::*;

verus! {

/// What the user interface wanted in the last frame.
#[derive(Debug, Clone, Copy, PartialEq, Eq, Structural)]
pub struct EguiBlockInputState {
    pub wants_keyboard_input: bool,
    pub wants_pointer_input: bool,
}

impl Default for EguiBlockInputState {
    fn default() -> (s: EguiBlockInputState)
        ensures
            !s.wants_keyboard_input,
            !s.wants_pointer_input,
    {
        EguiBlockInputState { wants_keyboard_input: false, wants_pointer_input: false }
    }
}

impl EguiBlockInputState {
    /// Records what the user interface wants in this frame.
    pub fn record(&mut self, wants_keyboard_input: bool, wants_pointer_input: bool)
        ensures
            final(self).wants_keyboard_input == wants_keyboard_input,
            final(self).wants_pointer_input == wants_pointer_input,
    {
        self.wants_keyboard_input = wants_keyboard_input;
        self.wants_pointer_input = wants_pointer_input;
    }

    /// The panning camera may move exactly when the user interface does not
    /// want the pointer.
    pub fn camera_enabled(&self) -> (enabled: bool)
        ensures
            enabled == !self.wants_pointer_input,
    {
        !self.wants_pointer_input
    }
}

} // verus!
