//! Window events and continuous input state.
//!
//! The host's event loop translates its windowing events into these plain
//! types: discrete [`WindowEvent`]s for one-shot actions and an
//! [`InputState`] of held keys plus the per-frame mouse delta for continuous
//! camera control.

use vstd::prelude::*;

verus! {

/// Keys that trigger discrete, one-shot actions.
#[derive(Debug, Clone, Copy, PartialEq, Eq, Structural)]
pub enum Key {
    Num1,
    Num2,
    Num3,
    Num4,
    Num5,
    C,
    G,
    R,
    F,
    T,
    Escape,
}

/// Discrete window events delivered once per poll.
#[derive(Debug, Clone, Copy, PartialEq, Eq, Structural)]
pub enum WindowEvent {
    /// Nothing happened this frame.
    Idle,
    /// The window was asked to close.
    Quit,
    /// The window was resized to the given width and height.
    Resize(u32, u32),
    /// A discrete key was pressed.
    KeyPress(Key),
    /// The right mouse button went down.
    RightMouseDown,
}

/// Continuous input state: held movement and roll keys, and the relative
/// mouse movement accumulated this frame.
#[derive(Debug, Clone)]
pub struct InputState {
    /// Move forward key held.
    pub forward: bool,
    /// Move backward key held.
    pub back: bool,
    /// Strafe left key held.
    pub left: bool,
    /// Strafe right key held.
    pub right: bool,
    /// Move up key held.
    pub up: bool,
    /// Move down key held.
    pub down: bool,
    /// Roll left key held.
    pub roll_left: bool,
    /// Roll right key held.
    pub roll_right: bool,
    /// Relative horizontal mouse movement this frame, in pixels.
    pub mouse_dx: i32,
    /// Relative vertical mouse movement this frame, in pixels.
    pub mouse_dy: i32,
}

impl InputState {
    /// Reset the per-frame state: the mouse delta returns to zero, held
    /// keys stay as they are.
    pub fn reset_per_frame(&mut self)
        ensures
            final(self).mouse_dx == 0,
            final(self).mouse_dy == 0,
            final(self).forward == old(self).forward,
            final(self).back == old(self).back,
            final(self).left == old(self).left,
            final(self).right == old(self).right,
            final(self).up == old(self).up,
            final(self).down == old(self).down,
            final(self).roll_left == old(self).roll_left,
            final(self).roll_right == old(self).roll_right,
    {
        self.mouse_dx = 0;
        self.mouse_dy = 0;
    }
}

impl Default for InputState {
    /// No key held and no mouse movement.
    fn default() -> (s: Self)
        ensures
            !s.forward,
            !s.back,
            !s.left,
            !s.right,
            !s.up,
            !s.down,
            !s.roll_left,
            !s.roll_right,
            s.mouse_dx == 0,
            s.mouse_dy == 0,
    {
        InputState {
            forward: false,
            back: false,
            left: false,
            right: false,
            up: false,
            down: false,
            roll_left: false,
            roll_right: false,
            mouse_dx: 0,
            mouse_dy: 0,
        }
    }
}

} // verus!
