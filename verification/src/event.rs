//! Input events.
use vstd::prelude::*;
use crate::keyboard;
use crate::mouse;
use crate::window;

verus! {

/// An input event, by the kind of its source.
#[derive(Debug, Clone, Copy, PartialEq, Eq, Structural)]
pub enum Event {
    /// The keyboard did something.
    Keyboard(keyboard::Event),
    /// The pointer did something.
    Mouse(mouse::Event),
    /// The window did something.
    Window(window::Event),
}

} // verus!
