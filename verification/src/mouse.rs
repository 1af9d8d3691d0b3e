//! Pointer input.
use vstd::prelude::*;

verus! {

/// A button of a pointing device.
#[derive(Debug, Clone, Copy, PartialEq, Eq, Structural)]
pub enum Button {
    /// The primary button.
    Left,
    /// The secondary button.
    Right,
    /// The middle button, often the wheel.
    Middle,
    /// Any other button, by its number.
    Other(u8),
}

/// Something that happened to the pointer.
#[derive(Debug, Clone, Copy, PartialEq, Eq, Structural)]
pub enum Event {
    /// The pointer came into the window.
    CursorEntered,
    /// The pointer left the window.
    CursorLeft,
    /// The pointer moved to the given position.
    CursorMoved {
        /// The new horizontal coordinate.
        x: i64,
        /// The new vertical coordinate.
        y: i64,
    },
    /// A button went down.
    ButtonPressed(Button),
    /// A button came up.
    ButtonReleased(Button),
    /// The wheel was turned by the given amounts.
    WheelScrolled {
        /// The horizontal amount.
        delta_x: i64,
        /// The vertical amount.
        delta_y: i64,
    },
}

} // verus!
