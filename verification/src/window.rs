//! Window changes.
use vstd::prelude::*;

verus! {

/// Something that happened to the window.
#[derive(Debug, Clone, Copy, PartialEq, Eq, Structural)]
pub enum Event {
    /// The window got a new size.
    Resized {
        /// The new width.
        width: u32,
        /// The new height.
        height: u32,
    },
}

} // verus!
