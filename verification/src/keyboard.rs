//! Keyboard input.
use vstd::prelude::*;

verus! {

/// Something that happened to the keyboard.
#[derive(Debug, Clone, Copy, PartialEq, Eq, Structural)]
pub enum Event {
    /// The key with the given code went down.
    KeyPressed {
        /// The code of the key.
        key_code: u32,
    },
    /// The key with the given code came up.
    KeyReleased {
        /// The code of the key.
        key_code: u32,
    },
    /// A character was typed.
    CharacterReceived(char),
}

} // verus!
