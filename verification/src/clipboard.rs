//! Access to the clipboard.
use vstd::prelude::*;

verus! {

/// A place to read copied text from.
pub trait Clipboard {
    /// Returns the text on the clipboard, if there is any.
    fn content(&self) -> Option<String>;
}

} // verus!
