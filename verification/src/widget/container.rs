//! Boxes that decorate what they hold.
use vstd::prelude::*;

verus! {

/// What a renderer provides to draw a decorated box.
pub trait Renderer: crate::renderer::Renderer {
    /// How the box looks.
    type Style: Default;
}

} // verus!
