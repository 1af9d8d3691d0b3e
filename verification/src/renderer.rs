//! What every renderer provides.
pub mod null;

pub use null::Null;

use vstd::prelude::*;

verus! {

/// A backend that turns laid-out widgets into something to show. Each widget
/// adds a trait of its own on top of this one.
pub trait Renderer: Sized {
    /// What drawing a widget produces.
    type Output;

    /// Settings handed down the widget tree while drawing.
    type Defaults: Default;
}

} // verus!
