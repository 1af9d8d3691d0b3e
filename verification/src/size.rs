//! Extents of boxes.
use vstd::prelude::*;

verus! {

/// The extent of a box, in units.
#[derive(Debug, Clone, Copy, PartialEq, Eq, Structural)]
pub struct Size {
    /// The horizontal extent.
    pub width: u32,
    /// The vertical extent.
    pub height: u32,
}

/// `extent` grown by `padding` on both of its ends, clipped to `u32`.
pub open spec fn padded_extent(extent: u32, padding: u16) -> u32 {
    if extent + 2 * padding > u32::MAX {
        u32::MAX
    } else {
        (extent + 2 * padding) as u32
    }
}

/// `extent` with `amount` taken away, and zero where less than `amount` is there.
pub open spec fn shrunk_extent(extent: u32, amount: u32) -> u32 {
    if extent >= amount {
        (extent - amount) as u32
    } else {
        0
    }
}

impl Size {
    /// The empty extent.
    pub open spec fn spec_zero() -> Size {
        Size { width: 0, height: 0 }
    }

    /// The empty extent.
    #[verifier::when_used_as_spec(spec_zero)]
    pub fn zero() -> (s: Size)
        ensures
            s == Self::spec_zero(),
    {
        Size { width: 0, height: 0 }
    }

    /// Creates the extent `width` by `height`.
    pub fn new(width: u32, height: u32) -> (s: Size)
        ensures
            s == (Size { width, height }),
    {
        Size { width, height }
    }

    /// This extent with `padding` added on all four sides.
    pub open spec fn spec_pad(&self, padding: u16) -> Size {
        Size {
            width: padded_extent(self.width, padding),
            height: padded_extent(self.height, padding),
        }
    }

    /// Adds `padding` on all four sides. An axis that would pass `u32::MAX`
    /// stays there.
    #[verifier::when_used_as_spec(spec_pad)]
    pub fn pad(&self, padding: u16) -> (s: Size)
        ensures
            s == self.spec_pad(padding),
    {
        let twice: u32 = 2 * (padding as u32);
        Size {
            width: self.width.saturating_add(twice),
            height: self.height.saturating_add(twice),
        }
    }

    /// This extent with `amount` removed on each axis, never below zero.
    pub open spec fn spec_shrink(&self, amount: Size) -> Size {
        Size {
            width: shrunk_extent(self.width, amount.width),
            height: shrunk_extent(self.height, amount.height),
        }
    }

    /// Removes `amount` on each axis, stopping at zero.
    #[verifier::when_used_as_spec(spec_shrink)]
    pub fn shrink(&self, amount: Size) -> (s: Size)
        ensures
            s == self.spec_shrink(amount),
    {
        Size {
            width: self.width.saturating_sub(amount.width),
            height: self.height.saturating_sub(amount.height),
        }
    }
}

} // verus!
