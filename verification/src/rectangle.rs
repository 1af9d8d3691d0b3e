//! Axis-aligned boxes.
use vstd::prelude::*;
use crate::point::Point;
use crate::size::Size;

verus! {

/// An axis-aligned box: its top-left corner and its extent.
#[derive(Debug, Clone, Copy, PartialEq, Eq, Structural)]
pub struct Rectangle {
    /// The horizontal coordinate of the left edge.
    pub x: i64,
    /// The vertical coordinate of the top edge.
    pub y: i64,
    /// The horizontal extent.
    pub width: u32,
    /// The vertical extent.
    pub height: u32,
}

impl Rectangle {
    /// The box with its corner at `position` and the extent `size`.
    pub open spec fn spec_new(position: Point, size: Size) -> Rectangle {
        Rectangle { x: position.x, y: position.y, width: size.width, height: size.height }
    }

    /// Creates the box with its corner at `position` and the extent `size`.
    #[verifier::when_used_as_spec(spec_new)]
    pub fn new(position: Point, size: Size) -> (r: Rectangle)
        ensures
            r == Self::spec_new(position, size),
    {
        Rectangle { x: position.x, y: position.y, width: size.width, height: size.height }
    }

    /// The coordinate of the right edge.
    pub open spec fn right(&self) -> int {
        self.x + self.width
    }

    /// The coordinate of the bottom edge.
    pub open spec fn bottom(&self) -> int {
        self.y + self.height
    }

    /// The top-left corner.
    pub open spec fn spec_position(&self) -> Point {
        Point { x: self.x, y: self.y }
    }

    /// Returns the top-left corner.
    #[verifier::when_used_as_spec(spec_position)]
    pub fn position(&self) -> (p: Point)
        ensures
            p == self.spec_position(),
    {
        Point { x: self.x, y: self.y }
    }

    /// The extent.
    pub open spec fn spec_size(&self) -> Size {
        Size { width: self.width, height: self.height }
    }

    /// Returns the extent.
    #[verifier::when_used_as_spec(spec_size)]
    pub fn size(&self) -> (s: Size)
        ensures
            s == self.spec_size(),
    {
        Size { width: self.width, height: self.height }
    }

    /// Whether `point` lies in the box. All four edges belong to the box.
    pub open spec fn spec_contains(&self, point: Point) -> bool {
        &&& self.x <= point.x <= self.right()
        &&& self.y <= point.y <= self.bottom()
    }

    /// Tells whether `point` lies in the box, edges included.
    #[verifier::when_used_as_spec(spec_contains)]
    pub fn contains(&self, point: Point) -> (inside: bool)
        ensures
            inside == self.spec_contains(point),
    {
        self.x <= point.x && (point.x as i128) <= (self.x as i128) + (self.width as i128)
            && self.y <= point.y && (point.y as i128) <= (self.y as i128) + (self.height as i128)
    }
}

} // verus!
