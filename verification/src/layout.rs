//! Box constraints, laid-out trees, and the view of a tree that widgets get.
pub mod limits;
pub mod node;

pub use limits::Limits;
pub use node::Node;

use vstd::prelude::*;
use crate::point::Point;
use crate::rectangle::Rectangle;
use node::NodeView;

verus! {

/// What a [`Layout`] stands for: a tree of boxes and the absolute position
/// of its root.
pub struct LayoutView {
    /// The absolute position of the root's corner.
    pub position: Point,
    /// The tree, whose own corner is relative to its parent.
    pub node: NodeView,
}

impl LayoutView {
    /// The layout of a tree that has no parent.
    pub open spec fn root(node: NodeView) -> LayoutView {
        LayoutView { position: node.bounds.position(), node }
    }

    /// The absolute box of the root.
    pub open spec fn bounds(self) -> Rectangle {
        Rectangle::new(self.position, self.node.bounds.size())
    }

    /// The layout of the child at `index`: its corner is moved by the
    /// absolute position of this layout.
    pub open spec fn child(self, index: int) -> LayoutView
        recommends
            0 <= index < self.node.children.len(),
    {
        LayoutView {
            position: self.node.children[index].bounds.position().offset(self.position),
            node: self.node.children[index],
        }
    }

    /// The layouts of all children, first to last.
    pub open spec fn children(self) -> Seq<LayoutView> {
        Seq::new(self.node.children.len(), |index: int| self.child(index))
    }
}

/// A laid-out tree as a widget sees it: the boxes of the tree in absolute
/// coordinates.
#[derive(Debug, Clone, Copy)]
pub struct Layout<'a> {
    position: Point,
    node: &'a Node,
}

impl<'a> View for Layout<'a> {
    type V = LayoutView;

    closed spec fn view(&self) -> LayoutView {
        LayoutView { position: self.position, node: self.node@ }
    }
}

impl<'a> Layout<'a> {
    /// Creates the layout of a tree that has no parent.
    pub fn new(node: &'a Node) -> (layout: Layout<'a>)
        ensures
            layout@ == LayoutView::root(node@),
    {
        Layout { position: node.bounds().position(), node }
    }

    /// Returns the absolute position of the root's corner.
    pub fn position(&self) -> (position: Point)
        ensures
            position == self@.position,
    {
        self.position
    }

    /// Returns the absolute box of the root.
    pub fn bounds(&self) -> (bounds: Rectangle)
        ensures
            bounds == self@.bounds(),
    {
        Rectangle::new(self.position, self.node.bounds().size())
    }

    /// Returns the number of children.
    pub fn children_len(&self) -> (len: usize)
        ensures
            len == self@.node.children.len(),
    {
        self.node.children().len()
    }

    /// Returns the layout of the child at `index`.
    pub fn child(&self, index: usize) -> (child: Layout<'a>)
        requires
            index < self@.node.children.len(),
        ensures
            child@ == self@.child(index as int),
    {
        let node = &self.node.children()[index];
        Layout { position: node.bounds().position().offset(self.position), node }
    }

    /// Returns the layouts of all children, first to last.
    pub fn children(&self) -> (children: Vec<Layout<'a>>)
        ensures
            children@.len() == self@.children().len(),
            forall|index: int|
                0 <= index < children@.len() ==> (#[trigger] children@[index])@
                    == self@.children()[index],
    {
        let len = self.children_len();
        let mut children: Vec<Layout<'a>> = Vec::new();
        let mut index: usize = 0;
        while index < len
            invariant
                len == self@.node.children.len(),
                index <= len,
                children@.len() == index,
                forall|i: int| 0 <= i < index ==> (#[trigger] children@[i])@ == self@.child(i),
            decreases len - index,
        {
            children.push(self.child(index));
            index += 1;
        }
        children
    }
}

} // verus!
