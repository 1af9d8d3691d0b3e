//! The result of laying a widget out.
use vstd::prelude::*;
use crate::point::Point;
use crate::rectangle::Rectangle;
use crate::size::Size;

verus! {

/// What a [`Node`] stands for: a box and, inside it, the boxes of its
/// children in their order. A child's corner is relative to its parent's.
pub struct NodeView {
    /// The box, placed relative to the parent's corner.
    pub bounds: Rectangle,
    /// The children, first to last.
    pub children: Seq<NodeView>,
}

impl NodeView {
    /// A box of the given size at the origin, without children.
    pub open spec fn leaf(size: Size) -> NodeView {
        NodeView { bounds: Rectangle::new(Point::origin(), size), children: Seq::empty() }
    }

    /// A box of the given size at the origin, around the given children.
    pub open spec fn with_children(size: Size, children: Seq<NodeView>) -> NodeView {
        NodeView { bounds: Rectangle::new(Point::origin(), size), children }
    }

    /// The extent of the box.
    pub open spec fn size(self) -> Size {
        self.bounds.size()
    }

    /// The same box and children with the corner at `position`.
    pub open spec fn moved_to(self, position: Point) -> NodeView {
        NodeView { bounds: Rectangle::new(position, self.bounds.size()), children: self.children }
    }
}

/// The box that a layout pass gave to a widget, with the boxes of the
/// widget's children nested inside.
#[derive(Debug)]
pub struct Node {
    bounds: Rectangle,
    children: Vec<Node>,
}

/// The trees that a sequence of nodes stands for.
pub open spec fn views(nodes: Seq<Node>) -> Seq<NodeView> {
    nodes.map_values(|node: Node| node@)
}

impl View for Node {
    type V = NodeView;

    open spec fn view(&self) -> NodeView {
        self.tree()
    }
}

impl Node {
    /// The tree of boxes held by this node.
    pub closed spec fn tree(&self) -> NodeView
        decreases self,
    {
        NodeView {
            bounds: self.bounds,
            children: Seq::new(
                self.children@.len(),
                |i: int|
                    if 0 <= i < self.children@.len() {
                        self.children@[i].tree()
                    } else {
                        arbitrary()
                    },
            ),
        }
    }

    proof fn lemma_tree(self)
        ensures
            self@.bounds == self.bounds,
            self@.children == views(self.children@),
    {
        assert(self@.children =~= views(self.children@));
    }

    /// Creates a node of the given size at the origin, without children.
    pub fn new(size: Size) -> (node: Node)
        ensures
            node@ == NodeView::leaf(size),
    {
        let node = Self::with_children(size, Vec::new());
        assert(node@.children =~= Seq::empty());
        node
    }

    /// Creates a node of the given size at the origin that holds `children`.
    pub fn with_children(size: Size, children: Vec<Node>) -> (node: Node)
        ensures
            node@ == NodeView::with_children(size, views(children@)),
    {
        let node = Node { bounds: Rectangle::new(Point::origin(), size), children };
        proof {
            node.lemma_tree();
        }
        node
    }

    /// Returns the extent of the node.
    pub fn size(&self) -> (size: Size)
        ensures
            size == self@.size(),
    {
        proof {
            self.lemma_tree();
        }
        self.bounds.size()
    }

    /// Returns the box of the node, relative to its parent.
    pub fn bounds(&self) -> (bounds: Rectangle)
        ensures
            bounds == self@.bounds,
    {
        proof {
            self.lemma_tree();
        }
        self.bounds
    }

    /// Returns the children of the node, first to last.
    pub fn children(&self) -> (children: &[Node])
        ensures
            views(children@) == self@.children,
            children@.len() == self@.children.len(),
            forall|index: int|
                0 <= index < children@.len() ==> (#[trigger] children@[index])@
                    == self@.children[index],
    {
        proof {
            self.lemma_tree();
        }
        self.children.as_slice()
    }

    /// Places the corner of the node at `position`, relative to its parent.
    /// The extent and the children stay as they are.
    pub fn move_to(&mut self, position: Point)
        ensures
            final(self)@ == old(self)@.moved_to(position),
    {
        proof {
            self.lemma_tree();
        }
        self.bounds.x = position.x;
        self.bounds.y = position.y;
        proof {
            self.lemma_tree();
        }
    }
}

} // verus!
