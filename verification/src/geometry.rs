//! Sizes, positions and the positioned tree that a layout pass produces.

use crate::scalar::Scalar;
use vstd::prelude::*;

verus! {

/// A width and a height.
#[derive(Clone, Copy, Debug, PartialEq, Eq, Structural)]
pub struct Size {
    pub width: Scalar,
    pub height: Scalar,
}

/// A position.
#[derive(Clone, Copy, Debug, PartialEq, Eq, Structural)]
pub struct Point {
    pub x: Scalar,
    pub y: Scalar,
}

/// A position together with a size.
#[derive(Clone, Copy, Debug, PartialEq, Eq, Structural)]
pub struct Rectangle {
    pub x: Scalar,
    pub y: Scalar,
    pub width: Scalar,
    pub height: Scalar,
}

/// The bounds that the host puts on a widget: a least and a greatest size. A
/// bound that is not finite leaves its axis unconstrained on that side.
#[derive(Clone, Copy, Debug, PartialEq, Eq, Structural)]
pub struct Limits {
    pub min: Size,
    pub max: Size,
}

/// How the container asks to be sized along one axis by the host.
#[derive(Clone, Copy, Debug, PartialEq, Eq, Structural)]
pub enum Length {
    /// As much as there is.
    Fill,
    /// A share of what there is, in proportion to the number.
    FillPortion(u16),
    /// As little as the content needs.
    Shrink,
    /// This much.
    Fixed(Scalar),
}

/// The box that the solver assigns to a node: paint order, size and position.
#[derive(Clone, Copy, Debug, PartialEq, Eq, Structural)]
pub struct Layout {
    pub order: u32,
    pub size: Size,
    pub location: Point,
}

/// A node of a positioned tree: its own bounds, and below it the nodes of its
/// descendants, positioned relative to it.
#[derive(Debug)]
pub struct Node {
    pub bounds: Rectangle,
    pub children: Vec<Node>,
}

/// What a [`Node`] holds, as a mathematical tree.
#[verifier::ext_equal]
pub struct NodeView {
    pub bounds: Rectangle,
    pub children: Seq<NodeView>,
}

impl View for Node {
    type V = NodeView;

    open spec fn view(&self) -> NodeView
        decreases self,
    {
        NodeView { bounds: self.bounds, children: views_of(self.children@) }
    }
}

/// The views of a list of nodes, in order.
pub open spec fn views_of(nodes: Seq<Node>) -> Seq<NodeView>
    decreases nodes,
{
    if nodes.len() == 0 {
        Seq::empty()
    } else {
        views_of(nodes.drop_last()).push(nodes.last()@)
    }
}

/// The views of a list of nodes are as many as the nodes, and each is the view
/// of the node at its place.
pub proof fn lemma_views_of(nodes: Seq<Node>)
    ensures
        views_of(nodes).len() == nodes.len(),
        forall|i: int| 0 <= i < nodes.len() ==> (#[trigger] views_of(nodes)[i]) == nodes[i]@,
    decreases nodes.len(),
{
    if nodes.len() > 0 {
        lemma_views_of(nodes.drop_last());
        assert(views_of(nodes) == views_of(nodes.drop_last()).push(nodes.last()@));
        assert forall|i: int| 0 <= i < nodes.len() implies (#[trigger] views_of(nodes)[i])
            == nodes[i]@ by {
            if i < nodes.len() - 1 {
                assert(nodes.drop_last()[i] == nodes[i]);
            }
        }
    }
}

impl Size {
    /// The size whose width and height are positive zero.
    pub open spec fn zero_spec() -> Size {
        Size { width: Scalar { bits: 0 }, height: Scalar { bits: 0 } }
    }

    /// The size whose width and height are positive zero.
    pub fn zero() -> (out: Size)
        ensures
            out == Size::zero_spec(),
    {
        Size { width: Scalar::zero(), height: Scalar::zero() }
    }

    /// The size with both sides rounded to whole numbers.
    pub open spec fn rounded(self) -> Size {
        Size { width: self.width.rounded(), height: self.height.rounded() }
    }

    /// Rounds both sides to whole numbers.
    pub fn round(self) -> (out: Size)
        ensures
            out == self.rounded(),
    {
        Size { width: self.width.round(), height: self.height.round() }
    }
}

impl Point {
    /// The origin.
    pub open spec fn origin_spec() -> Point {
        Point { x: Scalar { bits: 0 }, y: Scalar { bits: 0 } }
    }

    /// The origin.
    pub fn origin() -> (out: Point)
        ensures
            out == Point::origin_spec(),
    {
        Point { x: Scalar::zero(), y: Scalar::zero() }
    }

    /// The point with both coordinates rounded to whole numbers.
    pub open spec fn rounded(self) -> Point {
        Point { x: self.x.rounded(), y: self.y.rounded() }
    }

    /// Rounds both coordinates to whole numbers.
    pub fn round(self) -> (out: Point)
        ensures
            out == self.rounded(),
    {
        Point { x: self.x.round(), y: self.y.round() }
    }
}

impl Layout {
    /// The box of a node that takes no part in a pass: no size, at the origin.
    pub open spec fn with_order_spec(order: u32) -> Layout {
        Layout { order, size: Size::zero_spec(), location: Point::origin_spec() }
    }

    /// The box that a slot holds before any pass has assigned one.
    pub fn null() -> (out: Layout)
        ensures
            out == Layout::with_order_spec(0),
    {
        Layout { order: 0, size: Size::zero(), location: Point::origin() }
    }

    /// The box of a node that takes no part in a pass, with its paint order.
    pub fn with_order(order: u32) -> (out: Layout)
        ensures
            out == Layout::with_order_spec(order),
    {
        Layout { order, size: Size::zero(), location: Point::origin() }
    }

    /// The box with size and position rounded to whole numbers.
    pub open spec fn rounded(self) -> Layout {
        Layout { order: self.order, size: self.size.rounded(), location: self.location.rounded() }
    }

    /// Rounds size and position to whole numbers; the paint order stays.
    pub fn round(self) -> (out: Layout)
        ensures
            out == self.rounded(),
    {
        Layout { order: self.order, size: self.size.round(), location: self.location.round() }
    }

    /// The bounds of the box: its position and its size.
    pub open spec fn bounds_spec(self) -> Rectangle {
        Rectangle {
            x: self.location.x,
            y: self.location.y,
            width: self.size.width,
            height: self.size.height,
        }
    }

    /// The bounds of the box: its position and its size.
    pub fn bounds(self) -> (out: Rectangle)
        ensures
            out == self.bounds_spec(),
    {
        Rectangle {
            x: self.location.x,
            y: self.location.y,
            width: self.size.width,
            height: self.size.height,
        }
    }
}

impl Node {
    /// A node without children, at the origin.
    pub fn new(size: Size) -> (out: Node)
        ensures
            out.bounds == Rectangle::at_origin(size),
            out.children@ == Seq::<Node>::empty(),
            out@ == (NodeView {
                bounds: Rectangle::at_origin(size),
                children: Seq::empty(),
            }),
    {
        Node::with_children(size, Vec::new())
    }

    /// A node at the origin, over the given children.
    pub fn with_children(size: Size, children: Vec<Node>) -> (out: Node)
        ensures
            out.bounds == Rectangle::at_origin(size),
            out.children == children,
    {
        Node {
            bounds: Rectangle {
                x: Scalar::zero(),
                y: Scalar::zero(),
                width: size.width,
                height: size.height,
            },
            children,
        }
    }

    /// The size of the node.
    pub fn size(&self) -> (out: Size)
        ensures
            out == self.bounds.size(),
    {
        Size { width: self.bounds.width, height: self.bounds.height }
    }

    /// Moves the node to `position`; its size and its children stay.
    pub fn move_to(&mut self, position: Point)
        ensures
            final(self).bounds == old(self).bounds.moved(position),
            final(self).children == old(self).children,
    {
        self.bounds.x = position.x;
        self.bounds.y = position.y;
    }

    /// A copy of the node and of everything below it.
    pub fn duplicate(&self) -> (out: Node)
        ensures
            out@ == self@,
        decreases self,
    {
        let children = Node::duplicate_all(&self.children);
        Node { bounds: self.bounds, children }
    }

    /// A copy of each node of the list, in order.
    pub fn duplicate_all(nodes: &Vec<Node>) -> (out: Vec<Node>)
        ensures
            views_of(out@) == views_of(nodes@),
        decreases nodes,
    {
        let mut copies: Vec<Node> = Vec::new();
        let mut i: usize = 0;
        while i < nodes.len()
            invariant
                i <= nodes.len(),
                copies.len() == i,
                views_of(copies@) == views_of(nodes@.take(i as int)),
            decreases nodes.len() - i,
        {
            let copy = nodes[i].duplicate();
            proof {
                assert(nodes@.take(i + 1).drop_last() == nodes@.take(i as int));
                assert(copies@.push(copy).drop_last() == copies@);
            }
            copies.push(copy);
            i += 1;
        }
        assert(nodes@.take(nodes.len() as int) == nodes@);
        copies
    }
}

impl Rectangle {
    /// The rectangle of the given size at the origin.
    pub open spec fn at_origin(size: Size) -> Rectangle {
        Rectangle {
            x: Scalar { bits: 0 },
            y: Scalar { bits: 0 },
            width: size.width,
            height: size.height,
        }
    }

    /// The size of the rectangle.
    pub open spec fn size(self) -> Size {
        Size { width: self.width, height: self.height }
    }

    /// The rectangle of the same size at the given position.
    pub open spec fn moved(self, position: Point) -> Rectangle {
        Rectangle { x: position.x, y: position.y, width: self.width, height: self.height }
    }
}

} // verus!
