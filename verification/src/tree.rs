//! The graph that the solver works on: the container and its children, seen
//! through one exclusive borrow for the length of one pass.

use crate::child::GridChildView;
use crate::geometry::Layout;
use crate::geometry::NodeView;
use crate::geometry::Size;
use crate::grid::Grid;
use crate::grid::GridView;
use crate::node::child_ids;
use crate::node::GridChildIter;
use crate::node::NodeId;
use crate::participant::Participant;
use crate::sizing::AvailableSize;
use crate::sizing::ChildLimits;
use crate::sizing::KnownDimensions;
use crate::sizing::SizingMode;
use taffy::Style;
use vstd::prelude::*;

verus! {

/// The container as the solver sees it during one pass.
///
/// It is made afresh for each pass over the container and dropped at its end.
/// While it lives nothing else can touch the container. Besides the borrow it
/// holds the render context of the pass and a place for the box of the
/// container itself, which has no record of its own.
///
/// Each method that writes through the view states, as its last clause, that
/// the borrow itself is handed on untouched. So the container that is found
/// once the view is gone is the one that the view last showed.
pub struct GridLayoutTree<'node, 'b, W, R> {
    /// The container, borrowed for the pass.
    pub grid: &'node mut Grid<W>,
    /// The render context of the pass.
    pub renderer: &'b R,
    /// The box of the container itself.
    pub layout: Layout,
}

/// What a [`GridLayoutTree`] shows: the container as it stands, the render
/// context of the pass, and the box that the solver has written for the
/// container itself.
#[verifier::ext_equal]
pub struct GridLayoutTreeView<W, R> {
    /// The container.
    pub grid: GridView<W>,
    /// The render context of the pass.
    pub renderer: R,
    /// The box of the container itself.
    pub layout: Layout,
}

impl<'node, 'b, W, R> View for GridLayoutTree<'node, 'b, W, R> {
    type V = GridLayoutTreeView<W, R>;

    open spec fn view(&self) -> GridLayoutTreeView<W, R> {
        GridLayoutTreeView { grid: (*self.grid)@, renderer: *self.renderer, layout: self.layout }
    }
}

impl<W, R> GridLayoutTreeView<W, R> {
    /// Whether `node` is the container or one of its children.
    pub open spec fn has(self, node: NodeId) -> bool {
        match node {
            NodeId::Container => true,
            NodeId::Child(index) => index < self.grid.children.len(),
        }
    }

    /// Whether `node` is one of the children.
    pub open spec fn has_child(self, node: NodeId) -> bool {
        node matches NodeId::Child(index) && index < self.grid.children.len()
    }

    /// The record of the child that `node` is.
    pub open spec fn record(self, node: NodeId) -> GridChildView<W>
        recommends
            self.has_child(node),
    {
        self.grid.children[node->0 as int]
    }

    /// The style of a node: the container's own for the container, the style
    /// on a child's record for that child.
    pub open spec fn style(self, node: NodeId) -> Style
        recommends
            self.has(node),
    {
        match node {
            NodeId::Container => self.grid.style,
            NodeId::Child(index) => self.grid.children[index as int].style,
        }
    }

    /// The number of nodes below a node: all children below the container,
    /// none below a child.
    pub open spec fn child_count(self, node: NodeId) -> nat {
        match node {
            NodeId::Container => self.grid.children.len(),
            NodeId::Child(_) => 0,
        }
    }

    /// The box of a node: the one held for the container itself, or the one on
    /// a child's record.
    pub open spec fn layout_of(self, node: NodeId) -> Layout
        recommends
            self.has(node),
    {
        match node {
            NodeId::Container => self.layout,
            NodeId::Child(index) => self.grid.children[index as int].layout,
        }
    }

    /// The tree with the record of the child `node` replaced.
    pub open spec fn with_record(self, node: NodeId, record: GridChildView<W>) -> GridLayoutTreeView<W, R>
        recommends
            self.has_child(node),
    {
        GridLayoutTreeView {
            grid: GridView {
                children: self.grid.children.update(node->0 as int, record),
                ..self.grid
            },
            ..self
        }
    }

    /// The tree with `layout` as the box of `node`, whichever node it is.
    pub open spec fn with_box(self, node: NodeId, layout: Layout) -> GridLayoutTreeView<W, R>
        recommends
            self.has(node),
    {
        match node {
            NodeId::Container => GridLayoutTreeView { layout, ..self },
            NodeId::Child(_) => self.with_record(
                node,
                GridChildView { layout, ..self.record(node) },
            ),
        }
    }
}

impl<W: Participant<R>, R> GridLayoutTreeView<W, R> {
    /// What a size-only query for the child `node` leaves of the tree, and
    /// what it gives.
    ///
    /// Where the answer is on record, it is given and nothing changes.
    /// Otherwise the child was asked for its size, with the render context of
    /// the pass and under the bounds that the query amounts to; what it
    /// answered is given and put on record, and nothing else changes but the
    /// widget itself.
    pub open spec fn measured(
        self,
        after: Self,
        node: NodeId,
        known_dimensions: KnownDimensions,
        available_space: AvailableSize,
        out: Size,
    ) -> bool {
        match self.record(node).cached_size(known_dimensions, available_space) {
            Some(size) => out == size && after =~= self,
            None => {
                &&& after =~= self.with_record(
                    node,
                    (GridChildView {
                        element: after.record(node).element,
                        ..self.record(node)
                    }).with_size(known_dimensions, available_space, out),
                )
                &&& self.record(node).element.measures(
                    &self.renderer,
                    ChildLimits::for_query_spec(known_dimensions, available_space),
                    out,
                    &after.record(node).element,
                )
            },
        }
    }

    /// What a full-layout query for the child `node` leaves of the tree, and
    /// what it gives.
    ///
    /// Where the answer is on record with its descendants, it is given and
    /// nothing changes. Otherwise the child was asked to lay itself out, with
    /// the render context of the pass and under the bounds that the query
    /// amounts to; the size of the node that it returned is given and put on
    /// record, the children of that node are the descendants on record, and
    /// nothing else changes but the widget itself. Either way the record
    /// afterwards answers the query with what was given.
    pub open spec fn laid_out(
        self,
        after: Self,
        node: NodeId,
        known_dimensions: KnownDimensions,
        available_space: AvailableSize,
        out: Size,
    ) -> bool {
        &&& match self.record(node).cached_layout(known_dimensions, available_space) {
            Some(size) => out == size && after =~= self,
            None => {
                &&& after =~= self.with_record(
                    node,
                    (GridChildView {
                        element: after.record(node).element,
                        ..self.record(node)
                    }).with_layout(
                        known_dimensions,
                        available_space,
                        out,
                        after.record(node).descendants,
                    ),
                )
                &&& exists|returned: NodeView| #[trigger]
                    self.record(node).element.lays_out(
                        &self.renderer,
                        ChildLimits::for_query_spec(known_dimensions, available_space),
                        returned,
                        &after.record(node).element,
                    ) && out == returned.bounds.size() && after.record(node).descendants
                        == returned.children
            },
        }
        &&& after.record(node).cached_layout(known_dimensions, available_space) == Some(out)
    }
}

impl<'node, 'b, W, R> GridLayoutTree<'node, 'b, W, R> {
    /// A view of `grid` for one pass with the render context `renderer`, which
    /// stays the render context for as long as the view lives. The box of the
    /// container itself starts out empty.
    pub fn new(grid: &'node mut Grid<W>, renderer: &'b R) -> (out: Self)
        ensures
            out@.grid == old(grid)@,
            out@.renderer == *renderer,
            out@.layout == Layout::with_order_spec(0),
            *final(out.grid) == *final(grid),
    {
        GridLayoutTree { grid, renderer, layout: Layout::null() }
    }

    /// Ends the pass: hands out the box that the solver wrote for the container
    /// itself. The container is then as this view last showed it.
    pub fn finish(self) -> (out: Layout)
        ensures
            out == self@.layout,
            (*final(self.grid))@ == self@.grid,
    {
        self.layout
    }

    /// The box that the solver has written for the container itself.
    pub fn layout(&self) -> (out: Layout)
        ensures
            out == self@.layout,
    {
        self.layout
    }

    /// The style of a node.
    pub fn style(&self, node: NodeId) -> (out: &Style)
        requires
            self@.has(node),
        ensures
            *out == self@.style(node),
    {
        match node {
            NodeId::Container => self.grid.container_style(),
            NodeId::Child(index) => self.grid.child(index).style(),
        }
    }

    /// The box on the record of a child, to be written in place. Only that box
    /// can change through the reference.
    ///
    /// The container itself has no record: its box is written with
    /// [`GridLayoutTree::record_box`].
    pub fn layout_mut(&mut self, node: NodeId) -> (out: &mut Layout)
        requires
            old(self)@.has_child(node),
        ensures
            *out == old(self)@.layout_of(node),
            final(self)@ == old(self)@.with_box(node, *final(out)),
            *final(final(self).grid) == *final(old(self).grid),
    {
        match node {
            NodeId::Container => unreached(),
            NodeId::Child(index) => self.grid.child_mut(index).layout_mut(),
        }
    }

    /// Takes down the box that the solver resolved for a node, in place of the
    /// one before: on the child's record, or for the container itself in this
    /// view.
    pub fn record_box(&mut self, node: NodeId, layout: Layout)
        requires
            old(self)@.has(node),
        ensures
            final(self)@ == old(self)@.with_box(node, layout),
            *final(final(self).grid) == *final(old(self).grid),
    {
        match node {
            NodeId::Container => {
                self.layout = layout;
            },
            NodeId::Child(index) => {
                self.grid.child_mut(index).set_layout(layout);
            },
        }
    }

    /// Takes down that a node takes no part in this pass: its box becomes
    /// empty, with the given paint order.
    pub fn record_hidden(&mut self, node: NodeId, order: u32)
        requires
            old(self)@.has(node),
        ensures
            final(self)@ == old(self)@.with_box(node, Layout::with_order_spec(order)),
            *final(final(self).grid) == *final(old(self).grid),
    {
        self.record_box(node, Layout::with_order(order));
    }

    /// The ids of the nodes below a node, in order.
    pub fn children(&self, node: NodeId) -> (out: GridChildIter)
        ensures
            out@ == child_ids(self@.child_count(node)),
    {
        GridChildIter::new(self.child_count(node))
    }

    /// The number of nodes below a node.
    pub fn child_count(&self, node: NodeId) -> (out: usize)
        ensures
            out == self@.child_count(node),
    {
        match node {
            NodeId::Container => self.grid.child_count(),
            NodeId::Child(_) => 0,
        }
    }

    /// The id of the child at `index`.
    pub fn child(&self, node: NodeId, index: usize) -> (out: NodeId)
        ensures
            out == NodeId::Child(index),
    {
        NodeId::Child(index)
    }
}

impl<'node, 'b, W: Participant<R>, R> GridLayoutTree<'node, 'b, W, R> {
    /// The size of a child under a hypothesis of the solver.
    ///
    /// Where the child has answered the same size-only query before, the answer
    /// on record is given and nothing changes: the child is not asked. Otherwise
    /// the child is asked for its size, with the render context of the pass and
    /// under the bounds that the query amounts to, and what it answers is put on
    /// record and given. In either case
    /// the box and the descendants on the child's record stay as they are, and
    /// so does every other record.
    pub fn measure_child_size(
        &mut self,
        child_node_id: NodeId,
        known_dimensions: KnownDimensions,
        _parent_size: KnownDimensions,
        available_space: AvailableSize,
        _sizing_mode: SizingMode,
    ) -> (out: Size)
        requires
            old(self)@.has_child(child_node_id),
        ensures
            old(self)@.measured(
                final(self)@,
                child_node_id,
                known_dimensions,
                available_space,
                out,
            ),
            *final(final(self).grid) == *final(old(self).grid),
    {
        let limits = ChildLimits::for_query(known_dimensions, available_space);
        match child_node_id {
            NodeId::Container => unreached(),
            NodeId::Child(index) => {
                let child = self.grid.child_mut(index);
                match child.cached_size(known_dimensions, available_space) {
                    Some(size) => size,
                    None => {
                        let size = child.element_mut().measure(self.renderer, &limits);
                        child.record_size(known_dimensions, available_space, size)
                    },
                }
            },
        }
    }

    /// The size of a child at its final layout.
    ///
    /// Where the child has answered the same full-layout query before and the
    /// descendants on its record are those of that answer, the size on record is
    /// given and nothing changes: the child is not asked. Otherwise the child is
    /// asked to lay itself out, with the render context of the pass and under
    /// the bounds that the query amounts to;
    /// the size of the node it returns is put on record and given, and the
    /// children of that node replace the descendants on record. In either case
    /// the descendants on record are afterwards those of the answer given. The
    /// box on the child's record stays as it is, and so does every other
    /// record.
    pub fn perform_child_layout(
        &mut self,
        child_node_id: NodeId,
        known_dimensions: KnownDimensions,
        _parent_size: KnownDimensions,
        available_space: AvailableSize,
        _sizing_mode: SizingMode,
    ) -> (out: Size)
        requires
            old(self)@.has_child(child_node_id),
        ensures
            old(self)@.laid_out(
                final(self)@,
                child_node_id,
                known_dimensions,
                available_space,
                out,
            ),
            *final(final(self).grid) == *final(old(self).grid),
    {
        let limits = ChildLimits::for_query(known_dimensions, available_space);
        match child_node_id {
            NodeId::Container => unreached(),
            NodeId::Child(index) => {
                let child = self.grid.child_mut(index);
                match child.cached_layout(known_dimensions, available_space) {
                    Some(size) => size,
                    None => {
                        let node = child.element_mut().layout(self.renderer, &limits);
                        child.record_layout(known_dimensions, available_space, node)
                    },
                }
            },
        }
    }
}

} // verus!
