//! The record that the container keeps of one child.

use crate::cache::Cache;
use crate::cache::CacheKey;
use crate::cache::CacheView;
use crate::geometry::Layout;
use crate::geometry::Node;
use crate::geometry::NodeView;
use crate::geometry::Size;
use crate::geometry::views_of;
use crate::sizing::AvailableSize;
use crate::sizing::KnownDimensions;
use crate::sizing::RunMode;
use taffy::Style;
use vstd::prelude::*;

verus! {

/// One child of the container: the widget, its style, what it answered to the
/// solver so far, the box that the solver last assigned to it, and the layout
/// of its own descendants as it last resolved them.
pub struct GridChild<W> {
    element: W,
    style: Style,
    cache: Cache,
    layout: Layout,
    child_layouts: Vec<Node>,
    laid_out_for: Option<CacheKey>,
}

/// What a [`GridChild`] holds.
#[verifier::ext_equal]
pub struct GridChildView<W> {
    /// The widget.
    pub element: W,
    /// Its style.
    pub style: Style,
    /// Its remembered answers.
    pub answers: CacheView,
    /// The box that the solver last assigned to it.
    pub layout: Layout,
    /// The positioned nodes of its descendants, from its last full layout.
    pub descendants: Seq<NodeView>,
    /// The query that this last full layout answered, if there was one.
    pub laid_out_for: Option<CacheKey>,
}

impl<W> View for GridChild<W> {
    type V = GridChildView<W>;

    closed spec fn view(&self) -> GridChildView<W> {
        GridChildView {
            element: self.element,
            style: self.style,
            answers: self.cache@,
            layout: self.layout,
            descendants: views_of(self.child_layouts@),
            laid_out_for: self.laid_out_for,
        }
    }
}

impl<W> GridChildView<W> {
    /// The view of a record that was just made for `element` and `style`.
    pub open spec fn fresh(element: W, style: Style) -> GridChildView<W> {
        GridChildView {
            element,
            style,
            answers: CacheView::empty(),
            layout: Layout::with_order_spec(0),
            descendants: Seq::empty(),
            laid_out_for: None,
        }
    }

    /// The answer that is on record for a size-only query, if there is one.
    pub open spec fn cached_size(
        self,
        known_dimensions: KnownDimensions,
        available_space: AvailableSize,
    ) -> Option<Size> {
        self.answers.get(CacheKey::of(known_dimensions, available_space, RunMode::ComputeSize))
    }

    /// The answer that is on record for a full-layout query, if there is one
    /// and the descendants on record are those that came with it.
    pub open spec fn cached_layout(
        self,
        known_dimensions: KnownDimensions,
        available_space: AvailableSize,
    ) -> Option<Size> {
        let key = CacheKey::of(known_dimensions, available_space, RunMode::PerformLayout);
        if self.laid_out_for == Some(key) {
            self.answers.get(key)
        } else {
            None
        }
    }

    /// The record after the child answered a size-only query with `size`.
    pub open spec fn with_size(
        self,
        known_dimensions: KnownDimensions,
        available_space: AvailableSize,
        size: Size,
    ) -> GridChildView<W> {
        let key = CacheKey::of(known_dimensions, available_space, RunMode::ComputeSize);
        GridChildView { answers: self.answers.store(key, size), ..self }
    }

    /// The record after the child answered a full-layout query with a node of
    /// the given size over the given descendants.
    pub open spec fn with_layout(
        self,
        known_dimensions: KnownDimensions,
        available_space: AvailableSize,
        size: Size,
        descendants: Seq<NodeView>,
    ) -> GridChildView<W> {
        let key = CacheKey::of(known_dimensions, available_space, RunMode::PerformLayout);
        GridChildView {
            answers: self.answers.store(key, size),
            descendants,
            laid_out_for: Some(key),
            ..self
        }
    }

    /// The record with another style for the child. No answer that the child
    /// gave under the style before is kept.
    pub open spec fn restyled(self, style: Style) -> GridChildView<W> {
        GridChildView { style, answers: CacheView::empty(), laid_out_for: None, ..self }
    }

    /// The positioned node of the child: the box on record, rounded to whole
    /// numbers, over the descendants on record.
    pub open spec fn positioned(self) -> NodeView {
        NodeView { bounds: self.layout.rounded().bounds_spec(), children: self.descendants }
    }
}

impl<W> GridChild<W> {
    /// The record of a child that has not been measured yet.
    pub fn new(element: W, style: Style) -> (out: GridChild<W>)
        ensures
            out@ == GridChildView::fresh(element, style),
    {
        GridChild {
            element,
            style,
            cache: Cache::new(),
            layout: Layout::null(),
            child_layouts: Vec::new(),
            laid_out_for: None,
        }
    }

    /// The widget.
    pub fn element(&self) -> (out: &W)
        ensures
            *out == self@.element,
    {
        &self.element
    }

    /// The widget, to be changed in place. Nothing else of the record changes.
    pub fn element_mut(&mut self) -> (out: &mut W)
        ensures
            *out == old(self)@.element,
            final(self)@ == (GridChildView { element: *final(out), ..old(self)@ }),
    {
        &mut self.element
    }

    /// The style of the child.
    pub fn style(&self) -> (out: &Style)
        ensures
            *out == self@.style,
    {
        &self.style
    }

    /// Gives the child another style. What the child answered so far was
    /// answered under the style before and is forgotten, so that the child is
    /// asked anew; the box and the descendants on record stay until the next
    /// pass replaces them.
    pub fn set_style(&mut self, style: Style)
        ensures
            final(self)@ == old(self)@.restyled(style),
    {
        self.style = style;
        self.cache.clear();
        self.laid_out_for = None;
    }

    /// The box that the solver last assigned to the child.
    pub fn layout(&self) -> (out: Layout)
        ensures
            out == self@.layout,
    {
        self.layout
    }

    /// The positioned nodes of the child's descendants, from its last full
    /// layout.
    pub fn child_layouts(&self) -> (out: &Vec<Node>)
        ensures
            views_of(out@) == self@.descendants,
    {
        &self.child_layouts
    }

    /// The answer on record for a size-only query.
    pub fn cached_size(&self, known_dimensions: KnownDimensions, available_space: AvailableSize) -> (out:
        Option<Size>)
        ensures
            out == self@.cached_size(known_dimensions, available_space),
    {
        self.cache.get(known_dimensions, available_space, RunMode::ComputeSize)
    }

    /// The answer on record for a full-layout query. It is given only while the
    /// descendants on record are those of that very answer.
    pub fn cached_layout(&self, known_dimensions: KnownDimensions, available_space: AvailableSize) -> (out:
        Option<Size>)
        ensures
            out == self@.cached_layout(known_dimensions, available_space),
    {
        let key = CacheKey {
            known_dimensions,
            available_space,
            run_mode: RunMode::PerformLayout,
        };
        match self.laid_out_for {
            Some(held) => {
                if held == key {
                    self.cache.get(known_dimensions, available_space, RunMode::PerformLayout)
                } else {
                    None
                }
            },
            None => None,
        }
    }

    /// Puts on record what the child answered to a size-only query, and hands
    /// the answer back. The box and the descendants on record stay.
    pub fn record_size(
        &mut self,
        known_dimensions: KnownDimensions,
        available_space: AvailableSize,
        size: Size,
    ) -> (out: Size)
        ensures
            out == size,
            final(self)@ == old(self)@.with_size(known_dimensions, available_space, size),
    {
        self.cache.store(known_dimensions, available_space, RunMode::ComputeSize, size);
        size
    }

    /// Puts on record what the child answered to a full-layout query: the size
    /// of the node as the answer, and the children of the node as the child's
    /// resolved descendants, in place of those on record. Hands the size back.
    pub fn record_layout(
        &mut self,
        known_dimensions: KnownDimensions,
        available_space: AvailableSize,
        node: Node,
    ) -> (out: Size)
        ensures
            out == node@.bounds.size(),
            final(self)@ == old(self)@.with_layout(
                known_dimensions,
                available_space,
                node@.bounds.size(),
                node@.children,
            ),
    {
        let size = node.size();
        self.cache.store(known_dimensions, available_space, RunMode::PerformLayout, size);
        self.child_layouts = node.children;
        self.laid_out_for = Some(
            CacheKey { known_dimensions, available_space, run_mode: RunMode::PerformLayout },
        );
        size
    }

    /// Puts the box that the solver assigned to the child on record, in place
    /// of the one before.
    pub fn set_layout(&mut self, layout: Layout)
        ensures
            final(self)@ == (GridChildView { layout, ..old(self)@ }),
    {
        self.layout = layout;
    }

    /// The box on record, to be written in place. Nothing else of the record
    /// changes.
    pub fn layout_mut(&mut self) -> (out: &mut Layout)
        ensures
            *out == old(self)@.layout,
            final(self)@ == (GridChildView { layout: *final(out), ..old(self)@ }),
    {
        &mut self.layout
    }

    /// The positioned node of the child, put together from the record alone:
    /// the box on record, rounded, over a copy of the descendants on record.
    pub fn positioned(&self) -> (out: Node)
        ensures
            out@ == self@.positioned(),
    {
        let children = Node::duplicate_all(&self.child_layouts);
        Node { bounds: self.layout.round().bounds(), children }
    }
}

} // verus!
