//! What the container asks of a child.

use crate::geometry::Node;
use crate::geometry::NodeView;
use crate::geometry::Size;
use crate::sizing::ChildLimits;
use vstd::prelude::*;

verus! {

/// A widget that can take part in a layout: it can say how large it would be
/// under given bounds, and it can lay itself out under them.
///
/// `R` is the render context that the host hands down with every request.
///
/// What a widget may answer is for the widget to say: each kind of request has
/// a relation between the widget before the request, what it was asked, what it
/// answered and the widget afterwards, which the widget chooses. A widget that
/// says nothing allows every answer. The container assumes nothing of these
/// relations. It uses them to say what it asked and what it did with the
/// answer.
pub trait Participant<R>: Sized {
    /// Whether the widget, asked for its size under `limits` with the render
    /// context `renderer`, may answer `size` and be `after` afterwards.
    open spec fn measures(&self, renderer: &R, limits: ChildLimits, size: Size, after: &Self) -> bool {
        true
    }

    /// Whether the widget, asked to lay itself out under `limits` with the
    /// render context `renderer`, may return `node` and be `after` afterwards.
    open spec fn lays_out(
        &self,
        renderer: &R,
        limits: ChildLimits,
        node: NodeView,
        after: &Self,
    ) -> bool {
        true
    }

    /// The size that the widget would take under `limits`.
    fn measure(&mut self, renderer: &R, limits: &ChildLimits) -> (out: Size)
        ensures
            old(self).measures(renderer, *limits, out, final(self)),
    ;

    /// The widget laid out under `limits`: a node of its size, over the
    /// positioned nodes of its descendants.
    fn layout(&mut self, renderer: &R, limits: &ChildLimits) -> (out: Node)
        ensures
            old(self).lays_out(renderer, *limits, out@, final(self)),
    ;
}

} // verus!
