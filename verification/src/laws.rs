//! What holds of the container's records whatever the children answer and
//! whatever the solver asks.

use crate::cache::lemma_latest_is_held;
use crate::cache::lemma_remembered_holds;
use crate::cache::lemma_store;
use crate::cache::remembered;
use crate::cache::Answer;
use crate::cache::CacheKey;
use crate::child::GridChildView;
use crate::geometry::Layout;
use crate::geometry::Limits;
use crate::geometry::NodeView;
use crate::geometry::Size;
use crate::grid::GridView;
use crate::node::NodeId;
use crate::participant::Participant;
use crate::sizing::AvailableSize;
use crate::sizing::AvailableSpace;
use crate::sizing::AxisLimit;
use crate::sizing::ChildLimits;
use crate::sizing::KnownDimensions;
use crate::sizing::LayoutInput;
use crate::sizing::RunMode;
use crate::sizing::SizingMode;
use crate::tree::GridLayoutTreeView;
use taffy::Style;
use vstd::prelude::*;

verus! {

/// Once a child's answer to a size-only query is on record, the same query is
/// answered from the record, with that answer: the child is asked once.
pub proof fn lemma_recorded_size_is_served<W>(
    record: GridChildView<W>,
    known_dimensions: KnownDimensions,
    available_space: AvailableSize,
    size: Size,
)
    ensures
        record.with_size(known_dimensions, available_space, size).cached_size(
            known_dimensions,
            available_space,
        ) == Some(size),
{
    let key = CacheKey::of(known_dimensions, available_space, RunMode::ComputeSize);
    lemma_store(record.answers, key, size, key);
}

/// Once a child's answer to a full-layout query is on record, the same query
/// is answered from the record, with the size of the node that the child
/// returned, and the descendants on record are the children of that node.
pub proof fn lemma_recorded_layout_is_served<W>(
    record: GridChildView<W>,
    known_dimensions: KnownDimensions,
    available_space: AvailableSize,
    size: Size,
    descendants: Seq<NodeView>,
)
    ensures
        record.with_layout(known_dimensions, available_space, size, descendants).cached_layout(
            known_dimensions,
            available_space,
        ) == Some(size),
        record.with_layout(known_dimensions, available_space, size, descendants).descendants
            == descendants,
{
}

/// An answer to a size-only query never answers a full-layout query: putting
/// it on record changes the answer to no full-layout query, and leaves the box
/// and the descendants on record as they are.
pub proof fn lemma_size_answer_serves_no_layout<W>(
    record: GridChildView<W>,
    known_dimensions: KnownDimensions,
    available_space: AvailableSize,
    size: Size,
    asked_known_dimensions: KnownDimensions,
    asked_available_space: AvailableSize,
)
    ensures
        record.with_size(known_dimensions, available_space, size).cached_layout(
            asked_known_dimensions,
            asked_available_space,
        ) == record.cached_layout(asked_known_dimensions, asked_available_space),
        record.with_size(known_dimensions, available_space, size).layout == record.layout,
        record.with_size(known_dimensions, available_space, size).descendants == record.descendants,
        record.with_size(known_dimensions, available_space, size).laid_out_for
            == record.laid_out_for,
{
}

/// An answer to a full-layout query never answers a size-only query, and
/// putting it on record leaves the box on record as it is.
pub proof fn lemma_layout_answer_serves_no_size<W>(
    record: GridChildView<W>,
    known_dimensions: KnownDimensions,
    available_space: AvailableSize,
    size: Size,
    descendants: Seq<NodeView>,
    asked_known_dimensions: KnownDimensions,
    asked_available_space: AvailableSize,
)
    ensures
        record.with_layout(known_dimensions, available_space, size, descendants).cached_size(
            asked_known_dimensions,
            asked_available_space,
        ) == record.cached_size(asked_known_dimensions, asked_available_space),
        record.with_layout(known_dimensions, available_space, size, descendants).layout
            == record.layout,
{
}

/// A full-layout answer is served only together with its own descendants:
/// where the record gives an answer to a full-layout query, the descendants on
/// record are those that were put there with that answer. In particular, once
/// a child has been laid out for one query, no other full-layout query is
/// answered from the record.
pub proof fn lemma_layout_answer_has_its_descendants<W>(
    record: GridChildView<W>,
    known_dimensions: KnownDimensions,
    available_space: AvailableSize,
)
    requires
        record.cached_layout(known_dimensions, available_space) is Some,
    ensures
        record.laid_out_for == Some(
            CacheKey::of(known_dimensions, available_space, RunMode::PerformLayout),
        ),
        forall|other_known: KnownDimensions, other_available: AvailableSize|
            (other_known != known_dimensions || other_available != available_space)
                ==> record.cached_layout(other_known, other_available) is None,
{
}

/// Where a child gives the same size to a size-only query and to the
/// full-layout query with the same parameters, the container gives that same
/// size to both from then on: it adds no difference between the two of its
/// own.
pub proof fn lemma_agreeing_answers_stay_agreed<W>(
    record: GridChildView<W>,
    known_dimensions: KnownDimensions,
    available_space: AvailableSize,
    size: Size,
    descendants: Seq<NodeView>,
)
    ensures
        record.with_size(known_dimensions, available_space, size).with_layout(
            known_dimensions,
            available_space,
            size,
            descendants,
        ).cached_size(known_dimensions, available_space) == Some(size),
        record.with_size(known_dimensions, available_space, size).with_layout(
            known_dimensions,
            available_space,
            size,
            descendants,
        ).cached_layout(known_dimensions, available_space) == Some(size),
{
    let key = CacheKey::of(known_dimensions, available_space, RunMode::ComputeSize);
    lemma_store(record.answers, key, size, key);
}

/// After a child was given another style, no query is answered from the
/// record: every answer is asked for anew.
pub proof fn lemma_restyled_record_answers_nothing<W>(
    record: GridChildView<W>,
    style: Style,
    known_dimensions: KnownDimensions,
    available_space: AvailableSize,
)
    ensures
        record.restyled(style).cached_size(known_dimensions, available_space) is None,
        record.restyled(style).cached_layout(known_dimensions, available_space) is None,
{
}

/// A side that the limits fix is also the space that is offered along it: where
/// a side is known, the space available along it is definite and is the same
/// number as the known length.
pub proof fn lemma_known_side_is_offered(limits: Limits)
    ensures
        LayoutInput::from_limits_spec(limits).known_dimensions.width matches Some(width)
            ==> LayoutInput::from_limits_spec(limits).available_space.width
            matches AvailableSpace::Definite(offered) && width.same_number(offered),
        LayoutInput::from_limits_spec(limits).known_dimensions.height matches Some(height)
            ==> LayoutInput::from_limits_spec(limits).available_space.height
            matches AvailableSpace::Definite(offered) && height.same_number(offered),
        LayoutInput::from_limits_spec(limits).sizing_mode == SizingMode::InherentSize,
{
}

/// A side that the solver knows is a tight bound for the child, at the rounded
/// length, whatever space the solver offers along that side.
pub proof fn lemma_known_side_is_a_tight_bound(
    known_dimensions: KnownDimensions,
    available_space: AvailableSize,
)
    ensures
        known_dimensions.width matches Some(width) ==> ChildLimits::for_query_spec(
            known_dimensions,
            available_space,
        ).width == AxisLimit::Exactly(width.rounded()),
        known_dimensions.height matches Some(height) ==> ChildLimits::for_query_spec(
            known_dimensions,
            available_space,
        ).height == AxisLimit::Exactly(height.rounded()),
{
}

/// The box that is taken down for a node is the box of that node afterwards,
/// whatever was there before: nothing of an earlier box is left.
pub proof fn lemma_box_is_overwritten<W, R>(
    tree: GridLayoutTreeView<W, R>,
    node: NodeId,
    earlier: Layout,
    layout: Layout,
)
    requires
        tree.has(node),
    ensures
        tree.with_box(node, layout).layout_of(node) == layout,
        tree.with_box(node, earlier).with_box(node, layout) == tree.with_box(node, layout),
{
    assert(tree.with_box(node, earlier).with_box(node, layout) =~= tree.with_box(node, layout));
}

/// What a child answered to one size-only query that was not on record: which
/// child, the query, the size it gave, and the widget as it was afterwards.
pub struct SizeAnswer<W> {
    pub index: int,
    pub known_dimensions: KnownDimensions,
    pub available_space: AvailableSize,
    pub size: Size,
    pub element: W,
}

/// The container after a child's answer to a size-only query was put on
/// record: what [`crate::tree::GridLayoutTree::measure_child_size`] leaves
/// where the query was not on record.
pub open spec fn after_size_answer<W>(grid: GridView<W>, answer: SizeAnswer<W>) -> GridView<W> {
    if 0 <= answer.index < grid.children.len() {
        GridView {
            children: grid.children.update(
                answer.index,
                (GridChildView { element: answer.element, ..grid.children[answer.index] }).with_size(
                    answer.known_dimensions,
                    answer.available_space,
                    answer.size,
                ),
            ),
            ..grid
        }
    } else {
        grid
    }
}

/// The container after a run of such answers, in order.
pub open spec fn after_size_answers<W>(grid: GridView<W>, answers: Seq<SizeAnswer<W>>) -> GridView<W>
    decreases answers.len(),
{
    if answers.len() == 0 {
        grid
    } else {
        after_size_answer(after_size_answers(grid, answers.drop_last()), answers.last())
    }
}

/// A pass in which the solver asks for sizes only leaves every box and every
/// list of descendants as it found them, whatever it asks, of whichever
/// children, in whatever order, and whatever the children answer. It leaves
/// the number and the styles of the children, the container's own settings,
/// and what is on record of each child's last full layout. Only answers to
/// size-only queries are added.
pub proof fn lemma_size_queries_leave_boxes_and_descendants<W>(
    grid: GridView<W>,
    answers: Seq<SizeAnswer<W>>,
    index: int,
)
    requires
        0 <= index < grid.children.len(),
    ensures
        after_size_answers(grid, answers).width == grid.width,
        after_size_answers(grid, answers).height == grid.height,
        after_size_answers(grid, answers).style == grid.style,
        after_size_answers(grid, answers).children.len() == grid.children.len(),
        after_size_answers(grid, answers).children[index].layout == grid.children[index].layout,
        after_size_answers(grid, answers).children[index].descendants
            == grid.children[index].descendants,
        after_size_answers(grid, answers).children[index].style == grid.children[index].style,
        after_size_answers(grid, answers).children[index].laid_out_for
            == grid.children[index].laid_out_for,
        after_size_answers(grid, answers).children[index].answers.layout
            == grid.children[index].answers.layout,
        after_size_answers(grid, answers).positioned(Size::zero_spec()).children[index]
            == grid.positioned(Size::zero_spec()).children[index],
    decreases answers.len(),
{
    if answers.len() > 0 {
        lemma_size_queries_leave_boxes_and_descendants(grid, answers.drop_last(), index);
        let last = answers.last();
        if 0 <= last.index < grid.children.len() {
            lemma_size_queries_leave_boxes_and_descendants(grid, answers.drop_last(), last.index);
        }
    }
}

/// What a size-only query that was not on record leaves of the container is
/// what [`after_size_answer`] says.
pub proof fn lemma_size_query_is_a_size_answer<W, R>(
    tree: GridLayoutTreeView<W, R>,
    answer: SizeAnswer<W>,
)
    requires
        0 <= answer.index < tree.grid.children.len(),
        answer.index <= usize::MAX,
    ensures
        tree.with_record(
            NodeId::Child(answer.index as usize),
            (GridChildView {
                element: answer.element,
                ..tree.record(NodeId::Child(answer.index as usize))
            }).with_size(answer.known_dimensions, answer.available_space, answer.size),
        ).grid == after_size_answer(tree.grid, answer),
{
}

/// Whether `answer` is a size that a widget of this kind may give when it is
/// asked for its size under the bounds of the query, with the render context
/// `renderer`.
pub open spec fn given_as_size<W: Participant<R>, R>(renderer: R, answer: Answer) -> bool {
    exists|before: W, after: W| #[trigger]
        before.measures(
            &renderer,
            ChildLimits::for_query_spec(answer.key.known_dimensions, answer.key.available_space),
            answer.size,
            &after,
        )
}

/// Whether `answer` is the size of a node that a widget of this kind may return
/// when it is asked to lay itself out under the bounds of the query, with the
/// render context `renderer`.
pub open spec fn given_as_layout<W: Participant<R>, R>(renderer: R, answer: Answer) -> bool {
    exists|before: W, after: W, node: NodeView| #[trigger]
        before.lays_out(
            &renderer,
            ChildLimits::for_query_spec(answer.key.known_dimensions, answer.key.available_space),
            node,
            &after,
        ) && node.bounds.size() == answer.size
}

/// Whether every answer on the record is the child's own: each was given by a
/// widget of this kind to the request of its kind, under the bounds of its
/// query and with the render context `renderer`.
pub open spec fn answers_are_the_childs<W: Participant<R>, R>(
    record: GridChildView<W>,
    renderer: R,
) -> bool {
    &&& forall|at: int|
        0 <= at < record.answers.sizes.len() ==> given_as_size::<W, R>(
            renderer,
            #[trigger] record.answers.sizes[at],
        )
    &&& record.answers.layout matches Some(answer) ==> given_as_layout::<W, R>(renderer, answer)
}

/// Whether the widgets of this kind answer both kinds of request alike: under
/// the same bounds and with the same render context, the node that one returns
/// when it is laid out has the size that one gives when it is asked for its
/// size.
pub open spec fn answers_alike<W: Participant<R>, R>() -> bool {
    forall|renderer: R, limits: ChildLimits, asked: W, then: W, size: Size, laid: W, after: W, node: NodeView|
        #[trigger] asked.measures(&renderer, limits, size, &then) && #[trigger] laid.lays_out(
            &renderer,
            limits,
            node,
            &after,
        ) ==> node.bounds.size() == size
}

/// The record of a child that has not been asked yet holds no answer that is
/// not the child's.
pub proof fn lemma_fresh_record_is_the_childs<W: Participant<R>, R>(
    element: W,
    style: Style,
    renderer: R,
)
    ensures
        answers_are_the_childs(GridChildView::fresh(element, style), renderer),
{
}

/// A size-only query gives an answer of the child's, and leaves a record on
/// which every answer is the child's as it found it: the container makes up no
/// answer and hands no answer to a query of other bounds.
pub proof fn lemma_size_query_gives_the_childs_answer<W: Participant<R>, R>(
    before: GridLayoutTreeView<W, R>,
    after: GridLayoutTreeView<W, R>,
    node: NodeId,
    known_dimensions: KnownDimensions,
    available_space: AvailableSize,
    out: Size,
)
    requires
        before.has_child(node),
        answers_are_the_childs(before.record(node), before.renderer),
        before.measured(after, node, known_dimensions, available_space, out),
    ensures
        after.renderer == before.renderer,
        after.has_child(node),
        answers_are_the_childs(after.record(node), after.renderer),
        given_as_size::<W, R>(
            before.renderer,
            Answer {
                key: CacheKey::of(known_dimensions, available_space, RunMode::ComputeSize),
                size: out,
            },
        ),
{
    let key = CacheKey::of(known_dimensions, available_space, RunMode::ComputeSize);
    let record = before.record(node);
    if record.cached_size(known_dimensions, available_space) is Some {
        let at = lemma_latest_is_held(record.answers.sizes, key);
        assert(given_as_size::<W, R>(before.renderer, record.answers.sizes[at]));
    } else {
        let answer = Answer { key, size: out };
        assert(given_as_size::<W, R>(before.renderer, answer)) by {
            assert(record.element.measures(
                &before.renderer,
                ChildLimits::for_query_spec(answer.key.known_dimensions, answer.key.available_space),
                answer.size,
                &after.record(node).element,
            ));
        }
        let held = after.record(node).answers.sizes;
        assert(held == remembered(record.answers.sizes, key, out));
        assert forall|at: int| 0 <= at < held.len() implies given_as_size::<W, R>(
            after.renderer,
            #[trigger] held[at],
        ) by {
            lemma_remembered_holds(record.answers.sizes, key, out, at);
            if held[at] != answer {
                let from = choose|from: int|
                    0 <= from < record.answers.sizes.len() && #[trigger] record.answers.sizes[from]
                        == held[at];
                assert(given_as_size::<W, R>(before.renderer, record.answers.sizes[from]));
            }
        }
    }
}

/// A full-layout query gives the size of a node of the child's, and leaves a
/// record on which every answer is the child's as it found it.
pub proof fn lemma_layout_query_gives_the_childs_answer<W: Participant<R>, R>(
    before: GridLayoutTreeView<W, R>,
    after: GridLayoutTreeView<W, R>,
    node: NodeId,
    known_dimensions: KnownDimensions,
    available_space: AvailableSize,
    out: Size,
)
    requires
        before.has_child(node),
        answers_are_the_childs(before.record(node), before.renderer),
        before.laid_out(after, node, known_dimensions, available_space, out),
    ensures
        after.renderer == before.renderer,
        after.has_child(node),
        answers_are_the_childs(after.record(node), after.renderer),
        given_as_layout::<W, R>(
            before.renderer,
            Answer {
                key: CacheKey::of(known_dimensions, available_space, RunMode::PerformLayout),
                size: out,
            },
        ),
{
    let key = CacheKey::of(known_dimensions, available_space, RunMode::PerformLayout);
    let record = before.record(node);
    if record.cached_layout(known_dimensions, available_space) is None {
        let returned = choose|returned: NodeView| #[trigger]
            record.element.lays_out(
                &before.renderer,
                ChildLimits::for_query_spec(known_dimensions, available_space),
                returned,
                &after.record(node).element,
            ) && out == returned.bounds.size() && after.record(node).descendants
                == returned.children;
        assert(given_as_layout::<W, R>(before.renderer, Answer { key, size: out }));
        assert(after.record(node).answers.sizes == record.answers.sizes);
    }
}

/// A query that is asked again at once is answered as before, and asking again
/// changes nothing: not the records, not the widget, which is not asked a
/// second time. This holds of a size-only query and of a full-layout query,
/// whatever the child answered the first time.
pub proof fn lemma_query_again_changes_nothing<W: Participant<R>, R>(
    before: GridLayoutTreeView<W, R>,
    after: GridLayoutTreeView<W, R>,
    again: GridLayoutTreeView<W, R>,
    node: NodeId,
    known_dimensions: KnownDimensions,
    available_space: AvailableSize,
    out: Size,
    out_again: Size,
)
    requires
        before.has_child(node),
    ensures
        before.measured(after, node, known_dimensions, available_space, out) && after.measured(
            again,
            node,
            known_dimensions,
            available_space,
            out_again,
        ) ==> out_again == out && again == after,
        before.laid_out(after, node, known_dimensions, available_space, out) && after.laid_out(
            again,
            node,
            known_dimensions,
            available_space,
            out_again,
        ) ==> out_again == out && again == after,
{
    let key = CacheKey::of(known_dimensions, available_space, RunMode::ComputeSize);
    lemma_store(before.record(node).answers, key, out, key);
}

/// The size-only and the full-layout answer for the same parameters do not
/// diverge. Where the widgets of a child's kind answer both kinds of request
/// alike, the size that a full-layout query gives is the size that a size-only
/// query for the same known dimensions and the same available space gave
/// before, in the same pass or in any pass with the same render context,
/// whatever was asked in between and whether or not the first answer is still
/// on record.
///
/// `asked` and `measured` are the tree before and after the size-only query,
/// `later` and `laid` before and after the full-layout query. Between the two
/// the tree may have changed in any way that left the answers on the child's
/// record the child's own, as every query does.
pub proof fn lemma_size_and_layout_answers_do_not_diverge<W: Participant<R>, R>(
    asked: GridLayoutTreeView<W, R>,
    measured: GridLayoutTreeView<W, R>,
    later: GridLayoutTreeView<W, R>,
    laid: GridLayoutTreeView<W, R>,
    node: NodeId,
    known_dimensions: KnownDimensions,
    available_space: AvailableSize,
    size: Size,
    layout_size: Size,
)
    requires
        answers_alike::<W, R>(),
        asked.has_child(node),
        answers_are_the_childs(asked.record(node), asked.renderer),
        asked.measured(measured, node, known_dimensions, available_space, size),
        later.has_child(node),
        later.renderer == asked.renderer,
        answers_are_the_childs(later.record(node), later.renderer),
        later.laid_out(laid, node, known_dimensions, available_space, layout_size),
    ensures
        layout_size == size,
{
    lemma_size_query_gives_the_childs_answer(
        asked,
        measured,
        node,
        known_dimensions,
        available_space,
        size,
    );
    lemma_layout_query_gives_the_childs_answer(
        later,
        laid,
        node,
        known_dimensions,
        available_space,
        layout_size,
    );
}

/// A box that the solver took down for a child: which child, and the box.
pub struct BoxWritten {
    pub index: int,
    pub layout: Layout,
}

/// The records after the solver took down a run of boxes, in order.
pub open spec fn after_boxes<W>(
    children: Seq<GridChildView<W>>,
    written: Seq<BoxWritten>,
) -> Seq<GridChildView<W>>
    decreases written.len(),
{
    if written.len() == 0 {
        children
    } else {
        let before = after_boxes(children, written.drop_last());
        let last = written.last();
        if 0 <= last.index < before.len() {
            before.update(last.index, GridChildView { layout: last.layout, ..before[last.index] })
        } else {
            before
        }
    }
}

/// The box of a child after a pass in which the solver took down a box for it
/// is a box of that pass: it is the same whatever box the record held before.
/// So two containers that go through the same pass have the same boxes
/// afterwards for every child that the pass took down a box for, and nothing
/// of a box from an earlier pass is left in them.
pub proof fn lemma_boxes_depend_on_the_pass_only<W>(
    first: Seq<GridChildView<W>>,
    second: Seq<GridChildView<W>>,
    written: Seq<BoxWritten>,
    index: int,
)
    requires
        first.len() == second.len(),
        0 <= index < first.len(),
        exists|at: int| 0 <= at < written.len() && (#[trigger] written[at]).index == index,
    ensures
        after_boxes(first, written).len() == first.len(),
        after_boxes(second, written).len() == second.len(),
        after_boxes(first, written)[index].layout == after_boxes(second, written)[index].layout,
    decreases written.len(),
{
    lemma_boxes_keep_the_count(first, written);
    lemma_boxes_keep_the_count(second, written);
    lemma_boxes_keep_the_count(first, written.drop_last());
    lemma_boxes_keep_the_count(second, written.drop_last());
    if written.last().index != index {
        let at = choose|at: int| 0 <= at < written.len() && (#[trigger] written[at]).index == index;
        assert(written.drop_last()[at].index == index);
        lemma_boxes_depend_on_the_pass_only(first, second, written.drop_last(), index);
    }
}

/// What taking down a box for a child leaves of the records is what
/// [`after_boxes`] says of that one box.
pub proof fn lemma_box_taken_down_is_a_box_written<W, R>(
    tree: GridLayoutTreeView<W, R>,
    index: usize,
    layout: Layout,
)
    requires
        index < tree.grid.children.len(),
    ensures
        tree.with_box(NodeId::Child(index), layout).grid.children == after_boxes(
            tree.grid.children,
            seq![BoxWritten { index: index as int, layout }],
        ),
{
    let written = seq![BoxWritten { index: index as int, layout }];
    assert(written.drop_last().len() == 0);
    assert(after_boxes(tree.grid.children, written.drop_last()) == tree.grid.children);
}

/// Taking down boxes adds no record and drops none.
proof fn lemma_boxes_keep_the_count<W>(children: Seq<GridChildView<W>>, written: Seq<BoxWritten>)
    ensures
        after_boxes(children, written).len() == children.len(),
    decreases written.len(),
{
    if written.len() > 0 {
        lemma_boxes_keep_the_count(children, written.drop_last());
    }
}

/// The positioned tree depends on the records of the children only through
/// their boxes and descendants: two containers whose children have the same
/// boxes and the same descendants on record give the same tree for the same
/// size. So a pass that leaves the same boxes and descendants as the pass
/// before it gives the same tree, bit for bit.
pub proof fn lemma_tree_depends_on_boxes_and_descendants<W>(
    first: GridView<W>,
    second: GridView<W>,
    size: Size,
)
    requires
        first.children.len() == second.children.len(),
        forall|i: int|
            0 <= i < first.children.len() ==> (#[trigger] first.children[i]).layout
                == second.children[i].layout,
        forall|i: int|
            0 <= i < first.children.len() ==> (#[trigger] first.children[i]).descendants
                == second.children[i].descendants,
    ensures
        first.positioned(size) == second.positioned(size),
{
    assert(first.positioned(size).children =~= second.positioned(size).children);
}

/// The tree has one node for each child, in the order of the children, and the
/// node of a child carries that child's box, rounded, over that child's
/// descendants.
pub proof fn lemma_tree_follows_children<W>(grid: GridView<W>, size: Size, index: int)
    requires
        0 <= index < grid.children.len(),
    ensures
        grid.positioned(size).bounds.size() == size,
        grid.positioned(size).children.len() == grid.children.len(),
        grid.positioned(size).children[index].bounds == grid.children[index].layout.rounded().bounds_spec(),
        grid.positioned(size).children[index].children == grid.children[index].descendants,
{
}

/// A child that is appended stands behind all others, and the others stay
/// where they are: the index of a child is the number of children that were
/// appended before it.
pub proof fn lemma_appended_in_order<W>(grid: GridView<W>, element: W, style: Style, index: int)
    requires
        0 <= index < grid.children.len(),
    ensures
        grid.appended(element, style).children.len() == grid.children.len() + 1,
        grid.appended(element, style).children[grid.children.len() as int] == GridChildView::fresh(
            element,
            style,
        ),
        grid.appended(element, style).children[index] == grid.children[index],
{
}

/// Below the container the solver finds as many nodes as there are children.
/// The id of the child at an index names the record at that index and no
/// other, is not the id of the container, and is found again from the number
/// that names it. This holds of any number of children that a container can
/// hold: one that can be counted in a `usize`.
pub proof fn lemma_child_id_names_its_record<W, R>(tree: GridLayoutTreeView<W, R>, i: usize, j: usize)
    requires
        tree.grid.children.len() <= usize::MAX,
        i < tree.grid.children.len(),
        j < tree.grid.children.len(),
    ensures
        tree.child_count(NodeId::Container) == tree.grid.children.len(),
        tree.has_child(NodeId::Child(i)),
        tree.record(NodeId::Child(i)) == tree.grid.children[i as int],
        tree.style(NodeId::Child(i)) == tree.grid.children[i as int].style,
        NodeId::from_raw_spec(NodeId::Child(i).raw()) == Some(NodeId::Child(i)),
        NodeId::Child(i).raw() != NodeId::Container.raw(),
        i != j ==> NodeId::Child(i).raw() != NodeId::Child(j).raw(),
{
}

} // verus!
