//! The container as the solver sees it, query by query.

use iced_taffy::geometry::Layout;
use iced_taffy::geometry::Node;
use iced_taffy::geometry::Point;
use iced_taffy::geometry::Rectangle;
use iced_taffy::geometry::Size;
use iced_taffy::scalar::Scalar;
use iced_taffy::sizing::AvailableSize;
use iced_taffy::sizing::AvailableSpace;
use iced_taffy::sizing::AxisLimit;
use iced_taffy::sizing::ChildLimits;
use iced_taffy::sizing::KnownDimensions;
use iced_taffy::sizing::SizingMode;
use iced_taffy::Grid;
use iced_taffy::GridLayoutTree;
use iced_taffy::NodeId;
use iced_taffy::Participant;

fn scalar(value: f32) -> Scalar {
    Scalar::from_bits(value.to_bits())
}

fn size(width: f32, height: f32) -> Size {
    Size { width: scalar(width), height: scalar(height) }
}

fn known(width: Option<f32>, height: Option<f32>) -> KnownDimensions {
    KnownDimensions { width: width.map(scalar), height: height.map(scalar) }
}

fn definite(width: f32, height: f32) -> AvailableSize {
    AvailableSize {
        width: AvailableSpace::Definite(scalar(width)),
        height: AvailableSpace::Definite(scalar(height)),
    }
}

fn a_box(order: u32, x: f32, y: f32, width: f32, height: f32) -> Layout {
    Layout { order, size: size(width, height), location: Point { x: scalar(x), y: scalar(y) } }
}

/// A child that keeps a list of what it was asked. Its size is the number of
/// the request in width and a number of its own in height, so that no two of
/// its answers are the same.
struct Probe {
    tag: f32,
    measured: Vec<ChildLimits>,
    laid_out: Vec<ChildLimits>,
}

impl Probe {
    fn new(tag: f32) -> Probe {
        Probe { tag, measured: Vec::new(), laid_out: Vec::new() }
    }

    fn asked(&self) -> f32 {
        (self.measured.len() + self.laid_out.len()) as f32
    }
}

/// The render context of the tests: a number that the children can see.
struct Context(f32);

impl Participant<Context> for Probe {
    fn measure(&mut self, renderer: &Context, limits: &ChildLimits) -> Size {
        self.measured.push(*limits);
        size(self.asked() + renderer.0, self.tag)
    }

    fn layout(&mut self, renderer: &Context, limits: &ChildLimits) -> Node {
        self.laid_out.push(*limits);
        let own = size(self.asked() + renderer.0, self.tag);
        let mut below = Node::new(size(self.asked(), 1.0));
        below.move_to(Point { x: scalar(self.tag), y: scalar(2.0) });
        Node::with_children(own, vec![below])
    }
}

fn three() -> Grid<Probe> {
    Grid::new()
        .with_child(Probe::new(10.0))
        .with_child(Probe::new(20.0))
        .with_child(Probe::new(30.0))
}

const INHERENT: SizingMode = SizingMode::InherentSize;

#[test]
fn the_solver_finds_the_children_in_order() {
    let mut grid = three();
    let context = Context(0.0);
    let tree = GridLayoutTree::new(&mut grid, &context);
    assert_eq!(tree.child_count(NodeId::Container), 3);
    for index in 0..3 {
        assert_eq!(tree.child(NodeId::Container, index), NodeId::Child(index));
    }
    let mut walk = tree.children(NodeId::Container);
    assert_eq!(walk.next(), Some(NodeId::Child(0)));
    assert_eq!(walk.next(), Some(NodeId::Child(1)));
    assert_eq!(walk.next(), Some(NodeId::Child(2)));
    assert_eq!(walk.next(), None);
}

#[test]
fn nothing_lies_below_a_child() {
    let mut grid = three();
    let context = Context(0.0);
    let tree = GridLayoutTree::new(&mut grid, &context);
    assert_eq!(tree.child_count(NodeId::Child(1)), 0);
    assert_eq!(tree.children(NodeId::Child(1)).next(), None);
}

#[test]
fn each_node_has_its_own_style() {
    let mut grid: Grid<Probe> = Grid::new()
        .with_columns(vec![taffy::style_helpers::length(40.0)])
        .with_styled_child(Probe::new(1.0), |style| style.flex_grow = 7.0)
        .with_child(Probe::new(2.0))
        .with_styled_child(Probe::new(3.0), |style| style.flex_grow = 9.0);
    let context = Context(0.0);
    let tree = GridLayoutTree::new(&mut grid, &context);
    assert_eq!(tree.style(NodeId::Container).grid_template_columns.len(), 1);
    assert_eq!(tree.style(NodeId::Container).flex_grow, 0.0);
    assert_eq!(tree.style(NodeId::Child(0)).flex_grow, 7.0);
    assert_eq!(*tree.style(NodeId::Child(1)), taffy::Style::DEFAULT);
    assert_eq!(tree.style(NodeId::Child(2)).flex_grow, 9.0);
    assert!(tree.style(NodeId::Child(0)).grid_template_columns.is_empty());
}

#[test]
fn a_repeated_size_query_does_not_reach_the_child() {
    let mut grid = three();
    let context = Context(0.0);
    {
        let mut tree = GridLayoutTree::new(&mut grid, &context);
        let query = (known(Some(40.0), None), definite(100.0, 80.0));
        let first = tree.measure_child_size(NodeId::Child(1), query.0, known(None, None), query.1, INHERENT);
        let second = tree.measure_child_size(NodeId::Child(1), query.0, known(None, None), query.1, INHERENT);
        assert_eq!(first, size(1.0, 20.0));
        assert_eq!(second, first);
    }
    assert_eq!(grid.child(1).element().measured.len(), 1);
    assert_eq!(grid.child(1).element().laid_out.len(), 0);
    assert_eq!(grid.child(0).element().asked(), 0.0);
    assert_eq!(grid.child(2).element().asked(), 0.0);
}

#[test]
fn the_parent_size_and_the_sizing_mode_are_no_part_of_a_query() {
    let mut grid = three();
    let context = Context(0.0);
    {
        let mut tree = GridLayoutTree::new(&mut grid, &context);
        let first = tree.measure_child_size(
            NodeId::Child(0),
            known(None, None),
            known(Some(1.0), Some(2.0)),
            definite(9.0, 9.0),
            SizingMode::InherentSize,
        );
        let second = tree.measure_child_size(
            NodeId::Child(0),
            known(None, None),
            known(None, None),
            definite(9.0, 9.0),
            SizingMode::ContentSize,
        );
        assert_eq!(first, second);
    }
    assert_eq!(grid.child(0).element().measured.len(), 1);
}

#[test]
fn the_child_is_asked_under_the_bounds_of_the_query() {
    let mut grid = three();
    let context = Context(0.0);
    {
        let mut tree = GridLayoutTree::new(&mut grid, &context);
        tree.measure_child_size(
            NodeId::Child(2),
            known(Some(40.4), None),
            known(None, None),
            AvailableSize { width: AvailableSpace::Definite(scalar(99.5)), height: AvailableSpace::MinContent },
            INHERENT,
        );
        tree.perform_child_layout(
            NodeId::Child(2),
            known(None, Some(7.5)),
            known(None, None),
            AvailableSize { width: AvailableSpace::MaxContent, height: AvailableSpace::Definite(scalar(3.2)) },
            INHERENT,
        );
    }
    assert_eq!(
        grid.child(2).element().measured,
        vec![ChildLimits {
            width: AxisLimit::Exactly(scalar(40.0)),
            height: AxisLimit::Unconstrained,
        }]
    );
    assert_eq!(
        grid.child(2).element().laid_out,
        vec![ChildLimits {
            width: AxisLimit::Unconstrained,
            height: AxisLimit::Exactly(scalar(8.0)),
        }]
    );
}

#[test]
fn a_known_width_is_a_tight_bound_for_the_child_beside_less_space() {
    let mut grid = three();
    let context = Context(0.0);
    {
        let mut tree = GridLayoutTree::new(&mut grid, &context);
        tree.perform_child_layout(
            NodeId::Child(1),
            known(Some(50.0), None),
            known(None, None),
            AvailableSize { width: AvailableSpace::Definite(scalar(30.0)), height: AvailableSpace::MaxContent },
            INHERENT,
        );
    }
    assert_eq!(
        grid.child(1).element().laid_out,
        vec![ChildLimits { width: AxisLimit::Exactly(scalar(50.0)), height: AxisLimit::Unconstrained }]
    );
}

#[test]
fn the_child_sees_the_render_context_of_the_pass() {
    let mut grid = three();
    let context = Context(1000.0);
    let mut tree = GridLayoutTree::new(&mut grid, &context);
    let answer = tree.measure_child_size(
        NodeId::Child(0),
        known(None, None),
        known(None, None),
        AvailableSize::max_content(),
        INHERENT,
    );
    assert_eq!(answer, size(1001.0, 10.0));
}

#[test]
fn different_size_queries_are_answered_apart() {
    let mut grid = three();
    let context = Context(0.0);
    {
        let mut tree = GridLayoutTree::new(&mut grid, &context);
        let none = known(None, None);
        let wide = tree.measure_child_size(NodeId::Child(0), none, none, definite(100.0, 100.0), INHERENT);
        let narrow = tree.measure_child_size(NodeId::Child(0), none, none, definite(50.0, 100.0), INHERENT);
        let wide_again = tree.measure_child_size(NodeId::Child(0), none, none, definite(100.0, 100.0), INHERENT);
        let narrow_again = tree.measure_child_size(NodeId::Child(0), none, none, definite(50.0, 100.0), INHERENT);
        assert_eq!(wide, size(1.0, 10.0));
        assert_eq!(narrow, size(2.0, 10.0));
        assert_eq!(wide_again, wide);
        assert_eq!(narrow_again, narrow);
    }
    assert_eq!(grid.child(0).element().measured.len(), 2);
}

#[test]
fn a_size_answer_is_never_given_to_a_layout_query() {
    let mut grid = three();
    let context = Context(0.0);
    {
        let mut tree = GridLayoutTree::new(&mut grid, &context);
        let none = known(None, None);
        let measured = tree.measure_child_size(NodeId::Child(0), none, none, definite(100.0, 100.0), INHERENT);
        let laid_out = tree.perform_child_layout(NodeId::Child(0), none, none, definite(100.0, 100.0), INHERENT);
        // The child was asked both times, and its second answer is the one given.
        assert_eq!(measured, size(1.0, 10.0));
        assert_eq!(laid_out, size(2.0, 10.0));
        // Each kind of query keeps its own answer from then on.
        let measured_again =
            tree.measure_child_size(NodeId::Child(0), none, none, definite(100.0, 100.0), INHERENT);
        let laid_out_again =
            tree.perform_child_layout(NodeId::Child(0), none, none, definite(100.0, 100.0), INHERENT);
        assert_eq!(measured_again, measured);
        assert_eq!(laid_out_again, laid_out);
    }
    assert_eq!(grid.child(0).element().measured.len(), 1);
    assert_eq!(grid.child(0).element().laid_out.len(), 1);
}

#[test]
fn a_layout_answer_is_never_given_to_a_size_query() {
    let mut grid = three();
    let context = Context(0.0);
    {
        let mut tree = GridLayoutTree::new(&mut grid, &context);
        let none = known(None, None);
        let laid_out = tree.perform_child_layout(NodeId::Child(0), none, none, definite(100.0, 100.0), INHERENT);
        let measured = tree.measure_child_size(NodeId::Child(0), none, none, definite(100.0, 100.0), INHERENT);
        assert_eq!(laid_out, size(1.0, 10.0));
        assert_eq!(measured, size(2.0, 10.0));
    }
    assert_eq!(grid.child(0).element().measured.len(), 1);
    assert_eq!(grid.child(0).element().laid_out.len(), 1);
}

#[test]
fn a_full_layout_puts_the_descendants_on_record() {
    let mut grid = three();
    let context = Context(0.0);
    {
        let mut tree = GridLayoutTree::new(&mut grid, &context);
        let none = known(None, None);
        let answer = tree.perform_child_layout(NodeId::Child(1), none, none, definite(100.0, 100.0), INHERENT);
        assert_eq!(answer, size(1.0, 20.0));
    }
    let below = grid.child(1).child_layouts();
    assert_eq!(below.len(), 1);
    assert_eq!(
        below[0].bounds,
        Rectangle { x: scalar(20.0), y: scalar(2.0), width: scalar(1.0), height: scalar(1.0) }
    );
    assert!(grid.child(0).child_layouts().is_empty());
    assert!(grid.child(2).child_layouts().is_empty());
}

#[test]
fn a_repeated_layout_query_does_not_reach_the_child() {
    let mut grid = three();
    let context = Context(0.0);
    {
        let mut tree = GridLayoutTree::new(&mut grid, &context);
        let query = (known(Some(40.0), Some(50.0)), definite(40.0, 50.0));
        let first = tree.perform_child_layout(NodeId::Child(1), query.0, query.0, query.1, INHERENT);
        let second = tree.perform_child_layout(NodeId::Child(1), query.0, query.0, query.1, INHERENT);
        assert_eq!(first, second);
    }
    assert_eq!(grid.child(1).element().laid_out.len(), 1);
    assert_eq!(grid.child(1).child_layouts()[0].bounds.width, scalar(1.0));
}

#[test]
fn the_descendants_on_record_always_belong_to_the_answer_given() {
    let mut grid = three();
    let context = Context(0.0);
    let none = known(None, None);
    {
        let mut tree = GridLayoutTree::new(&mut grid, &context);
        let first = tree.perform_child_layout(NodeId::Child(0), none, none, definite(100.0, 100.0), INHERENT);
        assert_eq!(first, size(1.0, 10.0));
    }
    assert_eq!(grid.child(0).child_layouts()[0].bounds.width, scalar(1.0));
    {
        let mut tree = GridLayoutTree::new(&mut grid, &context);
        let other = tree.perform_child_layout(NodeId::Child(0), none, none, definite(50.0, 50.0), INHERENT);
        assert_eq!(other, size(2.0, 10.0));
    }
    assert_eq!(grid.child(0).child_layouts()[0].bounds.width, scalar(2.0));
    {
        // The first query again: the descendants on record are those of the
        // other query, so the old answer is not given and the child is asked.
        let mut tree = GridLayoutTree::new(&mut grid, &context);
        let again = tree.perform_child_layout(NodeId::Child(0), none, none, definite(100.0, 100.0), INHERENT);
        assert_eq!(again, size(3.0, 10.0));
    }
    assert_eq!(grid.child(0).child_layouts()[0].bounds.width, scalar(3.0));
    assert_eq!(grid.child(0).element().laid_out.len(), 3);
}

#[test]
fn queries_leave_the_boxes_alone() {
    let mut grid = three();
    let context = Context(0.0);
    let none = known(None, None);
    {
        let mut tree = GridLayoutTree::new(&mut grid, &context);
        tree.record_box(NodeId::Child(0), a_box(4, 1.0, 2.0, 3.0, 4.0));
        tree.measure_child_size(NodeId::Child(0), none, none, definite(100.0, 100.0), INHERENT);
        tree.perform_child_layout(NodeId::Child(0), none, none, definite(100.0, 100.0), INHERENT);
    }
    assert_eq!(grid.child(0).layout(), a_box(4, 1.0, 2.0, 3.0, 4.0));
    assert_eq!(grid.child(1).layout(), Layout::null());
}

#[test]
fn size_queries_leave_the_descendants_alone() {
    let mut grid = three();
    let context = Context(0.0);
    let none = known(None, None);
    {
        let mut tree = GridLayoutTree::new(&mut grid, &context);
        tree.perform_child_layout(NodeId::Child(0), none, none, definite(100.0, 100.0), INHERENT);
        tree.measure_child_size(NodeId::Child(0), none, none, definite(100.0, 100.0), INHERENT);
        tree.measure_child_size(NodeId::Child(0), none, none, definite(10.0, 10.0), INHERENT);
        // The layout answer is still good: the descendants are still its own.
        let again = tree.perform_child_layout(NodeId::Child(0), none, none, definite(100.0, 100.0), INHERENT);
        assert_eq!(again, size(1.0, 10.0));
    }
    assert_eq!(grid.child(0).child_layouts()[0].bounds.width, scalar(1.0));
    assert_eq!(grid.child(0).element().laid_out.len(), 1);
}

#[test]
fn a_box_is_taken_down_for_the_node_it_is_for() {
    let mut grid = three();
    let context = Context(0.0);
    let own = {
        let mut tree = GridLayoutTree::new(&mut grid, &context);
        assert_eq!(tree.layout(), Layout::null());
        tree.record_box(NodeId::Child(2), a_box(1, 5.0, 6.0, 7.0, 8.0));
        tree.record_box(NodeId::Container, a_box(0, 0.0, 0.0, 90.0, 80.0));
        tree.record_box(NodeId::Child(2), a_box(2, 9.0, 9.0, 9.0, 9.0));
        assert_eq!(tree.layout(), a_box(0, 0.0, 0.0, 90.0, 80.0));
        tree.finish()
    };
    assert_eq!(own, a_box(0, 0.0, 0.0, 90.0, 80.0));
    assert_eq!(grid.child(2).layout(), a_box(2, 9.0, 9.0, 9.0, 9.0));
    assert_eq!(grid.child(0).layout(), Layout::null());
    assert_eq!(grid.child(1).layout(), Layout::null());
}

#[test]
fn a_hidden_node_gets_an_empty_box_with_its_order() {
    let mut grid = three();
    let context = Context(0.0);
    {
        let mut tree = GridLayoutTree::new(&mut grid, &context);
        tree.record_box(NodeId::Child(1), a_box(1, 5.0, 6.0, 7.0, 8.0));
        tree.record_hidden(NodeId::Child(1), 12);
        tree.record_hidden(NodeId::Container, 3);
        assert_eq!(tree.layout(), Layout::with_order(3));
    }
    assert_eq!(grid.child(1).layout(), a_box(12, 0.0, 0.0, 0.0, 0.0));
    assert_eq!(grid.child(1).layout(), Layout::with_order(12));
}

#[test]
fn the_box_of_a_child_can_be_written_in_place() {
    let mut grid = three();
    let context = Context(0.0);
    {
        let mut tree = GridLayoutTree::new(&mut grid, &context);
        tree.record_box(NodeId::Child(0), a_box(1, 5.0, 6.0, 7.0, 8.0));
        let layout = tree.layout_mut(NodeId::Child(0));
        assert_eq!(*layout, a_box(1, 5.0, 6.0, 7.0, 8.0));
        layout.order = 44;
        layout.size = size(1.0, 1.0);
    }
    assert_eq!(grid.child(0).layout(), a_box(44, 5.0, 6.0, 1.0, 1.0));
}

#[test]
fn what_was_remembered_in_one_pass_is_there_in_the_next() {
    let mut grid = three();
    let context = Context(0.0);
    let none = known(None, None);
    let first = {
        let mut tree = GridLayoutTree::new(&mut grid, &context);
        tree.measure_child_size(NodeId::Child(1), none, none, definite(64.0, 64.0), INHERENT)
    };
    let second = {
        let mut tree = GridLayoutTree::new(&mut grid, &context);
        tree.measure_child_size(NodeId::Child(1), none, none, definite(64.0, 64.0), INHERENT)
    };
    assert_eq!(first, second);
    assert_eq!(grid.child(1).element().measured.len(), 1);
}
