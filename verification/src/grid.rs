//! The grid container.

use crate::child::GridChild;
use crate::child::GridChildView;
use crate::geometry::Length;
use crate::geometry::Node;
use crate::geometry::NodeView;
use crate::geometry::Rectangle;
use crate::geometry::views_of;
use crate::geometry::Size;
use crate::sizing::Algorithm;
use crate::style::default_style;
use crate::style::is_default_style;
use crate::style::row_tracks;
use crate::style::column_tracks;
use crate::style::settings_of;
use crate::style::Settings;
use crate::style::set_column_gap;
use crate::style::set_columns;
use crate::style::set_max_height;
use crate::style::set_max_width;
use crate::style::set_min_height;
use crate::style::set_min_width;
use crate::style::set_row_gap;
use crate::style::set_rows;
use taffy::Dimension;
use taffy::LengthPercentage;
use taffy::Style;
use taffy::TrackSizingFunction;
use vstd::prelude::*;

verus! {

/// A container that places its children on a grid.
///
/// It owns its children in the order in which they were appended; that order
/// is the order in which the solver knows them, and it never changes.
pub struct Grid<W> {
    width: Length,
    height: Length,
    style: Style,
    children: Vec<GridChild<W>>,
}

/// What a [`Grid`] holds.
#[verifier::ext_equal]
pub struct GridView<W> {
    /// How the container asks to be sized in width.
    pub width: Length,
    /// How the container asks to be sized in height.
    pub height: Length,
    /// The style of the container itself: its grid template.
    pub style: Style,
    /// The records of the children, in the order in which they were appended.
    pub children: Seq<GridChildView<W>>,
}

impl<W> View for Grid<W> {
    type V = GridView<W>;

    closed spec fn view(&self) -> GridView<W> {
        GridView {
            width: self.width,
            height: self.height,
            style: self.style,
            children: self.children@.map_values(|child: GridChild<W>| child@),
        }
    }
}

impl<W> GridView<W> {
    /// The container with another style for itself.
    pub open spec fn restyled(self, style: Style) -> GridView<W> {
        GridView { style, ..self }
    }

    /// The container with one more child, which has not been measured yet.
    pub open spec fn appended(self, element: W, style: Style) -> GridView<W> {
        GridView { children: self.children.push(GridChildView::fresh(element, style)), ..self }
    }

    /// Which of the solver's algorithms resolves the container.
    pub open spec fn algorithm(self) -> Algorithm {
        if self.children.len() == 0 {
            Algorithm::Leaf
        } else {
            Algorithm::Grid
        }
    }

    /// The positioned tree of the container at the given size: one node for
    /// each child in order, each put together from that child's record.
    pub open spec fn positioned(self, size: Size) -> NodeView {
        NodeView {
            bounds: Rectangle::at_origin(size),
            children: self.children.map_values(|child: GridChildView<W>| child.positioned()),
        }
    }
}

impl<W> Grid<W> {
    /// A container without children that fills what the host offers. Its style
    /// is the default style of the solver, whose grid template has no tracks.
    pub fn new() -> (out: Grid<W>)
        ensures
            out@.width == Length::Fill,
            out@.height == Length::Fill,
            out@.children == Seq::<GridChildView<W>>::empty(),
            is_default_style(out@.style),
            column_tracks(out@.style) == Seq::<TrackSizingFunction>::empty(),
            row_tracks(out@.style) == Seq::<TrackSizingFunction>::empty(),
    {
        let out = Grid {
            width: Length::Fill,
            height: Length::Fill,
            style: default_style(),
            children: Vec::new(),
        };
        assert(out@.children =~= Seq::<GridChildView<W>>::empty());
        out
    }

    /// Sets the column tracks of the grid template. All else of the
    /// container's style stays, and so does all else of the container.
    pub fn with_columns(self, columns: Vec<TrackSizingFunction>) -> (out: Grid<W>)
        ensures
            out@ == self@.restyled(out@.style),
            settings_of(out@.style) == (Settings { column_tracks: columns@, ..settings_of(self@.style) }),
    {
        let mut grid = self;
        set_columns(&mut grid.style, columns);
        grid
    }

    /// Sets the row tracks of the grid template. All else of the
    /// container's style stays, and so does all else of the container.
    pub fn with_rows(self, rows: Vec<TrackSizingFunction>) -> (out: Grid<W>)
        ensures
            out@ == self@.restyled(out@.style),
            settings_of(out@.style) == (Settings { row_tracks: rows@, ..settings_of(self@.style) }),
    {
        let mut grid = self;
        set_rows(&mut grid.style, rows);
        grid
    }

    /// Sets the gap between columns; all else of the style stays.
    pub fn with_column_gap(self, gap: LengthPercentage) -> (out: Grid<W>)
        ensures
            out@ == self@.restyled(out@.style),
            settings_of(out@.style) == (Settings { column_gap: gap, ..settings_of(self@.style) }),
    {
        let mut grid = self;
        set_column_gap(&mut grid.style, gap);
        grid
    }

    /// Sets the gap between rows; all else of the style stays.
    pub fn with_row_gap(self, gap: LengthPercentage) -> (out: Grid<W>)
        ensures
            out@ == self@.restyled(out@.style),
            settings_of(out@.style) == (Settings { row_gap: gap, ..settings_of(self@.style) }),
    {
        let mut grid = self;
        set_row_gap(&mut grid.style, gap);
        grid
    }

    /// Sets the least height in the container's style; all else of the
    /// style stays.
    pub fn min_height(self, size: Dimension) -> (out: Grid<W>)
        ensures
            out@ == self@.restyled(out@.style),
            settings_of(out@.style) == (Settings { min_height: size, ..settings_of(self@.style) }),
    {
        let mut grid = self;
        set_min_height(&mut grid.style, size);
        grid
    }

    /// Sets the least width in the container's style; all else of the
    /// style stays.
    pub fn min_width(self, size: Dimension) -> (out: Grid<W>)
        ensures
            out@ == self@.restyled(out@.style),
            settings_of(out@.style) == (Settings { min_width: size, ..settings_of(self@.style) }),
    {
        let mut grid = self;
        set_min_width(&mut grid.style, size);
        grid
    }

    /// Sets the greatest height in the container's style; all else of the
    /// style stays.
    pub fn max_height(self, size: Dimension) -> (out: Grid<W>)
        ensures
            out@ == self@.restyled(out@.style),
            settings_of(out@.style) == (Settings { max_height: size, ..settings_of(self@.style) }),
    {
        let mut grid = self;
        set_max_height(&mut grid.style, size);
        grid
    }

    /// Sets the greatest width in the container's style; all else of the
    /// style stays.
    pub fn max_width(self, size: Dimension) -> (out: Grid<W>)
        ensures
            out@ == self@.restyled(out@.style),
            settings_of(out@.style) == (Settings { max_width: size, ..settings_of(self@.style) }),
    {
        let mut grid = self;
        set_max_width(&mut grid.style, size);
        grid
    }

    /// Lets `callback` change the container's style in place.
    pub fn style<F: FnMut(&mut Style)>(self, mut callback: F) -> (out: Grid<W>)
        requires
            forall|style: &mut Style| *style == self@.style ==> callback.requires((style,)),
        ensures
            out@ == self@.restyled(out@.style),
            exists|style: &mut Style|
                *style == self@.style && *final(style) == out@.style && #[trigger] callback.ensures(
                    (style,),
                    (),
                ),
    {
        let mut grid = self;
        callback(&mut grid.style);
        grid
    }

    /// Appends a child whose style is the default style as `callback` changed
    /// it.
    pub fn with_styled_child<F: FnMut(&mut Style)>(self, element: W, mut callback: F) -> (out:
        Grid<W>)
        requires
            forall|style: &mut Style| is_default_style(*style) ==> callback.requires((style,)),
        ensures
            out@ == self@.appended(element, out@.children.last().style),
            exists|style: &mut Style|
                is_default_style(*style) && *final(style) == out@.children.last().style
                    && #[trigger] callback.ensures((style,), ()),
    {
        let mut grid = self;
        let mut style = default_style();
        callback(&mut style);
        grid.push_child(element, style);
        grid
    }

    /// Appends a child with the default style.
    pub fn with_child(self, element: W) -> (out: Grid<W>)
        ensures
            out@ == self@.appended(element, out@.children.last().style),
            is_default_style(out@.children.last().style),
    {
        let mut grid = self;
        grid.push_child(element, default_style());
        grid
    }

    /// Appends a child with the default style, in place.
    pub fn add_child(&mut self, element: W)
        ensures
            final(self)@ == old(self)@.appended(element, final(self)@.children.last().style),
            is_default_style(final(self)@.children.last().style),
    {
        self.push_child(element, default_style());
    }

    /// Appends a child with the given style, in place. The new child stands
    /// behind all others and has not been measured yet.
    pub fn push_child(&mut self, element: W, style: Style)
        ensures
            final(self)@ == old(self)@.appended(element, style),
    {
        self.children.push(GridChild::new(element, style));
        assert(self@.children =~= old(self)@.children.push(GridChildView::fresh(element, style)));
    }

    /// Sets how the container asks to be sized in width.
    pub fn width(self, width: Length) -> (out: Grid<W>)
        ensures
            out@ == (GridView { width, ..self@ }),
    {
        let mut grid = self;
        grid.width = width;
        grid
    }

    /// Sets how the container asks to be sized in height.
    pub fn height(self, height: Length) -> (out: Grid<W>)
        ensures
            out@ == (GridView { height, ..self@ }),
    {
        let mut grid = self;
        grid.height = height;
        grid
    }

    /// How the container asks to be sized in width.
    pub fn width_policy(&self) -> (out: Length)
        ensures
            out == self@.width,
    {
        self.width
    }

    /// How the container asks to be sized in height.
    pub fn height_policy(&self) -> (out: Length)
        ensures
            out == self@.height,
    {
        self.height
    }

    /// The style of the container itself.
    pub fn container_style(&self) -> (out: &Style)
        ensures
            *out == self@.style,
    {
        &self.style
    }

    /// The number of children.
    pub fn child_count(&self) -> (out: usize)
        ensures
            out == self@.children.len(),
    {
        self.children.len()
    }

    /// Which of the solver's algorithms resolves the container: the grid
    /// algorithm where there is a child to place, and the algorithm for a leaf
    /// where there is none.
    ///
    /// The grid algorithm needs a track in each direction. A grid with items
    /// always has them; a grid without items has them only where its template
    /// gives them, and without them the algorithm does not return. The solver's
    /// own tree therefore resolves every node without children as a leaf, and
    /// the container does the same. A container without children is thus sized
    /// by the size settings of its style under what the limits give, and a grid
    /// template that it has does not count toward its size.
    pub fn algorithm(&self) -> (out: Algorithm)
        ensures
            out == self@.algorithm(),
    {
        if self.children.len() == 0 {
            Algorithm::Leaf
        } else {
            Algorithm::Grid
        }
    }

    /// The record of the child at `index`.
    pub fn child(&self, index: usize) -> (out: &GridChild<W>)
        requires
            index < self@.children.len(),
        ensures
            out@ == self@.children[index as int],
    {
        &self.children[index]
    }

    /// The record of the child at `index`, to be changed in place. The other
    /// records and the container's own settings stay.
    pub fn child_mut(&mut self, index: usize) -> (out: &mut GridChild<W>)
        requires
            index < old(self)@.children.len(),
        ensures
            out@ == old(self)@.children[index as int],
            final(self)@ == (GridView {
                children: old(self)@.children.update(index as int, final(out)@),
                ..old(self)@
            }),
    {
        proof {
            let records = self.children@;
            assert forall|record: GridChild<W>|
                (#[trigger] records.update(index as int, record)).map_values(
                    |child: GridChild<W>| child@,
                ) == records.map_values(|child: GridChild<W>| child@).update(
                    index as int,
                    record@,
                ) by {
                assert(records.update(index as int, record).map_values(
                    |child: GridChild<W>| child@,
                ) =~= records.map_values(|child: GridChild<W>| child@).update(
                    index as int,
                    record@,
                ));
            }
        }
        &mut self.children[index]
    }

    /// The records of all children, each to be changed in place where it
    /// stands. Their number stays, and so do the container's own settings.
    pub fn children_mut(&mut self) -> (out: &mut [GridChild<W>])
        ensures
            out@.map_values(|child: GridChild<W>| child@) == old(self)@.children,
            final(self)@ == (GridView {
                children: final(out)@.map_values(|child: GridChild<W>| child@),
                ..old(self)@
            }),
    {
        self.children.as_mut_slice()
    }

    /// The positioned tree of the container once the solver has resolved it to
    /// `size`: a node of that size over one node for each child, in order.
    ///
    /// The tree is put together from what the records of the children hold:
    /// each child's box as the solver assigned it, rounded to whole numbers,
    /// over the descendants that the child resolved in its last full layout.
    /// No child is asked anything.
    pub fn layout(&self, size: Size) -> (out: Node)
        ensures
            out@ == self@.positioned(size),
    {
        let mut nodes: Vec<Node> = Vec::new();
        let mut i: usize = 0;
        while i < self.children.len()
            invariant
                i <= self.children.len(),
                nodes.len() == i,
                views_of(nodes@) == self@.children.take(i as int).map_values(
                    |child: GridChildView<W>| child.positioned(),
                ),
            decreases self.children.len() - i,
        {
            let node = self.children[i].positioned();
            proof {
                assert(nodes@.push(node).drop_last() == nodes@);
                assert(self@.children.take(i + 1).map_values(
                    |child: GridChildView<W>| child.positioned(),
                ) =~= self@.children.take(i as int).map_values(
                    |child: GridChildView<W>| child.positioned(),
                ).push(node@));
            }
            nodes.push(node);
            i += 1;
        }
        assert(self@.children.take(self.children.len() as int) == self@.children);
        Node::with_children(size, nodes)
    }
}

/// A container without children that fills what the host offers, with the
/// default style of the solver.
pub fn grid<W>() -> (out: Grid<W>)
    ensures
        out@.width == Length::Fill,
        out@.height == Length::Fill,
        out@.children == Seq::<GridChildView<W>>::empty(),
        is_default_style(out@.style),
        column_tracks(out@.style) == Seq::<TrackSizingFunction>::empty(),
        row_tracks(out@.style) == Seq::<TrackSizingFunction>::empty(),
{
    Grid::new()
}

} // verus!
