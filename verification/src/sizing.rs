//! What the container hands to the solver, and what it hands to a child when
//! the solver asks for that child's size.

use crate::geometry::Limits;
use crate::scalar::Scalar;
use vstd::prelude::*;

verus! {

/// The room that a node may lay itself out into, along one axis.
#[derive(Clone, Copy, Debug, PartialEq, Eq, Structural)]
pub enum AvailableSpace {
    /// So much and no more.
    Definite(Scalar),
    /// As little as the content allows.
    MinContent,
    /// As much as the content asks for.
    MaxContent,
}

/// The sides of a node that the caller has already fixed.
#[derive(Clone, Copy, Debug, PartialEq, Eq, Structural)]
pub struct KnownDimensions {
    pub width: Option<Scalar>,
    pub height: Option<Scalar>,
}

/// The available space along both axes.
#[derive(Clone, Copy, Debug, PartialEq, Eq, Structural)]
pub struct AvailableSize {
    pub width: AvailableSpace,
    pub height: AvailableSpace,
}

/// Which sizes the solver takes into account.
#[derive(Clone, Copy, Debug, PartialEq, Eq, Structural)]
pub enum SizingMode {
    /// Only what the content contributes.
    ContentSize,
    /// The node's own size styles as well.
    InherentSize,
}

/// What a query asks for: a size alone, or a size with the positions of
/// everything below the node.
#[derive(Clone, Copy, Debug, PartialEq, Eq, Structural)]
pub enum RunMode {
    /// The size and the resolved descendants.
    PerformLayout,
    /// The size only.
    ComputeSize,
}

/// Which of the solver's algorithms resolves the container.
#[derive(Clone, Copy, Debug, PartialEq, Eq, Structural)]
pub enum Algorithm {
    /// The algorithm for a node without children: the node is sized by the
    /// size settings of its own style under what it is given. Its grid
    /// template plays no part.
    Leaf,
    /// The grid algorithm, which places the children of the node.
    Grid,
}

/// What the container hands to the solver for one pass over itself.
#[derive(Clone, Copy, Debug, PartialEq, Eq, Structural)]
pub struct LayoutInput {
    pub known_dimensions: KnownDimensions,
    pub parent_size: KnownDimensions,
    pub available_space: AvailableSize,
    pub sizing_mode: SizingMode,
}

/// The bounds on one axis of a child.
#[derive(Clone, Copy, Debug, PartialEq, Eq, Structural)]
pub enum AxisLimit {
    /// No bound: the child takes what it needs.
    Unconstrained,
    /// An upper bound: the child takes what it needs and no more than this.
    AtMost(Scalar),
    /// A tight bound: the child takes exactly this, whatever it needs.
    Exactly(Scalar),
}

/// The bounds under which a child is asked for its size or its layout.
#[derive(Clone, Copy, Debug, PartialEq, Eq, Structural)]
pub struct ChildLimits {
    pub width: AxisLimit,
    pub height: AxisLimit,
}

/// `value` where it is finite, nothing where it is an infinity or a NaN.
pub open spec fn finite_or_none_spec(value: Scalar) -> Option<Scalar> {
    if value.finite() {
        Some(value)
    } else {
        None
    }
}

/// The length of a side that the limits fix: the lower bound, where it is
/// finite and the same number as the upper bound.
pub open spec fn known_dimension_spec(min: Scalar, max: Scalar) -> Option<Scalar> {
    if min.finite() && min.same_number(max) {
        Some(min)
    } else {
        None
    }
}

/// A definite amount where there is one, otherwise as much as the content asks
/// for.
pub open spec fn available_space_spec(bound: Option<Scalar>) -> AvailableSpace {
    match bound {
        Some(value) => AvailableSpace::Definite(value),
        None => AvailableSpace::MaxContent,
    }
}

/// The bounds on one axis of a child. A known dimension is a tight bound at
/// its rounded length, whatever space is offered along the axis. Where the
/// dimension is not known, definite available space is an upper bound at its
/// rounded amount, and any other available space is no bound.
pub open spec fn axis_limit_spec(known: Option<Scalar>, available: AvailableSpace) -> AxisLimit {
    match known {
        Some(length) => AxisLimit::Exactly(length.rounded()),
        None => match available {
            AvailableSpace::Definite(amount) => AxisLimit::AtMost(amount.rounded()),
            _ => AxisLimit::Unconstrained,
        },
    }
}

/// `value` where it is finite, nothing where it is an infinity or a NaN.
pub fn finite_or_none(value: Scalar) -> (out: Option<Scalar>)
    ensures
        out == finite_or_none_spec(value),
{
    if value.is_finite() {
        Some(value)
    } else {
        None
    }
}

/// The length of a side that the limits fix, if they fix it.
pub fn known_dimension(min: Scalar, max: Scalar) -> (out: Option<Scalar>)
    ensures
        out == known_dimension_spec(min, max),
{
    if min.is_finite() && min.equals(max) {
        Some(min)
    } else {
        None
    }
}

/// The bounds on one axis of a child, from what the solver knows and offers
/// along that axis.
pub fn axis_limit(known: Option<Scalar>, available: AvailableSpace) -> (out: AxisLimit)
    ensures
        out == axis_limit_spec(known, available),
{
    match known {
        Some(length) => AxisLimit::Exactly(length.round()),
        None => match available {
            AvailableSpace::Definite(amount) => AxisLimit::AtMost(amount.round()),
            _ => AxisLimit::Unconstrained,
        },
    }
}

impl KnownDimensions {
    /// Neither side known.
    pub open spec fn none_spec() -> KnownDimensions {
        KnownDimensions { width: None, height: None }
    }

    /// Neither side known.
    pub fn none() -> (out: KnownDimensions)
        ensures
            out == KnownDimensions::none_spec(),
    {
        KnownDimensions { width: None, height: None }
    }
}

impl AvailableSize {
    /// As much as the content asks for, along both axes.
    pub open spec fn max_content_spec() -> AvailableSize {
        AvailableSize { width: AvailableSpace::MaxContent, height: AvailableSpace::MaxContent }
    }

    /// As much as the content asks for, along both axes.
    pub fn max_content() -> (out: AvailableSize)
        ensures
            out == AvailableSize::max_content_spec(),
    {
        AvailableSize { width: AvailableSpace::MaxContent, height: AvailableSpace::MaxContent }
    }
}

impl LayoutInput {
    /// What the limits of the host make of a pass over the container.
    ///
    /// A side is known where the limits are tight on it and finite. The space
    /// available along an axis is the upper bound where that is finite, and
    /// otherwise as much as the content asks for; the same upper bounds stand
    /// in for the size of the parent. The container is always sized by its own
    /// styles.
    pub open spec fn from_limits_spec(limits: Limits) -> LayoutInput {
        let parent_size = KnownDimensions {
            width: finite_or_none_spec(limits.max.width),
            height: finite_or_none_spec(limits.max.height),
        };
        LayoutInput {
            known_dimensions: KnownDimensions {
                width: known_dimension_spec(limits.min.width, limits.max.width),
                height: known_dimension_spec(limits.min.height, limits.max.height),
            },
            parent_size,
            available_space: AvailableSize {
                width: available_space_spec(parent_size.width),
                height: available_space_spec(parent_size.height),
            },
            sizing_mode: SizingMode::InherentSize,
        }
    }

    /// Derives from the limits of the host what the solver is given for the
    /// container itself.
    pub fn from_limits(limits: &Limits) -> (out: LayoutInput)
        ensures
            out == LayoutInput::from_limits_spec(*limits),
    {
        let parent_width = finite_or_none(limits.max.width);
        let parent_height = finite_or_none(limits.max.height);
        let available_width = match parent_width {
            Some(value) => AvailableSpace::Definite(value),
            None => AvailableSpace::MaxContent,
        };
        let available_height = match parent_height {
            Some(value) => AvailableSpace::Definite(value),
            None => AvailableSpace::MaxContent,
        };
        LayoutInput {
            known_dimensions: KnownDimensions {
                width: known_dimension(limits.min.width, limits.max.width),
                height: known_dimension(limits.min.height, limits.max.height),
            },
            parent_size: KnownDimensions { width: parent_width, height: parent_height },
            available_space: AvailableSize { width: available_width, height: available_height },
            sizing_mode: SizingMode::InherentSize,
        }
    }
}

impl ChildLimits {
    /// The bounds under which a child answers a query of the solver.
    pub open spec fn for_query_spec(
        known_dimensions: KnownDimensions,
        available_space: AvailableSize,
    ) -> ChildLimits {
        ChildLimits {
            width: axis_limit_spec(known_dimensions.width, available_space.width),
            height: axis_limit_spec(known_dimensions.height, available_space.height),
        }
    }

    /// Turns what the solver knows and offers into bounds for the child.
    pub fn for_query(known_dimensions: KnownDimensions, available_space: AvailableSize) -> (out:
        ChildLimits)
        ensures
            out == ChildLimits::for_query_spec(known_dimensions, available_space),
    {
        ChildLimits {
            width: axis_limit(known_dimensions.width, available_space.width),
            height: axis_limit(known_dimensions.height, available_space.height),
        }
    }
}

} // verus!
