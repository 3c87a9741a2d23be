//! What the limits of the host become for the solver, and what the queries of
//! the solver become for a child.

use iced_taffy::geometry::Limits;
use iced_taffy::geometry::Size;
use iced_taffy::scalar::Scalar;
use iced_taffy::sizing::axis_limit;
use iced_taffy::sizing::finite_or_none;
use iced_taffy::sizing::known_dimension;
use iced_taffy::sizing::AvailableSize;
use iced_taffy::sizing::AvailableSpace;
use iced_taffy::sizing::AxisLimit;
use iced_taffy::sizing::ChildLimits;
use iced_taffy::sizing::KnownDimensions;
use iced_taffy::sizing::LayoutInput;
use iced_taffy::sizing::SizingMode;

fn scalar(value: f32) -> Scalar {
    Scalar::from_bits(value.to_bits())
}

fn limits(min: (f32, f32), max: (f32, f32)) -> Limits {
    Limits {
        min: Size { width: scalar(min.0), height: scalar(min.1) },
        max: Size { width: scalar(max.0), height: scalar(max.1) },
    }
}

#[test]
fn tight_finite_limits_fix_both_sides() {
    let input = LayoutInput::from_limits(&limits((100.0, 50.0), (100.0, 50.0)));
    assert_eq!(
        input,
        LayoutInput {
            known_dimensions: KnownDimensions {
                width: Some(scalar(100.0)),
                height: Some(scalar(50.0)),
            },
            parent_size: KnownDimensions { width: Some(scalar(100.0)), height: Some(scalar(50.0)) },
            available_space: AvailableSize {
                width: AvailableSpace::Definite(scalar(100.0)),
                height: AvailableSpace::Definite(scalar(50.0)),
            },
            sizing_mode: SizingMode::InherentSize,
        }
    );
}

#[test]
fn loose_limits_fix_nothing_and_offer_their_upper_bound() {
    let input = LayoutInput::from_limits(&limits((0.0, 10.0), (300.0, 200.0)));
    assert_eq!(input.known_dimensions, KnownDimensions::none());
    assert_eq!(
        input.parent_size,
        KnownDimensions { width: Some(scalar(300.0)), height: Some(scalar(200.0)) }
    );
    assert_eq!(
        input.available_space,
        AvailableSize {
            width: AvailableSpace::Definite(scalar(300.0)),
            height: AvailableSpace::Definite(scalar(200.0)),
        }
    );
    assert_eq!(input.sizing_mode, SizingMode::InherentSize);
}

#[test]
fn an_unbounded_axis_is_sized_by_content() {
    let input = LayoutInput::from_limits(&limits((0.0, 0.0), (f32::INFINITY, 80.0)));
    assert_eq!(input.known_dimensions, KnownDimensions::none());
    assert_eq!(input.parent_size, KnownDimensions { width: None, height: Some(scalar(80.0)) });
    assert_eq!(
        input.available_space,
        AvailableSize { width: AvailableSpace::MaxContent, height: AvailableSpace::Definite(scalar(80.0)) }
    );
}

#[test]
fn each_axis_is_judged_alone() {
    let input = LayoutInput::from_limits(&limits((40.0, 0.0), (40.0, f32::INFINITY)));
    assert_eq!(input.known_dimensions, KnownDimensions { width: Some(scalar(40.0)), height: None });
    assert_eq!(
        input.available_space,
        AvailableSize { width: AvailableSpace::Definite(scalar(40.0)), height: AvailableSpace::MaxContent }
    );
}

#[test]
fn limits_that_are_tight_at_infinity_fix_nothing() {
    let input = LayoutInput::from_limits(&limits(
        (f32::INFINITY, f32::NEG_INFINITY),
        (f32::INFINITY, f32::NEG_INFINITY),
    ));
    assert_eq!(input.known_dimensions, KnownDimensions::none());
    assert_eq!(input.parent_size, KnownDimensions::none());
    assert_eq!(input.available_space, AvailableSize::max_content());
}

#[test]
fn limits_that_are_not_numbers_fix_nothing() {
    let input = LayoutInput::from_limits(&limits((f32::NAN, 5.0), (f32::NAN, f32::NAN)));
    assert_eq!(input.known_dimensions, KnownDimensions::none());
    assert_eq!(input.parent_size, KnownDimensions::none());
    assert_eq!(input.available_space, AvailableSize::max_content());
}

#[test]
fn the_two_zeros_are_a_tight_bound() {
    let input = LayoutInput::from_limits(&limits((0.0, -0.0), (-0.0, 0.0)));
    // The side is known, and it is the lower bound that is handed on.
    assert_eq!(
        input.known_dimensions,
        KnownDimensions { width: Some(scalar(0.0)), height: Some(scalar(-0.0)) }
    );
    assert_eq!(
        input.available_space,
        AvailableSize {
            width: AvailableSpace::Definite(scalar(-0.0)),
            height: AvailableSpace::Definite(scalar(0.0)),
        }
    );
}

#[test]
fn known_dimension_of_single_bounds() {
    assert_eq!(known_dimension(scalar(7.0), scalar(7.0)), Some(scalar(7.0)));
    assert_eq!(known_dimension(scalar(7.0), scalar(7.5)), None);
    assert_eq!(known_dimension(scalar(0.0), scalar(f32::INFINITY)), None);
    assert_eq!(known_dimension(scalar(f32::INFINITY), scalar(f32::INFINITY)), None);
    assert_eq!(known_dimension(scalar(f32::NAN), scalar(f32::NAN)), None);
    assert_eq!(known_dimension(scalar(-3.0), scalar(-3.0)), Some(scalar(-3.0)));
}

#[test]
fn finite_or_none_of_single_values() {
    assert_eq!(finite_or_none(scalar(12.25)), Some(scalar(12.25)));
    assert_eq!(finite_or_none(scalar(-12.25)), Some(scalar(-12.25)));
    assert_eq!(finite_or_none(scalar(0.0)), Some(scalar(0.0)));
    assert_eq!(finite_or_none(scalar(f32::INFINITY)), None);
    assert_eq!(finite_or_none(scalar(f32::NEG_INFINITY)), None);
    assert_eq!(finite_or_none(scalar(f32::NAN)), None);
}

#[test]
fn definite_space_becomes_a_rounded_upper_bound() {
    assert_eq!(
        axis_limit(None, AvailableSpace::Definite(scalar(99.5))),
        AxisLimit::AtMost(scalar(100.0))
    );
    assert_eq!(
        axis_limit(None, AvailableSpace::Definite(scalar(99.4))),
        AxisLimit::AtMost(scalar(99.0))
    );
}

#[test]
fn a_known_dimension_becomes_a_rounded_tight_bound() {
    assert_eq!(axis_limit(Some(scalar(41.6)), AvailableSpace::MaxContent), AxisLimit::Exactly(scalar(42.0)));
    assert_eq!(axis_limit(Some(scalar(41.6)), AvailableSpace::MinContent), AxisLimit::Exactly(scalar(42.0)));
}

#[test]
fn a_known_dimension_is_tight_whatever_space_is_offered() {
    // Less space than the known length, more, and exactly as much.
    for offered in [30.0f32, 30.2, 50.0, 80.0, 0.0] {
        assert_eq!(
            axis_limit(Some(scalar(50.0)), AvailableSpace::Definite(scalar(offered))),
            AxisLimit::Exactly(scalar(50.0)),
            "offered {offered}"
        );
    }
    let limits = ChildLimits::for_query(
        KnownDimensions { width: Some(scalar(50.0)), height: None },
        AvailableSize { width: AvailableSpace::Definite(scalar(30.0)), height: AvailableSpace::MaxContent },
    );
    assert_eq!(
        limits,
        ChildLimits { width: AxisLimit::Exactly(scalar(50.0)), height: AxisLimit::Unconstrained }
    );
}

#[test]
fn indefinite_space_leaves_an_axis_unconstrained() {
    assert_eq!(axis_limit(None, AvailableSpace::MinContent), AxisLimit::Unconstrained);
    assert_eq!(axis_limit(None, AvailableSpace::MaxContent), AxisLimit::Unconstrained);
}

#[test]
fn child_limits_are_made_axis_by_axis() {
    let limits = ChildLimits::for_query(
        KnownDimensions { width: Some(scalar(10.5)), height: None },
        AvailableSize { width: AvailableSpace::MinContent, height: AvailableSpace::Definite(scalar(7.25)) },
    );
    assert_eq!(
        limits,
        ChildLimits {
            width: AxisLimit::Exactly(scalar(11.0)),
            height: AxisLimit::AtMost(scalar(7.0)),
        }
    );
}
