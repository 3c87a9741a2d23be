//! The style descriptor of the grid solver.
//!
//! A style says where a node goes in the grid and how it is sized. The
//! container owns one for itself and one for each child and hands them to the
//! solver on request. To the proofs a style is an opaque value of which eight
//! settings have a name: those that the builders of the container write. All
//! else of a style has one name together. The functions below write the eight
//! settings, one each, and say which setting they wrote and that the other
//! seven and all else stay.

use vstd::prelude::*;

verus! {

/// `taffy::Style`, the solver's description of one node.
#[verifier::external_type_specification]
#[verifier::external_body]
pub struct ExStyle(taffy::Style);

/// `taffy::Dimension`, a length, a percentage or `auto`.
#[verifier::external_type_specification]
#[verifier::external_body]
pub struct ExDimension(taffy::Dimension);

/// `taffy::LengthPercentage`, a length or a percentage.
#[verifier::external_type_specification]
#[verifier::external_body]
pub struct ExLengthPercentage(taffy::LengthPercentage);

/// `taffy::TrackSizingFunction`, the sizing rule of one grid track or of a
/// repetition of tracks.
#[verifier::external_type_specification]
#[verifier::external_body]
pub struct ExTrackSizingFunction(taffy::TrackSizingFunction);

/// The column tracks of the grid template: the field `grid_template_columns`.
pub uninterp spec fn column_tracks(style: taffy::Style) -> Seq<taffy::TrackSizingFunction>;

/// The row tracks of the grid template: the field `grid_template_rows`.
pub uninterp spec fn row_tracks(style: taffy::Style) -> Seq<taffy::TrackSizingFunction>;

/// The gap between columns: the field `gap.width`.
pub uninterp spec fn column_gap_of(style: taffy::Style) -> taffy::LengthPercentage;

/// The gap between rows: the field `gap.height`.
pub uninterp spec fn row_gap_of(style: taffy::Style) -> taffy::LengthPercentage;

/// The least height: the field `min_size.height`.
pub uninterp spec fn min_height_of(style: taffy::Style) -> taffy::Dimension;

/// The least width: the field `min_size.width`.
pub uninterp spec fn min_width_of(style: taffy::Style) -> taffy::Dimension;

/// The greatest height: the field `max_size.height`.
pub uninterp spec fn max_height_of(style: taffy::Style) -> taffy::Dimension;

/// The greatest width: the field `max_size.width`.
pub uninterp spec fn max_width_of(style: taffy::Style) -> taffy::Dimension;

/// All of a style but the eight named settings: the style with each of the
/// eight put back to what `taffy::Style::DEFAULT` has for it. Two styles have
/// the same rest where they agree in every field other than those eight.
pub uninterp spec fn others_of(style: taffy::Style) -> taffy::Style;

/// Whether a style is `taffy::Style::DEFAULT`, the style that every node
/// starts from.
pub uninterp spec fn is_default_style(style: taffy::Style) -> bool;

/// A style, taken apart: the eight settings that have a name, and the rest.
#[verifier::ext_equal]
pub struct Settings {
    pub column_tracks: Seq<taffy::TrackSizingFunction>,
    pub row_tracks: Seq<taffy::TrackSizingFunction>,
    pub column_gap: taffy::LengthPercentage,
    pub row_gap: taffy::LengthPercentage,
    pub min_height: taffy::Dimension,
    pub min_width: taffy::Dimension,
    pub max_height: taffy::Dimension,
    pub max_width: taffy::Dimension,
    pub others: taffy::Style,
}

/// The named settings of a style and its rest, side by side.
pub open spec fn settings_of(style: taffy::Style) -> Settings {
    Settings {
        column_tracks: column_tracks(style),
        row_tracks: row_tracks(style),
        column_gap: column_gap_of(style),
        row_gap: row_gap_of(style),
        min_height: min_height_of(style),
        min_width: min_width_of(style),
        max_height: max_height_of(style),
        max_width: max_width_of(style),
        others: others_of(style),
    }
}

/// `taffy::Style::DEFAULT`. The result is that constant, whose grid template
/// has no tracks in either direction.
#[verifier::external_body]
pub(crate) fn default_style() -> (style: taffy::Style)
    ensures
        is_default_style(style),
        column_tracks(style) == Seq::<taffy::TrackSizingFunction>::empty(),
        row_tracks(style) == Seq::<taffy::TrackSizingFunction>::empty(),
{
    taffy::Style::DEFAULT
}

/// Writes the field `grid_template_columns` of a `taffy::Style`: the column
/// tracks are then the given ones, and all else of the style stays.
#[verifier::external_body]
pub(crate) fn set_columns(style: &mut taffy::Style, columns: Vec<taffy::TrackSizingFunction>)
    ensures
        column_tracks(*final(style)) == columns@,
        others_of(*final(style)) == others_of(*old(style)),
        settings_of(*final(style)) == (Settings {
            column_tracks: columns@,
            ..settings_of(*old(style))
        }),
{
    style.grid_template_columns = columns;
}

/// Writes the field `grid_template_rows` of a `taffy::Style`: the row tracks
/// are then the given ones, and all else of the style stays.
#[verifier::external_body]
pub(crate) fn set_rows(style: &mut taffy::Style, rows: Vec<taffy::TrackSizingFunction>)
    ensures
        row_tracks(*final(style)) == rows@,
        others_of(*final(style)) == others_of(*old(style)),
        settings_of(*final(style)) == (Settings { row_tracks: rows@, ..settings_of(*old(style)) }),
{
    style.grid_template_rows = rows;
}

/// Writes the field `gap.width` of a `taffy::Style`: the column gap is then
/// the given one, and all else of the style stays.
#[verifier::external_body]
pub(crate) fn set_column_gap(style: &mut taffy::Style, gap: taffy::LengthPercentage)
    ensures
        column_gap_of(*final(style)) == gap,
        others_of(*final(style)) == others_of(*old(style)),
        settings_of(*final(style)) == (Settings { column_gap: gap, ..settings_of(*old(style)) }),
{
    style.gap.width = gap;
}

/// Writes the field `gap.height` of a `taffy::Style`: the row gap is then the
/// given one, and all else of the style stays.
#[verifier::external_body]
pub(crate) fn set_row_gap(style: &mut taffy::Style, gap: taffy::LengthPercentage)
    ensures
        row_gap_of(*final(style)) == gap,
        others_of(*final(style)) == others_of(*old(style)),
        settings_of(*final(style)) == (Settings { row_gap: gap, ..settings_of(*old(style)) }),
{
    style.gap.height = gap;
}

/// Writes the field `min_size.height` of a `taffy::Style`: the least height is
/// then the given one, and all else of the style stays.
#[verifier::external_body]
pub(crate) fn set_min_height(style: &mut taffy::Style, size: taffy::Dimension)
    ensures
        min_height_of(*final(style)) == size,
        others_of(*final(style)) == others_of(*old(style)),
        settings_of(*final(style)) == (Settings { min_height: size, ..settings_of(*old(style)) }),
{
    style.min_size.height = size;
}

/// Writes the field `min_size.width` of a `taffy::Style`: the least width is
/// then the given one, and all else of the style stays.
#[verifier::external_body]
pub(crate) fn set_min_width(style: &mut taffy::Style, size: taffy::Dimension)
    ensures
        min_width_of(*final(style)) == size,
        others_of(*final(style)) == others_of(*old(style)),
        settings_of(*final(style)) == (Settings { min_width: size, ..settings_of(*old(style)) }),
{
    style.min_size.width = size;
}

/// Writes the field `max_size.height` of a `taffy::Style`: the greatest height
/// is then the given one, and all else of the style stays.
#[verifier::external_body]
pub(crate) fn set_max_height(style: &mut taffy::Style, size: taffy::Dimension)
    ensures
        max_height_of(*final(style)) == size,
        others_of(*final(style)) == others_of(*old(style)),
        settings_of(*final(style)) == (Settings { max_height: size, ..settings_of(*old(style)) }),
{
    style.max_size.height = size;
}

/// Writes the field `max_size.width` of a `taffy::Style`: the greatest width
/// is then the given one, and all else of the style stays.
#[verifier::external_body]
pub(crate) fn set_max_width(style: &mut taffy::Style, size: taffy::Dimension)
    ensures
        max_width_of(*final(style)) == size,
        others_of(*final(style)) == others_of(*old(style)),
        settings_of(*final(style)) == (Settings { max_width: size, ..settings_of(*old(style)) }),
{
    style.max_size.width = size;
}

} // verus!
