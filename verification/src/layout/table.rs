//! Backend-rendered tables.
use vstd::prelude::*;
use crate::color::ColorRole;
use crate::dimensions::{
    TABLE_CELL_HORIZONTAL_PADDING, TABLE_CELL_VERTICAL_INSET, TABLE_HEADER_HEIGHT,
    TABLE_MIN_COLUMN_WIDTH, TABLE_OUTLINE_WIDTH, TABLE_ROW_HEIGHT,
};
use crate::metrics::TableMetrics;

verus! {

pub open spec fn spec_metrics() -> TableMetrics {
    TableMetrics {
        min_column_width: TABLE_MIN_COLUMN_WIDTH,
        cell_horizontal_padding: TABLE_CELL_HORIZONTAL_PADDING,
        cell_vertical_inset: TABLE_CELL_VERTICAL_INSET,
        header_height: TABLE_HEADER_HEIGHT,
        row_height: TABLE_ROW_HEIGHT,
        outline_width: TABLE_OUTLINE_WIDTH,
    }
}

/// Table metrics. Compose Material 3 ships no table component; these follow
/// the Material data-table spec's 56dp header and 52dp row rhythm.
pub fn metrics() -> (m: TableMetrics)
    ensures
        m == spec_metrics(),
{
    TableMetrics {
        min_column_width: TABLE_MIN_COLUMN_WIDTH,
        cell_horizontal_padding: TABLE_CELL_HORIZONTAL_PADDING,
        cell_vertical_inset: TABLE_CELL_VERTICAL_INSET,
        header_height: TABLE_HEADER_HEIGHT,
        row_height: TABLE_ROW_HEIGHT,
        outline_width: TABLE_OUTLINE_WIDTH,
    }
}

/// The table and header backgrounds: surface.
pub fn background_role() -> (r: ColorRole)
    ensures
        r == ColorRole::Surface,
{
    ColorRole::Surface
}

/// Cell borders and column separators: outline-variant.
pub fn grid_role() -> (r: ColorRole)
    ensures
        r == ColorRole::OutlineVariant,
{
    ColorRole::OutlineVariant
}

} // verus!
