//! Grid layout widgets: a uniform-column grid container and grid items that
//! span several cells.
use vstd::prelude::*;

verus! {

/// A grid container with `column_count` equal-width columns. Values below
/// `1` are treated as `1`.
#[derive(Clone, Copy, Debug, PartialEq, Eq, Structural)]
pub struct LastBeaconUiUniformGrid {
    pub column_count: u16,
}

impl Default for LastBeaconUiUniformGrid {
    fn default() -> (r: LastBeaconUiUniformGrid)
        ensures
            r.column_count == 1,
    {
        LastBeaconUiUniformGrid { column_count: 1 }
    }
}

/// A grid cell spanning `column_span` columns and `row_span` rows. Values
/// below `1` are treated as `1`.
#[derive(Clone, Copy, Debug, PartialEq, Eq, Structural)]
pub struct LastBeaconUiGridItem {
    pub column_span: u16,
    pub row_span: u16,
}

impl Default for LastBeaconUiGridItem {
    fn default() -> (r: LastBeaconUiGridItem)
        ensures
            r.column_span == 1,
            r.row_span == 1,
    {
        LastBeaconUiGridItem { column_span: 1, row_span: 1 }
    }
}

/// A count of at least one.
pub open spec fn at_least_one(count: u16) -> u16 {
    if count < 1 {
        1
    } else {
        count
    }
}

/// The number of equal-width columns a uniform grid lays out.
pub fn apply_last_beacon_ui_uniform_grid(grid: &LastBeaconUiUniformGrid) -> (r: u16)
    ensures
        r == at_least_one(grid.column_count),
        r >= 1,
{
    if grid.column_count < 1 {
        1
    } else {
        grid.column_count
    }
}

/// The column and row spans a grid item occupies; never zero, which the
/// native grid placement refuses.
pub fn apply_last_beacon_ui_grid_item_span(item: &LastBeaconUiGridItem) -> (r: (u16, u16))
    ensures
        r == (at_least_one(item.column_span), at_least_one(item.row_span)),
        r.0 >= 1 && r.1 >= 1,
{
    let column_span = if item.column_span < 1 {
        1
    } else {
        item.column_span
    };
    let row_span = if item.row_span < 1 {
        1
    } else {
        item.row_span
    };
    (column_span, row_span)
}

} // verus!
