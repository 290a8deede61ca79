//! Laws of the hit-test, stated over the same spec functions that the
//! engine's contracts use. Each holds of any result that
//! [`HighlightEngine::highlight_matches`] allows, hence of every result
//! that `calculate_highlight` returns.

use vstd::prelude::*;

use crate::engine::HighlightEngine;
use crate::geometry::HighlightResult;

verus! {

/// With the scroll offset at zero, the hit-test indices are exactly the
/// floor quotients of the pointer coordinates by the cell sizes, for
/// non-negative coordinates.
pub proof fn lemma_unscrolled_indices(e: HighlightEngine, mx: int, my: int, r: HighlightResult)
    requires
        e.wf(),
        e.scroll_left == 0,
        e.scroll_top == 0,
        mx >= 0,
        my >= 0,
        e.highlight_matches(mx, my, r),
    ensures
        r.col_index == mx / (e.col_width as int),
        r.row_index == my / (e.row_height as int),
{
}

/// With the scroll offset at zero, a negative pointer coordinate yields the
/// sentinel index `-1` on its axis, and the result is never valid.
pub proof fn lemma_negative_coordinate_rejected(
    e: HighlightEngine,
    mx: int,
    my: int,
    r: HighlightResult,
)
    requires
        e.scroll_left == 0,
        e.scroll_top == 0,
        mx < 0 || my < 0,
        e.highlight_matches(mx, my, r),
    ensures
        mx < 0 ==> r.col_index == -1,
        my < 0 ==> r.row_index == -1,
        !r.valid,
{
}

/// A result is valid exactly when both of its indices address a cell of the
/// configured grid.
pub proof fn lemma_valid_iff_in_bounds(e: HighlightEngine, mx: int, my: int, r: HighlightResult)
    requires
        e.highlight_matches(mx, my, r),
    ensures
        r.valid <==> (0 <= r.col_index && r.col_index < e.cols_count && 0 <= r.row_index
            && r.row_index < e.rows_count),
{
}

/// Round trip: undoing the scroll compensation of a valid result's rectangle
/// recovers the hit cell's logical pixel offset exactly.
pub proof fn lemma_round_trip(e: HighlightEngine, mx: int, my: int, r: HighlightResult)
    requires
        e.highlight_matches(mx, my, r),
        r.valid,
    ensures
        r.x + e.scroll_left == r.col_index * e.col_width,
        r.y + e.scroll_top == r.row_index * e.row_height,
{
}

} // verus!
