//! Coordinate geometry of a uniform grid: the value types that hit-tests
//! consume and produce, and the spec functions that say which cell a
//! scroll-adjusted pixel coordinate falls in.

use vstd::prelude::*;

verus! {

/// A pointer position in viewport-local pixel coordinates.
#[derive(Clone, Copy, Debug, PartialEq, Eq, Structural)]
pub struct Position {
    pub x: i32,
    pub y: i32,
}

/// The outcome of one hit-test: the cell under the pointer and its highlight
/// rectangle in viewport-local pixels.
///
/// `col_index` / `row_index` are `-1` when the scroll-adjusted coordinate on
/// that axis is negative; `valid` is true exactly when both indices address a
/// cell of the configured grid. `x` / `y` are the cell's top-left corner in
/// viewport-local pixels when `valid`, and `0` otherwise. `width` / `height`
/// always report the configured cell size.
#[derive(Clone, Copy, Debug, PartialEq, Eq, Structural)]
pub struct HighlightResult {
    pub col_index: i64,
    pub row_index: i64,
    pub x: i64,
    pub y: i64,
    pub width: i64,
    pub height: i64,
    pub valid: bool,
}

/// The cell index that a scroll-adjusted coordinate falls in along one axis:
/// the floor quotient by the cell size, or `-1` for a negative coordinate.
pub open spec fn cell_index(adjusted: int, cell_size: int) -> int
    recommends
        cell_size > 0,
{
    if adjusted >= 0 {
        adjusted / cell_size
    } else {
        -1
    }
}

/// Whether `idx` addresses one of `count` cells along an axis.
pub open spec fn index_in_range(idx: int, count: int) -> bool {
    0 <= idx && idx < count
}

/// The viewport-local pixel coordinate of the near edge of cell `idx` along
/// one axis: its logical offset compensated by the current scroll.
pub open spec fn cell_origin(idx: int, cell_size: int, scroll: int) -> int {
    idx * cell_size - scroll
}

/// A cell origin computed from a cell index below `u32::MAX + 1` and a cell
/// size and scroll in `i32` range stays within `i64` range.
pub proof fn lemma_cell_origin_fits(idx: int, cell_size: int, scroll: int)
    by (nonlinear_arith)
    requires
        0 <= idx < 0x1_0000_0000,
        -0x8000_0000 <= cell_size < 0x8000_0000,
        -0x8000_0000 <= scroll < 0x8000_0000,
    ensures
        -0x8000_0000_0000_0000 <= idx * cell_size <= 0x7fff_ffff_ffff_ffff,
        -0x8000_0000_0000_0000 <= cell_origin(idx, cell_size, scroll) <= 0x7fff_ffff_ffff_ffff,
{
}

impl HighlightResult {
    /// The column index of the hit cell, `-1` for a negative adjusted
    /// coordinate.
    pub fn col_index(&self) -> (r: i64)
        ensures
            r == self.col_index,
    {
        self.col_index
    }

    /// The row index of the hit cell, `-1` for a negative adjusted
    /// coordinate.
    pub fn row_index(&self) -> (r: i64)
        ensures
            r == self.row_index,
    {
        self.row_index
    }

    /// The viewport-local x coordinate of the cell's left edge, `0` when the
    /// result is not valid.
    pub fn x(&self) -> (r: i64)
        ensures
            r == self.x,
    {
        self.x
    }

    /// The viewport-local y coordinate of the cell's top edge, `0` when the
    /// result is not valid.
    pub fn y(&self) -> (r: i64)
        ensures
            r == self.y,
    {
        self.y
    }

    /// The configured column width at query time.
    pub fn width(&self) -> (r: i64)
        ensures
            r == self.width,
    {
        self.width
    }

    /// The configured row height at query time.
    pub fn height(&self) -> (r: i64)
        ensures
            r == self.height,
    {
        self.height
    }

    /// Whether both indices address a cell of the configured grid.
    pub fn valid(&self) -> (r: bool)
        ensures
            r == self.valid,
    {
        self.valid
    }
}

} // verus!
