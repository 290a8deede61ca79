//! The stateful coordinate transformer: grid geometry plus current scroll
//! offset, with the single-point hit-test and its batch, column and row
//! variants.

use vstd::arithmetic::div_mod::lemma_div_nonincreasing;
use vstd::arithmetic::div_mod::lemma_div_pos_is_pos;
use vstd::arithmetic::mul::lemma_mul_upper_bound;
use vstd::prelude::*;

use crate::geometry::HighlightResult;
use crate::geometry::Position;
use crate::geometry::cell_index;
use crate::geometry::cell_origin;
use crate::geometry::index_in_range;
use crate::geometry::lemma_cell_origin_fits;

verus! {

/// Grid geometry and current scroll offset, in pixels.
///
/// `grid_width` / `grid_height` record the visible viewport size; the
/// calculations do not read them, they are retained for future clipping
/// checks. `col_width` / `row_height` give the uniform cell size and must be
/// strictly positive whenever a hit-test runs (see [`Self::wf`]).
/// `scroll_left` / `scroll_top` may be negative, representing overscroll.
pub struct HighlightEngine {
    pub grid_width: i32,
    pub grid_height: i32,
    pub col_width: i32,
    pub row_height: i32,
    pub cols_count: u32,
    pub rows_count: u32,
    pub scroll_left: i32,
    pub scroll_top: i32,
}

/// A read-only snapshot of the configured geometry, with the total logical
/// cell count.
#[derive(Clone, Copy, Debug, PartialEq, Eq, Structural)]
pub struct PerformanceStats {
    pub grid_cells: u64,
    pub cols_count: u32,
    pub rows_count: u32,
    pub col_width: i32,
    pub row_height: i32,
}

impl HighlightEngine {
    /// The caller contract for hit-tests: both cell sizes are strictly
    /// positive. `configure` performs no validation, so this is demanded at
    /// query time, not maintained as a type invariant.
    pub open spec fn wf(&self) -> bool {
        self.col_width > 0 && self.row_height > 0
    }

    /// What one hit-test at viewport-local position `(mx, my)` must produce:
    /// each index is the floor quotient of the scroll-adjusted coordinate by
    /// the cell size (`-1` when that coordinate is negative), `valid` holds
    /// exactly when both indices are in range, and the rectangle is the hit
    /// cell's scroll-compensated origin with the configured cell size.
    pub open spec fn highlight_matches(&self, mx: int, my: int, r: HighlightResult) -> bool {
        let ci = cell_index(mx + self.scroll_left, self.col_width as int);
        let ri = cell_index(my + self.scroll_top, self.row_height as int);
        let ok = index_in_range(ci, self.cols_count as int)
            && index_in_range(ri, self.rows_count as int);
        &&& r.col_index == ci
        &&& r.row_index == ri
        &&& r.valid == ok
        &&& r.x == (if ok {
            cell_origin(ci, self.col_width as int, self.scroll_left as int)
        } else {
            0
        })
        &&& r.y == (if ok {
            cell_origin(ri, self.row_height as int, self.scroll_top as int)
        } else {
            0
        })
        &&& r.width == self.col_width
        &&& r.height == self.row_height
    }

    /// One entry of a whole-column highlight: column `c` fixed, row `row`,
    /// always valid, rectangle at the scroll-compensated cell origin.
    pub open spec fn column_entry_matches(&self, c: int, row: int, r: HighlightResult) -> bool {
        &&& r.col_index == c
        &&& r.row_index == row
        &&& r.valid
        &&& r.x == cell_origin(c, self.col_width as int, self.scroll_left as int)
        &&& r.y == cell_origin(row, self.row_height as int, self.scroll_top as int)
        &&& r.width == self.col_width
        &&& r.height == self.row_height
    }

    /// One entry of a whole-row highlight: row `rw` fixed, column `col`,
    /// always valid, rectangle at the scroll-compensated cell origin.
    pub open spec fn row_entry_matches(&self, rw: int, col: int, r: HighlightResult) -> bool {
        &&& r.col_index == col
        &&& r.row_index == rw
        &&& r.valid
        &&& r.x == cell_origin(col, self.col_width as int, self.scroll_left as int)
        &&& r.y == cell_origin(rw, self.row_height as int, self.scroll_top as int)
        &&& r.width == self.col_width
        &&& r.height == self.row_height
    }

    /// Constructs an engine with the default geometry: `120 x 40` cells,
    /// every count and scroll offset at zero.
    pub fn new() -> (e: HighlightEngine)
        ensures
            e.grid_width == 0,
            e.grid_height == 0,
            e.col_width == 120,
            e.row_height == 40,
            e.cols_count == 0,
            e.rows_count == 0,
            e.scroll_left == 0,
            e.scroll_top == 0,
    {
        HighlightEngine {
            grid_width: 0,
            grid_height: 0,
            col_width: 120,
            row_height: 40,
            cols_count: 0,
            rows_count: 0,
            scroll_left: 0,
            scroll_top: 0,
        }
    }

    /// Replaces every geometry field; the scroll offset is kept. No
    /// validation is performed: callers are responsible for positive cell
    /// sizes before the next hit-test.
    pub fn configure(
        &mut self,
        grid_width: i32,
        grid_height: i32,
        col_width: i32,
        row_height: i32,
        cols_count: u32,
        rows_count: u32,
    )
        ensures
            final(self).grid_width == grid_width,
            final(self).grid_height == grid_height,
            final(self).col_width == col_width,
            final(self).row_height == row_height,
            final(self).cols_count == cols_count,
            final(self).rows_count == rows_count,
            final(self).scroll_left == old(self).scroll_left,
            final(self).scroll_top == old(self).scroll_top,
    {
        self.grid_width = grid_width;
        self.grid_height = grid_height;
        self.col_width = col_width;
        self.row_height = row_height;
        self.cols_count = cols_count;
        self.rows_count = rows_count;
    }

    /// Replaces the scroll offset; the geometry is kept.
    pub fn update_scroll(&mut self, scroll_left: i32, scroll_top: i32)
        ensures
            final(self).scroll_left == scroll_left,
            final(self).scroll_top == scroll_top,
            final(self).grid_width == old(self).grid_width,
            final(self).grid_height == old(self).grid_height,
            final(self).col_width == old(self).col_width,
            final(self).row_height == old(self).row_height,
            final(self).cols_count == old(self).cols_count,
            final(self).rows_count == old(self).rows_count,
    {
        self.scroll_left = scroll_left;
        self.scroll_top = scroll_top;
    }

    /// The core hit-test: maps a viewport-local pointer position to the cell
    /// it falls over and that cell's highlight rectangle.
    pub fn calculate_highlight(&self, mouse_x: i32, mouse_y: i32) -> (r: HighlightResult)
        requires
            self.wf(),
        ensures
            self.highlight_matches(mouse_x as int, mouse_y as int, r),
    {
        let adjusted_x: i64 = mouse_x as i64 + self.scroll_left as i64;
        let adjusted_y: i64 = mouse_y as i64 + self.scroll_top as i64;

        let col_index: i64 = if adjusted_x >= 0 {
            proof {
                lemma_div_pos_is_pos(adjusted_x as int, self.col_width as int);
                lemma_div_nonincreasing(adjusted_x as int, self.col_width as int);
            }
            (adjusted_x as u64 / self.col_width as u64) as i64
        } else {
            -1
        };

        let row_index: i64 = if adjusted_y >= 0 {
            proof {
                lemma_div_pos_is_pos(adjusted_y as int, self.row_height as int);
                lemma_div_nonincreasing(adjusted_y as int, self.row_height as int);
            }
            (adjusted_y as u64 / self.row_height as u64) as i64
        } else {
            -1
        };

        let valid = col_index >= 0 && row_index >= 0 && col_index < self.cols_count as i64
            && row_index < self.rows_count as i64;

        let x: i64 = if valid {
            proof {
                lemma_cell_origin_fits(
                    col_index as int,
                    self.col_width as int,
                    self.scroll_left as int,
                );
            }
            col_index * self.col_width as i64 - self.scroll_left as i64
        } else {
            0
        };

        let y: i64 = if valid {
            proof {
                lemma_cell_origin_fits(
                    row_index as int,
                    self.row_height as int,
                    self.scroll_top as int,
                );
            }
            row_index * self.row_height as i64 - self.scroll_top as i64
        } else {
            0
        };

        HighlightResult {
            col_index,
            row_index,
            x,
            y,
            width: self.col_width as i64,
            height: self.row_height as i64,
            valid,
        }
    }

    /// Applies the hit-test to each position of an ordered batch, producing
    /// one result per input in the same order.
    pub fn batch_calculate_highlights(&self, positions: &Vec<Position>) -> (results: Vec<
        HighlightResult,
    >)
        requires
            self.wf(),
        ensures
            results@.len() == positions@.len(),
            forall|i: int|
                0 <= i < positions@.len() ==> self.highlight_matches(
                    positions@[i].x as int,
                    positions@[i].y as int,
                    #[trigger] results@[i],
                ),
    {
        let mut results: Vec<HighlightResult> = Vec::new();
        let mut i: usize = 0;
        while i < positions.len()
            invariant
                self.wf(),
                i <= positions@.len(),
                results@.len() == i as int,
                forall|j: int|
                    0 <= j < i as int ==> self.highlight_matches(
                        positions@[j].x as int,
                        positions@[j].y as int,
                        #[trigger] results@[j],
                    ),
            decreases positions@.len() - i as int,
        {
            let pos = positions[i];
            let r = self.calculate_highlight(pos.x, pos.y);
            results.push(r);
            i = i + 1;
        }
        results
    }

    /// Highlights a whole column: empty when `col_index` is out of range,
    /// otherwise one valid entry per row, in ascending row order.
    pub fn calculate_column_highlights(&self, col_index: i32) -> (results: Vec<HighlightResult>)
        ensures
            index_in_range(col_index as int, self.cols_count as int) ==> {
                &&& results@.len() == self.rows_count
                &&& forall|i: int|
                    0 <= i < results@.len() ==> self.column_entry_matches(
                        col_index as int,
                        i,
                        #[trigger] results@[i],
                    )
            },
            !index_in_range(col_index as int, self.cols_count as int) ==> results@.len() == 0,
    {
        let mut results: Vec<HighlightResult> = Vec::new();

        if col_index >= 0 && (col_index as u32) < self.cols_count {
            proof {
                lemma_cell_origin_fits(
                    col_index as int,
                    self.col_width as int,
                    self.scroll_left as int,
                );
            }
            let x: i64 = col_index as i64 * self.col_width as i64 - self.scroll_left as i64;

            let mut row: u32 = 0;
            while row < self.rows_count
                invariant
                    0 <= col_index as int && (col_index as int) < self.cols_count as int,
                    x == cell_origin(col_index as int, self.col_width as int, self.scroll_left as int),
                    row <= self.rows_count,
                    results@.len() == row as int,
                    forall|i: int|
                        0 <= i < row as int ==> self.column_entry_matches(
                            col_index as int,
                            i,
                            #[trigger] results@[i],
                        ),
                decreases self.rows_count - row,
            {
                proof {
                    lemma_cell_origin_fits(
                        row as int,
                        self.row_height as int,
                        self.scroll_top as int,
                    );
                }
                let y: i64 = row as i64 * self.row_height as i64 - self.scroll_top as i64;
                results.push(
                    HighlightResult {
                        col_index: col_index as i64,
                        row_index: row as i64,
                        x,
                        y,
                        width: self.col_width as i64,
                        height: self.row_height as i64,
                        valid: true,
                    },
                );
                row = row + 1;
            }
        }

        results
    }

    /// Highlights a whole row: empty when `row_index` is out of range,
    /// otherwise one valid entry per column, in ascending column order.
    pub fn calculate_row_highlights(&self, row_index: i32) -> (results: Vec<HighlightResult>)
        ensures
            index_in_range(row_index as int, self.rows_count as int) ==> {
                &&& results@.len() == self.cols_count
                &&& forall|i: int|
                    0 <= i < results@.len() ==> self.row_entry_matches(
                        row_index as int,
                        i,
                        #[trigger] results@[i],
                    )
            },
            !index_in_range(row_index as int, self.rows_count as int) ==> results@.len() == 0,
    {
        let mut results: Vec<HighlightResult> = Vec::new();

        if row_index >= 0 && (row_index as u32) < self.rows_count {
            proof {
                lemma_cell_origin_fits(
                    row_index as int,
                    self.row_height as int,
                    self.scroll_top as int,
                );
            }
            let y: i64 = row_index as i64 * self.row_height as i64 - self.scroll_top as i64;

            let mut col: u32 = 0;
            while col < self.cols_count
                invariant
                    0 <= row_index as int && (row_index as int) < self.rows_count as int,
                    y == cell_origin(row_index as int, self.row_height as int, self.scroll_top as int),
                    col <= self.cols_count,
                    results@.len() == col as int,
                    forall|i: int|
                        0 <= i < col as int ==> self.row_entry_matches(
                            row_index as int,
                            i,
                            #[trigger] results@[i],
                        ),
                decreases self.cols_count - col,
            {
                proof {
                    lemma_cell_origin_fits(
                        col as int,
                        self.col_width as int,
                        self.scroll_left as int,
                    );
                }
                let x: i64 = col as i64 * self.col_width as i64 - self.scroll_left as i64;
                results.push(
                    HighlightResult {
                        col_index: col as i64,
                        row_index: row_index as i64,
                        x,
                        y,
                        width: self.col_width as i64,
                        height: self.row_height as i64,
                        valid: true,
                    },
                );
                col = col + 1;
            }
        }

        results
    }

    /// A snapshot of the configured geometry, with the total cell count
    /// `cols_count * rows_count`.
    pub fn get_performance_stats(&self) -> (stats: PerformanceStats)
        ensures
            stats.grid_cells == self.cols_count as int * self.rows_count as int,
            stats.cols_count == self.cols_count,
            stats.rows_count == self.rows_count,
            stats.col_width == self.col_width,
            stats.row_height == self.row_height,
    {
        proof {
            lemma_mul_upper_bound(
                self.cols_count as int,
                0xffff_ffff,
                self.rows_count as int,
                0xffff_ffff,
            );
        }
        PerformanceStats {
            grid_cells: self.cols_count as u64 * self.rows_count as u64,
            cols_count: self.cols_count,
            rows_count: self.rows_count,
            col_width: self.col_width,
            row_height: self.row_height,
        }
    }
}

} // verus!
