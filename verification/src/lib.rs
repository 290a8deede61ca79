//! A verified coordinate-transform engine for a scrollable grid of
//! fixed-size cells.
//!
//! The engine holds grid geometry and the current scroll offset, and maps
//! pointer positions in viewport-local pixels to the logical (column, row)
//! cell they fall over, together with the pixel rectangle of that cell
//! compensated for scroll. It is the pure core behind a UI layer that draws
//! hover or selection highlights; rendering and event wiring stay with the
//! host.

pub mod engine;
pub mod geometry;
pub mod laws;

pub use engine::HighlightEngine;
pub use engine::PerformanceStats;
pub use geometry::HighlightResult;
pub use geometry::Position;
