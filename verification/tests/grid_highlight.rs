use grid_highlight::HighlightEngine;
use grid_highlight::Position;

fn demo_engine() -> HighlightEngine {
    let mut engine = HighlightEngine::new();
    engine.configure(1200, 800, 120, 40, 10, 20);
    engine
}

#[test]
fn new_has_default_geometry() {
    let engine = HighlightEngine::new();
    let stats = engine.get_performance_stats();
    assert_eq!(stats.col_width, 120);
    assert_eq!(stats.row_height, 40);
    assert_eq!(stats.cols_count, 0);
    assert_eq!(stats.rows_count, 0);
    assert_eq!(stats.grid_cells, 0);
}

#[test]
fn new_engine_reports_no_valid_cell() {
    let engine = HighlightEngine::new();
    let r = engine.calculate_highlight(0, 0);
    assert_eq!(r.col_index, 0);
    assert_eq!(r.row_index, 0);
    assert!(!r.valid);
    assert_eq!(r.x, 0);
    assert_eq!(r.y, 0);
}

#[test]
fn hit_test_without_scroll() {
    let engine = demo_engine();
    let r = engine.calculate_highlight(125, 45);
    assert_eq!(r.col_index, 1);
    assert_eq!(r.row_index, 1);
    assert_eq!(r.x, 120);
    assert_eq!(r.y, 40);
    assert_eq!(r.width, 120);
    assert_eq!(r.height, 40);
    assert!(r.valid);
}

#[test]
fn hit_test_with_scroll() {
    let mut engine = demo_engine();
    engine.update_scroll(50, 20);
    let r = engine.calculate_highlight(10, 10);
    assert_eq!(r.col_index, 0);
    assert_eq!(r.row_index, 0);
    assert_eq!(r.x, -50);
    assert_eq!(r.y, -20);
    assert!(r.valid);
}

#[test]
fn hit_test_past_last_column() {
    let engine = demo_engine();
    let r = engine.calculate_highlight(1300, 45);
    assert_eq!(r.col_index, 10);
    assert!(!r.valid);
    assert_eq!(r.x, 0);
    assert_eq!(r.y, 0);
    assert_eq!(r.width, 120);
    assert_eq!(r.height, 40);
}

#[test]
fn negative_coordinates_give_sentinel_indices() {
    let engine = demo_engine();
    let r = engine.calculate_highlight(-5, -7);
    assert_eq!(r.col_index, -1);
    assert_eq!(r.row_index, -1);
    assert!(!r.valid);
    assert_eq!(r.x, 0);
    assert_eq!(r.y, 0);

    let r = engine.calculate_highlight(-1, 10);
    assert_eq!(r.col_index, -1);
    assert_eq!(r.row_index, 0);
    assert!(!r.valid);
}

#[test]
fn valid_exactly_on_grid_bounds() {
    let engine = demo_engine();
    let inside = engine.calculate_highlight(1199, 799);
    assert_eq!(inside.col_index, 9);
    assert_eq!(inside.row_index, 19);
    assert!(inside.valid);

    let past_cols = engine.calculate_highlight(1200, 0);
    assert_eq!(past_cols.col_index, 10);
    assert!(!past_cols.valid);

    let past_rows = engine.calculate_highlight(0, 800);
    assert_eq!(past_rows.row_index, 20);
    assert!(!past_rows.valid);
}

#[test]
fn valid_rectangle_round_trips_through_scroll() {
    let mut engine = demo_engine();
    engine.update_scroll(50, 20);
    let r = engine.calculate_highlight(130, 70);
    assert!(r.valid);
    assert_eq!(r.x + 50, r.col_index * 120);
    assert_eq!(r.y + 20, r.row_index * 40);
}

#[test]
fn column_highlights_cover_every_row() {
    let mut engine = demo_engine();
    engine.update_scroll(50, 20);
    let results = engine.calculate_column_highlights(3);
    assert_eq!(results.len(), 20);
    for (row, r) in results.iter().enumerate() {
        assert_eq!(r.col_index, 3);
        assert_eq!(r.row_index, row as i64);
        assert!(r.valid);
        assert_eq!(r.x, 3 * 120 - 50);
        assert_eq!(r.y, row as i64 * 40 - 20);
        assert_eq!(r.width, 120);
        assert_eq!(r.height, 40);
    }
}

#[test]
fn column_highlights_empty_when_out_of_range() {
    let engine = demo_engine();
    assert!(engine.calculate_column_highlights(10).is_empty());
    assert!(engine.calculate_column_highlights(-1).is_empty());
}

#[test]
fn row_highlights_cover_every_column() {
    let engine = demo_engine();
    let results = engine.calculate_row_highlights(5);
    assert_eq!(results.len(), 10);
    for (col, r) in results.iter().enumerate() {
        assert_eq!(r.col_index, col as i64);
        assert_eq!(r.row_index, 5);
        assert!(r.valid);
        assert_eq!(r.x, col as i64 * 120);
        assert_eq!(r.y, 5 * 40);
    }
}

#[test]
fn row_highlights_empty_when_out_of_range() {
    let engine = demo_engine();
    assert!(engine.calculate_row_highlights(20).is_empty());
    assert!(engine.calculate_row_highlights(-1).is_empty());
}

#[test]
fn batch_of_nothing_is_nothing() {
    let engine = demo_engine();
    let results = engine.batch_calculate_highlights(&Vec::new());
    assert!(results.is_empty());
}

#[test]
fn batch_keeps_length_and_order() {
    let engine = demo_engine();
    let positions = vec![
        Position { x: 125, y: 45 },
        Position { x: -5, y: 10 },
        Position { x: 1300, y: 45 },
    ];
    let results = engine.batch_calculate_highlights(&positions);
    assert_eq!(results.len(), 3);
    for (pos, batched) in positions.iter().zip(results.iter()) {
        let single = engine.calculate_highlight(pos.x, pos.y);
        assert_eq!(*batched, single);
    }
    assert_eq!(results[0].col_index, 1);
    assert_eq!(results[1].col_index, -1);
    assert_eq!(results[2].col_index, 10);
}

#[test]
fn performance_stats_snapshot() {
    let engine = demo_engine();
    let stats = engine.get_performance_stats();
    assert_eq!(stats.grid_cells, 200);
    assert_eq!(stats.cols_count, 10);
    assert_eq!(stats.rows_count, 20);
    assert_eq!(stats.col_width, 120);
    assert_eq!(stats.row_height, 40);
}

#[test]
fn configure_keeps_scroll_and_update_scroll_keeps_geometry() {
    let mut engine = HighlightEngine::new();
    engine.update_scroll(7, 9);
    engine.configure(1200, 800, 120, 40, 10, 20);
    let r = engine.calculate_highlight(113, 31);
    assert_eq!(r.col_index, 1);
    assert_eq!(r.row_index, 1);

    engine.update_scroll(0, 0);
    let stats = engine.get_performance_stats();
    assert_eq!(stats.cols_count, 10);
    assert_eq!(stats.col_width, 120);
}

#[test]
fn result_getters_expose_fields() {
    let engine = demo_engine();
    let r = engine.calculate_highlight(125, 45);
    assert_eq!(r.col_index(), 1);
    assert_eq!(r.row_index(), 1);
    assert_eq!(r.x(), 120);
    assert_eq!(r.y(), 40);
    assert_eq!(r.width(), 120);
    assert_eq!(r.height(), 40);
    assert!(r.valid());
}
