use layout::error::LayoutError;
use layout::Grid;

// Letter page (612 x 792 pt) with 3 columns and 4 rows: default 36 pt
// margins and 12 pt gutters leave 172 pt columns and 171 pt rows.
#[test]
fn letter_grid_cell_sizes() {
    let g = Grid::new(3, 4, 61200, 79200).unwrap();
    assert_eq!(g.columns, 3);
    assert_eq!(g.rows, 4);
    assert_eq!(g.column_width, 17200);
    assert_eq!(g.row_height, 17100);
    assert_eq!(g.gutter_h, 1200);
    assert_eq!(g.gutter_v, 1200);
    assert_eq!(g.margin.top, 3600);
    assert_eq!(g.margin.left, 3600);
}

#[test]
fn cell_origins_tile_contiguously() {
    let g = Grid::new(3, 4, 61200, 79200).unwrap();
    let (x0, y0) = g.cell_origin(0, 0).unwrap();
    assert_eq!((x0, y0), (3600, 3600));
    for col in 0..2 {
        let (xa, _) = g.cell_origin(col, 0).unwrap();
        let (xb, _) = g.cell_origin(col + 1, 0).unwrap();
        assert_eq!(xb - xa, g.column_width + g.gutter_h);
    }
    for row in 0..3 {
        let (_, ya) = g.cell_origin(0, row).unwrap();
        let (_, yb) = g.cell_origin(0, row + 1).unwrap();
        assert_eq!(yb - ya, g.row_height + g.gutter_v);
    }
}

#[test]
fn span_size_adds_cells_and_gutters() {
    let g = Grid::new(3, 4, 61200, 79200).unwrap();
    for k in 1..=3u64 {
        let (w, _) = g.span_size(k as u32, 1).unwrap();
        assert_eq!(w, k * g.column_width + (k - 1) * g.gutter_h);
    }
    let (w1, h1) = g.span_size(1, 1).unwrap();
    assert_eq!(w1, g.column_width);
    assert_eq!(h1, g.row_height);
}

#[test]
fn zero_columns_is_rejected() {
    let e = Grid::new(0, 4, 61200, 79200).unwrap_err();
    assert_eq!(e, LayoutError::InvalidGridDimensions { columns: 0, rows: 4 });
    assert_eq!(e.message(), "invalid grid dimensions: 0 columns x 4 rows");
}

#[test]
fn zero_rows_is_rejected() {
    assert!(matches!(
        Grid::new(3, 0, 61200, 79200),
        Err(LayoutError::InvalidGridDimensions { columns: 3, rows: 0 })
    ));
}

#[test]
fn page_too_small_for_cells_is_rejected() {
    // 80 pt wide: margins alone take 72 pt, and one gutter eats the rest.
    assert!(matches!(
        Grid::new(2, 2, 8000, 79200),
        Err(LayoutError::InvalidGridDimensions { .. })
    ));
}

#[test]
fn cell_origin_out_of_range_is_invalid_span() {
    let g = Grid::new(3, 4, 61200, 79200).unwrap();
    let e = g.cell_origin(3, 0).unwrap_err();
    assert!(matches!(e, LayoutError::InvalidSpan { col: 3, row: 0, .. }));
    assert!(g.cell_origin(0, 4).is_err());
    assert!(g.cell_origin(2, 3).is_ok());
}

#[test]
fn span_size_zero_or_oversized_is_invalid_span() {
    let g = Grid::new(3, 4, 61200, 79200).unwrap();
    assert!(matches!(
        g.span_size(0, 1),
        Err(LayoutError::InvalidSpan { col_span: 0, row_span: 1, .. })
    ));
    assert!(g.span_size(4, 1).is_err());
    assert!(g.span_size(3, 4).is_ok());
}
