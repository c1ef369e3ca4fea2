//! Pure grid geometry: page dimensions to cell origins and span sizes.
//!
//! All lengths are integer hundredths of a typographic point, so the
//! tiling arithmetic is exact: adjacent cells are contiguous to the unit.
use vstd::prelude::*;

verus! {

use crate::error::LayoutError;

/// Default page margin: 36 pt, in hundredths of a point.
pub const DEFAULT_MARGIN_CENTI: u64 = 3600;

/// Default gutter between adjacent cells: 12 pt, in hundredths of a point.
pub const GUTTER_CENTI: u64 = 1200;

/// Upper bound on a page dimension accepted by the constructor, in
/// hundredths of a point; keeps every derived coordinate within `u64`.
pub const MAX_PAGE_DIM_CENTI: u64 = 0x4_0000_0000_0000;

/// Upper bound on the extent `margin + columns * (width + gutter)` of a
/// well-formed grid; every cell coordinate stays below it.
pub const MAX_EXTENT_CENTI: u64 = 0x10_0000_0000_0000;

/// Fixed inset between the page edge and the grid's usable area, in
/// hundredths of a point per side.
#[derive(Debug, Clone, Copy, PartialEq, Eq, Structural)]
pub struct Margin {
    pub top: u64,
    pub right: u64,
    pub bottom: u64,
    pub left: u64,
}

impl Default for Margin {
    /// 36 pt on every side.
    fn default() -> (m: Margin)
        ensures
            m == (Margin {
                top: DEFAULT_MARGIN_CENTI,
                right: DEFAULT_MARGIN_CENTI,
                bottom: DEFAULT_MARGIN_CENTI,
                left: DEFAULT_MARGIN_CENTI,
            }),
    {
        Margin {
            top: DEFAULT_MARGIN_CENTI,
            right: DEFAULT_MARGIN_CENTI,
            bottom: DEFAULT_MARGIN_CENTI,
            left: DEFAULT_MARGIN_CENTI,
        }
    }
}

/// The column/row partition of a page's usable area. Cell sizes are derived
/// once at construction and the struct is immutable afterwards.
#[derive(Debug, Clone, Copy, PartialEq, Eq, Structural)]
pub struct Grid {
    pub columns: u32,
    pub rows: u32,
    pub column_width: u64,
    pub row_height: u64,
    pub gutter_h: u64,
    pub gutter_v: u64,
    pub margin: Margin,
}

/// Whether `columns x rows` cells of strictly positive size fit on a
/// `page_width x page_height` page after margins and gutters.
pub open spec fn spec_grid_ok(columns: int, rows: int, page_width: int, page_height: int) -> bool {
    &&& columns >= 1
    &&& rows >= 1
    &&& page_width - 2 * DEFAULT_MARGIN_CENTI - (columns - 1) * GUTTER_CENTI >= columns
    &&& page_height - 2 * DEFAULT_MARGIN_CENTI - (rows - 1) * GUTTER_CENTI >= rows
}

/// The usable width left after margins and gutters, divided evenly across
/// the columns (likewise for rows via `spec_row_height`).
pub open spec fn spec_column_width(columns: int, page_width: int) -> int {
    (page_width - 2 * DEFAULT_MARGIN_CENTI - (columns - 1) * GUTTER_CENTI) / columns
}

pub open spec fn spec_row_height(rows: int, page_height: int) -> int {
    (page_height - 2 * DEFAULT_MARGIN_CENTI - (rows - 1) * GUTTER_CENTI) / rows
}

/// The grid that construction yields for these inputs: derived cell sizes,
/// default margins and gutters.
pub open spec fn spec_new_grid(columns: u32, rows: u32, page_width: int, page_height: int) -> Grid {
    Grid {
        columns,
        rows,
        column_width: spec_column_width(columns as int, page_width) as u64,
        row_height: spec_row_height(rows as int, page_height) as u64,
        gutter_h: GUTTER_CENTI,
        gutter_v: GUTTER_CENTI,
        margin: Margin {
            top: DEFAULT_MARGIN_CENTI,
            right: DEFAULT_MARGIN_CENTI,
            bottom: DEFAULT_MARGIN_CENTI,
            left: DEFAULT_MARGIN_CENTI,
        },
    }
}

/// The x coordinate of the top-left corner of column `col`.
pub open spec fn spec_cell_x(g: Grid, col: int) -> int {
    g.margin.left + col * (g.column_width + g.gutter_h)
}

/// The y coordinate of the top-left corner of row `row`.
pub open spec fn spec_cell_y(g: Grid, row: int) -> int {
    g.margin.top + row * (g.row_height + g.gutter_v)
}

/// Width of a block spanning `k` columns: the cells plus the gutters
/// between them.
pub open spec fn spec_span_w(g: Grid, k: int) -> int {
    k * g.column_width + (k - 1) * g.gutter_h
}

/// Height of a block spanning `k` rows.
pub open spec fn spec_span_h(g: Grid, k: int) -> int {
    k * g.row_height + (k - 1) * g.gutter_v
}

impl Grid {
    /// Well-formedness: at least one cell, strictly positive cell sizes,
    /// and a bounded extent so every coordinate fits the machine word.
    pub open spec fn wf(self) -> bool {
        &&& self.columns >= 1
        &&& self.rows >= 1
        &&& self.column_width >= 1
        &&& self.row_height >= 1
        &&& self.margin.left + self.columns * (self.column_width + self.gutter_h)
            <= MAX_EXTENT_CENTI
        &&& self.margin.top + self.rows * (self.row_height + self.gutter_v) <= MAX_EXTENT_CENTI
    }

    /// Builds a grid for a page of the given dimensions (hundredths of a
    /// point) with default margins and gutters. Fails with
    /// `InvalidGridDimensions` when there are zero columns or rows or the
    /// computed cell size would not be strictly positive.
    pub fn new(columns: u32, rows: u32, page_width: u64, page_height: u64) -> (r: Result<
        Grid,
        LayoutError,
    >)
        requires
            page_width <= MAX_PAGE_DIM_CENTI,
            page_height <= MAX_PAGE_DIM_CENTI,
        ensures
            r is Ok <==> spec_grid_ok(columns as int, rows as int, page_width as int, page_height as int),
            r matches Ok(g) ==> g == spec_new_grid(columns, rows, page_width as int, page_height as int)
                && g.wf(),
            r matches Err(e) ==> e == (LayoutError::InvalidGridDimensions { columns, rows }),
    {
        if columns == 0 || rows == 0 {
            return Err(LayoutError::InvalidGridDimensions { columns, rows });
        }
        let cols: u64 = columns as u64;
        let rws: u64 = rows as u64;
        let gutters_w: u64 = GUTTER_CENTI * (cols - 1);
        let gutters_h: u64 = GUTTER_CENTI * (rws - 1);
        if page_width < 2 * DEFAULT_MARGIN_CENTI + gutters_w + cols || page_height < 2
            * DEFAULT_MARGIN_CENTI + gutters_h + rws {
            return Err(LayoutError::InvalidGridDimensions { columns, rows });
        }
        let usable_w: u64 = page_width - 2 * DEFAULT_MARGIN_CENTI - gutters_w;
        let usable_h: u64 = page_height - 2 * DEFAULT_MARGIN_CENTI - gutters_h;
        let col_w: u64 = usable_w / cols;
        let row_h: u64 = usable_h / rws;
        let g = Grid {
            columns,
            rows,
            column_width: col_w,
            row_height: row_h,
            gutter_h: GUTTER_CENTI,
            gutter_v: GUTTER_CENTI,
            margin: Margin::default(),
        };
        proof {
            vstd::arithmetic::div_mod::lemma_fundamental_div_mod(usable_w as int, cols as int);
            vstd::arithmetic::div_mod::lemma_fundamental_div_mod(usable_h as int, rws as int);
            assert(cols as int * (col_w as int + GUTTER_CENTI as int) == cols as int * col_w as int
                + cols as int * GUTTER_CENTI as int) by (nonlinear_arith);
            assert(rws as int * (row_h as int + GUTTER_CENTI as int) == rws as int * row_h as int
                + rws as int * GUTTER_CENTI as int) by (nonlinear_arith);
            assert(g.wf());
        }
        Ok(g)
    }

    /// The top-left point of cell `(col, row)`:
    /// `margin + index * (cell size + gutter)` on each axis. Out-of-range
    /// coordinates fail with `InvalidSpan` rather than silently producing
    /// an out-of-canvas point.
    pub fn cell_origin(&self, col: u32, row: u32) -> (r: Result<(u64, u64), LayoutError>)
        requires
            self.wf(),
        ensures
            r is Ok <==> col < self.columns && row < self.rows,
            r matches Ok(p) ==> p.0 == spec_cell_x(*self, col as int) && p.1 == spec_cell_y(
                *self,
                row as int,
            ) && p.0 <= MAX_EXTENT_CENTI && p.1 <= MAX_EXTENT_CENTI,
            r matches Err(e) ==> e == (LayoutError::InvalidSpan {
                col,
                row,
                col_span: 1u32,
                row_span: 1u32,
            }),
    {
        if col >= self.columns || row >= self.rows {
            return Err(LayoutError::InvalidSpan { col, row, col_span: 1, row_span: 1 });
        }
        proof {
            vstd::arithmetic::mul::lemma_mul_inequality(
                1,
                self.columns as int,
                self.column_width as int + self.gutter_h as int,
            );
            vstd::arithmetic::mul::lemma_mul_inequality(
                1,
                self.rows as int,
                self.row_height as int + self.gutter_v as int,
            );
            vstd::arithmetic::mul::lemma_mul_inequality(
                col as int,
                self.columns as int,
                self.column_width as int + self.gutter_h as int,
            );
            vstd::arithmetic::mul::lemma_mul_inequality(
                row as int,
                self.rows as int,
                self.row_height as int + self.gutter_v as int,
            );
        }
        let x: u64 = self.margin.left + (col as u64) * (self.column_width + self.gutter_h);
        let y: u64 = self.margin.top + (row as u64) * (self.row_height + self.gutter_v);
        Ok((x, y))
    }

    /// The bounding box of a block spanning `col_span x row_span` cells:
    /// `span * cell size + (span - 1) * gutter` per axis. Spans of zero, or
    /// wider than the grid, fail with `InvalidSpan`.
    pub fn span_size(&self, col_span: u32, row_span: u32) -> (r: Result<(u64, u64), LayoutError>)
        requires
            self.wf(),
        ensures
            r is Ok <==> 1 <= col_span <= self.columns && 1 <= row_span <= self.rows,
            r matches Ok(p) ==> p.0 == spec_span_w(*self, col_span as int) && p.1 == spec_span_h(
                *self,
                row_span as int,
            ) && p.0 <= MAX_EXTENT_CENTI && p.1 <= MAX_EXTENT_CENTI,
            r matches Err(e) ==> e == (LayoutError::InvalidSpan {
                col: 0u32,
                row: 0u32,
                col_span,
                row_span,
            }),
    {
        if col_span == 0 || row_span == 0 || col_span > self.columns || row_span > self.rows {
            return Err(LayoutError::InvalidSpan { col: 0, row: 0, col_span, row_span });
        }
        proof {
            vstd::arithmetic::mul::lemma_mul_inequality(
                col_span as int,
                self.columns as int,
                self.column_width as int + self.gutter_h as int,
            );
            vstd::arithmetic::mul::lemma_mul_inequality(
                row_span as int,
                self.rows as int,
                self.row_height as int + self.gutter_v as int,
            );
            assert(col_span as int * (self.column_width as int + self.gutter_h as int) == col_span
                as int * self.column_width as int + col_span as int * self.gutter_h as int)
                by (nonlinear_arith);
            assert(row_span as int * (self.row_height as int + self.gutter_v as int) == row_span
                as int * self.row_height as int + row_span as int * self.gutter_v as int)
                by (nonlinear_arith);
            vstd::arithmetic::mul::lemma_mul_inequality(
                col_span as int - 1,
                col_span as int,
                self.gutter_h as int,
            );
            vstd::arithmetic::mul::lemma_mul_inequality(
                row_span as int - 1,
                row_span as int,
                self.gutter_v as int,
            );
            vstd::arithmetic::mul::lemma_mul_inequality(
                col_span as int,
                self.columns as int,
                self.column_width as int,
            );
            vstd::arithmetic::mul::lemma_mul_inequality(
                row_span as int,
                self.rows as int,
                self.row_height as int,
            );
        }
        let w: u64 = (col_span as u64) * self.column_width + ((col_span - 1) as u64)
            * self.gutter_h;
        let h: u64 = (row_span as u64) * self.row_height + ((row_span - 1) as u64) * self.gutter_v;
        Ok((w, h))
    }
}

/// Tiling law: adjacent single cells are contiguous. Stepping one column to
/// the right moves the origin by exactly one column width plus one gutter,
/// and likewise one row down.
pub proof fn lemma_cell_tiling(g: Grid, col: int, row: int)
    requires
        g.wf(),
        0 <= col < g.columns - 1,
        0 <= row < g.rows - 1,
    ensures
        spec_cell_x(g, col + 1) - spec_cell_x(g, col) == g.column_width + g.gutter_h,
        spec_cell_y(g, row + 1) - spec_cell_y(g, row) == g.row_height + g.gutter_v,
{
    assert((col + 1) * (g.column_width + g.gutter_h) - col * (g.column_width + g.gutter_h)
        == g.column_width + g.gutter_h) by (nonlinear_arith);
    assert((row + 1) * (g.row_height + g.gutter_v) - row * (g.row_height + g.gutter_v)
        == g.row_height + g.gutter_v) by (nonlinear_arith);
}

/// Span sizing law: a `k`-column span is exactly `k` column widths plus the
/// `k - 1` gutters between them, and nothing else; one column spans exactly
/// its own width.
pub proof fn lemma_span_sizing(g: Grid, k: int)
    requires
        k >= 1,
    ensures
        spec_span_w(g, k) == k * g.column_width + (k - 1) * g.gutter_h,
        spec_span_w(g, 1) == g.column_width,
        spec_span_w(g, k + 1) - spec_span_w(g, k) == g.column_width + g.gutter_h,
{
    assert((k + 1) * g.column_width - k * g.column_width == g.column_width) by (nonlinear_arith);
    assert(k * g.gutter_h - (k - 1) * g.gutter_h == g.gutter_h) by (nonlinear_arith);
}

} // verus!
