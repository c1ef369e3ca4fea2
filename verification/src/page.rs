//! The structured document model: a page owns one grid and an ordered,
//! append-only list of content blocks.
use vstd::prelude::*;

verus! {

use crate::error::LayoutError;
use crate::grid::Grid;
use crate::grid::MAX_PAGE_DIM_CENTI;
use crate::grid::spec_grid_ok;
use crate::grid::spec_new_grid;

/// Fixed page formats with exact point-based dimensions, or a custom pair.
/// All values in hundredths of a point (1 pt = 1/72 inch).
#[derive(Debug, Clone, Copy, PartialEq, Eq, Structural)]
pub enum PageSize {
    A4,
    A5,
    Letter,
    HalfLetter,
    Custom { width: u64, height: u64 },
}

/// The `(width, height)` lookup values behind `dimensions`.
pub open spec fn spec_dimensions(s: PageSize) -> (int, int) {
    match s {
        PageSize::A4 => (59528int, 84189int),
        PageSize::A5 => (41953int, 59528int),
        PageSize::Letter => (61200int, 79200int),
        PageSize::HalfLetter => (39600int, 61200int),
        PageSize::Custom { width, height } => (width as int, height as int),
    }
}

impl PageSize {
    /// Page width and height in hundredths of a point: A4 595.28 x 841.89,
    /// A5 419.53 x 595.28, Letter 612 x 792, HalfLetter 396 x 612.
    pub fn dimensions(&self) -> (r: (u64, u64))
        ensures
            r.0 == spec_dimensions(*self).0,
            r.1 == spec_dimensions(*self).1,
    {
        match self {
            PageSize::A4 => (59528, 84189),
            PageSize::A5 => (41953, 59528),
            PageSize::Letter => (61200, 79200),
            PageSize::HalfLetter => (39600, 61200),
            PageSize::Custom { width, height } => (*width, *height),
        }
    }
}

/// Text styling carried by a text block. `font_size` is in hundredths of a
/// point; `line_height` is a ratio in hundredths.
#[derive(Debug, Clone)]
pub struct TextStyle {
    pub font_size: u64,
    pub font_family: String,
    pub line_height: u64,
    pub weight: String,
}

pub ghost struct TextStyleView {
    pub font_size: u64,
    pub font_family: Seq<char>,
    pub line_height: u64,
    pub weight: Seq<char>,
}

impl DeepView for TextStyle {
    type V = TextStyleView;

    open spec fn deep_view(&self) -> TextStyleView {
        TextStyleView {
            font_size: self.font_size,
            font_family: self.font_family@,
            line_height: self.line_height,
            weight: self.weight@,
        }
    }
}

impl Default for TextStyle {
    /// 10 pt Helvetica, line height 1.4, normal weight.
    fn default() -> (s: TextStyle)
        ensures
            s.deep_view() == (TextStyleView {
                font_size: 1000u64,
                font_family: "Helvetica"@,
                line_height: 140u64,
                weight: "normal"@,
            }),
    {
        TextStyle {
            font_size: 1000,
            font_family: "Helvetica".to_owned(),
            line_height: 140,
            weight: "normal".to_owned(),
        }
    }
}

/// What a block shows: styled text, an image placeholder, or nothing.
#[derive(Debug, Clone)]
pub enum BlockContent {
    Text { body: String, style: TextStyle },
    Image { path: String, alt: String },
    Empty,
}

pub ghost enum BlockContentView {
    Text { body: Seq<char>, style: TextStyleView },
    Image { path: Seq<char>, alt: Seq<char> },
    Empty,
}

impl DeepView for BlockContent {
    type V = BlockContentView;

    open spec fn deep_view(&self) -> BlockContentView {
        match self {
            BlockContent::Text { body, style } => BlockContentView::Text {
                body: body@,
                style: style.deep_view(),
            },
            BlockContent::Image { path, alt } => BlockContentView::Image {
                path: path@,
                alt: alt@,
            },
            BlockContent::Empty => BlockContentView::Empty,
        }
    }
}

/// One positioned content block. `decision_ids` are weak references into a
/// provenance tree, resolved by id and never owned.
#[derive(Debug, Clone)]
pub struct Block {
    pub id: String,
    pub col: u32,
    pub row: u32,
    pub col_span: u32,
    pub row_span: u32,
    pub content: BlockContent,
    pub decision_ids: Vec<String>,
}

pub ghost struct BlockView {
    pub id: Seq<char>,
    pub col: u32,
    pub row: u32,
    pub col_span: u32,
    pub row_span: u32,
    pub content: BlockContentView,
    pub decision_ids: Seq<Seq<char>>,
}

impl DeepView for Block {
    type V = BlockView;

    open spec fn deep_view(&self) -> BlockView {
        BlockView {
            id: self.id@,
            col: self.col,
            row: self.row,
            col_span: self.col_span,
            row_span: self.row_span,
            content: self.content.deep_view(),
            decision_ids: self.decision_ids.deep_view(),
        }
    }
}

/// A numbered page: its size, the grid derived from that size, and the
/// ordered sequence of blocks placed on it.
#[derive(Debug, Clone)]
pub struct Page {
    pub number: u32,
    pub size: PageSize,
    pub grid: Grid,
    pub blocks: Vec<Block>,
}

pub ghost struct PageView {
    pub number: u32,
    pub size: PageSize,
    pub grid: Grid,
    pub blocks: Seq<BlockView>,
}

impl DeepView for Page {
    type V = PageView;

    open spec fn deep_view(&self) -> PageView {
        PageView {
            number: self.number,
            size: self.size,
            grid: self.grid,
            blocks: self.blocks.deep_view(),
        }
    }
}

/// Whether some block on the page already carries this id.
pub open spec fn spec_has_block_id(blocks: Seq<BlockView>, id: Seq<char>) -> bool {
    exists|i: int| 0 <= i < blocks.len() && blocks[i].id == id
}

impl Page {
    /// Builds the page with a grid derived immediately from the size's
    /// dimensions; the block list starts empty. Fails exactly when the grid
    /// construction does.
    pub fn new(number: u32, size: PageSize, columns: u32, rows: u32) -> (r: Result<
        Page,
        LayoutError,
    >)
        requires
            spec_dimensions(size).0 <= MAX_PAGE_DIM_CENTI,
            spec_dimensions(size).1 <= MAX_PAGE_DIM_CENTI,
        ensures
            r is Ok <==> spec_grid_ok(
                columns as int,
                rows as int,
                spec_dimensions(size).0,
                spec_dimensions(size).1,
            ),
            r matches Ok(p) ==> {
                &&& p.number == number
                &&& p.size == size
                &&& p.grid == spec_new_grid(columns, rows, spec_dimensions(size).0, spec_dimensions(size).1)
                &&& p.grid.wf()
                &&& p.blocks@.len() == 0
            },
            r matches Err(e) ==> e == (LayoutError::InvalidGridDimensions { columns, rows }),
    {
        let (w, h) = size.dimensions();
        match Grid::new(columns, rows, w, h) {
            Ok(grid) => Ok(Page { number, size, grid, blocks: Vec::new() }),
            Err(e) => Err(e),
        }
    }

    /// Appends a block to the ordered list. Fails with `DuplicateBlockId`
    /// when the id already exists on the page, leaving the page unchanged.
    /// Coordinates and spans are not validated here: callers validate
    /// placement through the grid.
    pub fn add_block(&mut self, block: Block) -> (r: Result<(), LayoutError>)
        ensures
            r is Ok <==> !spec_has_block_id(old(self).deep_view().blocks, block.id@),
            r is Ok ==> final(self).blocks.deep_view() == old(self).blocks.deep_view().push(
                block.deep_view(),
            ),
            r is Err ==> *final(self) == *old(self),
            r matches Err(e) ==> e == (LayoutError::DuplicateBlockId { id: block.id }),
            final(self).number == old(self).number,
            final(self).size == old(self).size,
            final(self).grid == old(self).grid,
    {
        let n = self.blocks.len();
        let mut i: usize = 0;
        while i < n
            invariant
                n == self.blocks.len(),
                forall|j: int| 0 <= j < i ==> self.blocks.deep_view()[j].id != block.id@,
            decreases n - i,
        {
            if self.blocks[i].id == block.id {
                proof {
                    assert(self.blocks.deep_view()[i as int].id == block.id@);
                }
                return Err(LayoutError::DuplicateBlockId { id: block.id });
            }
            i += 1;
        }
        self.blocks.push(block);
        Ok(())
    }
}

} // verus!
