use layout::error::LayoutError;
use layout::page::{Block, BlockContent, PageSize, TextStyle};
use layout::Page;

#[test]
fn page_size_dimensions_in_points() {
    assert_eq!(PageSize::A4.dimensions(), (59528, 84189));
    assert_eq!(PageSize::A5.dimensions(), (41953, 59528));
    assert_eq!(PageSize::Letter.dimensions(), (61200, 79200));
    assert_eq!(PageSize::HalfLetter.dimensions(), (39600, 61200));
    assert_eq!(
        PageSize::Custom { width: 100, height: 200 }.dimensions(),
        (100, 200)
    );
}

#[test]
fn text_style_default_values() {
    let s = TextStyle::default();
    assert_eq!(s.font_size, 1000);
    assert_eq!(s.font_family, "Helvetica");
    assert_eq!(s.line_height, 140);
    assert_eq!(s.weight, "normal");
}

fn empty_block(id: &str) -> Block {
    Block {
        id: id.to_string(),
        col: 0,
        row: 0,
        col_span: 1,
        row_span: 1,
        content: BlockContent::Empty,
        decision_ids: Vec::new(),
    }
}

#[test]
fn page_new_builds_grid_from_size() {
    let p = Page::new(1, PageSize::Letter, 3, 4).unwrap();
    assert_eq!(p.number, 1);
    assert_eq!(p.grid.column_width, 17200);
    assert_eq!(p.grid.row_height, 17100);
    assert!(p.blocks.is_empty());
}

#[test]
fn page_new_propagates_grid_failure() {
    assert!(matches!(
        Page::new(1, PageSize::Letter, 0, 4),
        Err(LayoutError::InvalidGridDimensions { columns: 0, rows: 4 })
    ));
}

#[test]
fn add_block_appends_in_order() {
    let mut p = Page::new(1, PageSize::Letter, 3, 4).unwrap();
    p.add_block(empty_block("a")).unwrap();
    p.add_block(empty_block("b")).unwrap();
    assert_eq!(p.blocks.len(), 2);
    assert_eq!(p.blocks[0].id, "a");
    assert_eq!(p.blocks[1].id, "b");
}

#[test]
fn add_block_rejects_duplicate_id() {
    let mut p = Page::new(1, PageSize::Letter, 3, 4).unwrap();
    p.add_block(empty_block("a")).unwrap();
    let e = p.add_block(empty_block("a")).unwrap_err();
    assert_eq!(e, LayoutError::DuplicateBlockId { id: "a".to_string() });
    assert_eq!(e.message(), "duplicate block id: a");
    assert_eq!(p.blocks.len(), 1);
}
