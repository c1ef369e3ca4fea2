use layout::page::{Block, BlockContent, PageSize, TextStyle};
use layout::render::{latex_escape, page_to_latex, page_to_svg, xml_escape};
use layout::Page;

fn text_block(id: &str, body: &str) -> Block {
    Block {
        id: id.to_string(),
        col: 0,
        row: 0,
        col_span: 1,
        row_span: 1,
        content: BlockContent::Text {
            body: body.to_string(),
            style: TextStyle::default(),
        },
        decision_ids: Vec::new(),
    }
}

// A page with zero blocks holds exactly columns x rows + 1 rectangle
// elements (guides plus background) and no text element.
#[test]
fn empty_page_svg_rect_count() {
    let p = Page::new(1, PageSize::Letter, 3, 4).unwrap();
    let svg = page_to_svg(&p).unwrap();
    assert_eq!(svg.matches("<rect").count(), 3 * 4 + 1);
    assert_eq!(svg.matches("<text").count(), 0);
}

#[test]
fn svg_header_carries_page_dimensions() {
    let p = Page::new(1, PageSize::Letter, 3, 4).unwrap();
    let svg = page_to_svg(&p).unwrap();
    assert!(svg.starts_with(
        "<svg xmlns=\"http://www.w3.org/2000/svg\" viewBox=\"0 0 612 792\" width=\"612\" height=\"792\">"
    ));
    assert!(svg.contains("<rect width=\"612\" height=\"792\" fill=\"white\"/>"));
    assert!(svg.ends_with("</svg>"));
}

#[test]
fn svg_fractional_dimensions_keep_two_decimals() {
    let p = Page::new(1, PageSize::A4, 2, 2).unwrap();
    let svg = page_to_svg(&p).unwrap();
    assert!(svg.contains("viewBox=\"0 0 595.28 841.89\""));
}

// The body "A & B" renders as "A &amp; B" inside the text element.
#[test]
fn text_body_is_xml_escaped_in_svg() {
    let mut p = Page::new(1, PageSize::Letter, 3, 4).unwrap();
    p.add_block(text_block("t", "A & B")).unwrap();
    let svg = page_to_svg(&p).unwrap();
    assert!(svg.contains(">A &amp; B</text>"));
    assert!(!svg.contains(">A & B</text>"));
}

#[test]
fn xml_escape_all_mapped_characters() {
    assert_eq!(xml_escape("A & B"), "A &amp; B");
    assert_eq!(xml_escape("<a href=\"x\">"), "&lt;a href=&quot;x&quot;&gt;");
    assert_eq!(xml_escape("plain"), "plain");
    assert_eq!(xml_escape(""), "");
    // One pass: the ampersand of an entity is not escaped again.
    assert_eq!(xml_escape("&amp;"), "&amp;amp;");
}

#[test]
fn svg_text_block_uses_style() {
    let mut p = Page::new(1, PageSize::Letter, 3, 4).unwrap();
    p.add_block(text_block("t", "hi")).unwrap();
    let svg = page_to_svg(&p).unwrap();
    // Inset 4 pt from the cell origin (36, 36); baseline 36 + 10 + 4.
    assert!(svg.contains("<text x=\"40\" y=\"50\" font-family=\"Helvetica\" font-size=\"10\" fill=\"#111\">"));
}

#[test]
fn svg_image_block_prefers_alt_label() {
    let mut p = Page::new(1, PageSize::Letter, 3, 4).unwrap();
    p.add_block(Block {
        id: "i".to_string(),
        col: 1,
        row: 1,
        col_span: 1,
        row_span: 1,
        content: BlockContent::Image {
            path: "img/cover.png".to_string(),
            alt: "Cover".to_string(),
        },
        decision_ids: Vec::new(),
    })
    .unwrap();
    let svg = page_to_svg(&p).unwrap();
    assert!(svg.contains(">[Cover]</text>"));

    let mut q = Page::new(1, PageSize::Letter, 3, 4).unwrap();
    q.add_block(Block {
        id: "i".to_string(),
        col: 0,
        row: 0,
        col_span: 1,
        row_span: 1,
        content: BlockContent::Image {
            path: "img/cover.png".to_string(),
            alt: String::new(),
        },
        decision_ids: Vec::new(),
    })
    .unwrap();
    let svg2 = page_to_svg(&q).unwrap();
    assert!(svg2.contains(">[img/cover.png]</text>"));
}

#[test]
fn svg_rejects_block_outside_grid() {
    let mut p = Page::new(1, PageSize::Letter, 3, 4).unwrap();
    let mut b = text_block("t", "hi");
    b.col = 2;
    b.col_span = 2;
    p.add_block(b).unwrap();
    let e = page_to_svg(&p).unwrap_err();
    assert!(matches!(
        e,
        layout::error::LayoutError::InvalidSpan { col: 2, row: 0, col_span: 2, row_span: 1 }
    ));
}

// "50% off_price" escapes to "50\% off\_price".
#[test]
fn latex_escape_percent_and_underscore() {
    assert_eq!(latex_escape("50% off_price"), "50\\% off\\_price");
}

#[test]
fn latex_escape_full_map() {
    assert_eq!(latex_escape("\\"), "\\textbackslash{}");
    assert_eq!(latex_escape("{x}"), "\\{x\\}");
    assert_eq!(latex_escape("a&b$c#d"), "a\\&b\\$c\\#d");
    assert_eq!(latex_escape("~^"), "\\textasciitilde{}\\textasciicircum{}");
    // One pass: the braces a replacement introduces stay as emitted.
    assert_eq!(latex_escape("a\\b"), "a\\textbackslash{}b");
}

#[test]
fn latex_document_geometry_in_centimeters() {
    let p = Page::new(1, PageSize::Letter, 3, 4).unwrap();
    let tex = page_to_latex(&p).unwrap();
    assert!(tex.starts_with("\\documentclass{article}\n"));
    assert!(tex.contains(
        "\\usepackage[paperwidth=21.59cm,paperheight=27.94cm,top=36.00pt,bottom=36.00pt,left=36.00pt,right=36.00pt]{geometry}\n"
    ));
    assert!(tex.ends_with("\\end{document}\n"));
}

#[test]
fn latex_block_positions_are_margin_relative() {
    let mut p = Page::new(1, PageSize::Letter, 3, 4).unwrap();
    p.add_block(text_block("t", "hello")).unwrap();
    let tex = page_to_latex(&p).unwrap();
    // Cell (0,0) sits at the margin corner, so the node is at (0.0, 0.0).
    assert!(tex.contains("] at (0.0,0.0) {hello};\n"));
    assert!(tex.contains("text width=172.0pt"));
}

#[test]
fn latex_empty_block_emits_nothing() {
    let mut p = Page::new(1, PageSize::Letter, 3, 4).unwrap();
    p.add_block(Block {
        id: "e".to_string(),
        col: 0,
        row: 0,
        col_span: 1,
        row_span: 1,
        content: BlockContent::Empty,
        decision_ids: Vec::new(),
    })
    .unwrap();
    let tex = page_to_latex(&p).unwrap();
    assert_eq!(tex.matches("\\node").count(), 0);
}

#[test]
fn renderers_are_deterministic() {
    let mut p = Page::new(1, PageSize::A5, 2, 3).unwrap();
    p.add_block(text_block("t", "stable")).unwrap();
    assert_eq!(page_to_svg(&p).unwrap(), page_to_svg(&p).unwrap());
    assert_eq!(page_to_latex(&p).unwrap(), page_to_latex(&p).unwrap());
}
