//! Deterministic encoders: a page to standalone SVG or LaTeX markup. Both
//! read positions and sizes from the same grid functions, so the encoders
//! agree on one coordinate system.
use vstd::prelude::*;

verus! {

use vstd::string::StringExecFns;
use vstd::string::StrSliceExecFns;
use crate::text::push_char;

/// A string mapped character by character, each through `f`.
pub open spec fn spec_char_map_flat(f: spec_fn(char) -> Seq<char>, s: Seq<char>) -> Seq<char>
    decreases s.len(),
{
    if s.len() == 0 {
        Seq::empty()
    } else {
        spec_char_map_flat(f, s.drop_last()) + f(s.last())
    }
}

/// The XML escape of one character: `&`, `<`, `>` and `"` become entity
/// references, everything else stands unchanged.
pub open spec fn spec_xml_escape_char(c: char) -> Seq<char> {
    if c == '&' {
        "&amp;"@
    } else if c == '<' {
        "&lt;"@
    } else if c == '>' {
        "&gt;"@
    } else if c == '"' {
        "&quot;"@
    } else {
        seq![c]
    }
}

/// The XML escape of a whole string, one pass over its characters, so an
/// entity introduced for one character is never escaped again.
pub open spec fn spec_xml_escape(s: Seq<char>) -> Seq<char> {
    spec_char_map_flat(|c: char| spec_xml_escape_char(c), s)
}

/// Escapes text for an XML body: `&` to `&amp;`, `<` to `&lt;`, `>` to
/// `&gt;`, `"` to `&quot;`, without double-escaping.
pub fn xml_escape(s: &str) -> (r: String)
    ensures
        r@ == spec_xml_escape(s@),
{
    let n = s.unicode_len();
    let mut out = String::new();
    let mut i: usize = 0;
    proof {
        assert(s@.take(0) =~= Seq::<char>::empty());
        assert(out@ =~= spec_xml_escape(s@.take(0)));
    }
    while i < n
        invariant
            i <= n,
            n == s@.len(),
            out@ == spec_xml_escape(s@.take(i as int)),
        decreases n - i,
    {
        let c = s.get_char(i);
        if c == '&' {
            out.append("&amp;");
        } else if c == '<' {
            out.append("&lt;");
        } else if c == '>' {
            out.append("&gt;");
        } else if c == '"' {
            out.append("&quot;");
        } else {
            push_char(&mut out, c);
            proof {
                assert(out@ =~= spec_xml_escape(s@.take(i as int)) + seq![c]);
            }
        }
        proof {
            assert(s@.take(i as int + 1).drop_last() =~= s@.take(i as int));
            assert(s@.take(i as int + 1).last() == s@[i as int]);
        }
        i += 1;
    }
    proof {
        assert(s@.take(n as int) =~= s@);
    }
    out
}

/// The LaTeX escape of one character, through a fixed map: the backslash
/// and the nine reserved characters become commands, everything else
/// stands unchanged. Each character is mapped once, so the braces and
/// backslashes a replacement introduces are never escaped again.
pub open spec fn spec_latex_escape_char(c: char) -> Seq<char> {
    if c == '\\' {
        "\\textbackslash{}"@
    } else if c == '{' {
        "\\{"@
    } else if c == '}' {
        "\\}"@
    } else if c == '&' {
        "\\&"@
    } else if c == '%' {
        "\\%"@
    } else if c == '$' {
        "\\$"@
    } else if c == '#' {
        "\\#"@
    } else if c == '_' {
        "\\_"@
    } else if c == '~' {
        "\\textasciitilde{}"@
    } else if c == '^' {
        "\\textasciicircum{}"@
    } else {
        seq![c]
    }
}

/// The LaTeX escape of a whole string, one pass over its characters.
pub open spec fn spec_latex_escape(s: Seq<char>) -> Seq<char> {
    spec_char_map_flat(|c: char| spec_latex_escape_char(c), s)
}

/// Escapes text for a LaTeX body through the fixed character map.
pub fn latex_escape(s: &str) -> (r: String)
    ensures
        r@ == spec_latex_escape(s@),
{
    let n = s.unicode_len();
    let mut out = String::new();
    let mut i: usize = 0;
    proof {
        assert(s@.take(0) =~= Seq::<char>::empty());
        assert(out@ =~= spec_latex_escape(s@.take(0)));
    }
    while i < n
        invariant
            i <= n,
            n == s@.len(),
            out@ == spec_latex_escape(s@.take(i as int)),
        decreases n - i,
    {
        let c = s.get_char(i);
        if c == '\\' {
            out.append("\\textbackslash{}");
        } else if c == '{' {
            out.append("\\{");
        } else if c == '}' {
            out.append("\\}");
        } else if c == '&' {
            out.append("\\&");
        } else if c == '%' {
            out.append("\\%");
        } else if c == '$' {
            out.append("\\$");
        } else if c == '#' {
            out.append("\\#");
        } else if c == '_' {
            out.append("\\_");
        } else if c == '~' {
            out.append("\\textasciitilde{}");
        } else if c == '^' {
            out.append("\\textasciicircum{}");
        } else {
            push_char(&mut out, c);
            proof {
                assert(out@ =~= spec_latex_escape(s@.take(i as int)) + seq![c]);
            }
        }
        proof {
            assert(s@.take(i as int + 1).drop_last() =~= s@.take(i as int));
            assert(s@.take(i as int + 1).last() == s@[i as int]);
        }
        i += 1;
    }
    proof {
        assert(s@.take(n as int) =~= s@);
    }
    out
}

use crate::error::LayoutError;
use crate::grid::Grid;
use crate::grid::MAX_PAGE_DIM_CENTI;
use crate::grid::spec_cell_x;
use crate::grid::spec_cell_y;
use crate::grid::spec_span_w;
use crate::grid::spec_span_h;
use crate::numfmt::spec_centi_str;
use crate::numfmt::spec_centi1_str;
use crate::numfmt::spec_centi2_str;
use crate::numfmt::fmt_centi;
use crate::page::Block;
use crate::page::BlockView;
use crate::page::BlockContent;
use crate::page::BlockContentView;
use crate::page::Page;
use crate::page::PageView;
use crate::page::spec_dimensions;

/// One element of the generated SVG document, carrying its exact markup.
pub ghost enum SvgElem {
    Rect { markup: Seq<char> },
    Text { markup: Seq<char> },
}

pub open spec fn spec_elem_markup(e: SvgElem) -> Seq<char> {
    match e {
        SvgElem::Rect { markup } => markup,
        SvgElem::Text { markup } => markup,
    }
}

/// The markup of a run of elements, in order.
pub open spec fn spec_markup_concat(es: Seq<SvgElem>) -> Seq<char>
    decreases es.len(),
{
    if es.len() == 0 {
        Seq::empty()
    } else {
        spec_markup_concat(es.drop_last()) + spec_elem_markup(es.last())
    }
}

/// How many rectangle elements a run holds.
pub open spec fn spec_rect_count(es: Seq<SvgElem>) -> int
    decreases es.len(),
{
    if es.len() == 0 {
        0
    } else {
        spec_rect_count(es.drop_last()) + (if es.last() matches SvgElem::Rect { .. } {
            1int
        } else {
            0int
        })
    }
}

/// How many text elements a run holds.
pub open spec fn spec_text_count(es: Seq<SvgElem>) -> int
    decreases es.len(),
{
    if es.len() == 0 {
        0
    } else {
        spec_text_count(es.drop_last()) + (if es.last() matches SvgElem::Text { .. } {
            1int
        } else {
            0int
        })
    }
}

proof fn lemma_markup_concat_add(a: Seq<SvgElem>, b: Seq<SvgElem>)
    ensures
        spec_markup_concat(a + b) == spec_markup_concat(a) + spec_markup_concat(b),
    decreases b.len(),
{
    if b.len() == 0 {
        assert(a + b =~= a);
        assert(spec_markup_concat(a) + spec_markup_concat(b) =~= spec_markup_concat(a));
    } else {
        lemma_markup_concat_add(a, b.drop_last());
        assert((a + b).drop_last() =~= a + b.drop_last());
        assert((a + b).last() == b.last());
    }
}

proof fn lemma_counts_add(a: Seq<SvgElem>, b: Seq<SvgElem>)
    ensures
        spec_rect_count(a + b) == spec_rect_count(a) + spec_rect_count(b),
        spec_text_count(a + b) == spec_text_count(a) + spec_text_count(b),
    decreases b.len(),
{
    if b.len() == 0 {
        assert(a + b =~= a);
    } else {
        lemma_counts_add(a, b.drop_last());
        assert((a + b).drop_last() =~= a + b.drop_last());
        assert((a + b).last() == b.last());
    }
}

/// The shared position/size attributes of every rectangle drawn.
pub open spec fn spec_rect_xywh(x: int, y: int, w: int, h: int) -> Seq<char> {
    "<rect x=\""@ + spec_centi_str(x) + "\" y=\""@ + spec_centi_str(y) + "\" width=\""@
        + spec_centi_str(w) + "\" height=\""@ + spec_centi_str(h) + "\""@
}

/// The white page background.
pub open spec fn spec_background_elem(pw: int, ph: int) -> SvgElem {
    SvgElem::Rect {
        markup: "<rect width=\""@ + spec_centi_str(pw) + "\" height=\""@ + spec_centi_str(ph)
            + "\" fill=\"white\"/>"@,
    }
}

/// One unstyled guide rectangle for a single grid cell.
pub open spec fn spec_guide_elem(g: Grid, col: int, row: int) -> SvgElem {
    SvgElem::Rect {
        markup: spec_rect_xywh(
            spec_cell_x(g, col),
            spec_cell_y(g, row),
            spec_span_w(g, 1),
            spec_span_h(g, 1),
        ) + " fill=\"none\" stroke=\"#e0e0e0\" stroke-width=\"0.25\"/>"@,
    }
}

/// The guides of one column, rows `0 .. upto_row` top to bottom.
pub open spec fn spec_col_guide_elems(g: Grid, col: int, upto_row: int) -> Seq<SvgElem>
    decreases upto_row,
{
    if upto_row <= 0 {
        Seq::empty()
    } else {
        spec_col_guide_elems(g, col, upto_row - 1).push(spec_guide_elem(g, col, upto_row - 1))
    }
}

/// The guides of columns `0 .. upto_col`, column by column.
pub open spec fn spec_guide_elems(g: Grid, upto_col: int) -> Seq<SvgElem>
    decreases upto_col,
{
    if upto_col <= 0 {
        Seq::empty()
    } else {
        spec_guide_elems(g, upto_col - 1) + spec_col_guide_elems(g, upto_col - 1, g.rows as int)
    }
}

/// The bordered rectangle of a text block.
#[verifier::opaque]
pub open spec fn spec_text_rect_markup(x: int, y: int, w: int, h: int) -> Seq<char> {
    spec_rect_xywh(x, y, w, h) + " fill=\"none\" stroke=\"#333\" stroke-width=\"0.5\"/>"@
}

/// The text element of a text block: inset 4 units from the block's
/// top-left, with a baseline offset of the font size plus 4, body
/// XML-escaped.
#[verifier::opaque]
pub open spec fn spec_text_text_markup(
    x: int,
    y: int,
    body: Seq<char>,
    style: crate::page::TextStyleView,
) -> Seq<char> {
    "<text x=\""@ + spec_centi_str(x + 400) + "\" y=\""@ + spec_centi_str(
        y + style.font_size + 400,
    ) + "\" font-family=\""@ + style.font_family + "\" font-size=\""@ + spec_centi_str(
        style.font_size as int,
    ) + "\" fill=\"#111\">"@ + spec_xml_escape(body) + "</text>"@
}

/// The filled placeholder rectangle of an image block.
#[verifier::opaque]
pub open spec fn spec_image_rect_markup(x: int, y: int, w: int, h: int) -> Seq<char> {
    spec_rect_xywh(x, y, w, h) + " fill=\"#f0f0f0\" stroke=\"#999\" stroke-width=\"0.5\"/>"@
}

/// The centered bracketed label of an image block: the alt text when it is
/// non-empty, else the path.
#[verifier::opaque]
pub open spec fn spec_image_text_markup(
    x: int,
    y: int,
    w: int,
    h: int,
    path: Seq<char>,
    alt: Seq<char>,
) -> Seq<char> {
    "<text x=\""@ + spec_centi_str(x + w / 2) + "\" y=\""@ + spec_centi_str(y + h / 2)
        + "\" text-anchor=\"middle\" font-size=\"8\" fill=\"#999\">["@ + (if alt.len() == 0 {
        path
    } else {
        alt
    }) + "]</text>"@
}

/// The dashed outline of an empty block.
#[verifier::opaque]
pub open spec fn spec_empty_rect_markup(x: int, y: int, w: int, h: int) -> Seq<char> {
    spec_rect_xywh(x, y, w, h)
        + " fill=\"none\" stroke=\"#ccc\" stroke-width=\"0.25\" stroke-dasharray=\"4,2\"/>"@
}

/// The elements one block contributes: a bordered rectangle and an inset
/// text element for text, a filled placeholder and a centered bracketed
/// label for an image, a dashed outline alone for an empty block.
pub open spec fn spec_block_elems(g: Grid, b: BlockView) -> Seq<SvgElem> {
    let x = spec_cell_x(g, b.col as int);
    let y = spec_cell_y(g, b.row as int);
    let w = spec_span_w(g, b.col_span as int);
    let h = spec_span_h(g, b.row_span as int);
    match b.content {
        BlockContentView::Text { body, style } => seq![
            SvgElem::Rect { markup: spec_text_rect_markup(x, y, w, h) },
            SvgElem::Text { markup: spec_text_text_markup(x, y, body, style) },
        ],
        BlockContentView::Image { path, alt } => seq![
            SvgElem::Rect { markup: spec_image_rect_markup(x, y, w, h) },
            SvgElem::Text { markup: spec_image_text_markup(x, y, w, h, path, alt) },
        ],
        BlockContentView::Empty => seq![
            SvgElem::Rect { markup: spec_empty_rect_markup(x, y, w, h) },
        ],
    }
}

/// The elements of blocks `0 .. upto`, in list order.
pub open spec fn spec_all_block_elems(g: Grid, blocks: Seq<BlockView>, upto: int) -> Seq<SvgElem>
    decreases upto,
{
    if upto <= 0 {
        Seq::empty()
    } else {
        spec_all_block_elems(g, blocks, upto - 1) + spec_block_elems(g, blocks[upto - 1])
    }
}

/// Every element of the page's SVG document, in emission order: the
/// background, one guide per cell, then the blocks.
pub open spec fn spec_page_elems(p: PageView) -> Seq<SvgElem> {
    seq![spec_background_elem(spec_dimensions(p.size).0, spec_dimensions(p.size).1)]
        + spec_guide_elems(p.grid, p.grid.columns as int) + spec_all_block_elems(
        p.grid,
        p.blocks,
        p.blocks.len() as int,
    )
}

/// The opening tag: viewBox, width and height all equal the page's
/// physical dimensions.
pub open spec fn spec_svg_header(pw: int, ph: int) -> Seq<char> {
    "<svg xmlns=\"http://www.w3.org/2000/svg\" viewBox=\"0 0 "@ + spec_centi_str(pw) + " "@
        + spec_centi_str(ph) + "\" width=\""@ + spec_centi_str(pw) + "\" height=\""@
        + spec_centi_str(ph) + "\">"@
}

/// The full SVG text of a page.
pub open spec fn spec_page_svg(p: PageView) -> Seq<char> {
    spec_svg_header(spec_dimensions(p.size).0, spec_dimensions(p.size).1) + spec_markup_concat(
        spec_page_elems(p),
    ) + "</svg>"@
}

/// Whether a block's coordinates and span lie inside the grid extent.
pub open spec fn spec_block_ok(g: Grid, b: BlockView) -> bool {
    &&& b.col < g.columns
    &&& b.row < g.rows
    &&& 1 <= b.col_span
    &&& 1 <= b.row_span
    &&& b.col + b.col_span <= g.columns
    &&& b.row + b.row_span <= g.rows
}

pub open spec fn spec_blocks_ok(g: Grid, blocks: Seq<BlockView>) -> bool {
    forall|i: int| 0 <= i < blocks.len() ==> spec_block_ok(g, #[trigger] blocks[i])
}

/// The first block whose placement lies outside the grid, scanning from
/// `from`.
pub open spec fn spec_first_bad_block(g: Grid, blocks: Seq<BlockView>, from: int) -> Option<int>
    decreases blocks.len() - from,
{
    if from < 0 || from >= blocks.len() {
        None
    } else if !spec_block_ok(g, blocks[from]) {
        Some(from)
    } else {
        spec_first_bad_block(g, blocks, from + 1)
    }
}

/// A machine bound on text font sizes, so the text baseline offset fits
/// the coordinate arithmetic.
pub open spec fn spec_font_ok(b: BlockView) -> bool {
    b.content matches BlockContentView::Text { style, .. } ==> style.font_size
        <= MAX_PAGE_DIM_CENTI
}

pub open spec fn spec_fonts_ok(blocks: Seq<BlockView>) -> bool {
    forall|i: int| 0 <= i < blocks.len() ==> spec_font_ok(#[trigger] blocks[i])
}

/// Renders the shared position/size attributes of a rectangle.
fn rect_xywh(x: u64, y: u64, w: u64, h: u64) -> (r: String)
    ensures
        r@ == spec_rect_xywh(x as int, y as int, w as int, h as int),
{
    let mut r = "<rect x=\"".to_owned();
    let xs = fmt_centi(x);
    r.append(xs.as_str());
    r.append("\" y=\"");
    let ys = fmt_centi(y);
    r.append(ys.as_str());
    r.append("\" width=\"");
    let ws = fmt_centi(w);
    r.append(ws.as_str());
    r.append("\" height=\"");
    let hs = fmt_centi(h);
    r.append(hs.as_str());
    r.append("\"");
    proof {
        assert(r@ =~= spec_rect_xywh(x as int, y as int, w as int, h as int));
    }
    r
}

fn append_text_rect(svg: &mut String, x: u64, y: u64, w: u64, h: u64)
    ensures
        final(svg)@ == old(svg)@ + spec_text_rect_markup(x as int, y as int, w as int, h as int),
{
    let rect = rect_xywh(x, y, w, h);
    svg.append(rect.as_str());
    svg.append(" fill=\"none\" stroke=\"#333\" stroke-width=\"0.5\"/>");
    proof {
        reveal(spec_text_rect_markup);
        assert(svg@ =~= old(svg)@ + spec_text_rect_markup(x as int, y as int, w as int, h as int));
    }
}

fn append_image_rect(svg: &mut String, x: u64, y: u64, w: u64, h: u64)
    ensures
        final(svg)@ == old(svg)@ + spec_image_rect_markup(x as int, y as int, w as int, h as int),
{
    let rect = rect_xywh(x, y, w, h);
    svg.append(rect.as_str());
    svg.append(" fill=\"#f0f0f0\" stroke=\"#999\" stroke-width=\"0.5\"/>");
    proof {
        reveal(spec_image_rect_markup);
        assert(svg@ =~= old(svg)@ + spec_image_rect_markup(x as int, y as int, w as int, h as int));
    }
}

fn append_empty_rect(svg: &mut String, x: u64, y: u64, w: u64, h: u64)
    ensures
        final(svg)@ == old(svg)@ + spec_empty_rect_markup(x as int, y as int, w as int, h as int),
{
    let rect = rect_xywh(x, y, w, h);
    svg.append(rect.as_str());
    svg.append(" fill=\"none\" stroke=\"#ccc\" stroke-width=\"0.25\" stroke-dasharray=\"4,2\"/>");
    proof {
        reveal(spec_empty_rect_markup);
        assert(svg@ =~= old(svg)@ + spec_empty_rect_markup(x as int, y as int, w as int, h as int));
    }
}

fn append_text_text(svg: &mut String, x: u64, y: u64, body: &String, style: &crate::page::TextStyle)
    requires
        x <= crate::grid::MAX_EXTENT_CENTI,
        y <= crate::grid::MAX_EXTENT_CENTI,
        style.font_size <= MAX_PAGE_DIM_CENTI,
    ensures
        final(svg)@ == old(svg)@ + spec_text_text_markup(
            x as int,
            y as int,
            body@,
            style.deep_view(),
        ),
{
    svg.append("<text x=\"");
    let tx = fmt_centi(x + 400);
    svg.append(tx.as_str());
    svg.append("\" y=\"");
    let ty = fmt_centi(y + style.font_size + 400);
    svg.append(ty.as_str());
    svg.append("\" font-family=\"");
    svg.append(style.font_family.as_str());
    svg.append("\" font-size=\"");
    let fs = fmt_centi(style.font_size);
    svg.append(fs.as_str());
    svg.append("\" fill=\"#111\">");
    let esc = xml_escape(body.as_str());
    svg.append(esc.as_str());
    svg.append("</text>");
    proof {
        reveal(spec_text_text_markup);
        assert(svg@ =~= old(svg)@ + spec_text_text_markup(
            x as int,
            y as int,
            body@,
            style.deep_view(),
        ));
    }
}

fn append_image_text(svg: &mut String, x: u64, y: u64, w: u64, h: u64, path: &String, alt: &String)
    requires
        x <= crate::grid::MAX_EXTENT_CENTI,
        y <= crate::grid::MAX_EXTENT_CENTI,
    ensures
        final(svg)@ == old(svg)@ + spec_image_text_markup(
            x as int,
            y as int,
            w as int,
            h as int,
            path@,
            alt@,
        ),
{
    svg.append("<text x=\"");
    let cx = fmt_centi(x + w / 2);
    svg.append(cx.as_str());
    svg.append("\" y=\"");
    let cy = fmt_centi(y + h / 2);
    svg.append(cy.as_str());
    svg.append("\" text-anchor=\"middle\" font-size=\"8\" fill=\"#999\">[");
    if alt.as_str().is_empty() {
        svg.append(path.as_str());
    } else {
        svg.append(alt.as_str());
    }
    svg.append("]</text>");
    proof {
        reveal(spec_image_text_markup);
        assert(svg@ =~= old(svg)@ + spec_image_text_markup(
            x as int,
            y as int,
            w as int,
            h as int,
            path@,
            alt@,
        ));
    }
}

/// Appends the markup of one block: the placement comes from the same
/// `cell_origin` and `span_size` the other encoder uses.
#[verifier::rlimit(100)]
fn render_block(svg: &mut String, grid: &Grid, block: &Block)
    requires
        grid.wf(),
        spec_block_ok(*grid, block.deep_view()),
        spec_font_ok(block.deep_view()),
    ensures
        final(svg)@ == old(svg)@ + spec_markup_concat(
            spec_block_elems(*grid, block.deep_view()),
        ),
{
    let ghost elems = spec_block_elems(*grid, block.deep_view());
    let (x, y) = match grid.cell_origin(block.col, block.row) {
        Ok(p) => p,
        Err(e) => {
            proof {
                assert(false);
            }
            return ;
        },
    };
    let (w, h) = match grid.span_size(block.col_span, block.row_span) {
        Ok(p) => p,
        Err(e) => {
            proof {
                assert(false);
            }
            return ;
        },
    };
    proof {
        vstd::arithmetic::mul::lemma_mul_inequality(
            block.col as int,
            grid.columns as int,
            grid.column_width as int + grid.gutter_h as int,
        );
        vstd::arithmetic::mul::lemma_mul_inequality(
            block.row as int,
            grid.rows as int,
            grid.row_height as int + grid.gutter_v as int,
        );
        assert(x <= crate::grid::MAX_EXTENT_CENTI);
        assert(y <= crate::grid::MAX_EXTENT_CENTI);
        assert(spec_markup_concat(Seq::<SvgElem>::empty()) =~= Seq::<char>::empty());
    }
    match &block.content {
        BlockContent::Text { body, style } => {
            append_text_rect(svg, x, y, w, h);
            append_text_text(svg, x, y, body, style);
            proof {
                assert(elems.drop_last().drop_last() =~= Seq::<SvgElem>::empty());
                assert(elems.drop_last().last() == elems[0]);
                assert(spec_markup_concat(elems.drop_last()) =~= spec_elem_markup(elems[0]));
                assert(spec_markup_concat(elems) =~= spec_elem_markup(elems[0])
                    + spec_elem_markup(elems[1]));
                assert(svg@ =~= old(svg)@ + spec_markup_concat(elems));
            }
        },
        BlockContent::Image { path, alt } => {
            append_image_rect(svg, x, y, w, h);
            append_image_text(svg, x, y, w, h, path, alt);
            proof {
                assert(elems.drop_last().drop_last() =~= Seq::<SvgElem>::empty());
                assert(elems.drop_last().last() == elems[0]);
                assert(spec_markup_concat(elems.drop_last()) =~= spec_elem_markup(elems[0]));
                assert(spec_markup_concat(elems) =~= spec_elem_markup(elems[0])
                    + spec_elem_markup(elems[1]));
                assert(svg@ =~= old(svg)@ + spec_markup_concat(elems));
            }
        },
        BlockContent::Empty => {
            append_empty_rect(svg, x, y, w, h);
            proof {
                assert(elems.drop_last() =~= Seq::<SvgElem>::empty());
                assert(spec_markup_concat(elems) =~= spec_elem_markup(elems[0]));
                assert(svg@ =~= old(svg)@ + spec_markup_concat(elems));
            }
        },
    }
}

/// Scans for the first block placed outside the grid extent.
fn first_bad_block(page: &Page) -> (r: Option<usize>)
    ensures
        r matches Some(i) ==> spec_first_bad_block(page.grid, page.deep_view().blocks, 0)
            == Some(i as int) && i < page.blocks@.len(),
        r is None <==> spec_blocks_ok(page.grid, page.deep_view().blocks),
{
    let ghost bs = page.deep_view().blocks;
    let n = page.blocks.len();
    let mut i: usize = 0;
    while i < n
        invariant
            i <= n,
            n == page.blocks@.len(),
            bs == page.deep_view().blocks,
            bs.len() == n,
            forall|j: int| 0 <= j < i ==> spec_block_ok(page.grid, #[trigger] bs[j]),
            spec_first_bad_block(page.grid, bs, 0) == spec_first_bad_block(page.grid, bs, i as int),
        decreases n - i,
    {
        let b = &page.blocks[i];
        let ok = b.col < page.grid.columns && b.row < page.grid.rows && b.col_span >= 1
            && b.row_span >= 1 && b.col_span <= page.grid.columns - b.col && b.row_span
            <= page.grid.rows - b.row;
        proof {
            assert(bs[i as int] == page.blocks@[i as int].deep_view());
            assert(ok == spec_block_ok(page.grid, bs[i as int]));
        }
        if !ok {
            return Some(i);
        }
        i += 1;
    }
    None
}

/// Renders a page to a standalone SVG document: background, one guide
/// rectangle per grid cell, then one shape per block in list order. Pure
/// and deterministic; a page with a block outside the grid extent fails
/// with `InvalidSpan` for the first such block and produces no output.
pub fn page_to_svg(page: &Page) -> (r: Result<String, LayoutError>)
    requires
        page.grid.wf(),
        spec_fonts_ok(page.deep_view().blocks),
        spec_dimensions(page.size).0 <= MAX_PAGE_DIM_CENTI,
        spec_dimensions(page.size).1 <= MAX_PAGE_DIM_CENTI,
    ensures
        r is Ok <==> spec_blocks_ok(page.grid, page.deep_view().blocks),
        r matches Ok(s) ==> s@ == spec_page_svg(page.deep_view()),
        r matches Err(e) ==> spec_first_bad_block(page.grid, page.deep_view().blocks, 0) matches
            Some(i) && e == (LayoutError::InvalidSpan {
            col: page.deep_view().blocks[i].col,
            row: page.deep_view().blocks[i].row,
            col_span: page.deep_view().blocks[i].col_span,
            row_span: page.deep_view().blocks[i].row_span,
        }),
    {
    let ghost pv = page.deep_view();
    match first_bad_block(page) {
        Some(i) => {
            let b = &page.blocks[i];
            return Err(LayoutError::InvalidSpan {
                col: b.col,
                row: b.row,
                col_span: b.col_span,
                row_span: b.row_span,
            });
        },
        None => {},
    }
    let g = &page.grid;
    let (pw, ph) = page.size.dimensions();
    let pws = fmt_centi(pw);
    let phs = fmt_centi(ph);
    let mut svg = "<svg xmlns=\"http://www.w3.org/2000/svg\" viewBox=\"0 0 ".to_owned();
    svg.append(pws.as_str());
    svg.append(" ");
    svg.append(phs.as_str());
    svg.append("\" width=\"");
    svg.append(pws.as_str());
    svg.append("\" height=\"");
    svg.append(phs.as_str());
    svg.append("\">");
    let ghost header = spec_svg_header(pw as int, ph as int);
    proof {
        assert(svg@ =~= header);
    }
    svg.append("<rect width=\"");
    svg.append(pws.as_str());
    svg.append("\" height=\"");
    svg.append(phs.as_str());
    svg.append("\" fill=\"white\"/>");
    let ghost bg = seq![spec_background_elem(pw as int, ph as int)];
    proof {
        assert(bg.drop_last() =~= Seq::<SvgElem>::empty());
        assert(spec_markup_concat(Seq::<SvgElem>::empty()) =~= Seq::<char>::empty());
        assert(spec_markup_concat(bg) =~= spec_elem_markup(bg.last()));
        assert(svg@ =~= header + spec_markup_concat(bg));
    }
    let mut col: u32 = 0;
    while col < g.columns
        invariant
            col <= g.columns,
            g == &page.grid,
            g.wf(),
            svg@ == header + spec_markup_concat(bg + spec_guide_elems(*g, col as int)),
        decreases g.columns - col,
    {
        let mut row: u32 = 0;
        proof {
            assert(spec_col_guide_elems(*g, col as int, 0) =~= Seq::<SvgElem>::empty());
            assert(bg + spec_guide_elems(*g, col as int) + spec_col_guide_elems(
                *g,
                col as int,
                0,
            ) =~= bg + spec_guide_elems(*g, col as int));
        }
        while row < g.rows
            invariant
                row <= g.rows,
                col < g.columns,
                g == &page.grid,
                g.wf(),
                svg@ == header + spec_markup_concat(
                    bg + spec_guide_elems(*g, col as int) + spec_col_guide_elems(
                        *g,
                        col as int,
                        row as int,
                    ),
                ),
            decreases g.rows - row,
        {
            let (x, y) = match g.cell_origin(col, row) {
                Ok(p) => p,
                Err(e) => {
                    proof {
                        assert(false);
                    }
                    return Err(e);
                },
            };
            let (w, h) = match g.span_size(1, 1) {
                Ok(p) => p,
                Err(e) => {
                    proof {
                        assert(false);
                    }
                    return Err(e);
                },
            };
            let rect = rect_xywh(x, y, w, h);
            svg.append(rect.as_str());
            svg.append(" fill=\"none\" stroke=\"#e0e0e0\" stroke-width=\"0.25\"/>");
            proof {
                let prev = bg + spec_guide_elems(*g, col as int) + spec_col_guide_elems(
                    *g,
                    col as int,
                    row as int,
                );
                let next = bg + spec_guide_elems(*g, col as int) + spec_col_guide_elems(
                    *g,
                    col as int,
                    row as int + 1,
                );
                assert(next =~= prev.push(spec_guide_elem(*g, col as int, row as int)));
                assert(next.drop_last() =~= prev);
                assert(svg@ =~= header + spec_markup_concat(next));
            }
            row += 1;
        }
        proof {
            let a = bg + spec_guide_elems(*g, col as int + 1);
            let b = bg + spec_guide_elems(*g, col as int) + spec_col_guide_elems(
                *g,
                col as int,
                g.rows as int,
            );
            assert(a =~= b);
        }
        col += 1;
    }
    let ghost pre_blocks = bg + spec_guide_elems(*g, g.columns as int);
    let n = page.blocks.len();
    let mut i: usize = 0;
    proof {
        assert(spec_all_block_elems(*g, pv.blocks, 0) =~= Seq::<SvgElem>::empty());
        assert(pre_blocks + spec_all_block_elems(*g, pv.blocks, 0) =~= pre_blocks);
    }
    while i < n
        invariant
            i <= n,
            n == page.blocks@.len(),
            pv == page.deep_view(),
            pv.blocks.len() == n,
            g == &page.grid,
            g.wf(),
            spec_blocks_ok(*g, pv.blocks),
            spec_fonts_ok(pv.blocks),
            svg@ == header + spec_markup_concat(
                pre_blocks + spec_all_block_elems(*g, pv.blocks, i as int),
            ),
        decreases n - i,
    {
        proof {
            assert(pv.blocks[i as int] == page.blocks@[i as int].deep_view());
        }
        render_block(&mut svg, g, &page.blocks[i]);
        proof {
            let prev = pre_blocks + spec_all_block_elems(*g, pv.blocks, i as int);
            let next = pre_blocks + spec_all_block_elems(*g, pv.blocks, i as int + 1);
            lemma_markup_concat_add(prev, spec_block_elems(*g, pv.blocks[i as int]));
            assert(next =~= prev + spec_block_elems(*g, pv.blocks[i as int]));
            assert(svg@ =~= header + spec_markup_concat(next));
        }
        i += 1;
    }
    svg.append("</svg>");
    proof {
        assert(pre_blocks + spec_all_block_elems(*g, pv.blocks, n as int) =~= spec_page_elems(
            pv,
        ));
        assert(svg@ =~= spec_page_svg(pv));
    }
    Ok(svg)
}

proof fn lemma_col_guide_counts(g: Grid, col: int, k: int)
    requires
        k >= 0,
    ensures
        spec_rect_count(spec_col_guide_elems(g, col, k)) == k,
        spec_text_count(spec_col_guide_elems(g, col, k)) == 0,
    decreases k,
{
    if k > 0 {
        lemma_col_guide_counts(g, col, k - 1);
        assert(spec_col_guide_elems(g, col, k).drop_last() =~= spec_col_guide_elems(
            g,
            col,
            k - 1,
        ));
    }
}

proof fn lemma_guide_counts(g: Grid, c: int)
    requires
        c >= 0,
    ensures
        spec_rect_count(spec_guide_elems(g, c)) == c * g.rows,
        spec_text_count(spec_guide_elems(g, c)) == 0,
    decreases c,
{
    if c > 0 {
        lemma_guide_counts(g, c - 1);
        lemma_col_guide_counts(g, c - 1, g.rows as int);
        lemma_counts_add(spec_guide_elems(g, c - 1), spec_col_guide_elems(g, c - 1, g.rows as int));
        assert((c - 1) * g.rows + g.rows == c * g.rows) by (nonlinear_arith);
    }
}

/// Counting law: the SVG document of a page with zero blocks holds exactly
/// `columns x rows + 1` rectangle elements (the cell guides plus the
/// background) and no text element at all.
pub proof fn lemma_svg_zero_blocks_counts(p: PageView)
    requires
        p.blocks.len() == 0,
    ensures
        spec_rect_count(spec_page_elems(p)) == p.grid.columns * p.grid.rows + 1,
        spec_text_count(spec_page_elems(p)) == 0,
{
    let bg = seq![spec_background_elem(spec_dimensions(p.size).0, spec_dimensions(p.size).1)];
    assert(bg.drop_last() =~= Seq::<SvgElem>::empty());
    assert(spec_rect_count(Seq::<SvgElem>::empty()) == 0);
    assert(spec_text_count(Seq::<SvgElem>::empty()) == 0);
    assert(spec_rect_count(bg) == 1);
    lemma_guide_counts(p.grid, p.grid.columns as int);
    lemma_counts_add(bg, spec_guide_elems(p.grid, p.grid.columns as int));
    lemma_counts_add(
        bg + spec_guide_elems(p.grid, p.grid.columns as int),
        spec_all_block_elems(p.grid, p.blocks, p.blocks.len() as int),
    );
}

/// Points to centimeters, both in hundredths, rounded half up:
/// `pt x 2.54 / 72`.
pub open spec fn spec_pt_cm_centi(v: int) -> int {
    (v * 254 + 3600) / 7200
}

/// The LaTeX preamble: paper size converted to centimeters, margins taken
/// from the grid's margin fields in points, then the tikz canvas in point
/// units with y growing downwards.
pub open spec fn spec_latex_header(pw: int, ph: int, m: crate::grid::Margin) -> Seq<char> {
    "\\documentclass{article}\n"@ + "\\usepackage[utf8]{inputenc}\n"@ + "\\usepackage[paperwidth="@
        + spec_centi2_str(spec_pt_cm_centi(pw)) + "cm,paperheight="@ + spec_centi2_str(
        spec_pt_cm_centi(ph),
    ) + "cm,top="@ + spec_centi2_str(m.top as int) + "pt,bottom="@ + spec_centi2_str(
        m.bottom as int,
    ) + "pt,left="@ + spec_centi2_str(m.left as int) + "pt,right="@ + spec_centi2_str(
        m.right as int,
    ) + "pt]{geometry}\n"@ + "\\usepackage{tikz}\n"@ + "\\pagestyle{empty}\n"@
        + "\\begin{document}\n"@ + "\\noindent\n"@ + "\\begin{tikzpicture}[x=1pt,y=-1pt]\n"@
}

/// A positioned text node: sized to the block's width, font size from the
/// block's style, body LaTeX-escaped.
#[verifier::opaque]
pub open spec fn spec_latex_text_node(bx: int, by: int, w: int, fs: int, body: Seq<char>) -> Seq<
    char,
> {
    "\\node[anchor=north west,text width="@ + spec_centi1_str(w) + "pt,font=\\fontsize{"@
        + spec_centi1_str(fs) + "}{\\baselineskip}\\selectfont] at ("@ + spec_centi1_str(bx)
        + ","@ + spec_centi1_str(by) + ") {"@ + spec_latex_escape(body) + "};\n"@
}

/// A positioned image node embedding the literal, unescaped path.
#[verifier::opaque]
pub open spec fn spec_latex_image_node(bx: int, by: int, w: int, h: int, path: Seq<char>) -> Seq<
    char,
> {
    "\\node[anchor=north west,inner sep=0] at ("@ + spec_centi1_str(bx) + ","@ + spec_centi1_str(
        by,
    ) + ") {\\includegraphics[width="@ + spec_centi1_str(w) + "pt,height="@ + spec_centi1_str(h)
        + "pt]{"@ + path + "}};\n"@
}

/// What one block emits: position relative to the margin corner, since the
/// typesetting canvas's origin sits at the margin, not the page edge.
/// Empty blocks emit nothing.
pub open spec fn spec_latex_block(g: Grid, b: BlockView) -> Seq<char> {
    let bx = spec_cell_x(g, b.col as int) - g.margin.left;
    let by = spec_cell_y(g, b.row as int) - g.margin.top;
    let w = spec_span_w(g, b.col_span as int);
    let h = spec_span_h(g, b.row_span as int);
    match b.content {
        BlockContentView::Text { body, style } => spec_latex_text_node(
            bx,
            by,
            w,
            style.font_size as int,
            body,
        ),
        BlockContentView::Image { path, .. } => spec_latex_image_node(bx, by, w, h, path),
        BlockContentView::Empty => Seq::empty(),
    }
}

/// The emissions of blocks `0 .. upto`, in list order.
pub open spec fn spec_latex_blocks(g: Grid, blocks: Seq<BlockView>, upto: int) -> Seq<char>
    decreases upto,
{
    if upto <= 0 {
        Seq::empty()
    } else {
        spec_latex_blocks(g, blocks, upto - 1) + spec_latex_block(g, blocks[upto - 1])
    }
}

/// The full LaTeX text of a page.
pub open spec fn spec_page_latex(p: PageView) -> Seq<char> {
    spec_latex_header(spec_dimensions(p.size).0, spec_dimensions(p.size).1, p.grid.margin)
        + spec_latex_blocks(p.grid, p.blocks, p.blocks.len() as int) + "\\end{tikzpicture}\n"@
        + "\\end{document}\n"@
}

fn append_latex_text_node(
    tex: &mut String,
    bx: u64,
    by: u64,
    w: u64,
    fs: u64,
    body: &String,
)
    requires
        bx <= crate::grid::MAX_EXTENT_CENTI,
        by <= crate::grid::MAX_EXTENT_CENTI,
        w <= crate::grid::MAX_EXTENT_CENTI,
        fs <= MAX_PAGE_DIM_CENTI,
    ensures
        final(tex)@ == old(tex)@ + spec_latex_text_node(
            bx as int,
            by as int,
            w as int,
            fs as int,
            body@,
        ),
{
    tex.append("\\node[anchor=north west,text width=");
    let ws = crate::numfmt::fmt_centi1(w);
    tex.append(ws.as_str());
    tex.append("pt,font=\\fontsize{");
    let fss = crate::numfmt::fmt_centi1(fs);
    tex.append(fss.as_str());
    tex.append("}{\\baselineskip}\\selectfont] at (");
    let bxs = crate::numfmt::fmt_centi1(bx);
    tex.append(bxs.as_str());
    tex.append(",");
    let bys = crate::numfmt::fmt_centi1(by);
    tex.append(bys.as_str());
    tex.append(") {");
    let esc = latex_escape(body.as_str());
    tex.append(esc.as_str());
    tex.append("};\n");
    proof {
        reveal(spec_latex_text_node);
        assert(tex@ =~= old(tex)@ + spec_latex_text_node(
            bx as int,
            by as int,
            w as int,
            fs as int,
            body@,
        ));
    }
}

fn append_latex_image_node(tex: &mut String, bx: u64, by: u64, w: u64, h: u64, path: &String)
    requires
        bx <= crate::grid::MAX_EXTENT_CENTI,
        by <= crate::grid::MAX_EXTENT_CENTI,
        w <= crate::grid::MAX_EXTENT_CENTI,
        h <= crate::grid::MAX_EXTENT_CENTI,
    ensures
        final(tex)@ == old(tex)@ + spec_latex_image_node(
            bx as int,
            by as int,
            w as int,
            h as int,
            path@,
        ),
{
    tex.append("\\node[anchor=north west,inner sep=0] at (");
    let bxs = crate::numfmt::fmt_centi1(bx);
    tex.append(bxs.as_str());
    tex.append(",");
    let bys = crate::numfmt::fmt_centi1(by);
    tex.append(bys.as_str());
    tex.append(") {\\includegraphics[width=");
    let ws = crate::numfmt::fmt_centi1(w);
    tex.append(ws.as_str());
    tex.append("pt,height=");
    let hs = crate::numfmt::fmt_centi1(h);
    tex.append(hs.as_str());
    tex.append("pt]{");
    tex.append(path.as_str());
    tex.append("}};\n");
    proof {
        reveal(spec_latex_image_node);
        assert(tex@ =~= old(tex)@ + spec_latex_image_node(
            bx as int,
            by as int,
            w as int,
            h as int,
            path@,
        ));
    }
}

/// Renders a page to a standalone LaTeX document: the preamble fixes the
/// paper geometry, then each block becomes a positioned tikz node relative
/// to the margin corner. Pure and deterministic; a page with a block
/// outside the grid extent fails with `InvalidSpan` for the first such
/// block and produces no output.
pub fn page_to_latex(page: &Page) -> (r: Result<String, LayoutError>)
    requires
        page.grid.wf(),
        spec_fonts_ok(page.deep_view().blocks),
        spec_dimensions(page.size).0 <= MAX_PAGE_DIM_CENTI,
        spec_dimensions(page.size).1 <= MAX_PAGE_DIM_CENTI,
    ensures
        r is Ok <==> spec_blocks_ok(page.grid, page.deep_view().blocks),
        r matches Ok(s) ==> s@ == spec_page_latex(page.deep_view()),
        r matches Err(e) ==> spec_first_bad_block(page.grid, page.deep_view().blocks, 0) matches
            Some(i) && e == (LayoutError::InvalidSpan {
            col: page.deep_view().blocks[i].col,
            row: page.deep_view().blocks[i].row,
            col_span: page.deep_view().blocks[i].col_span,
            row_span: page.deep_view().blocks[i].row_span,
        }),
{
    let ghost pv = page.deep_view();
    match first_bad_block(page) {
        Some(i) => {
            let b = &page.blocks[i];
            return Err(LayoutError::InvalidSpan {
                col: b.col,
                row: b.row,
                col_span: b.col_span,
                row_span: b.row_span,
            });
        },
        None => {},
    }
    let g = &page.grid;
    let (pw, ph) = page.size.dimensions();
    let mut tex = "\\documentclass{article}\n".to_owned();
    tex.append("\\usepackage[utf8]{inputenc}\n");
    tex.append("\\usepackage[paperwidth=");
    let pwcm = crate::numfmt::fmt_centi2((pw * 254 + 3600) / 7200);
    tex.append(pwcm.as_str());
    tex.append("cm,paperheight=");
    let phcm = crate::numfmt::fmt_centi2((ph * 254 + 3600) / 7200);
    tex.append(phcm.as_str());
    tex.append("cm,top=");
    let tops = crate::numfmt::fmt_centi2(g.margin.top);
    tex.append(tops.as_str());
    tex.append("pt,bottom=");
    let bots = crate::numfmt::fmt_centi2(g.margin.bottom);
    tex.append(bots.as_str());
    tex.append("pt,left=");
    let lefts = crate::numfmt::fmt_centi2(g.margin.left);
    tex.append(lefts.as_str());
    tex.append("pt,right=");
    let rights = crate::numfmt::fmt_centi2(g.margin.right);
    tex.append(rights.as_str());
    tex.append("pt]{geometry}\n");
    tex.append("\\usepackage{tikz}\n");
    tex.append("\\pagestyle{empty}\n");
    tex.append("\\begin{document}\n");
    tex.append("\\noindent\n");
    tex.append("\\begin{tikzpicture}[x=1pt,y=-1pt]\n");
    let ghost header = spec_latex_header(pw as int, ph as int, g.margin);
    proof {
        assert(tex@ =~= header);
    }
    let n = page.blocks.len();
    let mut i: usize = 0;
    while i < n
        invariant
            i <= n,
            n == page.blocks@.len(),
            pv == page.deep_view(),
            pv.blocks.len() == n,
            g == &page.grid,
            g.wf(),
            spec_blocks_ok(*g, pv.blocks),
            spec_fonts_ok(pv.blocks),
            tex@ == header + spec_latex_blocks(*g, pv.blocks, i as int),
        decreases n - i,
    {
        let block = &page.blocks[i];
        proof {
            assert(pv.blocks[i as int] == page.blocks@[i as int].deep_view());
        }
        let (x, y) = match g.cell_origin(block.col, block.row) {
            Ok(p) => p,
            Err(e) => {
                proof {
                    assert(false);
                }
                return Err(e);
            },
        };
        let (w, h) = match g.span_size(block.col_span, block.row_span) {
            Ok(p) => p,
            Err(e) => {
                proof {
                    assert(false);
                }
                return Err(e);
            },
        };
        let bx = x - g.margin.left;
        let by = y - g.margin.top;
        match &block.content {
            BlockContent::Text { body, style } => {
                append_latex_text_node(&mut tex, bx, by, w, style.font_size, body);
            },
            BlockContent::Image { path, .. } => {
                append_latex_image_node(&mut tex, bx, by, w, h, path);
            },
            BlockContent::Empty => {},
        }
        proof {
            assert(tex@ =~= header + spec_latex_blocks(*g, pv.blocks, i as int + 1));
        }
        i += 1;
    }
    tex.append("\\end{tikzpicture}\n");
    tex.append("\\end{document}\n");
    proof {
        assert(tex@ =~= spec_page_latex(pv));
    }
    Ok(tex)
}

} // verus!
