//! The project-specification record that the intake wizard fills in:
//! name and kind, physical dimensions, color system, typography, brief
//! text, domains, references and output requirements, plus the documents
//! derived from it (directory name, creative brief).
//!
//! Physical dimensions are carried in thousandths of an inch; CMYK
//! components in whole percent.
use vstd::prelude::*;

verus! {

use vstd::string::StringExecFns;
use vstd::string::StrSliceExecFns;
use crate::numfmt::spec_u64_str;
use crate::numfmt::spec_milli0_str;
use crate::numfmt::spec_milli2_str;
use crate::numfmt::spec_milli3_str;
use crate::numfmt::u64_to_string;
use crate::numfmt::fmt_milli0;
use crate::numfmt::fmt_milli2;
use crate::numfmt::fmt_milli3;
use crate::text::push_char;
use crate::text::lowercase;
use crate::text::char_is_alphanumeric;
use crate::text::unicode_lower;
use crate::text::is_alnum;
use crate::text::spec_drop_leading;
use crate::text::spec_drop_trailing;
use crate::text::lemma_drop_leading_skip;
use crate::text::lemma_drop_trailing_take;

#[derive(Debug, Clone)]
pub enum ProjectType {
    CallingCards,
    Zine,
    Poster,
    Editorial,
    Other(String),
}

pub ghost enum ProjectTypeView {
    CallingCards,
    Zine,
    Poster,
    Editorial,
    Other(Seq<char>),
}

impl DeepView for ProjectType {
    type V = ProjectTypeView;

    open spec fn deep_view(&self) -> ProjectTypeView {
        match self {
            ProjectType::CallingCards => ProjectTypeView::CallingCards,
            ProjectType::Zine => ProjectTypeView::Zine,
            ProjectType::Poster => ProjectTypeView::Poster,
            ProjectType::Editorial => ProjectTypeView::Editorial,
            ProjectType::Other(s) => ProjectTypeView::Other(s@),
        }
    }
}

/// The project type selected by a zero-based list position; any position
/// past the fixed kinds is the free-form one with the given custom text.
pub open spec fn spec_type_from_index(i: int, custom: Seq<char>) -> ProjectTypeView {
    if i == 0 {
        ProjectTypeView::CallingCards
    } else if i == 1 {
        ProjectTypeView::Zine
    } else if i == 2 {
        ProjectTypeView::Poster
    } else if i == 3 {
        ProjectTypeView::Editorial
    } else {
        ProjectTypeView::Other(custom)
    }
}

/// The fixed label of each project type; the free-form one is its own text.
pub open spec fn spec_type_label(t: ProjectTypeView) -> Seq<char> {
    match t {
        ProjectTypeView::CallingCards => "calling-cards"@,
        ProjectTypeView::Zine => "zine"@,
        ProjectTypeView::Poster => "poster"@,
        ProjectTypeView::Editorial => "editorial"@,
        ProjectTypeView::Other(s) => s,
    }
}

impl ProjectType {
    /// The selectable labels, in list order.
    pub fn variants() -> (r: Vec<&'static str>)
        ensures
            r@.len() == 5,
            r@[0]@ == "calling-cards"@,
            r@[1]@ == "zine"@,
            r@[2]@ == "poster"@,
            r@[3]@ == "editorial"@,
            r@[4]@ == "other"@,
    {
        let mut v: Vec<&'static str> = Vec::new();
        v.push("calling-cards");
        v.push("zine");
        v.push("poster");
        v.push("editorial");
        v.push("other");
        v
    }

    pub fn from_index(i: usize, custom: &str) -> (r: ProjectType)
        ensures
            r.deep_view() == spec_type_from_index(i as int, custom@),
    {
        match i {
            0 => Self::CallingCards,
            1 => Self::Zine,
            2 => Self::Poster,
            3 => Self::Editorial,
            _ => Self::Other(custom.to_owned()),
        }
    }

    pub fn label(&self) -> (r: &str)
        ensures
            r@ == spec_type_label(self.deep_view()),
    {
        match self {
            Self::CallingCards => "calling-cards",
            Self::Zine => "zine",
            Self::Poster => "poster",
            Self::Editorial => "editorial",
            Self::Other(s) => s.as_str(),
        }
    }
}

/// Physical make-up of the printed item. All lengths in thousandths of an
/// inch.
#[derive(Debug, Clone, Copy, PartialEq, Eq, Structural)]
pub struct PhysicalSpec {
    pub item_width_mils: u32,
    pub item_height_mils: u32,
    pub stock_width_mils: u32,
    pub stock_height_mils: u32,
    pub sides: Sides,
    pub bleed_mils: u32,
    pub quantity: u32,
}

#[derive(Debug, Clone, Copy, PartialEq, Eq, Structural)]
pub enum Sides {
    Single,
    Double,
}

pub open spec fn spec_sides_label(s: Sides) -> Seq<char> {
    match s {
        Sides::Single => "single-sided"@,
        Sides::Double => "double-sided"@,
    }
}

impl Sides {
    pub fn label(&self) -> (r: &str)
        ensures
            r@ == spec_sides_label(*self),
    {
        match self {
            Self::Single => "single-sided",
            Self::Double => "double-sided",
        }
    }
}

/// The color system: mode, primary and optional secondary ink, named spot
/// colors.
#[derive(Debug, Clone)]
pub struct ColorSpec {
    pub mode: ColorMode,
    pub primary: CmykColor,
    pub secondary: Option<CmykColor>,
    pub spot_colors: Vec<String>,
}

pub ghost struct ColorSpecView {
    pub mode: ColorMode,
    pub primary: CmykColorView,
    pub secondary: Option<CmykColorView>,
    pub spot_colors: Seq<Seq<char>>,
}

impl DeepView for ColorSpec {
    type V = ColorSpecView;

    open spec fn deep_view(&self) -> ColorSpecView {
        ColorSpecView {
            mode: self.mode,
            primary: self.primary.deep_view(),
            secondary: match self.secondary {
                Some(c) => Some(c.deep_view()),
                None => None,
            },
            spot_colors: self.spot_colors.deep_view(),
        }
    }
}

#[derive(Debug, Clone, Copy, PartialEq, Eq, Structural)]
pub enum ColorMode {
    OneColor,
    TwoColor,
    FullProcess,
}

pub open spec fn spec_color_mode_label(m: ColorMode) -> Seq<char> {
    match m {
        ColorMode::OneColor => "1-color"@,
        ColorMode::TwoColor => "2-color"@,
        ColorMode::FullProcess => "full-process (CMYK)"@,
    }
}

impl ColorMode {
    pub fn label(&self) -> (r: &str)
        ensures
            r@ == spec_color_mode_label(*self),
    {
        match self {
            Self::OneColor => "1-color",
            Self::TwoColor => "2-color",
            Self::FullProcess => "full-process (CMYK)",
        }
    }
}

/// One ink, its CMYK components in whole percent.
#[derive(Debug, Clone)]
pub struct CmykColor {
    pub c: u32,
    pub m: u32,
    pub y: u32,
    pub k: u32,
    pub name: String,
}

pub ghost struct CmykColorView {
    pub c: u32,
    pub m: u32,
    pub y: u32,
    pub k: u32,
    pub name: Seq<char>,
}

impl DeepView for CmykColor {
    type V = CmykColorView;

    open spec fn deep_view(&self) -> CmykColorView {
        CmykColorView { c: self.c, m: self.m, y: self.y, k: self.k, name: self.name@ }
    }
}

/// What `CmykColor::label` shows: the ink's name and its components.
pub open spec fn spec_cmyk_label(v: CmykColorView) -> Seq<char> {
    v.name + " (C:"@ + spec_u64_str(v.c as int) + " M:"@ + spec_u64_str(v.m as int) + " Y:"@
        + spec_u64_str(v.y as int) + " K:"@ + spec_u64_str(v.k as int) + ")"@
}

impl CmykColor {
    /// The display form of the ink, e.g. `Black (C:0 M:0 Y:0 K:100)`.
    pub fn label(&self) -> (r: String)
        ensures
            r@ == spec_cmyk_label(self.deep_view()),
    {
        let mut r = self.name.clone();
        r.append(" (C:");
        let cs = u64_to_string(self.c as u64);
        r.append(cs.as_str());
        r.append(" M:");
        let ms = u64_to_string(self.m as u64);
        r.append(ms.as_str());
        r.append(" Y:");
        let ys = u64_to_string(self.y as u64);
        r.append(ys.as_str());
        r.append(" K:");
        let ks = u64_to_string(self.k as u64);
        r.append(ks.as_str());
        r.append(")");
        proof {
            assert(r@ =~= spec_cmyk_label(self.deep_view()));
        }
        r
    }
}

#[derive(Debug, Clone)]
pub struct TypographySpec {
    pub primary_font: String,
    pub secondary_font: String,
    pub notes: String,
}

pub ghost struct TypographySpecView {
    pub primary_font: Seq<char>,
    pub secondary_font: Seq<char>,
    pub notes: Seq<char>,
}

impl DeepView for TypographySpec {
    type V = TypographySpecView;

    open spec fn deep_view(&self) -> TypographySpecView {
        TypographySpecView {
            primary_font: self.primary_font@,
            secondary_font: self.secondary_font@,
            notes: self.notes@,
        }
    }
}

#[derive(Debug, Clone)]
pub struct OutputSpec {
    pub formats: Vec<String>,
    pub impose: bool,
    pub delivery_notes: String,
}

pub ghost struct OutputSpecView {
    pub formats: Seq<Seq<char>>,
    pub impose: bool,
    pub delivery_notes: Seq<char>,
}

impl DeepView for OutputSpec {
    type V = OutputSpecView;

    open spec fn deep_view(&self) -> OutputSpecView {
        OutputSpecView {
            formats: self.formats.deep_view(),
            impose: self.impose,
            delivery_notes: self.delivery_notes@,
        }
    }
}

/// The complete project specification the wizard produces.
#[derive(Debug, Clone)]
pub struct ProjectSpec {
    pub name: String,
    pub project_type: ProjectType,
    pub physical: PhysicalSpec,
    pub color: ColorSpec,
    pub typography: TypographySpec,
    pub brief: String,
    pub domains: Vec<String>,
    pub references: Vec<String>,
    pub output: OutputSpec,
}

pub ghost struct ProjectSpecView {
    pub name: Seq<char>,
    pub project_type: ProjectTypeView,
    pub physical: PhysicalSpec,
    pub color: ColorSpecView,
    pub typography: TypographySpecView,
    pub brief: Seq<char>,
    pub domains: Seq<Seq<char>>,
    pub references: Seq<Seq<char>>,
    pub output: OutputSpecView,
}

impl DeepView for ProjectSpec {
    type V = ProjectSpecView;

    open spec fn deep_view(&self) -> ProjectSpecView {
        ProjectSpecView {
            name: self.name@,
            project_type: self.project_type.deep_view(),
            physical: self.physical,
            color: self.color.deep_view(),
            typography: self.typography.deep_view(),
            brief: self.brief@,
            domains: self.domains.deep_view(),
            references: self.references.deep_view(),
            output: self.output.deep_view(),
        }
    }
}

/// The record every intake session starts from: a blank calling-cards run
/// of four 3.07 x 2.61 inch items on 11 x 17 stock, double-sided, 0.125
/// inch bleed, two-color with black primary, pdf/svg/idml output, imposed.
pub open spec fn spec_default_project() -> ProjectSpecView {
    ProjectSpecView {
        name: Seq::empty(),
        project_type: ProjectTypeView::CallingCards,
        physical: PhysicalSpec {
            item_width_mils: 3070u32,
            item_height_mils: 2610u32,
            stock_width_mils: 11000u32,
            stock_height_mils: 17000u32,
            sides: Sides::Double,
            bleed_mils: 125u32,
            quantity: 4u32,
        },
        color: ColorSpecView {
            mode: ColorMode::TwoColor,
            primary: CmykColorView { c: 0u32, m: 0u32, y: 0u32, k: 100u32, name: "Black"@ },
            secondary: None,
            spot_colors: Seq::empty(),
        },
        typography: TypographySpecView {
            primary_font: Seq::empty(),
            secondary_font: Seq::empty(),
            notes: Seq::empty(),
        },
        brief: Seq::empty(),
        domains: seq!["design"@],
        references: Seq::empty(),
        output: OutputSpecView {
            formats: seq!["pdf"@, "svg"@, "idml"@],
            impose: true,
            delivery_notes: Seq::empty(),
        },
    }
}

impl Default for ProjectSpec {
    fn default() -> (s: ProjectSpec)
        ensures
            s.deep_view() == spec_default_project(),
    {
        let mut domains: Vec<String> = Vec::new();
        domains.push("design".to_owned());
        let mut formats: Vec<String> = Vec::new();
        formats.push("pdf".to_owned());
        formats.push("svg".to_owned());
        formats.push("idml".to_owned());
        let s = ProjectSpec {
            name: String::new(),
            project_type: ProjectType::CallingCards,
            physical: PhysicalSpec {
                item_width_mils: 3070,
                item_height_mils: 2610,
                stock_width_mils: 11000,
                stock_height_mils: 17000,
                sides: Sides::Double,
                bleed_mils: 125,
                quantity: 4,
            },
            color: ColorSpec {
                mode: ColorMode::TwoColor,
                primary: CmykColor { c: 0, m: 0, y: 0, k: 100, name: "Black".to_owned() },
                secondary: None,
                spot_colors: Vec::new(),
            },
            typography: TypographySpec {
                primary_font: String::new(),
                secondary_font: String::new(),
                notes: String::new(),
            },
            brief: String::new(),
            domains,
            references: Vec::new(),
            output: OutputSpec { formats, impose: true, delivery_notes: String::new() },
        };
        proof {
            assert(s.domains.deep_view() =~= seq!["design"@]);
            assert(s.output.formats.deep_view() =~= seq!["pdf"@, "svg"@, "idml"@]);
            assert(s.color.spot_colors.deep_view() =~= Seq::<Seq<char>>::empty());
            assert(s.references.deep_view() =~= Seq::<Seq<char>>::empty());
        }
        s
    }
}

/// The dash test as a predicate.
pub open spec fn spec_dash_pred() -> spec_fn(char) -> bool {
    |c: char| c == '-'
}

/// Each character lowercased, then every character that is neither
/// alphanumeric nor a dash replaced by a dash.
pub open spec fn spec_dashified(name: Seq<char>) -> Seq<char> {
    unicode_lower(name).map_values(
        |c: char|
            if is_alnum(c) || c == '-' {
                c
            } else {
                '-'
            },
    )
}

/// What `name_slug` returns: the dashified lowercase name with leading and
/// trailing dashes removed.
pub open spec fn spec_name_slug(name: Seq<char>) -> Seq<char> {
    spec_drop_trailing(spec_drop_leading(spec_dashified(name), spec_dash_pred()), spec_dash_pred())
}

impl ProjectSpec {
    /// A file-system-friendly slug of the project name: lowercased, every
    /// character that is neither alphanumeric nor a dash replaced by a
    /// dash, and leading/trailing dashes trimmed.
    pub fn name_slug(&self) -> (r: String)
        ensures
            r@ == spec_name_slug(self.name@),
    {
        let lower = lowercase(self.name.as_str());
        let n = lower.as_str().unicode_len();
        let ghost lv = unicode_lower(self.name@);
        let mut mapped = String::new();
        let mut i: usize = 0;
        proof {
            assert(mapped@ =~= spec_dashified(self.name@).take(0));
        }
        while i < n
            invariant
                i <= n,
                n == lv.len(),
                lv == unicode_lower(self.name@),
                lower@ == lv,
                mapped@ == spec_dashified(self.name@).take(i as int),
                mapped@.len() == i,
            decreases n - i,
        {
            let c = lower.as_str().get_char(i);
            if char_is_alphanumeric(c) || c == '-' {
                push_char(&mut mapped, c);
            } else {
                push_char(&mut mapped, '-');
            }
            proof {
                assert(mapped@ =~= spec_dashified(self.name@).take(i as int + 1));
            }
            i += 1;
        }
        proof {
            assert(spec_dashified(self.name@).take(n as int) =~= spec_dashified(self.name@));
        }
        let ghost dv = spec_dashified(self.name@);
        let mut start: usize = 0;
        while start < n && is_dash(mapped.as_str().get_char(start))
            invariant
                start <= n,
                n == dv.len(),
                mapped@ == dv,
                forall|j: int| 0 <= j < start ==> spec_dash_pred()(#[trigger] dv[j]),
            decreases n - start,
        {
            start += 1;
        }
        let mut end: usize = n;
        while end > start && is_dash(mapped.as_str().get_char(end - 1))
            invariant
                start <= end <= n,
                n == dv.len(),
                mapped@ == dv,
                forall|j: int| end <= j < n ==> spec_dash_pred()(#[trigger] dv[j]),
            decreases end,
        {
            end -= 1;
        }
        let r = mapped.as_str().substring_char(start, end).to_owned();
        proof {
            lemma_drop_leading_skip(dv, spec_dash_pred(), start as int);
            let t = dv.skip(start as int);
            assert(forall|j: int| 0 <= j < t.len() ==> #[trigger] t[j] == dv[start + j]);
            lemma_drop_trailing_take(t, spec_dash_pred(), end - start);
            assert(t.take(end - start) =~= dv.subrange(start as int, end as int));
            assert(r@ == spec_name_slug(self.name@));
        }
        r
    }

    /// The project directory name: `projects/<slug>-<stamp>`, where the
    /// caller supplies the date stamp (the year and month the directory is
    /// created, read from a clock the caller owns).
    pub fn scaffold_dir(&self, date: &str) -> (r: String)
        ensures
            r@ == "projects/"@ + spec_name_slug(self.name@) + "-"@ + date@,
    {
        let mut r = "projects/".to_owned();
        let slug = self.name_slug();
        r.append(slug.as_str());
        r.append("-");
        r.append(date);
        proof {
            assert(r@ =~= "projects/"@ + spec_name_slug(self.name@) + "-"@ + date@);
        }
        r
    }
}

/// Whether the character is the dash.
fn is_dash(c: char) -> (r: bool)
    ensures
        r == spec_dash_pred()(c),
{
    c == '-'
}

/// The templated creative-brief document for a specification.
pub open spec fn spec_brief_md(v: ProjectSpecView) -> Seq<char> {
    "# "@ + v.name + "\n\n## Creative Brief\n\n"@ + v.brief + "\n\n## Physical Specs\n\n- Item: "@
        + spec_milli2_str(v.physical.item_width_mils as int) + "\" x "@ + spec_milli2_str(
        v.physical.item_height_mils as int,
    ) + "\"\n- Stock: "@ + spec_milli0_str(v.physical.stock_width_mils as int) + "\" x "@
        + spec_milli0_str(v.physical.stock_height_mils as int) + "\"\n- Sides: "@
        + spec_sides_label(v.physical.sides) + "\n- Bleed: "@ + spec_milli3_str(
        v.physical.bleed_mils as int,
    ) + "\"\n- Quantity: "@ + spec_u64_str(v.physical.quantity as int) + "\n\n## Color\n\n- Mode: "@
        + spec_color_mode_label(v.color.mode) + "\n- Primary: "@ + spec_cmyk_label(v.color.primary)
        + "\n"@ + (match v.color.secondary {
        Some(c) => "- Secondary: "@ + spec_cmyk_label(c),
        None => Seq::empty(),
    }) + "\n\n## Typography\n\n- Primary: "@ + v.typography.primary_font + "\n- Secondary: "@
        + v.typography.secondary_font + "\n"@ + (if v.typography.notes.len() == 0 {
        Seq::<char>::empty()
    } else {
        "- Notes: "@ + v.typography.notes
    }) + "\n"@
}

impl ProjectSpec {
    /// Renders the templated brief document: name, brief text, physical
    /// specs, color system and typography.
    pub fn brief_md(&self) -> (r: String)
        ensures
            r@ == spec_brief_md(self.deep_view()),
    {
        let mut r = "# ".to_owned();
        r.append(self.name.as_str());
        r.append("\n\n## Creative Brief\n\n");
        r.append(self.brief.as_str());
        r.append("\n\n## Physical Specs\n\n- Item: ");
        let iw = fmt_milli2(self.physical.item_width_mils as u64);
        r.append(iw.as_str());
        r.append("\" x ");
        let ih = fmt_milli2(self.physical.item_height_mils as u64);
        r.append(ih.as_str());
        r.append("\"\n- Stock: ");
        let sw = fmt_milli0(self.physical.stock_width_mils as u64);
        r.append(sw.as_str());
        r.append("\" x ");
        let sh = fmt_milli0(self.physical.stock_height_mils as u64);
        r.append(sh.as_str());
        r.append("\"\n- Sides: ");
        r.append(self.physical.sides.label());
        r.append("\n- Bleed: ");
        let bl = fmt_milli3(self.physical.bleed_mils as u64);
        r.append(bl.as_str());
        r.append("\"\n- Quantity: ");
        let q = u64_to_string(self.physical.quantity as u64);
        r.append(q.as_str());
        r.append("\n\n## Color\n\n- Mode: ");
        r.append(self.color.mode.label());
        r.append("\n- Primary: ");
        let prim = self.color.primary.label();
        r.append(prim.as_str());
        r.append("\n");
        match &self.color.secondary {
            Some(c) => {
                r.append("- Secondary: ");
                let sec = c.label();
                r.append(sec.as_str());
            },
            None => {},
        }
        r.append("\n\n## Typography\n\n- Primary: ");
        r.append(self.typography.primary_font.as_str());
        r.append("\n- Secondary: ");
        r.append(self.typography.secondary_font.as_str());
        r.append("\n");
        if !self.typography.notes.as_str().is_empty() {
            r.append("- Notes: ");
            r.append(self.typography.notes.as_str());
        }
        r.append("\n");
        proof {
            assert(r@ =~= spec_brief_md(self.deep_view()));
        }
        r
    }
}

} // verus!
