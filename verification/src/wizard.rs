//! The intake wizard's state machine: a fixed sequence of steps, an input
//! buffer, list cursors, and the committed project specification. Every
//! transition is a pure function of the state and the input event; the
//! terminal loop around it only draws and hands events in.
use vstd::prelude::*;

verus! {

use vstd::string::StringExecFns;
use vstd::string::StrSliceExecFns;
use crate::project::ProjectSpec;
use crate::project::ProjectSpecView;
use crate::project::ProjectType;
use crate::project::Sides;
use crate::project::ColorMode;
use crate::project::spec_type_from_index;
use crate::project::spec_default_project;
use crate::text::push_char;
use crate::text::pop_char;
use crate::text::trim_str;
use crate::text::spec_trim;

/// The fixed order of intake steps.
#[derive(Debug, Clone, Copy, PartialEq, Eq, Structural)]
pub enum Step {
    Name,
    Physical,
    Color,
    Typography,
    Brief,
    Domains,
    References,
    Output,
    Review,
}

/// The zero-based position of a step in the fixed order.
pub open spec fn spec_step_index(s: Step) -> int {
    match s {
        Step::Name => 0,
        Step::Physical => 1,
        Step::Color => 2,
        Step::Typography => 3,
        Step::Brief => 4,
        Step::Domains => 5,
        Step::References => 6,
        Step::Output => 7,
        Step::Review => 8,
    }
}

pub open spec fn spec_step_title(s: Step) -> Seq<char> {
    match s {
        Step::Name => "Project Name & Type"@,
        Step::Physical => "Physical Specs"@,
        Step::Color => "Color System"@,
        Step::Typography => "Typography"@,
        Step::Brief => "Creative Brief"@,
        Step::Domains => "Domain Selection"@,
        Step::References => "Reference Materials"@,
        Step::Output => "Output Requirements"@,
        Step::Review => "Review & Confirm"@,
    }
}

pub open spec fn spec_step_next(s: Step) -> Option<Step> {
    match s {
        Step::Name => Some(Step::Physical),
        Step::Physical => Some(Step::Color),
        Step::Color => Some(Step::Typography),
        Step::Typography => Some(Step::Brief),
        Step::Brief => Some(Step::Domains),
        Step::Domains => Some(Step::References),
        Step::References => Some(Step::Output),
        Step::Output => Some(Step::Review),
        Step::Review => None,
    }
}

pub open spec fn spec_step_prev(s: Step) -> Option<Step> {
    match s {
        Step::Name => None,
        Step::Physical => Some(Step::Name),
        Step::Color => Some(Step::Physical),
        Step::Typography => Some(Step::Color),
        Step::Brief => Some(Step::Typography),
        Step::Domains => Some(Step::Brief),
        Step::References => Some(Step::Domains),
        Step::Output => Some(Step::References),
        Step::Review => Some(Step::Output),
    }
}

impl Step {
    pub fn index(&self) -> (r: usize)
        ensures
            r == spec_step_index(*self),
    {
        match self {
            Step::Name => 0,
            Step::Physical => 1,
            Step::Color => 2,
            Step::Typography => 3,
            Step::Brief => 4,
            Step::Domains => 5,
            Step::References => 6,
            Step::Output => 7,
            Step::Review => 8,
        }
    }

    pub fn title(&self) -> (r: &str)
        ensures
            r@ == spec_step_title(*self),
    {
        match self {
            Step::Name => "Project Name & Type",
            Step::Physical => "Physical Specs",
            Step::Color => "Color System",
            Step::Typography => "Typography",
            Step::Brief => "Creative Brief",
            Step::Domains => "Domain Selection",
            Step::References => "Reference Materials",
            Step::Output => "Output Requirements",
            Step::Review => "Review & Confirm",
        }
    }

    pub fn next(&self) -> (r: Option<Step>)
        ensures
            r == spec_step_next(*self),
    {
        match self {
            Step::Name => Some(Step::Physical),
            Step::Physical => Some(Step::Color),
            Step::Color => Some(Step::Typography),
            Step::Typography => Some(Step::Brief),
            Step::Brief => Some(Step::Domains),
            Step::Domains => Some(Step::References),
            Step::References => Some(Step::Output),
            Step::Output => Some(Step::Review),
            Step::Review => None,
        }
    }

    pub fn prev(&self) -> (r: Option<Step>)
        ensures
            r == spec_step_prev(*self),
    {
        match self {
            Step::Name => None,
            Step::Physical => Some(Step::Name),
            Step::Color => Some(Step::Physical),
            Step::Typography => Some(Step::Color),
            Step::Brief => Some(Step::Typography),
            Step::Domains => Some(Step::Brief),
            Step::References => Some(Step::Domains),
            Step::Output => Some(Step::References),
            Step::Review => Some(Step::Output),
        }
    }
}

/// One user input, already stripped of everything terminal-specific.
#[derive(Debug, Clone, Copy, PartialEq, Eq, Structural)]
pub enum InputEvent {
    Char(char),
    Enter,
    Esc,
    Tab,
    BackTab,
    Backspace,
    Up,
    Down,
    Left,
    Right,
}

/// The wizard's whole state.
#[derive(Debug, Clone)]
pub struct Wizard {
    pub step: Step,
    pub project: ProjectSpec,
    pub input_buf: String,
    pub field_index: usize,
    pub type_index: usize,
    pub sides_index: usize,
    pub color_mode_index: usize,
    pub domain_toggles: Vec<bool>,
    pub confirmed: bool,
    pub scaffolded: bool,
}

pub ghost struct WizardView {
    pub step: Step,
    pub project: ProjectSpecView,
    pub input_buf: Seq<char>,
    pub field_index: usize,
    pub type_index: usize,
    pub sides_index: usize,
    pub color_mode_index: usize,
    pub domain_toggles: Seq<bool>,
    pub confirmed: bool,
    pub scaffolded: bool,
}

impl DeepView for Wizard {
    type V = WizardView;

    open spec fn deep_view(&self) -> WizardView {
        WizardView {
            step: self.step,
            project: self.project.deep_view(),
            input_buf: self.input_buf@,
            field_index: self.field_index,
            type_index: self.type_index,
            sides_index: self.sides_index,
            color_mode_index: self.color_mode_index,
            domain_toggles: self.domain_toggles@,
            confirmed: self.confirmed,
            scaffolded: self.scaffolded,
        }
    }
}

/// The selectable work domains, in list order.
pub open spec fn spec_domain_names() -> Seq<Seq<char>> {
    seq!["design"@, "dataviz"@, "editorial"@, "creative-production"@, "agency-mix"@]
}

/// The state every session starts in.
pub open spec fn spec_initial_wizard() -> WizardView {
    WizardView {
        step: Step::Name,
        project: spec_default_project(),
        input_buf: Seq::empty(),
        field_index: 0,
        type_index: 0,
        sides_index: 1,
        color_mode_index: 1,
        domain_toggles: seq![true, false, false, true, false],
        confirmed: false,
        scaffolded: false,
    }
}

/// How many selectable fields each step shows.
pub open spec fn spec_field_count(s: Step) -> int {
    match s {
        Step::Name => 2,
        Step::Physical => 4,
        Step::Color => 3,
        Step::Typography => 3,
        Step::Domains => 5,
        _ => 1,
    }
}

/// The references joined back into one editable buffer, one per line.
pub open spec fn spec_join_lines(rs: Seq<Seq<char>>) -> Seq<char>
    decreases rs.len(),
{
    if rs.len() == 0 {
        Seq::empty()
    } else if rs.len() == 1 {
        rs[0]
    } else {
        spec_join_lines(rs.drop_last()) + "\n"@ + rs.last()
    }
}

/// What the input buffer holds on entering a step: the committed value of
/// the field the cursor is on, where that field is editable text.
pub open spec fn spec_load_buf(w: WizardView) -> Seq<char> {
    match w.step {
        Step::Name => w.project.name,
        Step::Brief => w.project.brief,
        Step::Typography => if w.field_index == 0 {
            w.project.typography.primary_font
        } else if w.field_index == 1 {
            w.project.typography.secondary_font
        } else {
            w.project.typography.notes
        },
        Step::References => spec_join_lines(w.project.references),
        Step::Output => w.project.output.delivery_notes,
        _ => Seq::empty(),
    }
}

/// `w` with its buffer freshly loaded from the committed state.
pub open spec fn spec_with_loaded_buf(w: WizardView) -> WizardView {
    WizardView { input_buf: spec_load_buf(w), ..w }
}

fn join_lines(v: &Vec<String>) -> (r: String)
    ensures
        r@ == spec_join_lines(v.deep_view()),
{
    let ghost dv = v.deep_view();
    let mut r = String::new();
    let n = v.len();
    let mut k: usize = 0;
    proof {
        assert(dv.take(0) =~= Seq::<Seq<char>>::empty());
    }
    while k < n
        invariant
            k <= n,
            n == v@.len(),
            v.deep_view() == dv,
            dv.len() == n,
            r@ == spec_join_lines(dv.take(k as int)),
        decreases n - k,
    {
        if k > 0 {
            r.append("\n");
        }
        r.append(v[k].as_str());
        proof {
            assert(dv.take(k as int + 1).drop_last() =~= dv.take(k as int));
            assert(dv.take(k as int + 1).last() == dv[k as int]);
            if k == 0 {
                assert(dv.take(1)[0] == dv[0]);
            }
        }
        k += 1;
    }
    proof {
        assert(dv.take(n as int) =~= dv);
    }
    r
}

impl Wizard {
    /// A fresh session: the default specification, the cursor on the first
    /// step, design and creative-production domains preselected.
    pub fn new() -> (w: Wizard)
        ensures
            w.deep_view() == spec_initial_wizard(),
    {
        let mut domain_toggles: Vec<bool> = Vec::new();
        domain_toggles.push(true);
        domain_toggles.push(false);
        domain_toggles.push(false);
        domain_toggles.push(true);
        domain_toggles.push(false);
        let w = Wizard {
            step: Step::Name,
            project: ProjectSpec::default(),
            input_buf: String::new(),
            field_index: 0,
            type_index: 0,
            sides_index: 1,
            color_mode_index: 1,
            domain_toggles,
            confirmed: false,
            scaffolded: false,
        };
        proof {
            assert(w.domain_toggles@ =~= seq![true, false, false, true, false]);
        }
        w
    }

    /// The selectable work domains, in list order.
    pub fn available_domains(&self) -> (r: Vec<&'static str>)
        ensures
            r@.len() == spec_domain_names().len(),
            forall|i: int| 0 <= i < r@.len() ==> r@[i]@ == spec_domain_names()[i],
    {
        let mut v: Vec<&'static str> = Vec::new();
        v.push("design");
        v.push("dataviz");
        v.push("editorial");
        v.push("creative-production");
        v.push("agency-mix");
        proof {
            assert forall|i: int| 0 <= i < v@.len() implies v@[i]@ == spec_domain_names()[i] by {
                if i == 0 {
                } else if i == 1 {
                } else if i == 2 {
                } else if i == 3 {
                } else {
                    assert(i == 4);
                }
            }
        }
        v
    }

    /// How many selectable fields the current step shows.
    pub fn field_count(&self) -> (r: usize)
        ensures
            r == spec_field_count(self.step),
    {
        match self.step {
            Step::Name => 2,
            Step::Physical => 4,
            Step::Color => 3,
            Step::Typography => 3,
            Step::Domains => 5,
            _ => 1,
        }
    }

    /// Flips the domain toggle under the cursor, if the cursor is on one.
    pub fn toggle_domain(&mut self)
        ensures
            final(self).deep_view() == spec_toggle_domain(old(self).deep_view()),
    {
        if self.field_index < self.domain_toggles.len() {
            let v = self.domain_toggles[self.field_index];
            self.domain_toggles.set(self.field_index, !v);
        }
    }

    /// Loads the input buffer from the committed value of the field the
    /// cursor is on.
    pub fn load_step_buf(&mut self)
        ensures
            final(self).deep_view() == spec_with_loaded_buf(old(self).deep_view()),
    {
        self.input_buf = match self.step {
            Step::Name => self.project.name.clone(),
            Step::Brief => self.project.brief.clone(),
            Step::Typography => {
                if self.field_index == 0 {
                    self.project.typography.primary_font.clone()
                } else if self.field_index == 1 {
                    self.project.typography.secondary_font.clone()
                } else {
                    self.project.typography.notes.clone()
                }
            },
            Step::References => join_lines(self.references_ref()),
            Step::Output => self.project.output.delivery_notes.clone(),
            _ => String::new(),
        };
    }

    /// The committed references list.
    fn references_ref(&self) -> (r: &Vec<String>)
        ensures
            r.deep_view() == self.project.deep_view().references,
    {
        &self.project.references
    }
}

/// The position of the first newline at or after `from`, or the string's
/// length when the rest holds none.
pub open spec fn spec_line_end(s: Seq<char>, from: int) -> int
    decreases s.len() - from,
{
    if from < 0 || from >= s.len() {
        s.len() as int
    } else if s[from] == '\n' {
        from
    } else {
        spec_line_end(s, from + 1)
    }
}

proof fn lemma_line_end_bounds(s: Seq<char>, from: int)
    requires
        0 <= from <= s.len(),
    ensures
        from <= spec_line_end(s, from) <= s.len(),
    decreases s.len() - from,
{
    if from < s.len() && s[from] != '\n' {
        lemma_line_end_bounds(s, from + 1);
    }
}

/// A run of non-newline characters ending at a newline (or the end)
/// pins the line end down.
proof fn lemma_line_end_at(s: Seq<char>, from: int, e: int)
    requires
        0 <= from <= e <= s.len(),
        forall|j: int| from <= j < e ==> s[j] != '\n',
        e == s.len() || s[e] == '\n',
    ensures
        spec_line_end(s, from) == e,
    decreases e - from,
{
    if from < e {
        lemma_line_end_at(s, from + 1, e);
    }
}

/// The buffer cut at newlines, each line as typed, from `from` on.
pub open spec fn spec_lines_from(s: Seq<char>, from: int) -> Seq<Seq<char>>
    decreases s.len() - from + 1,
    via spec_lines_from_dec
{
    if from < 0 || from >= s.len() {
        Seq::empty()
    } else {
        seq![s.subrange(from, spec_line_end(s, from))] + spec_lines_from(
            s,
            spec_line_end(s, from) + 1,
        )
    }
}

#[via_fn]
proof fn spec_lines_from_dec(s: Seq<char>, from: int) {
    if !(from < 0 || from >= s.len()) {
        lemma_line_end_bounds(s, from);
    }
}

/// Lines trimmed of whitespace, the blank ones dropped.
pub open spec fn spec_clean_lines(ls: Seq<Seq<char>>) -> Seq<Seq<char>>
    decreases ls.len(),
{
    if ls.len() == 0 {
        Seq::empty()
    } else {
        spec_clean_lines(ls.drop_last()) + (if spec_trim(ls.last()).len() == 0 {
            Seq::<Seq<char>>::empty()
        } else {
            seq![spec_trim(ls.last())]
        })
    }
}

proof fn lemma_clean_lines_add(a: Seq<Seq<char>>, b: Seq<Seq<char>>)
    ensures
        spec_clean_lines(a + b) == spec_clean_lines(a) + spec_clean_lines(b),
    decreases b.len(),
{
    if b.len() == 0 {
        assert(a + b =~= a);
        assert(spec_clean_lines(a) + spec_clean_lines(b) =~= spec_clean_lines(a));
    } else {
        lemma_clean_lines_add(a, b.drop_last());
        assert((a + b).drop_last() =~= a + b.drop_last());
        assert((a + b).last() == b.last());
        assert(spec_clean_lines(a + b) =~= spec_clean_lines(a) + spec_clean_lines(b));
    }
}

/// What committing the references step stores: the buffer's lines, each
/// trimmed, the empty ones dropped.
pub open spec fn spec_clean_refs(s: Seq<char>) -> Seq<Seq<char>> {
    spec_clean_lines(spec_lines_from(s, 0))
}

/// The domains whose toggles are on, among the first `k`, in list order.
pub open spec fn spec_selected_domains(toggles: Seq<bool>, k: int) -> Seq<Seq<char>>
    decreases k,
{
    if k <= 0 {
        Seq::empty()
    } else {
        spec_selected_domains(toggles, k - 1) + (if toggles[k - 1] {
            seq![spec_domain_names()[k - 1]]
        } else {
            Seq::<Seq<char>>::empty()
        })
    }
}

/// The number of domain toggles that take part in a commit: every toggle,
/// up to the number of domain names.
pub open spec fn spec_domain_zip_len(toggles: Seq<bool>) -> int {
    if toggles.len() < spec_domain_names().len() {
        toggles.len() as int
    } else {
        spec_domain_names().len() as int
    }
}

/// What `commit_current` stores from the current step's editing state into
/// the project specification.
pub open spec fn spec_commit_current(w: WizardView) -> WizardView {
    match w.step {
        Step::Name => WizardView {
            project: ProjectSpecView {
                name: spec_trim(w.input_buf),
                project_type: spec_type_from_index(w.type_index as int, w.input_buf),
                ..w.project
            },
            ..w
        },
        Step::Physical => WizardView {
            project: ProjectSpecView {
                physical: crate::project::PhysicalSpec {
                    sides: if w.sides_index == 0 {
                        Sides::Single
                    } else {
                        Sides::Double
                    },
                    ..w.project.physical
                },
                ..w.project
            },
            ..w
        },
        Step::Color => WizardView {
            project: ProjectSpecView {
                color: crate::project::ColorSpecView {
                    mode: if w.color_mode_index == 0 {
                        ColorMode::OneColor
                    } else if w.color_mode_index == 1 {
                        ColorMode::TwoColor
                    } else {
                        ColorMode::FullProcess
                    },
                    ..w.project.color
                },
                ..w.project
            },
            ..w
        },
        Step::Typography => WizardView {
            project: ProjectSpecView {
                typography: if w.field_index == 0 {
                    crate::project::TypographySpecView {
                        primary_font: spec_trim(w.input_buf),
                        ..w.project.typography
                    }
                } else if w.field_index == 1 {
                    crate::project::TypographySpecView {
                        secondary_font: spec_trim(w.input_buf),
                        ..w.project.typography
                    }
                } else {
                    crate::project::TypographySpecView {
                        notes: spec_trim(w.input_buf),
                        ..w.project.typography
                    }
                },
                ..w.project
            },
            ..w
        },
        Step::Brief => WizardView {
            project: ProjectSpecView { brief: spec_trim(w.input_buf), ..w.project },
            ..w
        },
        Step::Domains => WizardView {
            project: ProjectSpecView {
                domains: spec_selected_domains(
                    w.domain_toggles,
                    spec_domain_zip_len(w.domain_toggles),
                ),
                ..w.project
            },
            ..w
        },
        Step::References => WizardView {
            project: ProjectSpecView { references: spec_clean_refs(w.input_buf), ..w.project },
            ..w
        },
        Step::Output => WizardView {
            project: ProjectSpecView {
                output: crate::project::OutputSpecView {
                    delivery_notes: spec_trim(w.input_buf),
                    ..w.project.output
                },
                ..w.project
            },
            ..w
        },
        Step::Review => w,
    }
}

/// The domain name at a list position.
fn domain_name(k: usize) -> (r: &'static str)
    requires
        k < 5,
    ensures
        r@ == spec_domain_names()[k as int],
{
    if k == 0 {
        "design"
    } else if k == 1 {
        "dataviz"
    } else if k == 2 {
        "editorial"
    } else if k == 3 {
        "creative-production"
    } else {
        "agency-mix"
    }
}

/// Splits the buffer at newlines, trims each line, and keeps the
/// non-empty ones.
fn clean_refs(buf: &str) -> (r: Vec<String>)
    ensures
        r.deep_view() == spec_clean_refs(buf@),
{
    let ghost s = buf@;
    let n = buf.unicode_len();
    let mut out: Vec<String> = Vec::new();
    let mut start: usize = 0;
    let mut i: usize = 0;
    proof {
        assert(spec_clean_refs(s) =~= out.deep_view() + spec_clean_lines(spec_lines_from(s, 0)));
    }
    while i < n
        invariant
            0 <= start <= i <= n,
            n == s.len(),
            buf@ == s,
            forall|j: int| start <= j < i ==> s[j] != '\n',
            spec_clean_refs(s) == out.deep_view() + spec_clean_lines(
                spec_lines_from(s, start as int),
            ),
        decreases n - i,
    {
        if buf.get_char(i) == '\n' {
            let ghost old_out = out.deep_view();
            let line = buf.substring_char(start, i);
            let trimmed = trim_str(line);
            if !trimmed.as_str().is_empty() {
                out.push(trimmed);
            }
            proof {
                lemma_line_end_at(s, start as int, i as int);
                let rest = spec_lines_from(s, i as int + 1);
                assert(spec_lines_from(s, start as int) =~= seq![
                    s.subrange(start as int, i as int),
                ] + rest);
                lemma_clean_lines_add(seq![s.subrange(start as int, i as int)], rest);
                assert(seq![s.subrange(start as int, i as int)].drop_last()
                    =~= Seq::<Seq<char>>::empty());
                assert(spec_clean_lines(seq![s.subrange(start as int, i as int)])
                    == spec_clean_lines(Seq::<Seq<char>>::empty()) + (if spec_trim(
                    s.subrange(start as int, i as int),
                ).len() == 0 {
                    Seq::<Seq<char>>::empty()
                } else {
                    seq![spec_trim(s.subrange(start as int, i as int))]
                }));
                if spec_trim(s.subrange(start as int, i as int)).len() == 0 {
                    assert(out.deep_view() =~= old_out);
                } else {
                    assert(out.deep_view() =~= old_out.push(
                        spec_trim(s.subrange(start as int, i as int)),
                    ));
                }
                assert(spec_clean_refs(s) =~= out.deep_view() + spec_clean_lines(
                    spec_lines_from(s, i as int + 1),
                ));
            }
            start = i + 1;
        }
        i += 1;
    }
    if start < n {
        let ghost old_out = out.deep_view();
        let line = buf.substring_char(start, n);
        let trimmed = trim_str(line);
        if !trimmed.as_str().is_empty() {
            out.push(trimmed);
        }
        proof {
            lemma_line_end_at(s, start as int, n as int);
            assert(spec_lines_from(s, n as int + 1) =~= Seq::<Seq<char>>::empty());
            assert(spec_clean_lines(Seq::<Seq<char>>::empty()) =~= Seq::<Seq<char>>::empty());
            assert(spec_lines_from(s, start as int) =~= seq![s.subrange(start as int, n as int)]
                + Seq::<Seq<char>>::empty());
            assert(spec_lines_from(s, start as int) =~= seq![s.subrange(start as int, n as int)]);
            assert(seq![s.subrange(start as int, n as int)].drop_last()
                =~= Seq::<Seq<char>>::empty());
            if spec_trim(s.subrange(start as int, n as int)).len() == 0 {
                assert(out.deep_view() =~= old_out);
            } else {
                assert(out.deep_view() =~= old_out.push(
                    spec_trim(s.subrange(start as int, n as int)),
                ));
            }
            assert(spec_clean_lines(spec_lines_from(s, start as int)) =~= (if spec_trim(
                s.subrange(start as int, n as int),
            ).len() == 0 {
                Seq::<Seq<char>>::empty()
            } else {
                seq![spec_trim(s.subrange(start as int, n as int))]
            }));
            assert(out.deep_view() =~= spec_clean_refs(s));
        }
    } else {
        proof {
            assert(spec_lines_from(s, start as int) =~= Seq::<Seq<char>>::empty());
            assert(out.deep_view() =~= spec_clean_refs(s));
        }
    }
    out
}

impl Wizard {
    /// Commits the current step's editing state into the specification:
    /// trimmed text fields, the selected type, sides and color mode, the
    /// toggled domains, and the reference list split out of the buffer.
    pub fn commit_current(&mut self)
        ensures
            final(self).deep_view() == spec_commit_current(old(self).deep_view()),
    {
        match self.step {
            Step::Name => {
                self.project.name = trim_str(self.input_buf.as_str());
                self.project.project_type = ProjectType::from_index(
                    self.type_index,
                    self.input_buf.as_str(),
                );
            },
            Step::Physical => {
                self.project.physical.sides = if self.sides_index == 0 {
                    Sides::Single
                } else {
                    Sides::Double
                };
            },
            Step::Color => {
                self.project.color.mode = if self.color_mode_index == 0 {
                    ColorMode::OneColor
                } else if self.color_mode_index == 1 {
                    ColorMode::TwoColor
                } else {
                    ColorMode::FullProcess
                };
            },
            Step::Typography => {
                if self.field_index == 0 {
                    self.project.typography.primary_font = trim_str(self.input_buf.as_str());
                } else if self.field_index == 1 {
                    self.project.typography.secondary_font = trim_str(self.input_buf.as_str());
                } else {
                    self.project.typography.notes = trim_str(self.input_buf.as_str());
                }
            },
            Step::Brief => {
                self.project.brief = trim_str(self.input_buf.as_str());
            },
            Step::Domains => {
                let m = if self.domain_toggles.len() < 5 {
                    self.domain_toggles.len()
                } else {
                    5
                };
                let ghost toggles = self.domain_toggles@;
                let mut selected: Vec<String> = Vec::new();
                let mut k: usize = 0;
                proof {
                    assert(selected.deep_view() =~= spec_selected_domains(toggles, 0));
                }
                while k < m
                    invariant
                        k <= m,
                        m == spec_domain_zip_len(toggles),
                        m <= self.domain_toggles@.len(),
                        m <= 5,
                        self.domain_toggles@ == toggles,
                        selected.deep_view() == spec_selected_domains(toggles, k as int),
                    decreases m - k,
                {
                    let ghost old_sel = selected.deep_view();
                    if self.domain_toggles[k] {
                        selected.push(domain_name(k).to_owned());
                        proof {
                            assert(selected.deep_view() =~= old_sel.push(
                                spec_domain_names()[k as int],
                            ));
                        }
                    }
                    proof {
                        assert(selected.deep_view() =~= spec_selected_domains(
                            toggles,
                            k as int + 1,
                        ));
                    }
                    k += 1;
                }
                self.project.domains = selected;
            },
            Step::References => {
                self.project.references = clean_refs(self.input_buf.as_str());
            },
            Step::Output => {
                self.project.output.delivery_notes = trim_str(self.input_buf.as_str());
            },
            Step::Review => {},
        }
    }
}

/// Committing, then moving to the next step (if any), resetting the field
/// cursor and reloading the buffer.
pub open spec fn spec_advance(w: WizardView) -> WizardView {
    let c = spec_commit_current(w);
    match spec_step_next(c.step) {
        Some(nx) => spec_with_loaded_buf(WizardView { step: nx, field_index: 0usize, ..c }),
        None => c,
    }
}

/// Committing, then moving to the previous step (if any), resetting the
/// field cursor and reloading the buffer.
pub open spec fn spec_go_back(w: WizardView) -> WizardView {
    let c = spec_commit_current(w);
    match spec_step_prev(c.step) {
        Some(pv) => spec_with_loaded_buf(WizardView { step: pv, field_index: 0usize, ..c }),
        None => c,
    }
}

/// Committing, then moving the field cursor forward within the step.
pub open spec fn spec_next_field(w: WizardView) -> WizardView {
    let c = spec_commit_current(w);
    if c.field_index + 1 < spec_field_count(c.step) {
        spec_with_loaded_buf(WizardView { field_index: (c.field_index + 1) as usize, ..c })
    } else {
        c
    }
}

/// Committing, then moving the field cursor back within the step.
pub open spec fn spec_prev_field(w: WizardView) -> WizardView {
    let c = spec_commit_current(w);
    if c.field_index > 0 {
        spec_with_loaded_buf(WizardView { field_index: (c.field_index - 1) as usize, ..c })
    } else {
        c
    }
}

/// The buffer with its last character removed (unchanged when empty).
pub open spec fn spec_buf_pop(w: WizardView) -> WizardView {
    WizardView {
        input_buf: if w.input_buf.len() > 0 {
            w.input_buf.drop_last()
        } else {
            w.input_buf
        },
        ..w
    }
}

/// The buffer with a character appended.
pub open spec fn spec_buf_push(w: WizardView, c: char) -> WizardView {
    WizardView { input_buf: w.input_buf.push(c), ..w }
}

/// The domain toggle under the cursor flipped, if the cursor is on one.
pub open spec fn spec_toggle_domain(w: WizardView) -> WizardView {
    if w.field_index < w.domain_toggles.len() {
        WizardView {
            domain_toggles: w.domain_toggles.update(
                w.field_index as int,
                !w.domain_toggles[w.field_index as int],
            ),
            ..w
        }
    } else {
        w
    }
}

impl Wizard {
    /// Commits the current step and moves to the next one, if any.
    pub fn advance(&mut self)
        ensures
            final(self).deep_view() == spec_advance(old(self).deep_view()),
    {
        self.commit_current();
        match self.step.next() {
            Some(nx) => {
                self.step = nx;
                self.field_index = 0;
                self.load_step_buf();
            },
            None => {},
        }
    }

    /// Commits the current step and moves to the previous one, if any.
    pub fn go_back(&mut self)
        ensures
            final(self).deep_view() == spec_go_back(old(self).deep_view()),
    {
        self.commit_current();
        match self.step.prev() {
            Some(pv) => {
                self.step = pv;
                self.field_index = 0;
                self.load_step_buf();
            },
            None => {},
        }
    }

    /// Commits, then moves the field cursor forward within the step.
    pub fn next_field(&mut self)
        ensures
            final(self).deep_view() == spec_next_field(old(self).deep_view()),
    {
        self.commit_current();
        if self.field_index < self.field_count() - 1 {
            self.field_index += 1;
            self.load_step_buf();
        }
    }

    /// Commits, then moves the field cursor back within the step.
    pub fn prev_field(&mut self)
        ensures
            final(self).deep_view() == spec_prev_field(old(self).deep_view()),
    {
        self.commit_current();
        if self.field_index > 0 {
            self.field_index -= 1;
            self.load_step_buf();
        }
    }
}

/// What the name step does with an input: edit the name in the buffer,
/// move the type cursor, or navigate.
pub open spec fn spec_handle_name(w: WizardView, ev: InputEvent) -> WizardView {
    match ev {
        InputEvent::Tab => spec_next_field(w),
        InputEvent::BackTab => spec_prev_field(w),
        InputEvent::Enter => spec_advance(w),
        InputEvent::Backspace => if w.field_index == 0 {
            spec_buf_pop(w)
        } else {
            w
        },
        InputEvent::Char(c) => if w.field_index == 0 {
            spec_buf_push(w, c)
        } else {
            w
        },
        InputEvent::Up => if w.field_index == 1 && w.type_index > 0 {
            WizardView { type_index: (w.type_index - 1) as usize, ..w }
        } else {
            w
        },
        InputEvent::Down => if w.field_index == 1 && w.type_index < 4 {
            WizardView { type_index: (w.type_index + 1) as usize, ..w }
        } else {
            w
        },
        _ => w,
    }
}

pub fn handle_name_input(wizard: &mut Wizard, ev: InputEvent)
    ensures
        final(wizard).deep_view() == spec_handle_name(old(wizard).deep_view(), ev),
{
    match ev {
        InputEvent::Tab => wizard.next_field(),
        InputEvent::BackTab => wizard.prev_field(),
        InputEvent::Enter => wizard.advance(),
        InputEvent::Backspace => {
            if wizard.field_index == 0 {
                pop_char(&mut wizard.input_buf);
            }
        },
        InputEvent::Char(c) => {
            if wizard.field_index == 0 {
                push_char(&mut wizard.input_buf, c);
            }
        },
        InputEvent::Up => {
            if wizard.field_index == 1 && wizard.type_index > 0 {
                wizard.type_index -= 1;
            }
        },
        InputEvent::Down => {
            if wizard.field_index == 1 && wizard.type_index < 4 {
                wizard.type_index += 1;
            }
        },
        _ => {},
    }
}

/// What the physical step does with an input: pick the sides with the
/// arrows on its field, or navigate.
pub open spec fn spec_handle_physical(w: WizardView, ev: InputEvent) -> WizardView {
    match ev {
        InputEvent::Tab => spec_next_field(w),
        InputEvent::BackTab => spec_prev_field(w),
        InputEvent::Enter => spec_advance(w),
        InputEvent::Backspace => spec_go_back(w),
        InputEvent::Left => if w.field_index == 2 {
            WizardView { sides_index: 0usize, ..w }
        } else {
            w
        },
        InputEvent::Right => if w.field_index == 2 {
            WizardView { sides_index: 1usize, ..w }
        } else {
            w
        },
        _ => w,
    }
}

pub fn handle_physical_input(wizard: &mut Wizard, ev: InputEvent)
    ensures
        final(wizard).deep_view() == spec_handle_physical(old(wizard).deep_view(), ev),
{
    match ev {
        InputEvent::Tab => wizard.next_field(),
        InputEvent::BackTab => wizard.prev_field(),
        InputEvent::Enter => wizard.advance(),
        InputEvent::Backspace => wizard.go_back(),
        InputEvent::Left => {
            if wizard.field_index == 2 {
                wizard.sides_index = 0;
            }
        },
        InputEvent::Right => {
            if wizard.field_index == 2 {
                wizard.sides_index = 1;
            }
        },
        _ => {},
    }
}

/// What the color step does with an input: move the mode cursor with the
/// arrows on its field, or navigate.
pub open spec fn spec_handle_color(w: WizardView, ev: InputEvent) -> WizardView {
    match ev {
        InputEvent::Tab => spec_next_field(w),
        InputEvent::BackTab => spec_prev_field(w),
        InputEvent::Enter => spec_advance(w),
        InputEvent::Backspace => spec_go_back(w),
        InputEvent::Left => if w.field_index == 0 && w.color_mode_index > 0 {
            WizardView { color_mode_index: (w.color_mode_index - 1) as usize, ..w }
        } else {
            w
        },
        InputEvent::Right => if w.field_index == 0 && w.color_mode_index < 2 {
            WizardView { color_mode_index: (w.color_mode_index + 1) as usize, ..w }
        } else {
            w
        },
        _ => w,
    }
}

pub fn handle_color_input(wizard: &mut Wizard, ev: InputEvent)
    ensures
        final(wizard).deep_view() == spec_handle_color(old(wizard).deep_view(), ev),
{
    match ev {
        InputEvent::Tab => wizard.next_field(),
        InputEvent::BackTab => wizard.prev_field(),
        InputEvent::Enter => wizard.advance(),
        InputEvent::Backspace => wizard.go_back(),
        InputEvent::Left => {
            if wizard.field_index == 0 && wizard.color_mode_index > 0 {
                wizard.color_mode_index -= 1;
            }
        },
        InputEvent::Right => {
            if wizard.field_index == 0 && wizard.color_mode_index < 2 {
                wizard.color_mode_index += 1;
            }
        },
        _ => {},
    }
}

/// What a single-line text step does with an input: edit the buffer or
/// navigate.
pub open spec fn spec_handle_text(w: WizardView, ev: InputEvent) -> WizardView {
    match ev {
        InputEvent::Tab => spec_next_field(w),
        InputEvent::BackTab => spec_prev_field(w),
        InputEvent::Enter => spec_advance(w),
        InputEvent::Esc => spec_go_back(w),
        InputEvent::Backspace => spec_buf_pop(w),
        InputEvent::Char(c) => spec_buf_push(w, c),
        _ => w,
    }
}

pub fn handle_text_input(wizard: &mut Wizard, ev: InputEvent)
    ensures
        final(wizard).deep_view() == spec_handle_text(old(wizard).deep_view(), ev),
{
    match ev {
        InputEvent::Tab => wizard.next_field(),
        InputEvent::BackTab => wizard.prev_field(),
        InputEvent::Enter => wizard.advance(),
        InputEvent::Esc => wizard.go_back(),
        InputEvent::Backspace => {
            pop_char(&mut wizard.input_buf);
        },
        InputEvent::Char(c) => {
            push_char(&mut wizard.input_buf, c);
        },
        _ => {},
    }
}

/// What a multi-line text step does with an input: edit the buffer (enter
/// inserts a newline), or leave the step with escape.
pub open spec fn spec_handle_multiline(w: WizardView, ev: InputEvent) -> WizardView {
    match ev {
        InputEvent::Esc => spec_advance(w),
        InputEvent::Backspace => spec_buf_pop(w),
        InputEvent::Enter => spec_buf_push(w, '\n'),
        InputEvent::Char(c) => spec_buf_push(w, c),
        _ => w,
    }
}

pub fn handle_multiline_input(wizard: &mut Wizard, ev: InputEvent)
    ensures
        final(wizard).deep_view() == spec_handle_multiline(old(wizard).deep_view(), ev),
{
    match ev {
        InputEvent::Esc => wizard.advance(),
        InputEvent::Backspace => {
            pop_char(&mut wizard.input_buf);
        },
        InputEvent::Enter => {
            push_char(&mut wizard.input_buf, '\n');
        },
        InputEvent::Char(c) => {
            push_char(&mut wizard.input_buf, c);
        },
        _ => {},
    }
}

/// What the domains step does with an input: move between toggles, flip
/// one with space, or navigate.
pub open spec fn spec_handle_domains(w: WizardView, ev: InputEvent) -> WizardView {
    match ev {
        InputEvent::Tab => spec_next_field(w),
        InputEvent::Down => spec_next_field(w),
        InputEvent::BackTab => spec_prev_field(w),
        InputEvent::Up => spec_prev_field(w),
        InputEvent::Char(c) => if c == ' ' {
            spec_toggle_domain(w)
        } else {
            w
        },
        InputEvent::Enter => spec_advance(w),
        InputEvent::Backspace => spec_go_back(w),
        _ => w,
    }
}

pub fn handle_domains_input(wizard: &mut Wizard, ev: InputEvent)
    ensures
        final(wizard).deep_view() == spec_handle_domains(old(wizard).deep_view(), ev),
{
    match ev {
        InputEvent::Tab => wizard.next_field(),
        InputEvent::Down => wizard.next_field(),
        InputEvent::BackTab => wizard.prev_field(),
        InputEvent::Up => wizard.prev_field(),
        InputEvent::Char(c) => {
            if c == ' ' {
                wizard.toggle_domain();
            }
        },
        InputEvent::Enter => wizard.advance(),
        InputEvent::Backspace => wizard.go_back(),
        _ => {},
    }
}

/// What the review step does with an input: go back, or commit and ask the
/// caller to scaffold the project (once). The caller performs the file
/// work and records its success in `scaffolded`.
pub open spec fn spec_handle_review(w: WizardView, ev: InputEvent) -> (WizardView, bool) {
    match ev {
        InputEvent::Backspace => (spec_go_back(w), false),
        InputEvent::Enter => if !w.scaffolded {
            (spec_commit_current(w), true)
        } else {
            (w, false)
        },
        _ => (w, false),
    }
}

pub fn handle_review_input(wizard: &mut Wizard, ev: InputEvent) -> (do_scaffold: bool)
    ensures
        final(wizard).deep_view() == spec_handle_review(old(wizard).deep_view(), ev).0,
        do_scaffold == spec_handle_review(old(wizard).deep_view(), ev).1,
{
    match ev {
        InputEvent::Backspace => {
            wizard.go_back();
            false
        },
        InputEvent::Enter => {
            if !wizard.scaffolded {
                wizard.commit_current();
                true
            } else {
                false
            }
        },
        _ => false,
    }
}

} // verus!
