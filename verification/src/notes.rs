//! The markdown transcript of a decision log: one section per decision in
//! sequence order, with agent, confidence, rationale, influences and
//! rejected alternatives. The transcript is a function of the log's content
//! alone, so identical input renders byte-identically on every call.
use vstd::prelude::*;

verus! {

use vstd::string::StringExecFns;
use vstd::string::StrSliceExecFns;
use crate::numfmt::spec_u64_str;
use crate::numfmt::spec_tenths_str;
use crate::numfmt::u64_to_string;
use crate::numfmt::fmt_tenths;
use crate::provenance::Alternative;
use crate::provenance::AlternativeView;
use crate::provenance::Decision;
use crate::provenance::DecisionView;
use crate::provenance::DecisionTreeView;
use crate::provenance::Influence;
use crate::provenance::InfluenceView;
use crate::provenance::InfluenceSource;
use crate::provenance::InfluenceSourceView;

/// The first `max` characters of `s` (by raw character count, no word
/// boundary, no ellipsis), or all of `s` when it is short enough.
pub open spec fn spec_truncate(s: Seq<char>, max: int) -> Seq<char> {
    if s.len() <= max {
        s
    } else {
        s.take(max)
    }
}

/// Truncates to the first `max` characters.
pub fn truncate(s: &str, max: usize) -> (r: &str)
    ensures
        r@ == spec_truncate(s@, max as int),
{
    let n = s.unicode_len();
    if n <= max {
        s
    } else {
        s.substring_char(0, max)
    }
}

/// The transcript's one-line account of an influence source. Book excerpts
/// are truncated to their first 80 characters.
pub open spec fn spec_source_str(s: InfluenceSourceView) -> Seq<char> {
    match s {
        InfluenceSourceView::Book { title, excerpt, .. } => "Book: *"@ + title + "* -- \""@
            + spec_truncate(excerpt, 80) + "\""@,
        InfluenceSourceView::Moodboard { description, .. } => "Moodboard: "@ + description,
        InfluenceSourceView::AgentKnowledge { agent, note, .. } => "Agent "@ + agent + ": "@
            + note,
        InfluenceSourceView::UserDirection { input } => "User: "@ + input,
        InfluenceSourceView::PriorDecision { decision_id } => "Prior decision: "@ + decision_id,
    }
}

fn source_str(s: &InfluenceSource) -> (r: String)
    ensures
        r@ == spec_source_str(s.deep_view()),
{
    match s {
        InfluenceSource::Book { title, excerpt, .. } => {
            let mut r = "Book: *".to_owned();
            r.append(title.as_str());
            r.append("* -- \"");
            r.append(truncate(excerpt.as_str(), 80));
            r.append("\"");
            proof {
                assert(r@ =~= spec_source_str(s.deep_view()));
            }
            r
        },
        InfluenceSource::Moodboard { description, .. } => {
            let mut r = "Moodboard: ".to_owned();
            r.append(description.as_str());
            proof {
                assert(r@ =~= spec_source_str(s.deep_view()));
            }
            r
        },
        InfluenceSource::AgentKnowledge { agent, note, .. } => {
            let mut r = "Agent ".to_owned();
            r.append(agent.as_str());
            r.append(": ");
            r.append(note.as_str());
            proof {
                assert(r@ =~= spec_source_str(s.deep_view()));
            }
            r
        },
        InfluenceSource::UserDirection { input } => {
            let mut r = "User: ".to_owned();
            r.append(input.as_str());
            proof {
                assert(r@ =~= spec_source_str(s.deep_view()));
            }
            r
        },
        InfluenceSource::PriorDecision { decision_id } => {
            let mut r = "Prior decision: ".to_owned();
            r.append(decision_id.as_str());
            proof {
                assert(r@ =~= spec_source_str(s.deep_view()));
            }
            r
        },
    }
}

/// One influence bullet: the source account and its weight in tenths.
pub open spec fn spec_influence_line(inf: InfluenceView) -> Seq<char> {
    "- "@ + spec_source_str(inf.source) + " (weight: "@ + spec_tenths_str(inf.weight as int)
        + ")\n"@
}

fn influence_line(inf: &Influence) -> (r: String)
    ensures
        r@ == spec_influence_line(inf.deep_view()),
{
    let mut r = "- ".to_owned();
    let src = source_str(&inf.source);
    r.append(src.as_str());
    r.append(" (weight: ");
    let w = fmt_tenths(inf.weight as u64);
    r.append(w.as_str());
    r.append(")\n");
    proof {
        assert(r@ =~= spec_influence_line(inf.deep_view()));
    }
    r
}

/// All influence bullets, in list order.
pub open spec fn spec_influence_lines(infs: Seq<InfluenceView>) -> Seq<char>
    decreases infs.len(),
{
    if infs.len() == 0 {
        Seq::empty()
    } else {
        spec_influence_lines(infs.drop_last()) + spec_influence_line(infs.last())
    }
}

/// The influences section: absent when there are no influences.
pub open spec fn spec_influences_block(infs: Seq<InfluenceView>) -> Seq<char> {
    if infs.len() == 0 {
        Seq::empty()
    } else {
        "**Influences:**\n"@ + spec_influence_lines(infs) + "\n"@
    }
}

fn influences_block(infs: &Vec<Influence>) -> (r: String)
    ensures
        r@ == spec_influences_block(infs.deep_view()),
{
    let n = infs.len();
    if n == 0 {
        let r = String::new();
        proof {
            assert(r@ =~= spec_influences_block(infs.deep_view()));
        }
        return r;
    }
    let ghost iv = infs.deep_view();
    let mut r = "**Influences:**\n".to_owned();
    let mut k: usize = 0;
    proof {
        assert(iv.take(0) =~= Seq::<InfluenceView>::empty());
    }
    while k < n
        invariant
            k <= n,
            n == infs@.len(),
            infs.deep_view() == iv,
            iv.len() == n,
            r@ == "**Influences:**\n"@ + spec_influence_lines(iv.take(k as int)),
        decreases n - k,
    {
        let line = influence_line(&infs[k]);
        r.append(line.as_str());
        proof {
            assert(iv.take(k as int + 1).drop_last() =~= iv.take(k as int));
            assert(iv.take(k as int + 1).last() == iv[k as int]);
        }
        k += 1;
    }
    r.append("\n");
    proof {
        assert(iv.take(n as int) =~= iv);
        assert(r@ =~= spec_influences_block(iv));
    }
    r
}

/// One rejected alternative, struck through, with its rejection reason.
pub open spec fn spec_alternative_line(a: AlternativeView) -> Seq<char> {
    "- ~~"@ + a.description + "~~ -- "@ + a.reason_rejected + "\n"@
}

fn alternative_line(a: &Alternative) -> (r: String)
    ensures
        r@ == spec_alternative_line(a.deep_view()),
{
    let mut r = "- ~~".to_owned();
    r.append(a.description.as_str());
    r.append("~~ -- ");
    r.append(a.reason_rejected.as_str());
    r.append("\n");
    proof {
        assert(r@ =~= spec_alternative_line(a.deep_view()));
    }
    r
}

/// All alternative bullets, in list order.
pub open spec fn spec_alternative_lines(alts: Seq<AlternativeView>) -> Seq<char>
    decreases alts.len(),
{
    if alts.len() == 0 {
        Seq::empty()
    } else {
        spec_alternative_lines(alts.drop_last()) + spec_alternative_line(alts.last())
    }
}

/// The alternatives section: absent when nothing was rejected.
pub open spec fn spec_alternatives_block(alts: Seq<AlternativeView>) -> Seq<char> {
    if alts.len() == 0 {
        Seq::empty()
    } else {
        "**Alternatives considered:**\n"@ + spec_alternative_lines(alts) + "\n"@
    }
}

fn alternatives_block(alts: &Vec<Alternative>) -> (r: String)
    ensures
        r@ == spec_alternatives_block(alts.deep_view()),
{
    let n = alts.len();
    if n == 0 {
        let r = String::new();
        proof {
            assert(r@ =~= spec_alternatives_block(alts.deep_view()));
        }
        return r;
    }
    let ghost av = alts.deep_view();
    let mut r = "**Alternatives considered:**\n".to_owned();
    let mut k: usize = 0;
    proof {
        assert(av.take(0) =~= Seq::<AlternativeView>::empty());
    }
    while k < n
        invariant
            k <= n,
            n == alts@.len(),
            alts.deep_view() == av,
            av.len() == n,
            r@ == "**Alternatives considered:**\n"@ + spec_alternative_lines(av.take(k as int)),
        decreases n - k,
    {
        let line = alternative_line(&alts[k]);
        r.append(line.as_str());
        proof {
            assert(av.take(k as int + 1).drop_last() =~= av.take(k as int));
            assert(av.take(k as int + 1).last() == av[k as int]);
        }
        k += 1;
    }
    r.append("\n");
    proof {
        assert(av.take(n as int) =~= av);
        assert(r@ =~= spec_alternatives_block(av));
    }
    r
}

/// One markdown section of the transcript: heading, agent and confidence
/// (as a percentage), rationale, influences and alternatives, and a rule.
pub open spec fn spec_section(d: DecisionView) -> Seq<char> {
    "## "@ + d.id + "\n\n**Agent:** "@ + d.agent + " | **Confidence:** "@ + spec_u64_str(
        d.confidence as int,
    ) + "%\n\n**Rationale:** "@ + d.rationale + "\n\n"@ + spec_influences_block(d.influences)
        + spec_alternatives_block(d.alternatives_considered) + "---\n\n"@
}

/// Renders one decision's section.
pub fn section(d: &Decision) -> (r: String)
    ensures
        r@ == spec_section(d.deep_view()),
{
    let mut r = "## ".to_owned();
    r.append(d.id.as_str());
    r.append("\n\n**Agent:** ");
    r.append(d.agent.as_str());
    r.append(" | **Confidence:** ");
    let conf = u64_to_string(d.confidence as u64);
    r.append(conf.as_str());
    r.append("%\n\n**Rationale:** ");
    r.append(d.rationale.as_str());
    r.append("\n\n");
    let infs = influences_block(&d.influences);
    r.append(infs.as_str());
    let alts = alternatives_block(&d.alternatives_considered);
    r.append(alts.as_str());
    r.append("---\n\n");
    proof {
        assert(r@ =~= spec_section(d.deep_view()));
    }
    r
}

/// All sections, in sequence order.
pub open spec fn spec_sections(ds: Seq<DecisionView>) -> Seq<char>
    decreases ds.len(),
{
    if ds.len() == 0 {
        Seq::empty()
    } else {
        spec_sections(ds.drop_last()) + spec_section(ds.last())
    }
}

/// The full transcript: title line, then one section per decision.
pub open spec fn spec_design_notes(t: DecisionTreeView) -> Seq<char> {
    "# Design Notes: "@ + t.project_id + "\n\n"@ + spec_sections(t.decisions)
}

/// Determinism law: the transcript is a function of the log's content
/// alone, so two logs with the same project id and the same decision
/// sequence render byte-identically.
pub proof fn lemma_design_notes_deterministic(a: DecisionTreeView, b: DecisionTreeView)
    requires
        a.project_id == b.project_id,
        a.decisions == b.decisions,
    ensures
        spec_design_notes(a) == spec_design_notes(b),
{
}

} // verus!
