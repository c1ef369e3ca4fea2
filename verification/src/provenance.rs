//! The provenance log: an append-only sequence of design decisions with a
//! derived id-to-position lookup, ancestor walking, and influence queries.
//!
//! The lookup is consistent with the sequence only while every mutation goes
//! through `add`; after any out-of-band change to `decisions` it must be
//! restored by `rebuild_index` before `get` answers for the new entries.
use vstd::prelude::*;

verus! {

use crate::error::LayoutError;
use vstd::string::StringExecFns;

/// One recorded design choice. `confidence` is in hundredths (a percent),
/// standing for the unit interval.
#[derive(Debug, Clone)]
pub struct Decision {
    pub id: String,
    pub parent_id: Option<String>,
    pub timestamp: String,
    pub agent: String,
    pub kind: DecisionKind,
    pub rationale: String,
    pub influences: Vec<Influence>,
    pub alternatives_considered: Vec<Alternative>,
    pub confidence: u32,
}

#[derive(Debug, Clone)]
pub enum DecisionKind {
    Layout { property: String, value: String },
    Typography { property: String, value: String },
    Color { property: String, value: String },
    Content { property: String, value: String },
    Composition { description: String },
    StyleDirection { description: String },
    Revision { original_decision_id: String, reason: String },
}

/// A cited source that informed a decision. `weight` is in tenths.
#[derive(Debug, Clone)]
pub struct Influence {
    pub source: InfluenceSource,
    pub relevance: String,
    pub weight: u32,
}

#[derive(Debug, Clone)]
pub enum InfluenceSource {
    Book { title: String, chunk_id: String, excerpt: String },
    Moodboard { board_id: String, ref_id: String, description: String },
    AgentKnowledge { agent: String, skill: String, note: String },
    UserDirection { input: String },
    PriorDecision { decision_id: String },
}

/// An alternative that was considered but not chosen.
#[derive(Debug, Clone)]
pub struct Alternative {
    pub description: String,
    pub reason_rejected: String,
}

pub ghost struct DecisionView {
    pub id: Seq<char>,
    pub parent_id: Option<Seq<char>>,
    pub timestamp: Seq<char>,
    pub agent: Seq<char>,
    pub kind: DecisionKindView,
    pub rationale: Seq<char>,
    pub influences: Seq<InfluenceView>,
    pub alternatives_considered: Seq<AlternativeView>,
    pub confidence: u32,
}

pub ghost enum DecisionKindView {
    Layout { property: Seq<char>, value: Seq<char> },
    Typography { property: Seq<char>, value: Seq<char> },
    Color { property: Seq<char>, value: Seq<char> },
    Content { property: Seq<char>, value: Seq<char> },
    Composition { description: Seq<char> },
    StyleDirection { description: Seq<char> },
    Revision { original_decision_id: Seq<char>, reason: Seq<char> },
}

pub ghost struct InfluenceView {
    pub source: InfluenceSourceView,
    pub relevance: Seq<char>,
    pub weight: u32,
}

pub ghost enum InfluenceSourceView {
    Book { title: Seq<char>, chunk_id: Seq<char>, excerpt: Seq<char> },
    Moodboard { board_id: Seq<char>, ref_id: Seq<char>, description: Seq<char> },
    AgentKnowledge { agent: Seq<char>, skill: Seq<char>, note: Seq<char> },
    UserDirection { input: Seq<char> },
    PriorDecision { decision_id: Seq<char> },
}

pub ghost struct AlternativeView {
    pub description: Seq<char>,
    pub reason_rejected: Seq<char>,
}

impl DeepView for Decision {
    type V = DecisionView;

    open spec fn deep_view(&self) -> DecisionView {
        DecisionView {
            id: self.id@,
            parent_id: match self.parent_id {
                Some(p) => Some(p@),
                None => None,
            },
            timestamp: self.timestamp@,
            agent: self.agent@,
            kind: self.kind.deep_view(),
            rationale: self.rationale@,
            influences: self.influences.deep_view(),
            alternatives_considered: self.alternatives_considered.deep_view(),
            confidence: self.confidence,
        }
    }
}

impl DeepView for DecisionKind {
    type V = DecisionKindView;

    open spec fn deep_view(&self) -> DecisionKindView {
        match self {
            DecisionKind::Layout { property, value } => DecisionKindView::Layout {
                property: property@,
                value: value@,
            },
            DecisionKind::Typography { property, value } => DecisionKindView::Typography {
                property: property@,
                value: value@,
            },
            DecisionKind::Color { property, value } => DecisionKindView::Color {
                property: property@,
                value: value@,
            },
            DecisionKind::Content { property, value } => DecisionKindView::Content {
                property: property@,
                value: value@,
            },
            DecisionKind::Composition { description } => DecisionKindView::Composition {
                description: description@,
            },
            DecisionKind::StyleDirection { description } => DecisionKindView::StyleDirection {
                description: description@,
            },
            DecisionKind::Revision { original_decision_id, reason } => DecisionKindView::Revision {
                original_decision_id: original_decision_id@,
                reason: reason@,
            },
        }
    }
}

impl DeepView for Influence {
    type V = InfluenceView;

    open spec fn deep_view(&self) -> InfluenceView {
        InfluenceView {
            source: self.source.deep_view(),
            relevance: self.relevance@,
            weight: self.weight,
        }
    }
}

impl DeepView for InfluenceSource {
    type V = InfluenceSourceView;

    open spec fn deep_view(&self) -> InfluenceSourceView {
        match self {
            InfluenceSource::Book { title, chunk_id, excerpt } => InfluenceSourceView::Book {
                title: title@,
                chunk_id: chunk_id@,
                excerpt: excerpt@,
            },
            InfluenceSource::Moodboard { board_id, ref_id, description } => InfluenceSourceView::Moodboard {
                board_id: board_id@,
                ref_id: ref_id@,
                description: description@,
            },
            InfluenceSource::AgentKnowledge { agent, skill, note } => InfluenceSourceView::AgentKnowledge {
                agent: agent@,
                skill: skill@,
                note: note@,
            },
            InfluenceSource::UserDirection { input } => InfluenceSourceView::UserDirection {
                input: input@,
            },
            InfluenceSource::PriorDecision { decision_id } => InfluenceSourceView::PriorDecision {
                decision_id: decision_id@,
            },
        }
    }
}

impl DeepView for Alternative {
    type V = AlternativeView;

    open spec fn deep_view(&self) -> AlternativeView {
        AlternativeView { description: self.description@, reason_rejected: self.reason_rejected@ }
    }
}

/// The position of the last decision in `ds` carrying `id`, if any. This is
/// what the lookup holds for every id once it has been rebuilt: a duplicate
/// id resolves to its later occurrence.
pub open spec fn spec_last_index_of(ds: Seq<DecisionView>, id: Seq<char>) -> Option<int>
    decreases ds.len(),
{
    if ds.len() == 0 {
        None
    } else if ds.last().id == id {
        Some(ds.len() - 1)
    } else {
        spec_last_index_of(ds.drop_last(), id)
    }
}

/// What an index journal answers for `id`: the value of the latest entry
/// with that key.
pub open spec fn spec_entry_lookup(entries: Seq<(Seq<char>, int)>, id: Seq<char>) -> Option<int>
    decreases entries.len(),
{
    if entries.len() == 0 {
        None
    } else if entries.last().0 == id {
        Some(entries.last().1)
    } else {
        spec_entry_lookup(entries.drop_last(), id)
    }
}

/// The append-only decision log for a project, with its derived
/// id-to-position lookup.
#[derive(Debug, Clone)]
pub struct DecisionTree {
    pub project_id: String,
    pub decisions: Vec<Decision>,
    index: Vec<(String, usize)>,
}

/// The mathematical content of a `DecisionTree`: the project id, the
/// decision sequence, and the lookup journal.
pub ghost struct DecisionTreeView {
    pub project_id: Seq<char>,
    pub decisions: Seq<DecisionView>,
    pub index: Seq<(Seq<char>, int)>,
}

impl DecisionTreeView {
    /// The position the lookup currently holds for `id`, independent of
    /// whether it is still in step with `decisions`.
    pub open spec fn lookup(self, id: Seq<char>) -> Option<int> {
        spec_entry_lookup(self.index, id)
    }

    /// The decision the lookup resolves `id` to: the entry at the indexed
    /// position, provided that position still lies inside the sequence.
    pub open spec fn resolve(self, id: Seq<char>) -> Option<DecisionView> {
        match self.lookup(id) {
            Some(i) => if 0 <= i < self.decisions.len() {
                Some(self.decisions[i])
            } else {
                None
            },
            None => None,
        }
    }

    /// The lookup invariant: every id resolves to the position of its last
    /// occurrence in the sequence. `new`, `add` and `rebuild_index`
    /// establish it; mutating `decisions` directly breaks it until
    /// `rebuild_index` runs again.
    pub open spec fn synced(self) -> bool {
        forall|id: Seq<char>| #[trigger] self.lookup(id) == spec_last_index_of(self.decisions, id)
    }
}

impl View for DecisionTree {
    type V = DecisionTreeView;

    closed spec fn view(&self) -> DecisionTreeView {
        DecisionTreeView {
            project_id: self.project_id@,
            decisions: self.decisions.deep_view(),
            index: self.index@.map_values(|e: (String, usize)| (e.0@, e.1 as int)),
        }
    }
}

impl DecisionTree {
    /// An empty log for a project.
    pub fn new(project_id: &str) -> (t: DecisionTree)
        ensures
            t@.project_id == project_id@,
            t@.decisions.len() == 0,
            t@.index.len() == 0,
            t@.synced(),
    {
        let t = DecisionTree {
            project_id: project_id.to_owned(),
            decisions: Vec::new(),
            index: Vec::new(),
        };
        proof {
            assert(t@.index =~= Seq::<(Seq<char>, int)>::empty());
            assert(t@.decisions =~= Seq::<DecisionView>::empty());
        }
        t
    }

    /// Appends a decision and records its id at the new position in the
    /// lookup. A duplicate id now resolves to this later occurrence,
    /// shadowing the earlier one.
    pub fn add(&mut self, decision: Decision)
        ensures
            final(self)@.project_id == old(self)@.project_id,
            final(self)@.decisions == old(self)@.decisions.push(decision.deep_view()),
            forall|id: Seq<char>| #[trigger] final(self)@.lookup(id) == (if id == decision.id@ {
                Some(old(self)@.decisions.len() as int)
            } else {
                old(self)@.lookup(id)
            }),
            old(self)@.synced() ==> final(self)@.synced(),
    {
        let ghost oldv = self@;
        let idx = self.decisions.len();
        let key = decision.id.clone();
        self.index.push((key, idx));
        self.decisions.push(decision);
        proof {
            assert(self@.decisions =~= oldv.decisions.push(decision.deep_view()));
            assert(self@.index =~= oldv.index.push((decision.id@, idx as int)));
            assert(self@.index.drop_last() =~= oldv.index);
            assert forall|id: Seq<char>| #[trigger] self@.lookup(id) == (if id == decision.id@ {
                Some(oldv.decisions.len() as int)
            } else {
                oldv.lookup(id)
            }) by {
                assert(self@.index.last() == (decision.id@, idx as int));
            }
            if oldv.synced() {
                assert forall|id: Seq<char>| #[trigger]
                    self@.lookup(id) == spec_last_index_of(self@.decisions, id) by {
                    assert(self@.decisions.drop_last() =~= oldv.decisions);
                    assert(self@.decisions.last() == decision.deep_view());
                }
            }
        }
    }

    /// The decision the lookup resolves `key` to, scanning the journal from
    /// its newest entry.
    fn resolve_ref(&self, key: &String) -> (r: Option<&Decision>)
        ensures
            match r {
                Some(d) => self@.resolve(key@) == Some(d.deep_view()),
                None => self@.resolve(key@) is None,
            },
    {
        let n = self.index.len();
        let mut j = n;
        proof {
            assert(self@.index.take(n as int) =~= self@.index);
        }
        while j > 0
            invariant
                j <= n,
                n == self.index@.len(),
                n == self@.index.len(),
                spec_entry_lookup(self@.index, key@) == spec_entry_lookup(
                    self@.index.take(j as int),
                    key@,
                ),
            decreases j,
        {
            j -= 1;
            proof {
                assert(self@.index.take(j as int + 1).last() == self@.index[j as int]);
                assert(self@.index.take(j as int + 1).drop_last() =~= self@.index.take(j as int));
                assert(self@.index[j as int] == (self.index@[j as int].0@, self.index@[j as int].1 as int));
            }
            let entry_key_matches = self.index[j].0 == *key;
            if entry_key_matches {
                let pos = self.index[j].1;
                if pos < self.decisions.len() {
                    return Some(&self.decisions[pos]);
                } else {
                    return None;
                }
            }
        }
        proof {
            assert(self@.index.take(0) =~= Seq::<(Seq<char>, int)>::empty());
        }
        None
    }

    /// Looks a decision up by id through the index. Fails with
    /// `UnknownDecisionId` when the id is not indexed, or the indexed
    /// position no longer lies inside the sequence.
    pub fn get(&self, id: &str) -> (r: Result<&Decision, LayoutError>)
        ensures
            r matches Ok(d) ==> self@.resolve(id@) == Some(d.deep_view()),
            r is Err <==> self@.resolve(id@) is None,
            r matches Err(e) ==> e matches LayoutError::UnknownDecisionId { id: eid } && eid@
                == id@,
    {
        let key = id.to_owned();
        match self.resolve_ref(&key) {
            Some(d) => Ok(d),
            None => Err(LayoutError::UnknownDecisionId { id: key }),
        }
    }

    /// Clears and recomputes the id-to-position lookup from the current
    /// sequence, restoring the lookup invariant after any out-of-band
    /// mutation of `decisions`.
    pub fn rebuild_index(&mut self)
        ensures
            final(self)@.project_id == old(self)@.project_id,
            final(self)@.decisions == old(self)@.decisions,
            final(self)@.synced(),
    {
        self.index.clear();
        let ghost ds = self@.decisions;
        let ghost pid = self@.project_id;
        let n = self.decisions.len();
        let mut i: usize = 0;
        proof {
            assert(self@.index =~= Seq::<(Seq<char>, int)>::empty());
            assert(ds.take(0) =~= Seq::<DecisionView>::empty());
        }
        while i < n
            invariant
                i <= n,
                n == self.decisions@.len(),
                self@.decisions == ds,
                self@.project_id == pid,
                ds.len() == n,
                forall|id: Seq<char>| #[trigger] spec_entry_lookup(self@.index, id)
                    == spec_last_index_of(ds.take(i as int), id),
            decreases n - i,
        {
            let ghost oldidx = self@.index;
            let key = self.decisions[i].id.clone();
            self.index.push((key, i));
            proof {
                assert(self@.index =~= oldidx.push((ds[i as int].id, i as int)));
                assert(self@.index.drop_last() =~= oldidx);
                assert(ds.take(i as int + 1).drop_last() =~= ds.take(i as int));
                assert(ds.take(i as int + 1).last() == ds[i as int]);
                assert forall|id: Seq<char>| #[trigger] spec_entry_lookup(self@.index, id)
                    == spec_last_index_of(ds.take(i as int + 1), id) by {
                    assert(self@.index.last() == (ds[i as int].id, i as int));
                    if id != ds[i as int].id {
                        assert(spec_entry_lookup(self@.index, id) == spec_entry_lookup(
                            oldidx,
                            id,
                        ));
                        assert(spec_last_index_of(ds.take(i as int + 1), id)
                            == spec_last_index_of(ds.take(i as int), id));
                    }
                }
            }
            i += 1;
        }
        proof {
            assert(ds.take(n as int) =~= ds);
        }
    }
}

/// A hit in `spec_last_index_of` is a real position carrying that id.
pub proof fn lemma_last_index_of_in_range(ds: Seq<DecisionView>, id: Seq<char>)
    requires
        spec_last_index_of(ds, id) is Some,
    ensures
        spec_last_index_of(ds, id) matches Some(i) && 0 <= i < ds.len() && ds[i].id == id,
    decreases ds.len(),
{
    if ds.len() > 0 && ds.last().id != id {
        lemma_last_index_of_in_range(ds.drop_last(), id);
    }
}

/// Index law: while the lookup is in step with the sequence, every id
/// resolves to the decision at its last occurrence, and ids that occur
/// nowhere resolve to nothing. `add` and `rebuild_index` establish
/// `synced`; an out-of-band append leaves the lookup stale until
/// `rebuild_index` runs.
pub proof fn lemma_synced_resolve(t: DecisionTreeView, id: Seq<char>)
    requires
        t.synced(),
    ensures
        t.resolve(id) == match spec_last_index_of(t.decisions, id) {
            Some(i) => Some(t.decisions[i]),
            None => None,
        },
{
    if spec_last_index_of(t.decisions, id) is Some {
        lemma_last_index_of_in_range(t.decisions, id);
    }
}

/// The ids the lookup journal has entries for.
pub open spec fn spec_index_keys(t: DecisionTreeView) -> Seq<Seq<char>> {
    t.index.map_values(|e: (Seq<char>, int)| e.0)
}

/// One step-at-a-time account of the ancestor walk: starting at `cur` with
/// the given already-visited query ids and collected chain, it either
/// detects a revisited id (`Err` with that id), runs off an unresolvable id
/// or a root (`Ok` with the chain in walk order), or runs out of `fuel`
/// (`None`; never reached from `spec_lineage`'s fuel).
pub open spec fn spec_walk(
    t: DecisionTreeView,
    cur: Seq<char>,
    visited: Seq<Seq<char>>,
    chain: Seq<DecisionView>,
    fuel: nat,
) -> Option<Result<Seq<DecisionView>, Seq<char>>>
    decreases fuel,
{
    if visited.contains(cur) {
        Some(Err(cur))
    } else {
        match t.resolve(cur) {
            None => Some(Ok(chain)),
            Some(d) => match d.parent_id {
                None => Some(Ok(chain.push(d))),
                Some(pid) => if fuel == 0 {
                    None
                } else {
                    spec_walk(t, pid, visited.push(cur), chain.push(d), (fuel - 1) as nat)
                },
            },
        }
    }
}

/// What `lineage` returns for `id`: the parent chain from the given node
/// (first) towards a root (last), or the first revisited id.
pub open spec fn spec_lineage(t: DecisionTreeView, id: Seq<char>) -> Option<
    Result<Seq<DecisionView>, Seq<char>>,
> {
    spec_walk(t, id, Seq::empty(), Seq::empty(), (t.index.len() + 1) as nat)
}

/// A lookup hit means the journal holds an entry with that key.
proof fn lemma_lookup_some_key(entries: Seq<(Seq<char>, int)>, id: Seq<char>)
    requires
        spec_entry_lookup(entries, id) is Some,
    ensures
        exists|j: int| 0 <= j < entries.len() && entries[j].0 == id,
    decreases entries.len(),
{
    if entries.len() > 0 {
        if entries.last().0 == id {
            assert(entries[entries.len() - 1].0 == id);
        } else {
            lemma_lookup_some_key(entries.drop_last(), id);
            let j = choose|j: int| 0 <= j < entries.drop_last().len() && entries.drop_last()[j].0
                == id;
            assert(entries[j].0 == id);
        }
    }
}

/// Distinct ids that all occur among `keys` cannot outnumber `keys`.
proof fn lemma_distinct_members_bound(keys: Seq<Seq<char>>, visited: Seq<Seq<char>>)
    requires
        visited.no_duplicates(),
        forall|k: int| 0 <= k < visited.len() ==> keys.contains(#[trigger] visited[k]),
    ensures
        visited.len() <= keys.len(),
{
    visited.unique_seq_to_set();
    assert forall|x: Seq<char>| #[trigger] visited.to_set().contains(x) implies keys.to_set().contains(x) by {
        assert(visited.contains(x));
        assert(keys.contains(x));
    }
    assert(visited.to_set().subset_of(keys.to_set()));
    vstd::set_lib::lemma_len_subset(visited.to_set(), keys.to_set());
    keys.lemma_cardinality_of_set();
}

/// Whether the vector holds a string with this content.
fn vec_contains_string(v: &Vec<String>, s: &String) -> (r: bool)
    ensures
        r == v.deep_view().contains(s@),
{
    let n = v.len();
    let mut k: usize = 0;
    while k < n
        invariant
            k <= n,
            n == v@.len(),
            forall|m: int| 0 <= m < k ==> v.deep_view()[m] != s@,
        decreases n - k,
    {
        if v[k] == *s {
            proof {
                assert(v.deep_view()[k as int] == s@);
            }
            return true;
        }
        k += 1;
    }
    proof {
        if v.deep_view().contains(s@) {
            let m = choose|m: int| 0 <= m < v.deep_view().len() && v.deep_view()[m] == s@;
            assert(false);
        }
    }
    false
}

impl DecisionTree {
    /// Walks the parent chain starting at `id`, following `parent_id` until
    /// a node with no parent (or a dangling id) is reached, and returns the
    /// chain in walk order: the given node first, the root last. Tracks the
    /// ids already walked and fails with `CyclicLineage` on the first id a
    /// parent chain revisits, instead of looping.
    pub fn lineage(&self, id: &str) -> (r: Result<Vec<&Decision>, LayoutError>)
        ensures
            r matches Ok(chain) ==> spec_lineage(self@, id@) == Some(
                Ok::<Seq<DecisionView>, Seq<char>>(chain.deep_view()),
            ),
            r matches Err(e) ==> e matches LayoutError::CyclicLineage { id: cid }
                && spec_lineage(self@, id@) == Some(
                Err::<Seq<DecisionView>, Seq<char>>(cid@),
            ),
    {
        let ghost t = self@;
        let mut visited: Vec<String> = Vec::new();
        let mut chain: Vec<&Decision> = Vec::new();
        let mut cur: String = id.to_owned();
        proof {
            assert(visited.deep_view() =~= Seq::<Seq<char>>::empty());
            assert(chain.deep_view() =~= Seq::<DecisionView>::empty());
        }
        loop
            invariant
                visited.deep_view().no_duplicates(),
                visited@.len() == visited.deep_view().len(),
                forall|k: int| 0 <= k < visited.deep_view().len() ==> spec_index_keys(t).contains(
                    #[trigger] visited.deep_view()[k],
                ),
                visited.deep_view().len() <= t.index.len(),
                spec_lineage(t, id@) == spec_walk(
                    t,
                    cur@,
                    visited.deep_view(),
                    chain.deep_view(),
                    (t.index.len() + 1 - visited.deep_view().len()) as nat,
                ),
                t == self@,
            decreases t.index.len() + 1 - visited.deep_view().len(),
        {
            let ghost fuel = (t.index.len() + 1 - visited.deep_view().len()) as nat;
            proof {
                assert(fuel > 0);
            }
            if vec_contains_string(&visited, &cur) {
                return Err(LayoutError::CyclicLineage { id: cur });
            }
            match self.resolve_ref(&cur) {
                None => {
                    return Ok(chain);
                },
                Some(d) => {
                    let ghost old_chain = chain.deep_view();
                    chain.push(d);
                    proof {
                        assert(chain.deep_view() =~= old_chain.push(d.deep_view()));
                    }
                    match &d.parent_id {
                        None => {
                            return Ok(chain);
                        },
                        Some(p) => {
                            let ghost old_visited = visited.deep_view();
                            proof {
                                lemma_lookup_some_key(t.index, cur@);
                                let j = choose|j: int| 0 <= j < t.index.len() && t.index[j].0
                                    == cur@;
                                assert(spec_index_keys(t)[j] == cur@);
                                assert(spec_index_keys(t).contains(cur@));
                            }
                            visited.push(cur);
                            proof {
                                assert(visited.deep_view() =~= old_visited.push(cur@));
                                assert(visited.deep_view().no_duplicates());
                                lemma_distinct_members_bound(
                                    spec_index_keys(t),
                                    visited.deep_view(),
                                );
                                assert(spec_index_keys(t).len() == t.index.len());
                            }
                            cur = p.clone();
                        },
                    }
                },
            }
        }
    }
}

/// Whether the decision cites a book influence with this exact title.
pub open spec fn spec_cites_book(d: DecisionView, title: Seq<char>) -> bool {
    exists|i: int|
        0 <= i < d.influences.len() && ((#[trigger] d.influences[i].source) matches
            InfluenceSourceView::Book { title: t, .. } && t == title)
}

/// Whether the decision cites a moodboard influence with this reference id.
pub open spec fn spec_cites_ref(d: DecisionView, ref_id: Seq<char>) -> bool {
    exists|i: int|
        0 <= i < d.influences.len() && ((#[trigger] d.influences[i].source) matches
            InfluenceSourceView::Moodboard { ref_id: r, .. } && r == ref_id)
}

/// The book-citation test as a predicate on decisions.
pub open spec fn spec_book_pred(title: Seq<char>) -> spec_fn(DecisionView) -> bool {
    |d: DecisionView| spec_cites_book(d, title)
}

/// The moodboard-citation test as a predicate on decisions.
pub open spec fn spec_ref_pred(ref_id: Seq<char>) -> spec_fn(DecisionView) -> bool {
    |d: DecisionView| spec_cites_ref(d, ref_id)
}

/// Whether `d` cites a book influence titled exactly `title`.
fn cites_book(d: &Decision, title: &String) -> (r: bool)
    ensures
        r == spec_cites_book(d.deep_view(), title@),
{
    let n = d.influences.len();
    let mut k: usize = 0;
    while k < n
        invariant
            k <= n,
            n == d.influences@.len(),
            forall|m: int|
                0 <= m < k ==> !((#[trigger] d.deep_view().influences[m].source) matches
                    InfluenceSourceView::Book { title: t, .. } && t == title@),
        decreases n - k,
    {
        match &d.influences[k].source {
            InfluenceSource::Book { title: t, .. } => {
                if *t == *title {
                    proof {
                        assert(d.deep_view().influences[k as int].source matches
                            InfluenceSourceView::Book { title: bt, .. } && bt == title@);
                    }
                    return true;
                }
            },
            _ => {},
        }
        k += 1;
    }
    false
}

/// Whether `d` cites a moodboard influence with reference id `ref_id`.
fn cites_ref(d: &Decision, ref_id: &String) -> (r: bool)
    ensures
        r == spec_cites_ref(d.deep_view(), ref_id@),
{
    let n = d.influences.len();
    let mut k: usize = 0;
    while k < n
        invariant
            k <= n,
            n == d.influences@.len(),
            forall|m: int|
                0 <= m < k ==> !((#[trigger] d.deep_view().influences[m].source) matches
                    InfluenceSourceView::Moodboard { ref_id: r0, .. } && r0 == ref_id@),
        decreases n - k,
    {
        match &d.influences[k].source {
            InfluenceSource::Moodboard { ref_id: r0, .. } => {
                if *r0 == *ref_id {
                    proof {
                        assert(d.deep_view().influences[k as int].source matches
                            InfluenceSourceView::Moodboard { ref_id: br, .. } && br == ref_id@);
                    }
                    return true;
                }
            },
            _ => {},
        }
        k += 1;
    }
    false
}

impl DecisionTree {
    /// Every decision whose influence list cites a book with exactly this
    /// title, in original insertion order.
    pub fn decisions_influenced_by_book(&self, title: &str) -> (r: Vec<&Decision>)
        ensures
            r.deep_view() == self@.decisions.filter(spec_book_pred(title@)),
    {
        broadcast use vstd::seq_lib::group_filter_ensures;

        let key = title.to_owned();
        let ghost ds = self@.decisions;
        let mut out: Vec<&Decision> = Vec::new();
        let n = self.decisions.len();
        let mut i: usize = 0;
        proof {
            assert(ds.take(0) =~= Seq::<DecisionView>::empty());
            assert(out.deep_view() =~= Seq::<DecisionView>::empty());
            assert(Seq::<DecisionView>::empty().filter(spec_book_pred(title@))
                =~= Seq::<DecisionView>::empty());
        }
        while i < n
            invariant
                i <= n,
                n == self.decisions@.len(),
                self@.decisions == ds,
                ds.len() == n,
                key@ == title@,
                out.deep_view() == ds.take(i as int).filter(spec_book_pred(title@)),
            decreases n - i,
        {
            let ghost old_out = out.deep_view();
            if cites_book(&self.decisions[i], &key) {
                out.push(&self.decisions[i]);
                proof {
                    assert(out.deep_view() =~= old_out.push(ds[i as int]));
                }
            }
            proof {
                assert(ds.take(i as int + 1) =~= ds.take(i as int).push(ds[i as int]));
                ds.take(i as int).lemma_filter_push(ds[i as int], spec_book_pred(title@));
                assert(spec_book_pred(title@)(ds[i as int]) == spec_cites_book(
                    ds[i as int],
                    title@,
                ));
            }
            i += 1;
        }
        proof {
            assert(ds.take(n as int) =~= ds);
        }
        out
    }

    /// Every decision whose influence list cites a moodboard reference with
    /// this id, in original insertion order.
    pub fn decisions_influenced_by_ref(&self, ref_id: &str) -> (r: Vec<&Decision>)
        ensures
            r.deep_view() == self@.decisions.filter(spec_ref_pred(ref_id@)),
    {
        broadcast use vstd::seq_lib::group_filter_ensures;

        let key = ref_id.to_owned();
        let ghost ds = self@.decisions;
        let mut out: Vec<&Decision> = Vec::new();
        let n = self.decisions.len();
        let mut i: usize = 0;
        proof {
            assert(ds.take(0) =~= Seq::<DecisionView>::empty());
            assert(out.deep_view() =~= Seq::<DecisionView>::empty());
            assert(Seq::<DecisionView>::empty().filter(spec_ref_pred(ref_id@))
                =~= Seq::<DecisionView>::empty());
        }
        while i < n
            invariant
                i <= n,
                n == self.decisions@.len(),
                self@.decisions == ds,
                ds.len() == n,
                key@ == ref_id@,
                out.deep_view() == ds.take(i as int).filter(spec_ref_pred(ref_id@)),
            decreases n - i,
        {
            let ghost old_out = out.deep_view();
            if cites_ref(&self.decisions[i], &key) {
                out.push(&self.decisions[i]);
                proof {
                    assert(out.deep_view() =~= old_out.push(ds[i as int]));
                }
            }
            proof {
                assert(ds.take(i as int + 1) =~= ds.take(i as int).push(ds[i as int]));
                ds.take(i as int).lemma_filter_push(ds[i as int], spec_ref_pred(ref_id@));
                assert(spec_ref_pred(ref_id@)(ds[i as int]) == spec_cites_ref(
                    ds[i as int],
                    ref_id@,
                ));
            }
            i += 1;
        }
        proof {
            assert(ds.take(n as int) =~= ds);
        }
        out
    }
}

impl DecisionTree {
    /// Renders the markdown design-notes transcript: one section per
    /// decision in sequence order. Byte-identical output for identical
    /// input, on every call.
    pub fn to_design_notes(&self) -> (r: String)
        ensures
            r@ == crate::notes::spec_design_notes(self@),
    {
        let ghost ds = self@.decisions;
        let mut md = "# Design Notes: ".to_owned();
        md.append(self.project_id.as_str());
        md.append("\n\n");
        let n = self.decisions.len();
        let mut i: usize = 0;
        proof {
            assert(ds.take(0) =~= Seq::<DecisionView>::empty());
        }
        while i < n
            invariant
                i <= n,
                n == self.decisions@.len(),
                self@.decisions == ds,
                ds.len() == n,
                md@ == "# Design Notes: "@ + self@.project_id + "\n\n"@
                    + crate::notes::spec_sections(ds.take(i as int)),
            decreases n - i,
        {
            let s = crate::notes::section(&self.decisions[i]);
            md.append(s.as_str());
            proof {
                assert(ds.take(i as int + 1).drop_last() =~= ds.take(i as int));
                assert(ds.take(i as int + 1).last() == ds[i as int]);
            }
            i += 1;
        }
        proof {
            assert(ds.take(n as int) =~= ds);
        }
        md
    }
}

} // verus!
