use layout::error::LayoutError;
use layout::provenance::{Alternative, Decision, DecisionKind, Influence, InfluenceSource};
use layout::DecisionTree;

fn decision(id: &str, parent: Option<&str>) -> Decision {
    Decision {
        id: id.to_string(),
        parent_id: parent.map(|p| p.to_string()),
        timestamp: "2024-01-01T00:00:00Z".to_string(),
        agent: "alice".to_string(),
        kind: DecisionKind::Layout {
            property: "grid".to_string(),
            value: "3x4".to_string(),
        },
        rationale: "because".to_string(),
        influences: Vec::new(),
        alternatives_considered: Vec::new(),
        confidence: 85,
    }
}

fn book_influence(title: &str, excerpt: &str, weight: u32) -> Influence {
    Influence {
        source: InfluenceSource::Book {
            title: title.to_string(),
            chunk_id: "c1".to_string(),
            excerpt: excerpt.to_string(),
        },
        relevance: "high".to_string(),
        weight,
    }
}

#[test]
fn get_finds_added_decisions() {
    let mut t = DecisionTree::new("proj");
    t.add(decision("d1", None));
    t.add(decision("d2", Some("d1")));
    assert_eq!(t.get("d1").unwrap().id, "d1");
    assert_eq!(t.get("d2").unwrap().id, "d2");
    let e = t.get("zz").unwrap_err();
    assert_eq!(e, LayoutError::UnknownDecisionId { id: "zz".to_string() });
    assert_eq!(e.message(), "unknown decision id: zz");
}

#[test]
fn duplicate_id_resolves_to_later_occurrence() {
    let mut t = DecisionTree::new("proj");
    let mut first = decision("d1", None);
    first.agent = "alice".to_string();
    let mut second = decision("d1", None);
    second.agent = "bob".to_string();
    t.add(first);
    t.add(second);
    assert_eq!(t.get("d1").unwrap().agent, "bob");
}

// Lineage on the chain A <- B <- C returns [C, B, A]; closing the chain
// into a cycle fails with CyclicLineage instead of looping.
#[test]
fn lineage_walks_to_root_and_detects_cycles() {
    let mut t = DecisionTree::new("proj");
    t.add(decision("A", None));
    t.add(decision("B", Some("A")));
    t.add(decision("C", Some("B")));
    let chain = t.lineage("C").unwrap();
    let ids: Vec<&str> = chain.iter().map(|d| d.id.as_str()).collect();
    assert_eq!(ids, vec!["C", "B", "A"]);

    let mut cyclic = DecisionTree::new("proj");
    cyclic.add(decision("A", Some("C")));
    cyclic.add(decision("B", Some("A")));
    cyclic.add(decision("C", Some("B")));
    let e = cyclic.lineage("C").unwrap_err();
    assert!(matches!(e, LayoutError::CyclicLineage { .. }));
}

#[test]
fn lineage_tolerates_dangling_parent() {
    let mut t = DecisionTree::new("proj");
    t.add(decision("B", Some("missing")));
    let chain = t.lineage("B").unwrap();
    assert_eq!(chain.len(), 1);
    assert_eq!(chain[0].id, "B");
    assert!(t.lineage("absent").unwrap().is_empty());
}

#[test]
fn influence_queries_scan_in_insertion_order() {
    let mut t = DecisionTree::new("proj");
    let mut a = decision("a", None);
    a.influences.push(book_influence("Grid Systems", "x", 9));
    let mut b = decision("b", None);
    b.influences.push(Influence {
        source: InfluenceSource::Moodboard {
            board_id: "m1".to_string(),
            ref_id: "r7".to_string(),
            description: "mood".to_string(),
        },
        relevance: "med".to_string(),
        weight: 5,
    });
    let mut c = decision("c", None);
    c.influences.push(book_influence("Grid Systems", "y", 3));
    t.add(a);
    t.add(b);
    t.add(c);

    let by_book = t.decisions_influenced_by_book("Grid Systems");
    let ids: Vec<&str> = by_book.iter().map(|d| d.id.as_str()).collect();
    assert_eq!(ids, vec!["a", "c"]);
    assert!(t.decisions_influenced_by_book("Other").is_empty());

    let by_ref = t.decisions_influenced_by_ref("r7");
    assert_eq!(by_ref.len(), 1);
    assert_eq!(by_ref[0].id, "b");
    assert!(t.decisions_influenced_by_ref("r8").is_empty());
}

// Appending directly to the sequence bypasses the index: get fails until
// rebuild_index restores the lookup.
#[test]
fn stale_index_until_rebuild() {
    let mut t = DecisionTree::new("proj");
    t.add(decision("d1", None));
    t.decisions.push(decision("d2", None));
    assert!(matches!(
        t.get("d2"),
        Err(LayoutError::UnknownDecisionId { .. })
    ));
    t.rebuild_index();
    assert_eq!(t.get("d2").unwrap().id, "d2");
    assert_eq!(t.get("d1").unwrap().id, "d1");
}

#[test]
fn design_notes_exact_transcript() {
    let mut t = DecisionTree::new("proj");
    let mut d = decision("d1", None);
    d.influences.push(book_influence("Grid Systems", "use a grid", 8));
    d.alternatives_considered.push(Alternative {
        description: "freeform".to_string(),
        reason_rejected: "too loose".to_string(),
    });
    t.add(d);
    let md = t.to_design_notes();
    let expected = "# Design Notes: proj\n\n\
        ## d1\n\n\
        **Agent:** alice | **Confidence:** 85%\n\n\
        **Rationale:** because\n\n\
        **Influences:**\n\
        - Book: *Grid Systems* -- \"use a grid\" (weight: 0.8)\n\n\
        **Alternatives considered:**\n\
        - ~~freeform~~ -- too loose\n\n\
        ---\n\n";
    assert_eq!(md, expected);
}

#[test]
fn design_notes_source_accounts() {
    let mut t = DecisionTree::new("proj");
    let mut d = decision("d1", None);
    d.influences.push(Influence {
        source: InfluenceSource::UserDirection { input: "make it red".to_string() },
        relevance: "high".to_string(),
        weight: 10,
    });
    d.influences.push(Influence {
        source: InfluenceSource::PriorDecision { decision_id: "d0".to_string() },
        relevance: "med".to_string(),
        weight: 3,
    });
    d.influences.push(Influence {
        source: InfluenceSource::AgentKnowledge {
            agent: "bob".to_string(),
            skill: "type".to_string(),
            note: "serif pairs".to_string(),
        },
        relevance: "low".to_string(),
        weight: 2,
    });
    t.add(d);
    let md = t.to_design_notes();
    assert!(md.contains("- User: make it red (weight: 1.0)\n"));
    assert!(md.contains("- Prior decision: d0 (weight: 0.3)\n"));
    assert!(md.contains("- Agent bob: serif pairs (weight: 0.2)\n"));
}

#[test]
fn design_notes_truncates_long_excerpts() {
    let mut t = DecisionTree::new("proj");
    let mut d = decision("d1", None);
    let long: String = "x".repeat(100);
    d.influences.push(book_influence("B", &long, 5));
    t.add(d);
    let md = t.to_design_notes();
    let shown: String = "x".repeat(80);
    assert!(md.contains(&format!("\"{}\"", shown)));
    assert!(!md.contains(&"x".repeat(81)));
}

// Byte-identical output across repeated calls on the same input.
#[test]
fn design_notes_deterministic() {
    let mut t = DecisionTree::new("proj");
    t.add(decision("d1", None));
    t.add(decision("d2", Some("d1")));
    assert_eq!(t.to_design_notes(), t.to_design_notes());
    assert_eq!(t.to_design_notes().as_bytes(), t.to_design_notes().as_bytes());
}
