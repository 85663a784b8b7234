use deltar::clauses::{
    compile_category, compile_clause, compile_merge, dedup_assignments, first_applicable,
    ClauseCategory, CompiledAction, CompiledClause, MergeClause, MergeRequest,
    UnsupportedClauseFlag,
};

fn clause(predicate: Option<&str>, assignments: &[(&str, &str)]) -> MergeClause {
    MergeClause {
        predicate: predicate.map(|s| s.to_string()),
        assignments: assignments
            .iter()
            .map(|(c, e)| (c.to_string(), e.to_string()))
            .collect(),
        update_all: false,
        insert_all: false,
    }
}

fn lookup<'a>(pairs: &'a [(String, String)], key: &str) -> Option<&'a str> {
    pairs.iter().find(|(k, _)| k == key).map(|(_, v)| v.as_str())
}

fn request(
    matched_update: Vec<MergeClause>,
    matched_delete: Vec<MergeClause>,
    not_matched_insert: Vec<MergeClause>,
) -> MergeRequest {
    MergeRequest {
        predicate: "target.id = source.id".to_string(),
        source_alias: "source".to_string(),
        target_alias: "target".to_string(),
        matched_update,
        matched_delete,
        not_matched_insert,
        not_matched_by_source_update: vec![],
        not_matched_by_source_delete: vec![],
    }
}

#[test]
fn dedup_keeps_the_last_value_for_a_repeated_column() {
    let input = vec![
        ("a".to_string(), "1".to_string()),
        ("b".to_string(), "2".to_string()),
        ("a".to_string(), "3".to_string()),
    ];
    let out = dedup_assignments(&input);
    assert_eq!(out.len(), 2);
    assert_eq!(lookup(&out, "a"), Some("3"));
    assert_eq!(lookup(&out, "b"), Some("2"));
}

#[test]
fn dedup_of_an_empty_list_is_empty() {
    assert_eq!(dedup_assignments(&vec![]).len(), 0);
}

#[test]
fn update_all_always_fails_in_every_category() {
    for category in [
        ClauseCategory::MatchedUpdate,
        ClauseCategory::MatchedDelete,
        ClauseCategory::NotMatchedInsert,
        ClauseCategory::NotMatchedBySourceUpdate,
        ClauseCategory::NotMatchedBySourceDelete,
    ] {
        let mut c = clause(None, &[]);
        c.update_all = true;
        let e = compile_clause(category, 0, &c).unwrap_err();
        assert_eq!(e.category, category);
        assert_eq!(e.flag, UnsupportedClauseFlag::UpdateAll);
        assert!(e.message().contains("not supported"));
    }
}

#[test]
fn insert_all_always_fails_in_every_category() {
    for category in [
        ClauseCategory::MatchedUpdate,
        ClauseCategory::MatchedDelete,
        ClauseCategory::NotMatchedInsert,
        ClauseCategory::NotMatchedBySourceUpdate,
        ClauseCategory::NotMatchedBySourceDelete,
    ] {
        let mut c = clause(None, &[]);
        c.insert_all = true;
        let e = compile_clause(category, 3, &c).unwrap_err();
        assert_eq!(e.category, category);
        assert_eq!(e.index, 3);
        assert_eq!(e.flag, UnsupportedClauseFlag::InsertAll);
    }
}

#[test]
fn update_all_is_reported_before_insert_all_when_both_are_set() {
    let mut c = clause(None, &[]);
    c.update_all = true;
    c.insert_all = true;
    let e = compile_clause(ClauseCategory::MatchedUpdate, 0, &c).unwrap_err();
    assert_eq!(e.flag, UnsupportedClauseFlag::UpdateAll);
}

#[test]
fn compile_keeps_predicates_and_deduplicates_assignments() {
    let c = clause(Some("target.x > 0"), &[("val", "source.val"), ("val", "source.other")]);
    let out = compile_clause(ClauseCategory::MatchedUpdate, 0, &c).unwrap();
    assert_eq!(out.predicate.as_deref(), Some("target.x > 0"));
    match out.action {
        CompiledAction::Update(asg) => {
            assert_eq!(asg.len(), 1);
            assert_eq!(lookup(&asg, "val"), Some("source.other"));
        },
        _ => panic!("matched-update must compile to an update action"),
    }
}

#[test]
fn delete_categories_compile_to_delete_actions() {
    let c = clause(Some("target.stale"), &[]);
    let out = compile_clause(ClauseCategory::MatchedDelete, 0, &c).unwrap();
    assert!(matches!(out.action, CompiledAction::Delete));
    let out = compile_clause(ClauseCategory::NotMatchedBySourceDelete, 0, &c).unwrap();
    assert!(matches!(out.action, CompiledAction::Delete));
}

#[test]
fn insert_category_compiles_to_insert_actions() {
    let c = clause(None, &[("id", "source.id"), ("val", "source.val")]);
    let out = compile_clause(ClauseCategory::NotMatchedInsert, 0, &c).unwrap();
    match out.action {
        CompiledAction::Insert(asg) => {
            assert_eq!(asg.len(), 2);
            assert_eq!(lookup(&asg, "id"), Some("source.id"));
            assert_eq!(lookup(&asg, "val"), Some("source.val"));
        },
        _ => panic!("not-matched-insert must compile to an insert action"),
    }
}

#[test]
fn category_compilation_stops_at_the_first_offending_clause() {
    let mut bad = clause(None, &[]);
    bad.update_all = true;
    let clauses = vec![clause(Some("a"), &[]), clause(Some("b"), &[]), bad, clause(None, &[])];
    let e = compile_category(ClauseCategory::MatchedUpdate, &clauses).unwrap_err();
    assert_eq!(e.index, 2);
}

#[test]
fn category_compilation_preserves_clause_order() {
    let clauses = vec![
        clause(Some("target.x > 0"), &[("a", "1")]),
        clause(None, &[("b", "2")]),
    ];
    let out = compile_category(ClauseCategory::MatchedUpdate, &clauses).unwrap();
    assert_eq!(out.len(), 2);
    assert_eq!(out[0].predicate.as_deref(), Some("target.x > 0"));
    assert_eq!(out[1].predicate, None);
}

#[test]
fn merge_compilation_carries_predicate_and_aliases() {
    let req = request(vec![clause(None, &[("val", "source.val")])], vec![], vec![]);
    let plan = compile_merge(&req).unwrap();
    assert_eq!(plan.predicate, "target.id = source.id");
    assert_eq!(plan.source_alias, "source");
    assert_eq!(plan.target_alias, "target");
    assert_eq!(plan.matched_update.len(), 1);
    assert_eq!(plan.matched_delete.len(), 0);
}

#[test]
fn merge_compilation_fails_on_the_first_offending_category() {
    let mut bad = clause(None, &[]);
    bad.insert_all = true;
    let req = request(
        vec![clause(None, &[("val", "source.val")])],
        vec![clause(Some("target.stale"), &[])],
        vec![clause(None, &[("id", "source.id")]), bad],
    );
    let e = compile_merge(&req).unwrap_err();
    assert_eq!(e.category, ClauseCategory::NotMatchedInsert);
    assert_eq!(e.index, 1);
    assert_eq!(e.flag, UnsupportedClauseFlag::InsertAll);
}

fn compiled(predicate: Option<&str>) -> CompiledClause {
    CompiledClause {
        predicate: predicate.map(|s| s.to_string()),
        action: CompiledAction::Delete,
    }
}

#[test]
fn first_clause_wins_when_its_predicate_holds() {
    // First clause has predicate `x > 0`, second is unconditional.
    let clauses = vec![compiled(Some("x > 0")), compiled(None)];
    let x = 5i64;
    let outcomes = vec![x > 0, true];
    assert_eq!(first_applicable(&clauses, &outcomes), Some(0));
}

#[test]
fn unconditional_clause_wins_when_the_predicate_fails() {
    let clauses = vec![compiled(Some("x > 0")), compiled(None)];
    let x = -1i64;
    let outcomes = vec![x > 0, true];
    assert_eq!(first_applicable(&clauses, &outcomes), Some(1));
}

#[test]
fn a_clause_after_an_unconditional_clause_never_applies() {
    let clauses = vec![compiled(None), compiled(Some("x > 0"))];
    for outcomes in [vec![true, true], vec![false, true], vec![true, false], vec![false, false]] {
        assert_eq!(first_applicable(&clauses, &outcomes), Some(0));
    }
}

#[test]
fn no_clause_applies_when_every_predicate_fails() {
    let clauses = vec![compiled(Some("a")), compiled(Some("b"))];
    assert_eq!(first_applicable(&clauses, &vec![false, false]), None);
}
