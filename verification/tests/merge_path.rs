use deltar::clauses::{first_applicable, CompiledAction, MergeClause, MergePlan, MergeRequest};
use deltar::errors::TableError;
use deltar::mergeop::{MergeCommand, MergeEvent, MergeMachine, MergeMetrics, MergePhase};
use deltar::stream::StreamBridge;
use deltar::types::{SourceField, SourceType, TargetPrimitive, TargetType};
use deltar::writeop::{
    build_create_request, SaveMode, WriteCommand, WriteEvent, WriteMachine,
};

fn upsert_clause(predicate: Option<&str>, assignments: &[(&str, &str)]) -> MergeClause {
    MergeClause {
        predicate: predicate.map(|s| s.to_string()),
        assignments: assignments
            .iter()
            .map(|(c, e)| (c.to_string(), e.to_string()))
            .collect(),
        update_all: false,
        insert_all: false,
    }
}

fn upsert_request(matched_update: Vec<MergeClause>, not_matched_insert: Vec<MergeClause>) -> MergeRequest {
    MergeRequest {
        predicate: "target.id = source.id".to_string(),
        source_alias: "source".to_string(),
        target_alias: "target".to_string(),
        matched_update,
        matched_delete: vec![],
        not_matched_insert,
        not_matched_by_source_update: vec![],
        not_matched_by_source_delete: vec![],
    }
}

/// A stand-in table: rows of `{id, val}`, a version counter, and a record of
/// every write attempt.
struct ModelTable {
    rows: Vec<(i64, String)>,
    version: i64,
    write_attempts: u64,
}

impl ModelTable {
    /// Applies a compiled upsert plan the way the engine would: each source
    /// row is classified against the join on `id`, and the first applicable
    /// clause of the matching category acts on it.  Expressions are the
    /// model's own: `source.val` and `source.id` read the source row.
    fn execute_merge(&mut self, plan: &MergePlan, source: &[(i64, String)]) -> MergeMetrics {
        self.write_attempts += 1;
        let mut inserted = 0u64;
        let mut updated = 0u64;
        for (sid, sval) in source {
            let matched = self.rows.iter().position(|(tid, _)| tid == sid);
            match matched {
                Some(row) => {
                    let outcomes = vec![true; plan.matched_update.len()];
                    if let Some(i) = first_applicable(&plan.matched_update, &outcomes) {
                        if let CompiledAction::Update(assignments) = &plan.matched_update[i].action {
                            for (column, expression) in assignments {
                                if column == "val" && expression == "source.val" {
                                    self.rows[row].1 = sval.clone();
                                }
                            }
                            updated += 1;
                        }
                    }
                },
                None => {
                    let outcomes = vec![true; plan.not_matched_insert.len()];
                    if let Some(i) = first_applicable(&plan.not_matched_insert, &outcomes) {
                        if let CompiledAction::Insert(_) = &plan.not_matched_insert[i].action {
                            self.rows.push((*sid, sval.clone()));
                            inserted += 1;
                        }
                    }
                },
            }
        }
        self.version += 1;
        MergeMetrics {
            rows_inserted: inserted,
            rows_updated: updated,
            rows_deleted: 0,
            rows_copied: self.rows.len() as u64 - inserted - updated,
            files_added: 1,
            files_removed: 0,
            output_rows: self.rows.len() as u64,
            execution_time_ms: 1,
        }
    }
}

#[test]
fn a_failing_clause_in_the_third_category_leaves_the_table_version_unchanged() {
    let mut bad = upsert_clause(None, &[]);
    bad.insert_all = true;
    let req = upsert_request(vec![upsert_clause(None, &[("val", "source.val")])], vec![bad]);
    let mut table = ModelTable { rows: vec![(1, "a".to_string())], version: 5, write_attempts: 0 };
    let mut machine = MergeMachine::new(req);

    assert!(matches!(machine.step(MergeEvent::SourceBatch), MergeCommand::CollectBatch));
    assert!(matches!(machine.step(MergeEvent::SourceEnded), MergeCommand::OpenTable));
    match machine.step(MergeEvent::TableLoaded) {
        MergeCommand::Fail(TableError::Clause(e)) => {
            assert_eq!(e.category, deltar::clauses::ClauseCategory::NotMatchedInsert);
        },
        MergeCommand::Execute(plan) => {
            table.execute_merge(&plan, &[]);
            panic!("a request with an insert-all clause must not execute");
        },
        _ => panic!("expected a clause error"),
    }
    assert_eq!(machine.phase, MergePhase::Failed);
    assert_eq!(table.version, 5);
    assert_eq!(table.write_attempts, 0);
}

#[test]
fn an_unloadable_table_fails_the_merge_without_a_write() {
    let req = upsert_request(vec![], vec![]);
    let mut machine = MergeMachine::new(req);
    assert!(matches!(machine.step(MergeEvent::SourceEnded), MergeCommand::OpenTable));
    match machine.step(
        MergeEvent::TableLoadFailed { message: "no table at location".to_string() },
    ) {
        MergeCommand::Fail(TableError::TableState { message }) => {
            assert_eq!(message, "no table at location");
        },
        _ => panic!("expected a table-state error"),
    }
    assert_eq!(machine.phase, MergePhase::Failed);
}

#[test]
fn a_failing_source_aborts_the_merge_as_a_stream_error() {
    let req = upsert_request(vec![], vec![]);
    let mut machine = MergeMachine::new(req);
    assert!(matches!(machine.step(MergeEvent::SourceBatch), MergeCommand::CollectBatch));
    match machine.step(MergeEvent::SourceFailed { message: "socket closed".to_string() }) {
        MergeCommand::Fail(TableError::StreamRead { message }) => {
            assert_eq!(message, "socket closed");
        },
        _ => panic!("expected a stream-read error"),
    }
}

#[test]
fn an_engine_rejection_is_surfaced_with_merge_context() {
    let req = upsert_request(vec![upsert_clause(None, &[("val", "source.val")])], vec![]);
    let mut machine = MergeMachine::new(req);
    assert!(matches!(machine.step(MergeEvent::SourceEnded), MergeCommand::OpenTable));
    assert!(matches!(machine.step(MergeEvent::TableLoaded), MergeCommand::Execute(_)));
    match machine.step(MergeEvent::EngineFailed { message: "concurrent commit".to_string() }) {
        MergeCommand::Fail(TableError::Engine { operation, message }) => {
            assert_eq!(operation, deltar::errors::OperationKind::Merge);
            assert_eq!(message, "concurrent commit");
            assert_eq!(
                TableError::operation_prefix(operation),
                "merge failed: "
            );
        },
        _ => panic!("expected an engine error"),
    }
}

#[test]
fn create_write_and_merge_scenario_updates_one_row_and_inserts_one() {
    // Create a table with schema {id: long, val: string}.
    let schema = vec![
        SourceField { name: "id".to_string(), dtype: SourceType::Int64, nullable: false },
        SourceField { name: "val".to_string(), dtype: SourceType::Utf8, nullable: true },
    ];
    let create = build_create_request(
        "file:///tables/t".to_string(),
        &schema,
        vec![],
        None,
        None,
        vec![],
    )
    .unwrap();
    assert_eq!(create.columns[0].dtype, TargetType::Primitive(TargetPrimitive::Long));
    assert_eq!(create.columns[1].dtype, TargetType::Primitive(TargetPrimitive::String));
    let mut table = ModelTable { rows: vec![], version: 0, write_attempts: 0 };

    // Write three batches in append mode through the bridge, committing once.
    let batches = vec![
        vec![(1i64, "a".to_string()), (2, "b".to_string())],
        vec![(3, "c".to_string())],
        vec![(4, "d".to_string())],
    ];
    let mut machine = WriteMachine::new(SaveMode::Append);
    assert_eq!(machine.step(WriteEvent::Opened { exists: true }), WriteCommand::RunStream);
    let mut bridge = StreamBridge::new(&schema, &schema);
    let mut staged: Vec<(i64, String)> = vec![];
    for batch in &batches {
        bridge.accept_batch();
        assert!(bridge.live <= 1);
        let cast = bridge.emit_batch();
        assert!(!cast);
        staged.extend(batch.iter().cloned());
    }
    bridge.close();
    assert_eq!(machine.step(WriteEvent::StreamEnded), WriteCommand::Submit);
    table.rows.extend(staged);
    table.version += 1;
    table.write_attempts += 1;
    assert_eq!(machine.step(WriteEvent::EngineOk), WriteCommand::Report);
    let rows_before = table.rows.len();
    let version_before = table.version;

    // Merge a source of two rows: one matching id 2 (update val), one new.
    let source = vec![(2i64, "beta".to_string()), (9, "ix".to_string())];
    let req = upsert_request(
        vec![upsert_clause(None, &[("val", "source.val")])],
        vec![upsert_clause(None, &[("id", "source.id"), ("val", "source.val")])],
    );
    let mut merge = MergeMachine::new(req);
    for _ in &source {
        assert!(matches!(merge.step(MergeEvent::SourceBatch), MergeCommand::CollectBatch));
    }
    assert!(matches!(merge.step(MergeEvent::SourceEnded), MergeCommand::OpenTable));
    let metrics = match merge.step(MergeEvent::TableLoaded) {
        MergeCommand::Execute(plan) => table.execute_merge(&plan, &source),
        _ => panic!("a clean request must execute"),
    };
    match merge.step(MergeEvent::EngineOk { metrics }) {
        MergeCommand::Report(m) => {
            assert_eq!(m.rows_inserted, 1);
            assert_eq!(m.rows_updated, 1);
        },
        _ => panic!("expected the metrics report"),
    }
    assert_eq!(merge.phase, MergePhase::Done);
    assert_eq!(table.rows.len(), rows_before + 1);
    assert_eq!(table.version, version_before + 1);
    let updated = table.rows.iter().find(|(id, _)| *id == 2).unwrap();
    assert_eq!(updated.1, "beta");
    let inserted = table.rows.iter().find(|(id, _)| *id == 9).unwrap();
    assert_eq!(inserted.1, "ix");
}
