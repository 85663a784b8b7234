use deltar::errors::TableError;
use deltar::stream::{pushdown_responses, PushdownKind, StreamBridge};
use deltar::types::{SourceField, SourceType};
use deltar::writeop::{
    effective_file_size, parse_save_mode, parse_schema_mode, SaveMode, SchemaMode, WriteCommand,
    WriteEvent, WriteMachine, WritePhase,
};

fn schema_id_val() -> Vec<SourceField> {
    vec![
        SourceField { name: "id".to_string(), dtype: SourceType::Int64, nullable: false },
        SourceField { name: "val".to_string(), dtype: SourceType::Utf8, nullable: true },
    ]
}

fn schema_id_only() -> Vec<SourceField> {
    vec![SourceField { name: "id".to_string(), dtype: SourceType::Int64, nullable: false }]
}

#[test]
fn parses_the_four_save_modes() {
    assert_eq!(parse_save_mode("append").unwrap(), SaveMode::Append);
    assert_eq!(parse_save_mode("overwrite").unwrap(), SaveMode::Overwrite);
    assert_eq!(parse_save_mode("error").unwrap(), SaveMode::ErrorIfExists);
    assert_eq!(parse_save_mode("ignore").unwrap(), SaveMode::IgnoreIfExists);
}

#[test]
fn rejects_unknown_save_modes_naming_the_input() {
    match parse_save_mode("upsert").unwrap_err() {
        TableError::InvalidSaveMode { given } => assert_eq!(given, "upsert"),
        _ => panic!("expected an invalid-save-mode error"),
    }
}

#[test]
fn parses_the_two_schema_modes() {
    assert_eq!(parse_schema_mode("overwrite").unwrap(), SchemaMode::Overwrite);
    assert_eq!(parse_schema_mode("merge").unwrap(), SchemaMode::Merge);
    match parse_schema_mode("evolve").unwrap_err() {
        TableError::InvalidSchemaMode { given } => assert_eq!(given, "evolve"),
        _ => panic!("expected an invalid-schema-mode error"),
    }
}

#[test]
fn target_file_size_is_kept_only_when_positive() {
    assert_eq!(effective_file_size(&Some(1024)), Some(1024));
    assert_eq!(effective_file_size(&Some(0)), None);
    assert_eq!(effective_file_size(&Some(-5)), None);
    assert_eq!(effective_file_size(&None), None);
}

#[test]
fn pushdown_is_declared_advisory_for_every_filter() {
    let r = pushdown_responses(3);
    assert_eq!(r, vec![PushdownKind::Inexact; 3]);
    assert_eq!(pushdown_responses(0).len(), 0);
}

#[test]
fn bridge_casts_exactly_when_schemas_differ() {
    let mut same = StreamBridge::new(&schema_id_val(), &schema_id_val());
    same.accept_batch();
    assert!(!same.emit_batch());
    let mut differ = StreamBridge::new(&schema_id_val(), &schema_id_only());
    differ.accept_batch();
    assert!(differ.emit_batch());
}

#[test]
fn bridge_holds_at_most_one_batch_over_a_long_stream() {
    // An instrumented run: a source of many batches flows through, and the
    // count of concurrently live batches is checked after every step.
    let n: u64 = 1000;
    let mut bridge = StreamBridge::new(&schema_id_val(), &schema_id_val());
    let mut max_live: u64 = 0;
    for _ in 0..n {
        bridge.accept_batch();
        max_live = max_live.max(bridge.live);
        bridge.emit_batch();
        max_live = max_live.max(bridge.live);
    }
    bridge.close();
    assert!(max_live <= 1);
    assert_eq!(bridge.pulled, n);
    assert_eq!(bridge.emitted, n);
    assert_eq!(bridge.live, 0);
}

/// A stand-in table handle that records whether anything was ever submitted.
struct RecordingTable {
    version: i64,
    write_attempts: u64,
}

impl RecordingTable {
    fn submit(&mut self) {
        self.write_attempts += 1;
        self.version += 1;
    }
}

#[test]
fn error_mode_on_an_existing_table_fails_before_any_write_attempt() {
    let mut table = RecordingTable { version: 7, write_attempts: 0 };
    let mut machine = WriteMachine::new(SaveMode::ErrorIfExists);
    let command = machine.step(WriteEvent::Opened { exists: true });
    assert_eq!(command, WriteCommand::Fail);
    assert_eq!(machine.phase, WritePhase::Failed);
    if command == WriteCommand::Submit {
        table.submit();
    }
    assert_eq!(table.version, 7);
    assert_eq!(table.write_attempts, 0);
}

#[test]
fn ignore_mode_on_an_existing_table_returns_without_writing() {
    let mut machine = WriteMachine::new(SaveMode::IgnoreIfExists);
    let command = machine.step(WriteEvent::Opened { exists: true });
    assert_eq!(command, WriteCommand::SkipExisting);
    assert_eq!(machine.phase, WritePhase::Done);
}

#[test]
fn append_mode_streams_submits_once_and_reports() {
    let mut table = RecordingTable { version: 3, write_attempts: 0 };
    let mut machine = WriteMachine::new(SaveMode::Append);
    assert_eq!(machine.step(WriteEvent::Opened { exists: true }), WriteCommand::RunStream);
    assert_eq!(machine.phase, WritePhase::Streaming);
    let command = machine.step(WriteEvent::StreamEnded);
    assert_eq!(command, WriteCommand::Submit);
    if command == WriteCommand::Submit {
        table.submit();
    }
    assert_eq!(machine.step(WriteEvent::EngineOk), WriteCommand::Report);
    assert_eq!(machine.phase, WritePhase::Done);
    assert_eq!(table.version, 4);
    assert_eq!(table.write_attempts, 1);
}

#[test]
fn a_failing_stream_aborts_without_a_submission() {
    let mut table = RecordingTable { version: 3, write_attempts: 0 };
    let mut machine = WriteMachine::new(SaveMode::Overwrite);
    assert_eq!(machine.step(WriteEvent::Opened { exists: true }), WriteCommand::RunStream);
    assert_eq!(machine.step(WriteEvent::StreamFailed), WriteCommand::Fail);
    assert_eq!(machine.phase, WritePhase::Failed);
    assert_eq!(table.write_attempts, 0);
    assert_eq!(table.version, 3);
}

#[test]
fn an_unopenable_location_fails_the_write() {
    let mut machine = WriteMachine::new(SaveMode::Append);
    assert_eq!(machine.step(WriteEvent::OpenFailed), WriteCommand::Fail);
    assert_eq!(machine.phase, WritePhase::Failed);
}
