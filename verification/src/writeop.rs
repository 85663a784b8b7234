//! The write orchestrator.
//!
//! A write is one configuration struct, validated all at once, and one
//! explicit state machine from opening the table to the single submit call.
//! The machine owns every decision — what an existing table means under each
//! save mode, when the stream runs, when the one submission happens — while
//! the engine calls themselves stay with the driver.  In fail-if-present mode
//! an existing table stops the operation before anything is submitted
//! ([`lemma_error_mode_never_submits`]).

use vstd::prelude::*;

use crate::errors::TableError;
use crate::types::{
    has_dup_names, map_fields_spec, map_schema, source_fields_view, target_fields_view,
    SourceField, TargetField, TargetFieldV, UnsupportedReason,
};

verus! {

broadcast use vstd::std_specs::vec::group_vec_axioms, vstd::seq::group_seq_axioms;

/// Policy governing how a write treats existing table data.
#[derive(Clone, Copy, Debug, PartialEq, Eq, Structural)]
pub enum SaveMode {
    /// Add the new data to what is there.
    Append,
    /// Replace what is there.
    Overwrite,
    /// Fail if the location already holds a table.
    ErrorIfExists,
    /// Do nothing if the location already holds a table.
    IgnoreIfExists,
}

/// Policy for reconciling the write's schema with the table's.
#[derive(Clone, Copy, Debug, PartialEq, Eq, Structural)]
pub enum SchemaMode {
    /// Replace the table's schema.
    Overwrite,
    /// Union the two schemas.
    Merge,
}

/// The save mode each mode string names.
pub open spec fn parse_save_mode_spec(s: Seq<char>) -> Option<SaveMode> {
    if s == "append"@ {
        Some(SaveMode::Append)
    } else if s == "overwrite"@ {
        Some(SaveMode::Overwrite)
    } else if s == "error"@ {
        Some(SaveMode::ErrorIfExists)
    } else if s == "ignore"@ {
        Some(SaveMode::IgnoreIfExists)
    } else {
        None
    }
}

/// The schema mode each mode string names.
pub open spec fn parse_schema_mode_spec(s: Seq<char>) -> Option<SchemaMode> {
    if s == "overwrite"@ {
        Some(SchemaMode::Overwrite)
    } else if s == "merge"@ {
        Some(SchemaMode::Merge)
    } else {
        None
    }
}

/// Compares two strings by content.
fn str_eq(a: &str, b: &str) -> (r: bool)
    ensures
        r == (a@ == b@),
{
    let owned_a = a.to_owned();
    let owned_b = b.to_owned();
    owned_a == owned_b
}

/// Parses a save mode string, exactly as [`parse_save_mode_spec`] states:
/// `append`, `overwrite`, `error` or `ignore`, anything else rejected with
/// the offending string.
pub fn parse_save_mode(s: &str) -> (r: Result<SaveMode, TableError>)
    ensures
        r matches Ok(m) ==> parse_save_mode_spec(s@) == Some(m),
        r matches Err(e) ==> parse_save_mode_spec(s@) is None && (e matches
            TableError::InvalidSaveMode { given } && given@ == s@),
{
    if str_eq(s, "append") {
        Ok(SaveMode::Append)
    } else if str_eq(s, "overwrite") {
        Ok(SaveMode::Overwrite)
    } else if str_eq(s, "error") {
        Ok(SaveMode::ErrorIfExists)
    } else if str_eq(s, "ignore") {
        Ok(SaveMode::IgnoreIfExists)
    } else {
        Err(TableError::InvalidSaveMode { given: s.to_owned() })
    }
}

/// Parses a schema evolution mode string, exactly as
/// [`parse_schema_mode_spec`] states: `overwrite` or `merge`.
pub fn parse_schema_mode(s: &str) -> (r: Result<SchemaMode, TableError>)
    ensures
        r matches Ok(m) ==> parse_schema_mode_spec(s@) == Some(m),
        r matches Err(e) ==> parse_schema_mode_spec(s@) is None && (e matches
            TableError::InvalidSchemaMode { given } && given@ == s@),
{
    if str_eq(s, "overwrite") {
        Ok(SchemaMode::Overwrite)
    } else if str_eq(s, "merge") {
        Ok(SchemaMode::Merge)
    } else {
        Err(TableError::InvalidSchemaMode { given: s.to_owned() })
    }
}

/// The configuration of one write, with named optional fields; everything is
/// validated at once before anything is submitted.
#[derive(Debug)]
pub struct WriteRequest {
    pub save_mode: SaveMode,
    /// Columns to partition by, when creating the table.
    pub partition_columns: Option<Vec<String>>,
    /// Table name, used only when creating.
    pub table_name: Option<String>,
    /// Table description, used only when creating.
    pub description: Option<String>,
    /// How to reconcile the write's schema with the table's.
    pub schema_mode: Option<SchemaMode>,
    /// Requested target file size in bytes; zero or negative values are
    /// ignored rather than applied.
    pub target_file_size: Option<i64>,
}

/// The target file size a request asks for: kept only when positive.
pub open spec fn effective_file_size_spec(size: Option<i64>) -> Option<u64> {
    match size {
        Some(s) => if s > 0 {
            Some(s as u64)
        } else {
            None
        },
        None => None,
    }
}

/// Validates the target file size of a request: a positive value is kept, a
/// zero or negative one is dropped, exactly as [`effective_file_size_spec`]
/// states.
pub fn effective_file_size(size: &Option<i64>) -> (r: Option<u64>)
    ensures
        r == effective_file_size_spec(*size),
{
    match size {
        Some(s) => if *s > 0 {
            Some(*s as u64)
        } else {
            None
        },
        None => None,
    }
}

/// The outcome of a completed write.
#[derive(Clone, Copy, Debug, PartialEq, Eq, Structural)]
pub struct WriteResult {
    /// The table's version after the write; unchanged when the write was
    /// skipped under ignore-if-present mode.
    pub version: i64,
    /// Files in the table's snapshot after the write.
    pub num_files: u64,
    /// Whether the write was skipped because the table already existed.
    pub skipped: bool,
}

/// Where the write stands.
#[derive(Clone, Copy, Debug, PartialEq, Eq, Structural)]
pub enum WritePhase {
    /// Waiting for the table location to be opened.
    Opening,
    /// Streaming batches through the bridge.
    Streaming,
    /// The one submission to the engine is out.
    Submitted,
    /// Finished, result delivered.
    Done,
    /// Finished, error delivered.
    Failed,
}

/// What the driver reports back to the machine.
#[derive(Clone, Copy, Debug, PartialEq, Eq, Structural)]
pub enum WriteEvent {
    /// The location was opened; `exists` says whether a table is there.
    Opened { exists: bool },
    /// The location could not be opened.
    OpenFailed,
    /// The batch stream ended.
    StreamEnded,
    /// The batch stream failed mid-iteration.
    StreamFailed,
    /// The engine committed the write.
    EngineOk,
    /// The engine rejected the write.
    EngineFailed,
}

/// What the machine asks the driver to do next.
#[derive(Clone, Copy, Debug, PartialEq, Eq, Structural)]
pub enum WriteCommand {
    /// Run the stream bridge over the source.
    RunStream,
    /// Return without writing: the table exists and the mode says leave it.
    SkipExisting,
    /// Submit the assembled plan to the engine; the only command that can
    /// change the table.
    Submit,
    /// Return the engine's result.
    Report,
    /// Return the error.
    Fail,
}

/// The write orchestrator's state.
pub struct WriteMachine {
    pub mode: SaveMode,
    pub phase: WritePhase,
}

/// Which events a phase accepts.
pub open spec fn write_event_allowed(phase: WritePhase, e: WriteEvent) -> bool {
    match phase {
        WritePhase::Opening => e is Opened || e is OpenFailed,
        WritePhase::Streaming => e is StreamEnded || e is StreamFailed,
        WritePhase::Submitted => e is EngineOk || e is EngineFailed,
        WritePhase::Done => false,
        WritePhase::Failed => false,
    }
}

/// The transition table of the write: under fail-if-present mode an existing
/// table fails the operation at once; under no-op-if-present mode it returns
/// without writing; otherwise the stream runs and exactly one submission
/// follows its clean end.
pub open spec fn write_step_spec(m: WriteMachine, e: WriteEvent) -> (WriteMachine, WriteCommand) {
    match (m.phase, e) {
        (WritePhase::Opening, WriteEvent::Opened { exists }) => {
            if exists && m.mode is ErrorIfExists {
                (WriteMachine { phase: WritePhase::Failed, ..m }, WriteCommand::Fail)
            } else if exists && m.mode is IgnoreIfExists {
                (WriteMachine { phase: WritePhase::Done, ..m }, WriteCommand::SkipExisting)
            } else {
                (WriteMachine { phase: WritePhase::Streaming, ..m }, WriteCommand::RunStream)
            }
        },
        (WritePhase::Opening, WriteEvent::OpenFailed) => (
            WriteMachine { phase: WritePhase::Failed, ..m },
            WriteCommand::Fail,
        ),
        (WritePhase::Streaming, WriteEvent::StreamEnded) => (
            WriteMachine { phase: WritePhase::Submitted, ..m },
            WriteCommand::Submit,
        ),
        (WritePhase::Streaming, WriteEvent::StreamFailed) => (
            WriteMachine { phase: WritePhase::Failed, ..m },
            WriteCommand::Fail,
        ),
        (WritePhase::Submitted, WriteEvent::EngineOk) => (
            WriteMachine { phase: WritePhase::Done, ..m },
            WriteCommand::Report,
        ),
        _ => (WriteMachine { phase: WritePhase::Failed, ..m }, WriteCommand::Fail),
    }
}

impl WriteMachine {
    /// Starts a write under the given save mode; the driver's first step is
    /// opening the table.
    pub fn new(mode: SaveMode) -> (r: WriteMachine)
        ensures
            r.mode == mode,
            r.phase == WritePhase::Opening,
    {
        WriteMachine { mode, phase: WritePhase::Opening }
    }

    /// Feeds the next event to the machine and returns what the driver must
    /// do, exactly as the transition table [`write_step_spec`] states.
    pub fn step(&mut self, e: WriteEvent) -> (c: WriteCommand)
        requires
            write_event_allowed(old(self).phase, e),
        ensures
            (*final(self), c) == write_step_spec(*old(self), e),
    {
        match (self.phase, e) {
            (WritePhase::Opening, WriteEvent::Opened { exists }) => {
                if exists && matches!(self.mode, SaveMode::ErrorIfExists) {
                    self.phase = WritePhase::Failed;
                    WriteCommand::Fail
                } else if exists && matches!(self.mode, SaveMode::IgnoreIfExists) {
                    self.phase = WritePhase::Done;
                    WriteCommand::SkipExisting
                } else {
                    self.phase = WritePhase::Streaming;
                    WriteCommand::RunStream
                }
            },
            (WritePhase::Opening, WriteEvent::OpenFailed) => {
                self.phase = WritePhase::Failed;
                WriteCommand::Fail
            },
            (WritePhase::Streaming, WriteEvent::StreamEnded) => {
                self.phase = WritePhase::Submitted;
                WriteCommand::Submit
            },
            (WritePhase::Streaming, WriteEvent::StreamFailed) => {
                self.phase = WritePhase::Failed;
                WriteCommand::Fail
            },
            (WritePhase::Submitted, WriteEvent::EngineOk) => {
                self.phase = WritePhase::Done;
                WriteCommand::Report
            },
            _ => {
                self.phase = WritePhase::Failed;
                WriteCommand::Fail
            },
        }
    }
}

/// The machine after a sequence of events.
pub open spec fn write_run(m: WriteMachine, events: Seq<WriteEvent>) -> WriteMachine
    decreases events,
{
    if events.len() == 0 {
        m
    } else {
        write_run(write_step_spec(m, events[0]).0, events.drop_first())
    }
}

/// Every event of the sequence is allowed in the phase it meets.
pub open spec fn write_trace_allowed(m: WriteMachine, events: Seq<WriteEvent>) -> bool
    decreases events,
{
    events.len() == 0 || (write_event_allowed(m.phase, events[0]) && write_trace_allowed(
        write_step_spec(m, events[0]).0,
        events.drop_first(),
    ))
}

/// The command the machine gives at step `k` of a run.
pub open spec fn write_command_at(m: WriteMachine, events: Seq<WriteEvent>, k: int) -> WriteCommand {
    write_step_spec(write_run(m, events.take(k)), events[k]).1
}

/// Fail-fast under fail-if-present mode: when a write in `error` mode finds
/// an existing table, no event sequence whatsoever can make the machine
/// submit anything to the engine — the table stays at its version.
pub proof fn lemma_error_mode_never_submits(mode: SaveMode, events: Seq<WriteEvent>)
    requires
        mode == SaveMode::ErrorIfExists,
        events.len() > 0,
        events[0] == (WriteEvent::Opened { exists: true }),
        write_trace_allowed(WriteMachine { mode, phase: WritePhase::Opening }, events),
    ensures
        forall|k: int|
            0 <= k < events.len() ==> write_command_at(
                WriteMachine { mode, phase: WritePhase::Opening },
                events,
                k,
            ) != WriteCommand::Submit,
{
    let init = WriteMachine { mode, phase: WritePhase::Opening };
    let after = write_step_spec(init, events[0]).0;
    assert(after.phase == WritePhase::Failed);
    assert(!write_trace_allowed(after, events.drop_first()) || events.drop_first().len() == 0);
    assert(events.len() == 1);
    assert(events.take(0) =~= Seq::<WriteEvent>::empty());
    assert(write_run(init, events.take(0)) == init);
    assert(write_command_at(init, events, 0) == WriteCommand::Fail);
}

/// Everything a create call submits: the canonical location, the mapped
/// schema, and the table metadata.  A create takes a schema, never a stream.
#[derive(Debug)]
pub struct CreateRequest {
    pub location: String,
    /// The schema, already mapped onto the table's type system.
    pub columns: Vec<TargetField>,
    pub partition_columns: Vec<String>,
    pub table_name: Option<String>,
    pub description: Option<String>,
    pub configuration: Vec<(String, String)>,
}

/// Builds a create request: every top-level field of the schema is mapped
/// by the type mapper, and the first unmappable field aborts the create
/// before any engine work, as the rule table states of the field sequence.
pub fn build_create_request(
    location: String,
    schema: &Vec<SourceField>,
    partition_columns: Vec<String>,
    table_name: Option<String>,
    description: Option<String>,
    configuration: Vec<(String, String)>,
) -> (r: Result<CreateRequest, TableError>)
    ensures
        r is Ok <==> (map_fields_spec(source_fields_view(schema@)) is Ok && !has_dup_names(
            source_fields_view(schema@),
        )),
        r matches Ok(cr) ==> {
            &&& map_fields_spec(source_fields_view(schema@)) == Ok::<
                Seq<TargetFieldV>,
                UnsupportedReason,
            >(target_fields_view(cr.columns@))
            &&& cr.location == location
            &&& cr.partition_columns == partition_columns
            &&& cr.table_name == table_name
            &&& cr.description == description
            &&& cr.configuration == configuration
        },
        r matches Err(e) ==> (e matches TableError::TypeConversion(tce) && {
            ||| map_fields_spec(source_fields_view(schema@)) == Err::<
                Seq<TargetFieldV>,
                UnsupportedReason,
            >(tce.reason)
            ||| (map_fields_spec(source_fields_view(schema@)) is Ok && has_dup_names(
                source_fields_view(schema@),
            ) && tce.reason == UnsupportedReason::DuplicateFieldNames)
        }),
{
    match map_schema(schema) {
        Ok(columns) => Ok(
            CreateRequest {
                location,
                columns,
                partition_columns,
                table_name,
                description,
                configuration,
            },
        ),
        Err(e) => Err(TableError::TypeConversion(e)),
    }
}

/// How far along a write phase is; every allowed event moves strictly
/// forward.
pub open spec fn write_rank(phase: WritePhase) -> int {
    match phase {
        WritePhase::Opening => 0,
        WritePhase::Streaming => 1,
        WritePhase::Submitted => 2,
        WritePhase::Done => 3,
        WritePhase::Failed => 3,
    }
}

/// One more step of a run is one application of the transition table.
proof fn lemma_write_run_take_succ(m: WriteMachine, events: Seq<WriteEvent>, k: int)
    requires
        0 <= k < events.len(),
    ensures
        write_run(m, events.take(k + 1)) == write_step_spec(
            write_run(m, events.take(k)),
            events[k],
        ).0,
    decreases k,
{
    let m1 = write_step_spec(m, events[0]).0;
    if k == 0 {
        assert(events.take(0) =~= Seq::<WriteEvent>::empty());
        assert(write_run(m, events.take(0)) == m);
        assert(events.take(1) =~= seq![events[0]]);
        assert(seq![events[0]].drop_first() =~= Seq::<WriteEvent>::empty());
        assert(write_run(m, seq![events[0]]) == write_run(m1, seq![events[0]].drop_first()));
        assert(write_run(m1, Seq::<WriteEvent>::empty()) == m1);
    } else {
        lemma_write_run_take_succ(m1, events.drop_first(), k - 1);
        assert(events.take(k + 1).drop_first() =~= events.drop_first().take(k));
        assert(events.take(k).drop_first() =~= events.drop_first().take(k - 1));
        assert(write_run(m, events.take(k + 1)) == write_run(m1, events.drop_first().take(k)));
        assert(write_run(m, events.take(k)) == write_run(m1, events.drop_first().take(k - 1)));
        assert(events.drop_first()[k - 1] == events[k]);
    }
}

/// In an allowed run, every event is allowed in the state it meets.
proof fn lemma_write_prefix_allowed(m: WriteMachine, events: Seq<WriteEvent>, k: int)
    requires
        write_trace_allowed(m, events),
        0 <= k < events.len(),
    ensures
        write_event_allowed(write_run(m, events.take(k)).phase, events[k]),
    decreases k,
{
    let m1 = write_step_spec(m, events[0]).0;
    if k == 0 {
        assert(events.take(0) =~= Seq::<WriteEvent>::empty());
        assert(write_run(m, events.take(0)) == m);
    } else {
        lemma_write_prefix_allowed(m1, events.drop_first(), k - 1);
        assert(events.take(k).drop_first() =~= events.drop_first().take(k - 1));
        assert(write_run(m, events.take(k)) == write_run(m1, events.drop_first().take(k - 1)));
        assert(events.drop_first()[k - 1] == events[k]);
    }
}

/// An allowed event moves the write strictly forward.
proof fn lemma_write_rank_increases(m: WriteMachine, e: WriteEvent)
    requires
        write_event_allowed(m.phase, e),
    ensures
        write_rank(write_step_spec(m, e).0.phase) > write_rank(m.phase),
{
}

/// Along an allowed run the rank climbs with every step.
proof fn lemma_write_rank_monotone(m: WriteMachine, events: Seq<WriteEvent>, j: int, k: int)
    requires
        write_trace_allowed(m, events),
        0 <= j <= k <= events.len(),
    ensures
        write_rank(write_run(m, events.take(k)).phase) >= write_rank(
            write_run(m, events.take(j)).phase,
        ) + (k - j),
    decreases k - j,
{
    if j < k {
        lemma_write_rank_monotone(m, events, j, k - 1);
        lemma_write_prefix_allowed(m, events, k - 1);
        lemma_write_rank_increases(write_run(m, events.take(k - 1)), events[k - 1]);
        lemma_write_run_take_succ(m, events, k - 1);
    }
}

/// The single-commit guarantee of the write path: whatever events the driver
/// reports, an allowed run makes the machine submit to the engine at most
/// once.
pub proof fn lemma_write_submits_at_most_once(m: WriteMachine, events: Seq<WriteEvent>)
    requires
        write_trace_allowed(m, events),
    ensures
        forall|j: int, k: int|
            0 <= j < k < events.len() && write_command_at(m, events, j) == WriteCommand::Submit
                ==> write_command_at(m, events, k) != WriteCommand::Submit,
{
    assert forall|j: int, k: int|
        0 <= j < k < events.len() && write_command_at(m, events, j) == WriteCommand::Submit
        implies write_command_at(m, events, k) != WriteCommand::Submit by {
        if write_command_at(m, events, k) == WriteCommand::Submit {
            // A submit command is given only from the streaming phase.
            assert(write_run(m, events.take(j)).phase is Streaming);
            assert(write_run(m, events.take(k)).phase is Streaming);
            lemma_write_rank_monotone(m, events, j, k);
            assert(false);
        }
    }
}

} // verus!
