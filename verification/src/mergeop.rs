//! The merge orchestrator.
//!
//! A merge first materializes the whole source (unlike the write path, merge
//! needs to re-scan the source for join evaluation), then opens the table at
//! its latest snapshot — it never creates one — compiles the clause lists
//! into a single plan, and submits that plan as one atomic operation.  The
//! machine here owns the order of those steps and every decision between
//! them; the engine calls stay with the driver.  A clause that fails to
//! compile aborts the merge before anything reaches the engine
//! ([`lemma_failed_compile_never_executes`]), so the table's version is left
//! unchanged.

use vstd::prelude::*;

use crate::clauses::{compile_merge, merge_error_matches, plan_matches, request_clean, MergePlan, MergeRequest};
use crate::errors::{OperationKind, TableError};

verus! {

broadcast use vstd::std_specs::vec::group_vec_axioms, vstd::seq::group_seq_axioms;

/// The counts the engine reports for a committed merge.
#[derive(Clone, Copy, Debug, PartialEq, Eq, Structural)]
pub struct MergeMetrics {
    pub rows_inserted: u64,
    pub rows_updated: u64,
    pub rows_deleted: u64,
    pub rows_copied: u64,
    pub files_added: u64,
    pub files_removed: u64,
    pub output_rows: u64,
    pub execution_time_ms: u64,
}

/// Where the merge stands.
#[derive(Clone, Copy, Debug, PartialEq, Eq, Structural)]
pub enum MergePhase {
    /// Draining the source into the in-memory relation.
    Collecting,
    /// Waiting for the table to be opened at its latest snapshot.
    Opening,
    /// The compiled plan is submitted.
    Executing,
    /// Finished, metrics delivered.
    Done,
    /// Finished, error delivered.
    Failed,
}

/// What the driver reports back to the machine.
#[derive(Debug)]
pub enum MergeEvent {
    /// One more source batch arrived.
    SourceBatch,
    /// The source is exhausted.
    SourceEnded,
    /// The source failed mid-iteration.
    SourceFailed { message: String },
    /// The table was opened and loaded at its latest snapshot.
    TableLoaded,
    /// The table could not be opened or loaded; merge requires an existing
    /// table.
    TableLoadFailed { message: String },
    /// The engine committed the merge.
    EngineOk { metrics: MergeMetrics },
    /// The engine rejected the merge.
    EngineFailed { message: String },
}

/// What kind of step the machine asks of the driver.
#[derive(Clone, Copy, Debug, PartialEq, Eq, Structural)]
pub enum MergeCommandKind {
    /// Add the batch to the in-memory relation.
    CollectBatch,
    /// Open and load the table.
    OpenTable,
    /// Submit the compiled plan to the engine; the only command that can
    /// change the table.
    Execute,
    /// Return the engine's metrics.
    Report,
    /// Return the error.
    Fail,
}

/// What the machine asks the driver to do next, with the values the driver
/// needs for it.
#[derive(Debug)]
pub enum MergeCommand {
    CollectBatch,
    OpenTable,
    Execute(MergePlan),
    Report(MergeMetrics),
    Fail(TableError),
}

/// The kind of a command.
pub open spec fn command_kind(c: MergeCommand) -> MergeCommandKind {
    match c {
        MergeCommand::CollectBatch => MergeCommandKind::CollectBatch,
        MergeCommand::OpenTable => MergeCommandKind::OpenTable,
        MergeCommand::Execute(_) => MergeCommandKind::Execute,
        MergeCommand::Report(_) => MergeCommandKind::Report,
        MergeCommand::Fail(_) => MergeCommandKind::Fail,
    }
}

/// The merge orchestrator's state: the request it compiles, where it stands,
/// and how many source batches the relation holds.
pub struct MergeMachine {
    pub req: MergeRequest,
    pub phase: MergePhase,
    pub batches: u64,
}

/// Which events a phase accepts.
pub open spec fn merge_event_allowed(m: MergeMachine, e: MergeEvent) -> bool {
    match m.phase {
        MergePhase::Collecting => (e is SourceBatch && m.batches < u64::MAX) || e is SourceEnded
            || e is SourceFailed,
        MergePhase::Opening => e is TableLoaded || e is TableLoadFailed,
        MergePhase::Executing => e is EngineOk || e is EngineFailed,
        MergePhase::Done => false,
        MergePhase::Failed => false,
    }
}

/// The transition table of the merge: collect everything, open the existing
/// table, compile the whole plan — all five categories, aborting on the
/// first offending clause — and only then execute, once.
pub open spec fn merge_step_spec(m: MergeMachine, e: MergeEvent) -> (MergePhase, MergeCommandKind) {
    match (m.phase, e) {
        (MergePhase::Collecting, MergeEvent::SourceBatch) => (
            MergePhase::Collecting,
            MergeCommandKind::CollectBatch,
        ),
        (MergePhase::Collecting, MergeEvent::SourceEnded) => (
            MergePhase::Opening,
            MergeCommandKind::OpenTable,
        ),
        (MergePhase::Opening, MergeEvent::TableLoaded) => {
            if request_clean(m.req) {
                (MergePhase::Executing, MergeCommandKind::Execute)
            } else {
                (MergePhase::Failed, MergeCommandKind::Fail)
            }
        },
        (MergePhase::Executing, MergeEvent::EngineOk { .. }) => (
            MergePhase::Done,
            MergeCommandKind::Report,
        ),
        _ => (MergePhase::Failed, MergeCommandKind::Fail),
    }
}

impl MergeMachine {
    /// Starts a merge over a request; the driver's first steps drain the
    /// source into the in-memory relation.
    pub fn new(req: MergeRequest) -> (r: MergeMachine)
        ensures
            r.req == req,
            r.phase == MergePhase::Collecting,
            r.batches == 0,
    {
        MergeMachine { req, phase: MergePhase::Collecting, batches: 0 }
    }

    /// Feeds the next event to the machine and returns what the driver must
    /// do, exactly as the transition table [`merge_step_spec`] states; an
    /// `Execute` command carries the plan that [`compile_merge`] builds from
    /// the request, a `Fail` command the typed error.
    pub fn step(&mut self, e: MergeEvent) -> (c: MergeCommand)
        requires
            merge_event_allowed(*old(self), e),
        ensures
            final(self).req == old(self).req,
            final(self).phase == merge_step_spec(*old(self), e).0,
            command_kind(c) == merge_step_spec(*old(self), e).1,
            final(self).batches == if e is SourceBatch {
                old(self).batches + 1
            } else {
                old(self).batches as int
            },
            c matches MergeCommand::Execute(plan) ==> plan_matches(old(self).req, plan),
            e matches MergeEvent::SourceFailed { message } ==> (c matches MergeCommand::Fail(err)
                && err matches TableError::StreamRead { message: m2 } && m2@ == message@),
            e matches MergeEvent::TableLoadFailed { message } ==> (c matches MergeCommand::Fail(
                err,
            ) && err matches TableError::TableState { message: m2 } && m2@ == message@),
            e matches MergeEvent::EngineFailed { message } ==> (c matches MergeCommand::Fail(err)
                && err matches TableError::Engine { operation, message: m2 } && operation
                == OperationKind::Merge && m2@ == message@),
            (e is TableLoaded && !request_clean(old(self).req)) ==> (c matches MergeCommand::Fail(
                err,
            ) && err matches TableError::Clause(ce) && merge_error_matches(old(self).req, ce)),
            c matches MergeCommand::Report(metrics) ==> (e matches MergeEvent::EngineOk {
                metrics: m2 } && metrics == m2),
    {
        match e {
            MergeEvent::SourceBatch => {
                self.batches = self.batches + 1;
                MergeCommand::CollectBatch
            },
            MergeEvent::SourceEnded => {
                self.phase = MergePhase::Opening;
                MergeCommand::OpenTable
            },
            MergeEvent::SourceFailed { message } => {
                self.phase = MergePhase::Failed;
                MergeCommand::Fail(TableError::StreamRead { message })
            },
            MergeEvent::TableLoaded => {
                match compile_merge(&self.req) {
                    Ok(plan) => {
                        self.phase = MergePhase::Executing;
                        MergeCommand::Execute(plan)
                    },
                    Err(ce) => {
                        self.phase = MergePhase::Failed;
                        MergeCommand::Fail(TableError::Clause(ce))
                    },
                }
            },
            MergeEvent::TableLoadFailed { message } => {
                self.phase = MergePhase::Failed;
                MergeCommand::Fail(TableError::TableState { message })
            },
            MergeEvent::EngineOk { metrics } => {
                self.phase = MergePhase::Done;
                MergeCommand::Report(metrics)
            },
            MergeEvent::EngineFailed { message } => {
                self.phase = MergePhase::Failed;
                MergeCommand::Fail(
                    TableError::Engine { operation: OperationKind::Merge, message },
                )
            },
        }
    }
}

/// The machine after one event.
pub open spec fn merge_advance(m: MergeMachine, e: MergeEvent) -> MergeMachine {
    MergeMachine {
        phase: merge_step_spec(m, e).0,
        batches: if e is SourceBatch {
            (m.batches + 1) as u64
        } else {
            m.batches
        },
        ..m
    }
}

/// The machine after a sequence of events; the request never changes.
pub open spec fn merge_run(m: MergeMachine, events: Seq<MergeEvent>) -> MergeMachine
    decreases events,
{
    if events.len() == 0 {
        m
    } else {
        merge_run(merge_advance(m, events[0]), events.drop_first())
    }
}

/// The run leaves the request untouched.
pub proof fn lemma_merge_run_keeps_request(m: MergeMachine, events: Seq<MergeEvent>)
    ensures
        merge_run(m, events).req == m.req,
    decreases events,
{
    if events.len() > 0 {
        lemma_merge_run_keeps_request(merge_advance(m, events[0]), events.drop_first());
    }
}

/// The command kind at step `k` of a run.
pub open spec fn merge_command_at(
    m: MergeMachine,
    events: Seq<MergeEvent>,
    k: int,
) -> MergeCommandKind {
    merge_step_spec(merge_run(m, events.take(k)), events[k]).1
}

/// Merge atomicity: when any clause of any category fails to compile, no
/// event sequence whatsoever can make the machine submit anything to the
/// engine — the plan is rejected whole, before the single engine call, and
/// the table is left at its version.
pub proof fn lemma_failed_compile_never_executes(m: MergeMachine, events: Seq<MergeEvent>)
    requires
        !request_clean(m.req),
    ensures
        forall|k: int| 0 <= k < events.len() ==> merge_command_at(m, events, k)
            != MergeCommandKind::Execute,
{
    assert forall|k: int| 0 <= k < events.len() implies merge_command_at(m, events, k)
        != MergeCommandKind::Execute by {
        lemma_merge_run_keeps_request(m, events.take(k));
        let state = merge_run(m, events.take(k));
        assert(state.req == m.req);
        assert(merge_step_spec(state, events[k]).1 != MergeCommandKind::Execute);
    }
}

/// Every event of the sequence is allowed in the state it meets.
pub open spec fn merge_trace_allowed(m: MergeMachine, events: Seq<MergeEvent>) -> bool
    decreases events,
{
    events.len() == 0 || (merge_event_allowed(m, events[0]) && merge_trace_allowed(
        merge_advance(m, events[0]),
        events.drop_first(),
    ))
}

/// How far along a merge phase is; no allowed event moves backwards.
pub open spec fn merge_rank(phase: MergePhase) -> int {
    match phase {
        MergePhase::Collecting => 0,
        MergePhase::Opening => 1,
        MergePhase::Executing => 2,
        MergePhase::Done => 3,
        MergePhase::Failed => 3,
    }
}

/// One more step of a run is one application of the transition table.
proof fn lemma_merge_run_take_succ(m: MergeMachine, events: Seq<MergeEvent>, k: int)
    requires
        0 <= k < events.len(),
    ensures
        merge_run(m, events.take(k + 1)) == merge_advance(
            merge_run(m, events.take(k)),
            events[k],
        ),
    decreases k,
{
    let m1 = merge_advance(m, events[0]);
    if k == 0 {
        assert(events.take(0) =~= Seq::<MergeEvent>::empty());
        assert(merge_run(m, events.take(0)) == m);
        assert(events.take(1) =~= seq![events[0]]);
        assert(seq![events[0]].drop_first() =~= Seq::<MergeEvent>::empty());
        assert(merge_run(m, seq![events[0]]) == merge_run(m1, seq![events[0]].drop_first()));
        assert(merge_run(m1, Seq::<MergeEvent>::empty()) == m1);
    } else {
        lemma_merge_run_take_succ(m1, events.drop_first(), k - 1);
        assert(events.take(k + 1).drop_first() =~= events.drop_first().take(k));
        assert(events.take(k).drop_first() =~= events.drop_first().take(k - 1));
        assert(merge_run(m, events.take(k + 1)) == merge_run(m1, events.drop_first().take(k)));
        assert(merge_run(m, events.take(k)) == merge_run(m1, events.drop_first().take(k - 1)));
        assert(events.drop_first()[k - 1] == events[k]);
    }
}

/// In an allowed run, every event is allowed in the state it meets.
proof fn lemma_merge_prefix_allowed(m: MergeMachine, events: Seq<MergeEvent>, k: int)
    requires
        merge_trace_allowed(m, events),
        0 <= k < events.len(),
    ensures
        merge_event_allowed(merge_run(m, events.take(k)), events[k]),
    decreases k,
{
    let m1 = merge_advance(m, events[0]);
    if k == 0 {
        assert(events.take(0) =~= Seq::<MergeEvent>::empty());
        assert(merge_run(m, events.take(0)) == m);
    } else {
        lemma_merge_prefix_allowed(m1, events.drop_first(), k - 1);
        assert(events.take(k).drop_first() =~= events.drop_first().take(k - 1));
        assert(merge_run(m, events.take(k)) == merge_run(m1, events.drop_first().take(k - 1)));
        assert(events.drop_first()[k - 1] == events[k]);
    }
}

/// Along an allowed run the rank never falls, and executing raises it.
proof fn lemma_merge_rank_monotone(m: MergeMachine, events: Seq<MergeEvent>, j: int, k: int)
    requires
        merge_trace_allowed(m, events),
        0 <= j <= k <= events.len(),
    ensures
        merge_rank(merge_run(m, events.take(k)).phase) >= merge_rank(
            merge_run(m, events.take(j)).phase,
        ),
    decreases k - j,
{
    if j < k {
        lemma_merge_rank_monotone(m, events, j, k - 1);
        lemma_merge_prefix_allowed(m, events, k - 1);
        lemma_merge_run_take_succ(m, events, k - 1);
        assert(merge_rank(merge_advance(merge_run(m, events.take(k - 1)), events[k - 1]).phase)
            >= merge_rank(merge_run(m, events.take(k - 1)).phase));
    }
}

/// The single-commit guarantee of the merge path: whatever events the driver
/// reports, an allowed run makes the machine hand a plan to the engine at
/// most once.
pub proof fn lemma_merge_executes_at_most_once(m: MergeMachine, events: Seq<MergeEvent>)
    requires
        merge_trace_allowed(m, events),
    ensures
        forall|j: int, k: int|
            0 <= j < k < events.len() && merge_command_at(m, events, j)
                == MergeCommandKind::Execute ==> merge_command_at(m, events, k)
                != MergeCommandKind::Execute,
{
    assert forall|j: int, k: int|
        0 <= j < k < events.len() && merge_command_at(m, events, j) == MergeCommandKind::Execute
        implies merge_command_at(m, events, k) != MergeCommandKind::Execute by {
        if merge_command_at(m, events, k) == MergeCommandKind::Execute {
            // An execute command is given only from the opening phase, which
            // the run leaves for good when it executes.
            assert(merge_run(m, events.take(j)).phase is Opening);
            assert(merge_run(m, events.take(k)).phase is Opening);
            lemma_merge_run_take_succ(m, events, j);
            assert(merge_rank(merge_run(m, events.take(j + 1)).phase) == 2);
            lemma_merge_rank_monotone(m, events, j + 1, k);
            assert(false);
        }
    }
}

} // verus!
