//! The streaming write bridge.
//!
//! The write path adapts a pull-based batch source to the push-based scan
//! interface of the table engine.  The bridge decides, once and up front,
//! whether batches must be cast to the table's schema ([`StreamBridge::new`]
//! compares the two schemas exactly), and then hands batches through one at a
//! time: a batch is accepted only when none is held, and emitted before the
//! next is accepted, so the bridge never holds more than one batch however
//! long the stream runs ([`lemma_stream_memory_bound`]).  Reading and writing
//! the actual batch data stays outside the library; the bridge owns the
//! decisions.

use vstd::prelude::*;

use crate::types::{schema_eq, source_fields_view, SourceField};

verus! {

broadcast use vstd::std_specs::vec::group_vec_axioms, vstd::seq::group_seq_axioms;

/// How the scan layer answers a filter-pushdown inquiry.
#[derive(Clone, Copy, Debug, PartialEq, Eq, Structural)]
pub enum PushdownKind {
    /// The filter is fully evaluated by the scan.
    Exact,
    /// The filter is advisory: the scan may or may not apply it, and the
    /// engine must re-evaluate it.
    Inexact,
    /// The filter is not understood at all.
    Unsupported,
}

/// Declares every pushed-down filter advisory-only: no predicate evaluation
/// happens in the scan layer, so correctness must never depend on a filter
/// being honored there.
pub fn pushdown_responses(filters: usize) -> (r: Vec<PushdownKind>)
    ensures
        r@.len() == filters,
        forall|i: int| 0 <= i < filters ==> r@[i] == PushdownKind::Inexact,
{
    let mut r: Vec<PushdownKind> = Vec::new();
    let mut i: usize = 0;
    while i < filters
        invariant
            i <= filters,
            r@.len() == i,
            forall|j: int| 0 <= j < i ==> r@[j] == PushdownKind::Inexact,
        decreases filters - i,
    {
        r.push(PushdownKind::Inexact);
        i = i + 1;
    }
    r
}

/// The state of the streaming bridge between the batch source and the
/// engine's scan: batches pulled and emitted so far, and whether one batch is
/// held right now.
pub struct StreamBridge {
    /// Whether each batch must be cast to the table's schema; decided once,
    /// up front, from the two schemas.
    pub cast_needed: bool,
    /// Batches currently held: zero or one.
    pub live: u64,
    /// Batches accepted from the source so far.
    pub pulled: u64,
    /// Batches handed on to the engine so far.
    pub emitted: u64,
    /// No further batch will be accepted.
    pub closed: bool,
}

/// The operations a driver can ask of the bridge.
#[derive(Clone, Copy, Debug, PartialEq, Eq, Structural)]
pub enum BridgeOp {
    /// Take one batch from the source.
    Accept,
    /// Hand the held batch on to the engine.
    Emit,
    /// End the stream (exhausted or failed).
    Close,
}

impl StreamBridge {
    /// The bridge's invariant: at most one batch is held, every accepted
    /// batch is held or already emitted, and a closed bridge holds nothing.
    pub open spec fn wf(self) -> bool {
        &&& self.live <= 1
        &&& self.emitted + self.live == self.pulled
        &&& self.closed ==> self.live == 0
    }

    /// Whether an operation may be asked of this state: a batch is accepted
    /// only when none is held and the stream is open, emitted only when one
    /// is held, and the stream closes only when nothing is held.
    pub open spec fn op_allowed(self, op: BridgeOp) -> bool {
        match op {
            BridgeOp::Accept => !self.closed && self.live == 0 && self.pulled < u64::MAX,
            BridgeOp::Emit => self.live == 1,
            BridgeOp::Close => self.live == 0,
        }
    }

    /// The state after an allowed operation.
    pub open spec fn op_step(self, op: BridgeOp) -> StreamBridge {
        match op {
            BridgeOp::Accept => StreamBridge {
                live: (self.live + 1) as u64,
                pulled: (self.pulled + 1) as u64,
                ..self
            },
            BridgeOp::Emit => StreamBridge {
                live: (self.live - 1) as u64,
                emitted: (self.emitted + 1) as u64,
                ..self
            },
            BridgeOp::Close => StreamBridge { closed: true, ..self },
        }
    }

    /// Opens the bridge over a batch source and the table it writes to:
    /// batches will be cast exactly when the source's schema differs from
    /// the table's.
    pub fn new(batch_schema: &Vec<SourceField>, table_schema: &Vec<SourceField>) -> (r:
        StreamBridge)
        ensures
            r.wf(),
            r.cast_needed == (source_fields_view(batch_schema@) != source_fields_view(
                table_schema@,
            )),
            r.pulled == 0 && r.emitted == 0 && r.live == 0 && !r.closed,
    {
        let same = schema_eq(batch_schema, table_schema);
        StreamBridge { cast_needed: !same, live: 0, pulled: 0, emitted: 0, closed: false }
    }

    /// Accepts one batch from the source; only allowed while no batch is
    /// held, which is what bounds memory to one batch.
    pub fn accept_batch(&mut self)
        requires
            old(self).wf(),
            old(self).op_allowed(BridgeOp::Accept),
        ensures
            final(self).wf(),
            *final(self) == old(self).op_step(BridgeOp::Accept),
    {
        self.live = self.live + 1;
        self.pulled = self.pulled + 1;
    }

    /// Hands the held batch on, saying whether the driver must cast it to
    /// the table's schema first; after this the bridge holds nothing.
    pub fn emit_batch(&mut self) -> (cast: bool)
        requires
            old(self).wf(),
            old(self).op_allowed(BridgeOp::Emit),
        ensures
            final(self).wf(),
            *final(self) == old(self).op_step(BridgeOp::Emit),
            cast == old(self).cast_needed,
    {
        self.live = self.live - 1;
        self.emitted = self.emitted + 1;
        self.cast_needed
    }

    /// Ends the stream, exhausted or failed; nothing may be held back.
    pub fn close(&mut self)
        requires
            old(self).wf(),
            old(self).op_allowed(BridgeOp::Close),
        ensures
            final(self).wf(),
            *final(self) == old(self).op_step(BridgeOp::Close),
    {
        self.closed = true;
    }
}

/// The state after a sequence of operations.
pub open spec fn bridge_run(s: StreamBridge, ops: Seq<BridgeOp>) -> StreamBridge
    decreases ops,
{
    if ops.len() == 0 {
        s
    } else {
        bridge_run(s.op_step(ops[0]), ops.drop_first())
    }
}

/// Every operation of the sequence is allowed in the state it meets.
pub open spec fn bridge_trace_allowed(s: StreamBridge, ops: Seq<BridgeOp>) -> bool
    decreases ops,
{
    ops.len() == 0 || (s.op_allowed(ops[0]) && bridge_trace_allowed(
        s.op_step(ops[0]),
        ops.drop_first(),
    ))
}

/// The streaming memory bound: however many batches a write streams through
/// the bridge, after every prefix of an allowed run the bridge holds at most
/// one batch, and every batch accepted beyond the held one has already been
/// handed on.
pub proof fn lemma_stream_memory_bound(init: StreamBridge, ops: Seq<BridgeOp>)
    requires
        init.wf(),
        bridge_trace_allowed(init, ops),
    ensures
        forall|k: int|
            0 <= k <= ops.len() ==> (#[trigger] bridge_run(init, ops.take(k))).live <= 1
                && bridge_run(init, ops.take(k)).wf(),
    decreases ops,
{
    assert(ops.take(0) =~= Seq::<BridgeOp>::empty());
    assert(bridge_run(init, ops.take(0)) == init);
    if ops.len() > 0 {
        let next = init.op_step(ops[0]);
        assert(next.wf());
        lemma_stream_memory_bound(next, ops.drop_first());
        assert forall|k: int|
            0 <= k <= ops.len() implies (#[trigger] bridge_run(init, ops.take(k))).live <= 1
            && bridge_run(init, ops.take(k)).wf() by {
            if k > 0 {
                assert(ops.take(k).drop_first() =~= ops.drop_first().take(k - 1));
                assert(bridge_run(init, ops.take(k)) == bridge_run(
                    next,
                    ops.take(k).drop_first(),
                ));
                assert(bridge_run(next, ops.drop_first().take(k - 1)).live <= 1 && bridge_run(
                    next,
                    ops.drop_first().take(k - 1),
                ).wf());
            }
        }
    }
}

} // verus!
