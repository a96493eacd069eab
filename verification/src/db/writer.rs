//! The writer actor's handle and producer policies.
//!
//! Every write in the system goes through one channel to the actor that owns
//! the write connection; that is what turns a single-writer store from a
//! contention problem into a batching opportunity. The handle holds a channel
//! and nothing else: no connection, no transaction, no lock.

use vstd::prelude::*;

use crossbeam_channel::{Sender, TrySendError};
use tokio::sync::oneshot;

use crate::db::records::{BatchStatus, EdgeRecord, FaceEventRecord, GameRecord, PositionRecord};
use crate::db::{DbError, DbResult};

verus! {

#[verifier::external_type_specification]
#[verifier::external_body]
#[verifier::reject_recursive_types(T)]
pub struct ExSender<T>(Sender<T>);

#[verifier::external_type_specification]
#[verifier::external_body]
#[verifier::reject_recursive_types(T)]
pub struct ExOneshotSender<T>(oneshot::Sender<T>);

/// `Sender::clone` (crossbeam): another handle to the same channel. Nothing
/// is claimed of it here.
pub assume_specification<T>[ <Sender<T> as Clone>::clone ](tx: &Sender<T>) -> Sender<T>;

/// A unit of work for the writer.
pub enum WriteOp {
    Game(GameRecord),
    Positions(Vec<PositionRecord>),
    Edges(Vec<EdgeRecord>),
    /// `gpm` is an `f32` bit pattern.
    BatchProgress { batch_id: i64, completed: u64, failed: u64, gpm: u32 },
    BatchStatus { batch_id: i64, status: BatchStatus },
    FaceEvent(FaceEventRecord),
    /// Durability barrier: the writer commits everything ahead of it and then
    /// signals.
    Flush(oneshot::Sender<DbResult<()>>),
    /// Drain and stop.
    Shutdown(oneshot::Sender<()>),
}

impl WriteOp {
    pub open spec fn spec_row_count(&self) -> nat {
        match self {
            WriteOp::Game(_) | WriteOp::FaceEvent(_) => 1,
            WriteOp::Positions(rows) => rows@.len(),
            WriteOp::Edges(rows) => rows@.len(),
            WriteOp::BatchProgress { .. } | WriteOp::BatchStatus { .. } => 1,
            WriteOp::Flush(_) | WriteOp::Shutdown(_) => 0,
        }
    }

    /// Rows this message contributes to the current transaction, so that the
    /// batch size means rows and not messages. A barrier is not a row.
    pub fn row_count(&self) -> (rows: usize)
        ensures
            rows == self.spec_row_count(),
    {
        match self {
            WriteOp::Game(_) | WriteOp::FaceEvent(_) => 1,
            WriteOp::Positions(rows) => rows.len(),
            WriteOp::Edges(rows) => rows.len(),
            WriteOp::BatchProgress { .. } | WriteOp::BatchStatus { .. } => 1,
            WriteOp::Flush(_) | WriteOp::Shutdown(_) => 0,
        }
    }
}

/// The three producer policies at a full channel.
#[derive(Clone, Copy, PartialEq, Eq, Debug, Structural)]
pub enum Backpressure {
    /// Lab workers block.
    Block,
    /// Durable writes are refused with a retryable error.
    Reject,
    /// Telemetry is dropped, with a counter.
    Drop,
}

/// What a non-blocking send into the writer's channel came to.
#[derive(Clone, Copy, PartialEq, Eq, Debug, Structural)]
pub enum SendOutcome {
    Sent,
    Full,
    Disconnected,
}

/// The telemetry class's answer to a non-blocking send: accepted
/// messages report `Block` (the ordinary lab policy); a full or closed
/// channel drops the message.
pub fn telemetry_backpressure(outcome: SendOutcome) -> (policy: Backpressure)
    ensures
        outcome == SendOutcome::Sent ==> policy == Backpressure::Block,
        outcome != SendOutcome::Sent ==> policy == Backpressure::Drop,
{
    match outcome {
        SendOutcome::Sent => Backpressure::Block,
        SendOutcome::Full => Backpressure::Drop,
        SendOutcome::Disconnected => Backpressure::Drop,
    }
}

/// The durable class's answer to a non-blocking send: a full channel is a
/// saturated queue the client may retry, a closed one is a writer that is
/// gone.
pub fn durable_send_error(outcome: SendOutcome) -> (error: Option<DbError>)
    ensures
        outcome == SendOutcome::Sent ==> error is None,
        outcome == SendOutcome::Full ==> (error matches Some(DbError::Degraded(message))
            && message@ == "write queue saturated"@),
        outcome == SendOutcome::Disconnected ==> error matches Some(DbError::WriterGone),
{
    match outcome {
        SendOutcome::Sent => None,
        SendOutcome::Full => Some(DbError::Degraded("write queue saturated".to_owned())),
        SendOutcome::Disconnected => Some(DbError::WriterGone),
    }
}

#[derive(Clone, Copy, Debug, Default)]
pub struct WriterStats {
    pub queue_depth: usize,
    pub queue_capacity: usize,
    pub queue_high_water: usize,
    pub rows_committed: u64,
    pub last_commit_ms: u64,
    pub dropped_telemetry: u64,
}

/// `Sender::send`: blocks until the message is queued; fails only when the
/// receiving side is gone. Whether it succeeded is reported, nothing else.
#[verifier::external_body]
fn channel_send(tx: &Sender<WriteOp>, op: WriteOp) -> (sent: bool) {
    tx.send(op).is_ok()
}

/// `Sender::try_send`: queues the message if there is room, without waiting.
/// Which of the three outcomes occurs depends on the other side.
#[verifier::external_body]
fn channel_try_send(tx: &Sender<WriteOp>, op: WriteOp) -> SendOutcome {
    match tx.try_send(op) {
        Ok(()) => SendOutcome::Sent,
        Err(TrySendError::Full(_)) => SendOutcome::Full,
        Err(TrySendError::Disconnected(_)) => SendOutcome::Disconnected,
    }
}

/// The bound a channel was made with; `None` for an unbounded channel.
pub uninterp spec fn channel_bound(tx: Sender<WriteOp>) -> Option<usize>;

/// `Sender::len`: the messages in the channel at the moment of the call. The
/// number depends on the receiving side; for a bounded channel it never
/// exceeds the bound (a full channel reports exactly its bound).
#[verifier::external_body]
fn channel_len(tx: &Sender<WriteOp>) -> (len: usize)
    ensures
        channel_bound(*tx) matches Some(bound) ==> len <= bound,
{
    tx.len()
}

/// `Sender::capacity`: the bound the channel was created with.
#[verifier::external_body]
fn channel_capacity(tx: &Sender<WriteOp>) -> (capacity: Option<usize>)
    ensures
        capacity == channel_bound(*tx),
{
    tx.capacity()
}

/// A cloneable handle to the writer.
#[derive(Clone)]
pub struct WriterHandle {
    tx: Sender<WriteOp>,
}

impl WriterHandle {
    pub closed spec fn spec_bound(&self) -> Option<usize> {
        channel_bound(self.tx)
    }

    pub fn new(tx: Sender<WriteOp>) -> (handle: WriterHandle)
        ensures
            handle.spec_bound() == channel_bound(tx),
    {
        WriterHandle { tx }
    }

    /// Bulk class: fire-and-forget, blocking while the channel is full. Lost
    /// on a crash, and regenerable by construction.
    pub fn send_bulk(&self, op: WriteOp) -> (sent: DbResult<()>)
        ensures
            sent is Ok || sent matches Err(DbError::WriterGone),
    {
        if channel_send(&self.tx, op) {
            Ok(())
        } else {
            Err(DbError::WriterGone)
        }
    }

    /// Telemetry class: dropped rather than queued when the channel is full.
    pub fn send_telemetry(&self, op: WriteOp) -> (policy: Backpressure)
        ensures
            policy == Backpressure::Block || policy == Backpressure::Drop,
    {
        telemetry_backpressure(channel_try_send(&self.tx, op))
    }

    /// The durable class's enqueue: refused at once, and retryably, when the
    /// channel is full, so that a human's move never waits behind a batch.
    /// The caller then waits for the commit that contains it
    /// ([`WriterHandle::enqueue_flush`]).
    pub fn enqueue_durable(&self, op: WriteOp) -> (queued: DbResult<()>)
        ensures
            queued is Ok || queued matches Err(DbError::WriterGone) || (queued matches Err(
                DbError::Degraded(message),
            ) && message@ == "write queue saturated"@),
    {
        match durable_send_error(channel_try_send(&self.tx, op)) {
            None => Ok(()),
            Some(error) => Err(error),
        }
    }

    /// Queue a durability barrier that answers on `ack` once everything ahead
    /// of it is committed.
    pub fn enqueue_flush(&self, ack: oneshot::Sender<DbResult<()>>) -> (queued: DbResult<()>)
        ensures
            queued is Ok || queued matches Err(DbError::WriterGone),
    {
        self.send_bulk(WriteOp::Flush(ack))
    }

    /// Queue the drain-and-stop message, answered on `ack`.
    pub fn enqueue_shutdown(&self, ack: oneshot::Sender<()>) -> (queued: DbResult<()>)
        ensures
            queued is Ok || queued matches Err(DbError::WriterGone),
    {
        self.send_bulk(WriteOp::Shutdown(ack))
    }

    /// Messages waiting for the writer now: never more than the bound of a
    /// bounded channel.
    pub fn queue_depth(&self) -> (depth: usize)
        ensures
            self.spec_bound() matches Some(bound) ==> depth <= bound,
    {
        channel_len(&self.tx)
    }

    /// The channel's bound; `0` for an unbounded one.
    pub fn queue_capacity(&self) -> (capacity: usize)
        ensures
            capacity == match self.spec_bound() {
                Some(bound) => bound,
                None => 0,
            },
    {
        match channel_capacity(&self.tx) {
            Some(bound) => bound,
            None => 0,
        }
    }
}

} // verus!
