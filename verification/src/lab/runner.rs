//! Batch bookkeeping and cancellation.

use vstd::prelude::*;

use std::sync::Arc;

use crate::config::Config;
use crate::db::records::BatchStatus;
use crate::db::writer::WriterHandle;
use crate::engine::transposition::TranspositionTable;

verus! {

/// What a request to start a lab batch asks for.
#[derive(Clone, Debug)]
pub struct BatchRequest {
    pub name: String,
    pub target_games: u64,
    pub seed: Option<u64>,
    /// When true, the batch must produce identical move records on a re-run
    /// at any thread count, which requires deterministic mode and an
    /// iteration-bounded search.
    pub reproducible: bool,
}

#[derive(Clone, Copy, Debug, Default)]
pub struct BatchProgress {
    pub completed_games: u64,
    pub failed_games: u64,
    /// `f32` bit pattern.
    pub games_per_minute: u32,
}

/// The status a batch reports, given whether cancellation was requested and
/// whether its workers have finished.
pub open spec fn batch_status(cancelling: bool, finished: bool) -> BatchStatus {
    if cancelling {
        if finished {
            BatchStatus::Cancelled
        } else {
            BatchStatus::Cancelling
        }
    } else if finished {
        BatchStatus::Completed
    } else {
        BatchStatus::Running
    }
}

/// A running batch, and the only way to stop one.
///
/// Cancellation is two-phase: the request moves the batch to `cancelling`,
/// workers finish the game in hand, and only once the drain completes does the
/// batch become `cancelled`, so that every game counted is present by then.
pub struct BatchHandle {
    pub batch_id: i64,
    cancel: bool,
    completed: u64,
    failed: u64,
}

impl BatchHandle {
    pub closed spec fn spec_batch_id(&self) -> i64 {
        self.batch_id
    }

    pub closed spec fn spec_cancelling(&self) -> bool {
        self.cancel
    }

    pub closed spec fn spec_completed(&self) -> u64 {
        self.completed
    }

    pub closed spec fn spec_failed(&self) -> u64 {
        self.failed
    }

    pub fn new(batch_id: i64) -> (handle: BatchHandle)
        ensures
            handle.spec_batch_id() == batch_id,
            !handle.spec_cancelling(),
            handle.spec_completed() == 0,
            handle.spec_failed() == 0,
    {
        BatchHandle { batch_id, cancel: false, completed: 0, failed: 0 }
    }

    /// Request cancellation. Returns at once; the batch is not cancelled until
    /// its workers reach a game boundary. Requesting twice is harmless.
    pub fn request_cancel(&mut self)
        ensures
            final(self).spec_cancelling(),
            final(self).spec_batch_id() == old(self).spec_batch_id(),
            final(self).spec_completed() == old(self).spec_completed(),
            final(self).spec_failed() == old(self).spec_failed(),
    {
        self.cancel = true;
    }

    pub fn is_cancelling(&self) -> (cancelling: bool)
        ensures
            cancelling == self.spec_cancelling(),
    {
        self.cancel
    }

    pub fn progress(&self) -> (progress: BatchProgress)
        ensures
            progress.completed_games == self.spec_completed(),
            progress.failed_games == self.spec_failed(),
            progress.games_per_minute == 0,
    {
        BatchProgress { completed_games: self.completed, failed_games: self.failed, games_per_minute: 0 }
    }

    /// The status a batch in this state reports.
    pub fn status(&self, finished: bool) -> (status: BatchStatus)
        ensures
            status == batch_status(self.spec_cancelling(), finished),
    {
        match (self.cancel, finished) {
            (true, false) => BatchStatus::Cancelling,
            (true, true) => BatchStatus::Cancelled,
            (false, true) => BatchStatus::Completed,
            (false, false) => BatchStatus::Running,
        }
    }
}

/// Cancellation is two-phase: a batch whose cancellation was requested reports
/// `cancelling` until its workers finish and `cancelled` after; it never
/// reports `running` or `completed` again. One that was never cancelled is
/// `running`, then `completed`.
pub proof fn law_cancellation_is_two_phase(finished: bool)
    ensures
        batch_status(true, false) == BatchStatus::Cancelling,
        batch_status(true, true) == BatchStatus::Cancelled,
        batch_status(true, finished) != BatchStatus::Running,
        batch_status(true, finished) != BatchStatus::Completed,
        batch_status(false, false) == BatchStatus::Running,
        batch_status(false, true) == BatchStatus::Completed,
{
}

/// Owns the batch lifecycle. It holds shared handles to the transposition
/// table and the writer; it owns neither.
pub struct LabRunner {
    config: Arc<Config>,
    tt: Arc<TranspositionTable>,
    writer: WriterHandle,
}

impl LabRunner {
    pub closed spec fn spec_config(&self) -> Config {
        *self.config
    }

    pub closed spec fn spec_table(&self) -> Arc<TranspositionTable> {
        self.tt
    }

    pub closed spec fn spec_writer(&self) -> WriterHandle {
        self.writer
    }

    pub fn new(config: Arc<Config>, tt: Arc<TranspositionTable>, writer: WriterHandle) -> (runner:
        LabRunner)
        ensures
            runner.spec_config() == *config,
            runner.spec_table() == tt,
            runner.spec_writer() == writer,
    {
        LabRunner { config, tt, writer }
    }

    /// One worker per configured lab search thread.
    pub fn worker_count(&self) -> (count: usize)
        ensures
            count == self.spec_config().engine.lab.worker_threads,
    {
        self.config.engine.lab.worker_threads
    }

    pub fn transposition_table(&self) -> (tt: &Arc<TranspositionTable>)
        ensures
            *tt == self.spec_table(),
    {
        &self.tt
    }

    pub fn writer(&self) -> (writer: &WriterHandle)
        ensures
            *writer == self.spec_writer(),
    {
        &self.writer
    }
}

} // verus!
