//! Search configuration and the data a search reports.

use vstd::prelude::*;

use std::sync::Arc;

use crate::config::{SearchConfig, TtMode};
use crate::engine::transposition::TranspositionTable;
use crate::rules::moves::Move;

verus! {

/// How many threads a single search may use.
#[derive(Clone, Copy, PartialEq, Eq, Debug, Structural)]
pub enum ThreadBudget {
    /// One thread: Play Mode.
    Single,
    /// Root-parallel search across `n` threads.
    Threads(usize),
}

impl ThreadBudget {
    pub fn from_worker_threads(threads: usize) -> (budget: ThreadBudget)
        ensures
            threads <= 1 ==> budget == ThreadBudget::Single,
            threads > 1 ==> budget == ThreadBudget::Threads(threads),
    {
        if threads <= 1 {
            ThreadBudget::Single
        } else {
            ThreadBudget::Threads(threads)
        }
    }

    pub fn count(self) -> (count: usize)
        ensures
            count == (match self {
                ThreadBudget::Single => 1,
                ThreadBudget::Threads(n) => n,
            }),
    {
        match self {
            ThreadBudget::Single => 1,
            ThreadBudget::Threads(n) => n,
        }
    }
}

#[derive(Clone, Copy, Debug)]
pub struct MctsConfig {
    /// A ceiling; where `max_time_ms` is non-zero it usually binds first.
    pub max_iterations: u32,
    /// `0` means iteration-bounded, the only reproducible setting.
    pub max_time_ms: u64,
    /// Bit pattern of the `f32` exploration constant.
    pub exploration_constant: u32,
    pub seed: u64,
    pub thread_budget: ThreadBudget,
    pub tt_mode: TtMode,
}

impl MctsConfig {
    /// Build a search configuration from an `[engine.play]` or `[engine.lab]`
    /// section, so that the two cannot drift apart in interpretation.
    pub fn from_search_config(search: &SearchConfig, seed: u64) -> (config: MctsConfig)
        ensures
            config.max_iterations == search.iterations,
            config.max_time_ms == search.time_budget_ms,
            config.exploration_constant == search.exploration_constant,
            config.seed == seed,
            search.worker_threads <= 1 ==> config.thread_budget == ThreadBudget::Single,
            search.worker_threads > 1 ==> config.thread_budget == ThreadBudget::Threads(
                search.worker_threads,
            ),
            config.tt_mode == search.transposition_mode,
    {
        MctsConfig {
            max_iterations: search.iterations,
            max_time_ms: search.time_budget_ms,
            exploration_constant: search.exploration_constant,
            seed,
            thread_budget: ThreadBudget::from_worker_threads(search.worker_threads),
            tt_mode: search.transposition_mode,
        }
    }

    /// True when two runs of this configuration must produce identical
    /// results: no clock, and deterministic table use.
    pub fn is_reproducible(&self) -> (reproducible: bool)
        ensures
            reproducible == (self.max_time_ms == 0 && self.tt_mode == TtMode::Deterministic),
    {
        self.max_time_ms == 0 && self.tt_mode == TtMode::Deterministic
    }
}

/// Root statistics for one move. Scores are `f32` bit patterns.
#[derive(Clone, Copy, Debug)]
pub struct ChildStats {
    pub mv: Move,
    pub visits: u32,
    pub wins: u32,
    pub draws: u32,
    pub losses: u32,
    pub q_value: u32,
    pub prior: u32,
}

/// The chosen move plus root statistics. Scores are `f32` bit patterns.
#[derive(Clone, Debug)]
pub struct SearchResult {
    pub best_move: Move,
    pub root_visits: u32,
    pub root_q: u32,
    pub child_stats: Vec<ChildStats>,
    pub tt_hits: u32,
    pub tt_misses: u32,
}

/// A search engine: an evaluator, a configuration, and a handle to the shared
/// table, which the engine does not own.
pub struct MctsEngine<E> {
    evaluator: E,
    config: MctsConfig,
    tt: Arc<TranspositionTable>,
}

impl<E> MctsEngine<E> {
    pub closed spec fn spec_evaluator(&self) -> E {
        self.evaluator
    }

    pub closed spec fn spec_config(&self) -> MctsConfig {
        self.config
    }

    pub closed spec fn spec_table(&self) -> Arc<TranspositionTable> {
        self.tt
    }

    pub fn new(evaluator: E, config: MctsConfig, tt: Arc<TranspositionTable>) -> (engine:
        MctsEngine<E>)
        ensures
            engine.spec_evaluator() == evaluator,
            engine.spec_config() == config,
            engine.spec_table() == tt,
    {
        MctsEngine { evaluator, config, tt }
    }

    pub fn config(&self) -> (config: &MctsConfig)
        ensures
            *config == self.spec_config(),
    {
        &self.config
    }

    pub fn evaluator(&self) -> (evaluator: &E)
        ensures
            *evaluator == self.spec_evaluator(),
    {
        &self.evaluator
    }

    pub fn transposition_table(&self) -> (tt: &Arc<TranspositionTable>)
        ensures
            *tt == self.spec_table(),
    {
        &self.tt
    }
}

} // verus!
