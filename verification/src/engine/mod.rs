//! Search-engine support: evaluator identity, search configuration, and the
//! shared transposition table.

pub mod evaluator;
pub mod mcts;
pub mod transposition;

pub use crate::config::TtMode;
pub use evaluator::{EvaluatorIdentity, RandomRolloutEvaluator};
pub use mcts::{ChildStats, MctsConfig, MctsEngine, SearchResult, ThreadBudget};
pub use transposition::{Probe, SmallMoveList, TranspositionTable, TtEntry, TtKey, TtKind, TtUpdate};
