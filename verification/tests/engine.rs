use draughts::config::{Config, TtMode};
use draughts::engine::evaluator::{result_outcome, EvaluatorIdentity, RandomRolloutEvaluator};
use draughts::engine::mcts::{MctsConfig, ThreadBudget};
use draughts::engine::transposition::{
    Probe, SmallMoveList, TranspositionTable, TtKind, TtUpdate, MAX_INLINE_MOVES,
};
use draughts::rules::board::{GameResult, GameState, Side};
use draughts::rules::hashing::FNV1A_OFFSET_BASIS;
use draughts::rules::moves::{Move, MoveFlags};

fn identity() -> EvaluatorIdentity {
    EvaluatorIdentity::new("test", &[])
}

#[test]
fn terminal_scores_are_antisymmetric() {
    for result in [GameResult::BlackWin, GameResult::WhiteWin] {
        assert_eq!(
            result_outcome(result, Side::Black),
            -result_outcome(result, Side::White)
        );
    }
    assert_eq!(result_outcome(GameResult::Draw, Side::Black), 0);
    assert_eq!(result_outcome(GameResult::Draw, Side::White), 0);
    assert_eq!(result_outcome(GameResult::BlackWin, Side::Black), 1);
}

#[test]
fn identity_changes_with_configuration_but_not_with_seed() {
    let a = RandomRolloutEvaluator::new(1, 200);
    let b = RandomRolloutEvaluator::new(999, 200);
    let c = RandomRolloutEvaluator::new(1, 400);

    assert_eq!(a.identity(), b.identity(), "the seed is not part of identity");
    assert_ne!(a.identity(), c.identity(), "the playout cap is");
}

#[test]
fn different_evaluators_never_share_an_identity() {
    assert_ne!(
        EvaluatorIdentity::new("random_rollout", &[]),
        EvaluatorIdentity::new("nn_value_v1", &[])
    );
    assert_ne!(
        EvaluatorIdentity::from_str("nn_value_v1", "ckpt-a"),
        EvaluatorIdentity::from_str("nn_value_v1", "ckpt-b")
    );
}

#[test]
fn an_empty_name_hashes_to_the_offset_basis() {
    assert_eq!(EvaluatorIdentity::new("", &[]).as_u64(), FNV1A_OFFSET_BASIS);
    assert_eq!(
        EvaluatorIdentity::new("a", &[]).as_u64(),
        (FNV1A_OFFSET_BASIS ^ 0x61).wrapping_mul(0x0000_0100_0000_01B3)
    );
}

#[test]
fn a_one_letter_name_hashes_to_the_published_fnv1a_value() {
    assert_eq!(EvaluatorIdentity::new("a", &[]).as_u64(), 0xAF63_DC4C_8601_EC8C);
}

#[test]
fn random_rollout_never_claims_purity() {
    assert!(!RandomRolloutEvaluator::new(0, 200).is_position_pure());
}

#[test]
fn the_rollout_evaluator_reports_its_settings() {
    let evaluator = RandomRolloutEvaluator::new(42, 300);
    assert_eq!(evaluator.seed(), 42);
    assert_eq!(evaluator.max_playout_ply(), 300);
    assert_eq!(evaluator.name(), "random_rollout");
    assert_eq!(
        evaluator.terminal_outcome(&GameState::new(), Side::Black),
        None,
        "the opening position is not terminal"
    );
}

#[test]
fn play_mode_is_time_bounded_and_lab_mode_is_not() {
    let config = Config::default();

    let play = MctsConfig::from_search_config(&config.engine.play, 0);
    let lab = MctsConfig::from_search_config(&config.engine.lab, 0);

    assert!(play.max_time_ms > 0, "a human notices latency");
    assert_eq!(lab.max_time_ms, 0, "a lab batch must be reproducible");
}

#[test]
fn reproducibility_requires_deterministic_mode_and_no_clock() {
    let config = Config::default();

    let lab = MctsConfig::from_search_config(&config.engine.lab, 0);
    assert!(!lab.is_reproducible(), "lab defaults to throughput mode");

    let mut deterministic = lab;
    deterministic.tt_mode = TtMode::Deterministic;
    assert!(deterministic.is_reproducible());

    deterministic.max_time_ms = 1;
    assert!(!deterministic.is_reproducible(), "a clock is not reproducible");
}

#[test]
fn a_single_worker_thread_is_a_single_thread_budget() {
    assert_eq!(ThreadBudget::from_worker_threads(0), ThreadBudget::Single);
    assert_eq!(ThreadBudget::from_worker_threads(1), ThreadBudget::Single);
    assert_eq!(ThreadBudget::from_worker_threads(10), ThreadBudget::Threads(10));
    assert_eq!(ThreadBudget::Threads(10).count(), 10);
    assert_eq!(ThreadBudget::Single.count(), 1);
}

#[test]
fn a_disabled_table_never_hits() {
    let table = TranspositionTable::disabled();
    let state = GameState::new();

    assert!(table.is_disabled());
    assert!(matches!(
        table.probe(&state, identity(), TtMode::Throughput),
        Probe::Miss
    ));
    assert_eq!(table.stats().probes, 0, "a disabled table is not a hot path");
}

#[test]
fn an_empty_table_misses_and_counts_the_probe() {
    let table = TranspositionTable::with_capacity(16, 2);
    let state = GameState::new();

    assert!(!table.is_disabled());
    assert_eq!(table.capacity(), 16);
    assert!(matches!(
        table.probe(&state, identity(), TtMode::Deterministic),
        Probe::Miss
    ));
    assert_eq!(table.stats().probes, 1);
    assert_eq!(table.len(), 0);
}

#[test]
fn deterministic_mode_drops_estimates_before_storing() {
    let table = TranspositionTable::with_capacity(16, 2);
    let state = GameState::new();

    table.store(
        &state,
        TtUpdate {
            value: 0.5f32.to_bits(),
            samples: 1,
            moves: SmallMoveList::default(),
            kind: TtKind::Estimate,
            evaluator: identity(),
        },
        TtMode::Deterministic,
    );

    assert!(table.is_empty());
}

#[test]
fn the_epoch_advances() {
    let table = TranspositionTable::with_capacity(16, 2);
    assert_eq!(table.epoch(), 0);
    table.advance_epoch();
    assert_eq!(table.epoch(), 1);
}

#[test]
fn a_move_list_that_does_not_fit_is_refused_rather_than_truncated() {
    let mv = Move {
        from: 1,
        to: 2,
        flags: MoveFlags::none(),
    };

    assert!(SmallMoveList::from_moves(&[mv; MAX_INLINE_MOVES]).is_some());
    assert!(SmallMoveList::from_moves(&[mv; MAX_INLINE_MOVES + 1]).is_none());
}

#[test]
fn an_inline_move_list_round_trips() {
    let moves: Vec<Move> = (0..6)
        .map(|i| Move {
            from: i,
            to: i + 4,
            flags: MoveFlags::capture(),
        })
        .collect();

    let packed = SmallMoveList::from_moves(&moves).expect("fits");
    assert_eq!(packed.len(), moves.len());
    assert_eq!(packed.to_moves(), moves);
    assert!(SmallMoveList::empty().is_empty());
}
