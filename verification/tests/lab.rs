use draughts::config::SamplingConfig;
use draughts::db::records::BatchStatus;
use draughts::engine::mcts::ChildStats;
use draughts::lab::runner::{BatchHandle, BatchRequest};
use draughts::lab::sampling::Sampler;
use draughts::rules::moves::{Move, MoveFlags};

fn stats(visits: u32) -> ChildStats {
    ChildStats {
        mv: Move {
            from: 0,
            to: 1,
            flags: MoveFlags::none(),
        },
        visits,
        wins: 0,
        draws: 0,
        losses: 0,
        q_value: 0,
        prior: 0,
    }
}

#[test]
fn cancellation_is_two_phase() {
    let mut handle = BatchHandle::new(1);

    assert_eq!(handle.status(false), BatchStatus::Running);

    handle.request_cancel();
    assert_eq!(handle.status(false), BatchStatus::Cancelling);
    assert_eq!(handle.status(true), BatchStatus::Cancelled);
}

#[test]
fn a_batch_that_finishes_uncancelled_is_completed() {
    let handle = BatchHandle::new(1);
    assert_eq!(handle.status(true), BatchStatus::Completed);
}

#[test]
fn cancelling_twice_is_harmless() {
    let mut handle = BatchHandle::new(1);
    handle.request_cancel();
    handle.request_cancel();
    assert!(handle.is_cancelling());
}

#[test]
fn a_new_batch_has_no_progress() {
    let handle = BatchHandle::new(9);
    assert_eq!(handle.batch_id, 9);
    let progress = handle.progress();
    assert_eq!(progress.completed_games, 0);
    assert_eq!(progress.failed_games, 0);
    let request = BatchRequest {
        name: "smoke".to_string(),
        target_games: 10,
        seed: Some(3),
        reproducible: true,
    };
    assert_eq!(request.clone().target_games, 10);
}

#[test]
fn the_default_density_records_every_second_ply() {
    let sampler = Sampler::new(SamplingConfig::default());

    assert!(sampler.should_record(0, false));
    assert!(!sampler.should_record(1, false));
    assert!(sampler.should_record(2, false));
}

#[test]
fn a_terminal_position_is_recorded_regardless_of_density() {
    let sampler = Sampler::new(SamplingConfig::default());
    assert!(sampler.should_record(7, true), "ply 7 is not on the stride");
}

#[test]
fn a_zero_stride_records_no_ordinary_position() {
    let sampler = Sampler::new(SamplingConfig {
        record_positions_every_n_plies: 0,
        ..SamplingConfig::default()
    });
    assert!(!sampler.should_record(0, false));
    assert!(sampler.should_record(0, true));
}

#[test]
fn edges_are_trimmed_by_visits_not_by_order() {
    let sampler = Sampler::new(SamplingConfig {
        max_edges_per_position: 2,
        ..SamplingConfig::default()
    });

    let selected = sampler.select_edges(vec![stats(1), stats(500), stats(50)]);

    assert_eq!(selected.len(), 2);
    assert_eq!(selected[0].visits, 500);
    assert_eq!(selected[1].visits, 50);
}

#[test]
fn disabling_child_stats_stores_no_edges() {
    let sampler = Sampler::new(SamplingConfig {
        store_child_stats: false,
        ..SamplingConfig::default()
    });

    assert!(sampler.select_edges(vec![stats(500)]).is_empty());
}

#[test]
fn equal_visits_keep_their_order_and_nothing_is_lost_under_budget() {
    let sampler = Sampler::new(SamplingConfig::default());
    let mut input = vec![stats(5), stats(9), stats(5), stats(1)];
    input[0].wins = 1;
    input[2].wins = 2;
    let selected = sampler.select_edges(input);
    let visits: Vec<u32> = selected.iter().map(|s| s.visits).collect();
    assert_eq!(visits, vec![9, 5, 5, 1]);
    assert_eq!(selected[1].wins, 1);
    assert_eq!(selected[2].wins, 2);
}
