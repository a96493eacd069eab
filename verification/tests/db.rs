use draughts::db::ids::{IdAllocator, IdLease};
use draughts::db::migrations::{foreign_key_verdict, migrations, plan_migrations, target_version};
use draughts::db::records::{
    BatchStatus, GameMode, GameRecord, PositionRecord, SampleKind,
};
use draughts::db::writer::{
    durable_send_error, telemetry_backpressure, Backpressure, SendOutcome, WriteOp, WriterHandle,
};
use draughts::db::DbError;
use draughts::rules::board::{Board, GameResult, Side};
use draughts::rules::moves::{Move, MoveFlags};
use draughts::CURRENT_FORMAT_VERSION;

fn record(moves: Vec<Move>) -> GameRecord {
    GameRecord {
        id: 1,
        format_version: CURRENT_FORMAT_VERSION,
        batch_id: None,
        mode: GameMode::HumanCpu,
        seed: 7,
        result: Some(GameResult::BlackWin),
        winner_side: Some(Side::Black),
        ply_count: moves.len() as u32,
        moves,
        final_board: Some(Board::initial()),
        elapsed_ms: Some(1234),
    }
}

fn position() -> PositionRecord {
    PositionRecord {
        id: 1,
        format_version: CURRENT_FORMAT_VERSION,
        batch_id: Some(1),
        game_id: 1,
        ply: 0,
        side_to_move: Side::Black,
        board: Board::initial(),
        board_hash: 0,
        terminal: false,
        outcome: 0,
        root_visits: 0,
        root_q: 0,
        sample_kind: SampleKind::Mcts,
    }
}

fn game() -> GameRecord {
    GameRecord {
        id: 1,
        format_version: CURRENT_FORMAT_VERSION,
        batch_id: None,
        mode: GameMode::CpuCpu,
        seed: 0,
        result: None,
        winner_side: None,
        ply_count: 0,
        moves: Vec::new(),
        final_board: None,
        elapsed_ms: None,
    }
}

// --- ids ---------------------------------------------------------------------

#[test]
fn a_lease_hands_out_exactly_its_block() {
    let mut allocator = IdAllocator::resume_from(100);
    let mut lease = allocator.lease(3);

    assert_eq!(lease.take(), Some(100));
    assert_eq!(lease.take(), Some(101));
    assert_eq!(lease.take(), Some(102));
    assert_eq!(lease.take(), None, "a lease does not overrun");
}

#[test]
fn resuming_never_reissues() {
    let mut first = IdAllocator::resume_from(1);
    let mut lease = first.lease(500);
    while lease.take().is_some() {}
    let high_water = first.peek();

    let mut after_restart = IdAllocator::resume_from(high_water);
    let mut lease = after_restart.lease(1);

    assert_eq!(lease.take(), Some(501));
}

#[test]
fn consecutive_leases_are_disjoint() {
    let mut allocator = IdAllocator::resume_from(1);
    let mut seen = std::collections::HashSet::new();
    for _ in 0..8 {
        let mut lease: IdLease = allocator.lease(1_000);
        assert_eq!(lease.remaining(), 1_000);
        while let Some(id) = lease.take() {
            assert!(seen.insert(id), "id {id} was issued twice");
        }
        assert_eq!(lease.remaining(), 0);
    }
    assert_eq!(seen.len(), 8_000);
}

// --- records -----------------------------------------------------------------

#[test]
fn the_moves_blob_round_trips() {
    let moves: Vec<Move> = (0..40)
        .map(|i| Move {
            from: i % 32,
            to: (i + 5) % 32,
            flags: if i % 3 == 0 {
                MoveFlags::capture()
            } else {
                MoveFlags::none()
            },
        })
        .collect();

    let blob = record(moves.clone()).encode_moves();
    assert_eq!(blob.len(), moves.len() * 2);
    assert_eq!(
        GameRecord::decode_moves(&blob, CURRENT_FORMAT_VERSION).unwrap(),
        moves
    );
}

#[test]
fn an_unknown_format_version_is_refused() {
    let blob = record(Vec::new()).encode_moves();

    let error = GameRecord::decode_moves(&blob, 255).expect_err("unknown version");
    assert!(matches!(
        error,
        DbError::UnsupportedFormatVersion { found: 255 }
    ));
}

#[test]
fn an_odd_length_blob_is_refused_as_corrupt() {
    let mut blob = record(vec![Move {
        from: 1,
        to: 5,
        flags: MoveFlags::none(),
    }])
    .encode_moves();
    blob.push(0);
    assert!(matches!(
        GameRecord::decode_moves(&blob, CURRENT_FORMAT_VERSION),
        Err(DbError::CorruptEncoding(what)) if what == "games.moves BLOB of odd length"
    ));
}

#[test]
fn only_queued_and_running_batches_can_be_cancelled() {
    assert!(BatchStatus::Queued.is_cancellable());
    assert!(BatchStatus::Running.is_cancellable());

    for status in [
        BatchStatus::Cancelling,
        BatchStatus::Completed,
        BatchStatus::Cancelled,
        BatchStatus::Failed,
        BatchStatus::Interrupted,
    ] {
        assert!(!status.is_cancellable(), "{status:?} is not cancellable");
    }
}

#[test]
fn batch_statuses_have_persisted_names() {
    assert_eq!(BatchStatus::Cancelling.as_str(), "cancelling");
    assert!(BatchStatus::Interrupted.is_terminal());
    assert!(!BatchStatus::Running.is_terminal());
}

// --- migrations --------------------------------------------------------------

#[test]
fn migration_versions_are_contiguous_and_ascending() {
    for (index, migration) in migrations().iter().enumerate() {
        assert_eq!(
            migration.version,
            index as u32 + 1,
            "migration versions must start at 1 and not skip"
        );
    }
    assert_eq!(target_version(), migrations().len() as u32);
}

#[test]
fn a_schema_newer_than_this_binary_is_refused() {
    let result = plan_migrations(target_version() + 1);
    assert!(
        matches!(result, Err(DbError::SchemaTooNew { .. })),
        "expected SchemaTooNew, got {result:?}"
    );
}

#[test]
fn a_fresh_database_gets_every_migration_and_a_current_one_none() {
    let all = plan_migrations(0).expect("a fresh database migrates");
    assert_eq!(all.len(), migrations().len());
    assert_eq!(all[0].name, "initial");
    let none = plan_migrations(target_version()).expect("a current database is fine");
    assert!(none.is_empty());
}

#[test]
fn the_initial_schema_declares_what_the_store_relies_on() {
    let sql = migrations()[0].sql.to_uppercase();
    for table in ["FACE_EVENTS", "GAMES", "LAB_BATCHES", "POSITION_EDGES", "POSITIONS"] {
        assert!(sql.contains(&format!("CREATE TABLE {table} ")), "missing {table}");
    }
    assert!(sql.contains("WITHOUT ROWID"));
    assert!(sql.contains("FORMAT_VERSION"));
}

#[test]
fn foreign_key_violations_refuse_to_serve() {
    assert_eq!(foreign_key_verdict(0).unwrap(), target_version());
    match foreign_key_verdict(3) {
        Err(DbError::Degraded(message)) => assert_eq!(
            message,
            "pragma_foreign_key_check reports 3 violations; refusing to serve traffic"
        ),
        other => panic!("expected a refusal, got {other:?}"),
    }
}

// --- the writer --------------------------------------------------------------

#[test]
fn a_batch_is_measured_in_rows_not_messages() {
    assert_eq!(WriteOp::Game(game()).row_count(), 1);
    assert_eq!(WriteOp::Positions(vec![position(); 5_000]).row_count(), 5_000);

    let (ack, _rx) = tokio::sync::oneshot::channel();
    assert_eq!(WriteOp::Flush(ack).row_count(), 0, "a barrier is not a row");
}

#[test]
fn a_full_channel_rejects_durable_writes_and_drops_telemetry() {
    let (tx, _rx) = crossbeam_channel::bounded(1);
    let handle = WriterHandle::new(tx);

    handle.send_bulk(WriteOp::Game(game())).expect("first fits");
    assert_eq!(handle.queue_depth(), 1);
    assert_eq!(handle.queue_capacity(), 1);

    assert_eq!(handle.send_telemetry(WriteOp::Game(game())), Backpressure::Drop);
    assert!(matches!(
        handle.enqueue_durable(WriteOp::Game(game())),
        Err(DbError::Degraded(message)) if message == "write queue saturated"
    ));
}

#[test]
fn a_gone_writer_is_reported_as_gone() {
    let (tx, rx) = crossbeam_channel::bounded(4);
    drop(rx);
    let handle = WriterHandle::new(tx);
    assert!(matches!(
        handle.send_bulk(WriteOp::Game(game())),
        Err(DbError::WriterGone)
    ));
    assert_eq!(handle.send_telemetry(WriteOp::Game(game())), Backpressure::Drop);
}

#[test]
fn producer_policies_at_a_full_channel() {
    assert_eq!(telemetry_backpressure(SendOutcome::Sent), Backpressure::Block);
    assert_eq!(telemetry_backpressure(SendOutcome::Full), Backpressure::Drop);
    assert!(durable_send_error(SendOutcome::Sent).is_none());
    assert!(matches!(
        durable_send_error(SendOutcome::Disconnected),
        Some(DbError::WriterGone)
    ));
}

fn migrated() -> rusqlite::Connection {
    let conn = rusqlite::Connection::open_in_memory().expect("in-memory database");
    conn.execute_batch("PRAGMA foreign_keys = ON;").unwrap();
    for migration in plan_migrations(0).expect("a fresh database migrates") {
        conn.execute_batch(migration.sql).expect("migration applies");
    }
    conn
}

fn columns(conn: &rusqlite::Connection, table: &str) -> Vec<String> {
    conn.prepare(&format!("SELECT name FROM pragma_table_info('{table}')"))
        .unwrap()
        .query_map([], |row| row.get(0))
        .unwrap()
        .collect::<Result<_, _>>()
        .unwrap()
}

#[test]
fn migrations_apply_to_an_empty_database() {
    let conn = migrated();

    let tables: Vec<String> = conn
        .prepare("SELECT name FROM sqlite_master WHERE type = 'table' ORDER BY name")
        .unwrap()
        .query_map([], |row| row.get(0))
        .unwrap()
        .collect::<Result<_, _>>()
        .unwrap();

    for expected in [
        "face_events",
        "games",
        "lab_batches",
        "position_edges",
        "positions",
    ] {
        assert!(tables.contains(&expected.to_string()), "missing {expected}");
    }
    let violations: i64 = conn
        .query_row("SELECT COUNT(*) FROM pragma_foreign_key_check", [], |row| {
            row.get(0)
        })
        .unwrap();
    assert_eq!(foreign_key_verdict(violations).unwrap(), target_version());
}

#[test]
fn migrations_are_idempotent() {
    let applied = plan_migrations(0).unwrap().len() as u32;
    assert_eq!(applied, target_version());
    assert!(plan_migrations(target_version()).unwrap().is_empty());
    assert!(plan_migrations(target_version()).unwrap().is_empty());
}

#[test]
fn every_blob_bearing_table_has_a_format_version() {
    let conn = migrated();

    for table in ["games", "positions"] {
        assert!(
            columns(&conn, table).contains(&"format_version".to_string()),
            "{table} stores BLOBs without a format_version"
        );
    }
}

#[test]
fn position_edges_is_without_rowid() {
    let conn = migrated();

    let sql: String = conn
        .query_row(
            "SELECT sql FROM sqlite_master WHERE name = 'position_edges'",
            [],
            |row| row.get(0),
        )
        .unwrap();

    assert!(sql.to_uppercase().contains("WITHOUT ROWID"));
}

#[test]
fn a_human_sample_needs_no_batch() {
    let conn = migrated();

    let batch_id_notnull: i64 = conn
        .query_row(
            "SELECT \"notnull\" FROM pragma_table_info('positions') WHERE name = 'batch_id'",
            [],
            |row| row.get(0),
        )
        .unwrap();

    assert_eq!(
        batch_id_notnull, 0,
        "NOT NULL here makes a human game sample unrepresentable"
    );
}
