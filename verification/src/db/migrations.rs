//! Schema migrations: the list this build carries.

use vstd::prelude::*;

use super::{DbError, DbResult};

verus! {

/// One migration: a version, a name, and the SQL that applies it.
#[derive(Debug, Clone, Copy)]
pub struct Migration {
    pub version: u32,
    pub name: &'static str,
    pub sql: &'static str,
}

/// The initial schema.
pub const INITIAL_SCHEMA: &'static str = "\
CREATE TABLE lab_batches (
    id              INTEGER PRIMARY KEY,
    name            TEXT NOT NULL,
    config_json     TEXT NOT NULL,
    status          TEXT NOT NULL DEFAULT 'queued',
    target_games    INTEGER NOT NULL DEFAULT 0,
    completed_games INTEGER NOT NULL DEFAULT 0,
    failed_games    INTEGER NOT NULL DEFAULT 0,
    seed            INTEGER,
    created_at      TEXT NOT NULL DEFAULT (datetime('now')),
    finished_at     TEXT
);
CREATE TABLE games (
    id             INTEGER PRIMARY KEY,
    format_version INTEGER NOT NULL,
    batch_id       INTEGER REFERENCES lab_batches(id),
    mode           TEXT NOT NULL,
    seed           INTEGER NOT NULL,
    result         INTEGER,
    winner_side    INTEGER,
    ply_count      INTEGER NOT NULL,
    moves          BLOB NOT NULL,
    final_board    BLOB,
    elapsed_ms     INTEGER,
    rules          TEXT NOT NULL DEFAULT 'english_draughts',
    created_at     TEXT NOT NULL DEFAULT (datetime('now'))
);
CREATE TABLE positions (
    id             INTEGER PRIMARY KEY,
    format_version INTEGER NOT NULL,
    batch_id       INTEGER REFERENCES lab_batches(id),
    game_id        INTEGER NOT NULL REFERENCES games(id),
    ply            INTEGER NOT NULL,
    side_to_move   INTEGER NOT NULL,
    board          BLOB NOT NULL,
    board_hash     INTEGER NOT NULL,
    terminal       INTEGER NOT NULL,
    outcome        INTEGER NOT NULL,
    root_visits    INTEGER NOT NULL,
    root_q         REAL NOT NULL,
    sample_kind    INTEGER NOT NULL
);
CREATE TABLE position_edges (
    position_id INTEGER NOT NULL REFERENCES positions(id),
    move        INTEGER NOT NULL,
    visits      INTEGER NOT NULL,
    wins        INTEGER NOT NULL,
    draws       INTEGER NOT NULL,
    losses      INTEGER NOT NULL,
    q_value     REAL NOT NULL,
    prior       REAL,
    PRIMARY KEY (position_id, move)
) WITHOUT ROWID;
CREATE TABLE face_events (
    id              INTEGER PRIMARY KEY,
    match_id        TEXT,
    game_id         INTEGER,
    event_type      TEXT NOT NULL,
    provider        TEXT NOT NULL,
    fallback_used   INTEGER NOT NULL,
    fallback_reason TEXT,
    circuit_state   INTEGER NOT NULL,
    latency_ms      INTEGER,
    token_count     INTEGER,
    created_at      TEXT NOT NULL DEFAULT (datetime('now'))
);
";

/// The migrations this build carries, in order.
pub open spec fn known_migrations() -> Seq<Migration> {
    seq![Migration { version: 1, name: "initial", sql: INITIAL_SCHEMA }]
}

/// The migrations this build carries, in order: one so far, the initial
/// schema at version 1. Embedded rather than read from disk, because one
/// deployable unit includes the schema that code expects.
pub fn migrations() -> (list: Vec<Migration>)
    ensures
        list@ == known_migrations(),
{
    vec![Migration { version: 1, name: "initial", sql: INITIAL_SCHEMA }]
}

/// The version of the last migration in a list; `0` for an empty list.
pub open spec fn last_version(list: Seq<Migration>) -> u32 {
    if list.len() == 0 {
        0
    } else {
        list.last().version
    }
}

/// The schema version this build expects: the last migration's version, so
/// that adding a migration cannot forget to update it.
pub fn target_version() -> (version: u32)
    ensures
        version == last_version(known_migrations()),
{
    let list = migrations();
    let n = list.len();
    if n == 0 {
        0
    } else {
        list[n - 1].version
    }
}

/// The migrations a database at schema version `current` has not seen.
pub open spec fn pending(current: u32) -> Seq<Migration> {
    known_migrations().filter(|m: Migration| m.version > current)
}

/// What to apply to a database at schema version `current`. An older binary
/// pointed at a newer database is refused: serving it would mean reading
/// columns and encodings this build does not know.
pub fn plan_migrations(current: u32) -> (plan: DbResult<Vec<Migration>>)
    ensures
        current > last_version(known_migrations()) ==> (plan matches Err(
            DbError::SchemaTooNew { found, known },
        ) && found == current && known == last_version(known_migrations())),
        current <= last_version(known_migrations()) ==> (plan matches Ok(list) && list@ == pending(
            current,
        )),
{
    let target = target_version();
    if current > target {
        return Err(DbError::SchemaTooNew { found: current, known: target });
    }
    let all = migrations();
    let mut list: Vec<Migration> = Vec::new();
    let mut i: usize = 0;
    while i < all.len()
        invariant
            all@ == known_migrations(),
            i <= all@.len(),
            list@ == all@.take(i as int).filter(|m: Migration| m.version > current),
        decreases all@.len() - i,
    {
        let migration = all[i];
        proof {
            reveal(Seq::filter);
            assert(all@.take(i + 1).drop_last() =~= all@.take(i as int));
        }
        if migration.version > current {
            list.push(migration);
        }
        i = i + 1;
    }
    proof {
        assert(all@.take(all@.len() as int) =~= all@);
    }
    Ok(list)
}

/// Foreign-key enforcement must be clean before the process serves traffic:
/// any violation is a refusal, and a clean check reports the version the
/// database is now at.
pub fn foreign_key_verdict(violations: i64) -> (verdict: DbResult<u32>)
    ensures
        violations <= 0 ==> (verdict matches Ok(version) && version == last_version(
            known_migrations(),
        )),
        violations > 0 ==> (verdict matches Err(DbError::Degraded(message)) && exists|digits: String|
            message@ == "pragma_foreign_key_check reports "@ + digits@
                + " violations; refusing to serve traffic"@
                && vstd::string::to_string_from_display_ensures::<i64>(&violations, digits)),
{
    if violations > 0 {
        let digits = violations.to_string();
        let mut message = "pragma_foreign_key_check reports ".to_owned();
        message.append(digits.as_str());
        message.append(" violations; refusing to serve traffic");
        return Err(DbError::Degraded(message));
    }
    Ok(target_version())
}

/// Migration versions start at 1 and ascend without a gap, so that the
/// version a database records says exactly which migrations it has seen.
pub proof fn law_migration_versions_are_contiguous()
    ensures
        forall|i: int|
            0 <= i < known_migrations().len() ==> (#[trigger] known_migrations()[i]).version == i + 1,
        last_version(known_migrations()) == known_migrations().len(),
{
}

} // verus!
