//! The health report.
//!
//! `status` reports `ok` while the engine and database are healthy. A tripped
//! circuit or an unloaded model does not make the service unhealthy; it makes
//! it less entertaining. That distinction is what keeps an external
//! supervisor from restarting a functional server because a taunt timed out.

use vstd::prelude::*;

use super::state::FaceStatus;
use crate::config::{Config, TtMode};
use crate::engine::transposition::TtStats;
use crate::face::breaker::{CircuitBreaker, CircuitState};

verus! {

pub struct HealthResponse {
    pub status: &'static str,
    pub version: &'static str,
    pub engine: &'static str,
    pub evaluator: String,
    pub sqlite_wal: bool,
    pub schema_version: u32,
    pub face: FaceHealth,
    pub transposition_table: TtHealth,
    pub writer: WriterHealth,
}

/// Did the Face layer get the device it asked for? `device_requested: auto`
/// with `device: cpu` is the configuration in which commentary is running the
/// fallback profile.
pub struct FaceHealth {
    pub enabled: bool,
    pub provider: &'static str,
    pub device_requested: &'static str,
    pub device: String,
    pub device_name: Option<String>,
    pub profile: &'static str,
    pub model_id: String,
    pub model_loaded: bool,
    pub resident_mb: u64,
    pub vram_used_mb: u64,
    pub vram_budget_mb: Option<u64>,
    pub circuit: CircuitState,
    pub consecutive_failures: u32,
    pub trips_total: u64,
    pub cooldown_remaining_seconds: u64,
}

/// The table's counters are reported raw; the hit rate is their ratio.
pub struct TtHealth {
    pub mode: &'static str,
    pub entries: usize,
    pub capacity: usize,
    pub resident_mb: u64,
    pub stats: TtStats,
}

/// Writer introspection is not wired: these fields are placeholders that read
/// as an idle writer, apart from the configured capacity.
pub struct WriterHealth {
    pub queue_depth: usize,
    pub queue_capacity: usize,
    pub rows_committed: u64,
    pub last_commit_ms: u64,
    pub last_error: Option<String>,
}

pub open spec fn tt_mode_name(mode: TtMode) -> Seq<char> {
    match mode {
        TtMode::Deterministic => "deterministic"@,
        TtMode::Throughput => "throughput"@,
    }
}

fn clone_name(name: &Option<String>) -> (copy: Option<String>)
    ensures
        copy == *name,
{
    match name {
        Some(text) => Some(text.clone()),
        None => None,
    }
}

/// The health report for a process in this state. Play-mode settings are
/// what is live between lab batches, so those are reported.
pub fn health_report(
    config: &Config,
    face: &FaceStatus,
    breaker: &CircuitBreaker,
    tt_entries: usize,
    tt_capacity: usize,
    tt_stats: TtStats,
    schema_version: u32,
    version: &'static str,
    now_ms: u64,
) -> (report: HealthResponse)
    ensures
        report.status@ == "ok"@,
        report.version == version,
        report.engine@ == "mcts"@,
        report.evaluator@ == config.engine.play.evaluator@,
        report.sqlite_wal,
        report.schema_version == schema_version,
        report.face.enabled == face.enabled,
        report.face.provider == face.provider,
        report.face.device_requested@ == face.device_requested.spec_health_string(),
        face.device.names_device(report.face.device@),
        report.face.device_name == face.device_name,
        report.face.profile@ == face.device.spec_profile_name(),
        report.face.model_id@ == face.model_id@,
        report.face.model_loaded == face.model_loaded,
        report.face.resident_mb == face.resident_mb,
        report.face.vram_used_mb == face.vram_used_mb,
        report.face.vram_budget_mb == face.vram_budget_mb,
        report.face.circuit == breaker@.circuit,
        report.face.consecutive_failures == breaker@.consecutive_failures,
        report.face.trips_total == breaker@.trips,
        report.face.cooldown_remaining_seconds == breaker@.cooldown_remaining_seconds(now_ms),
        report.transposition_table.mode@ == tt_mode_name(config.engine.play.transposition_mode),
        report.transposition_table.entries == tt_entries,
        report.transposition_table.capacity == tt_capacity,
        report.transposition_table.resident_mb == 0,
        report.transposition_table.stats == tt_stats,
        report.writer.queue_depth == 0,
        report.writer.queue_capacity == config.database.writer.channel_capacity,
        report.writer.rows_committed == 0,
        report.writer.last_commit_ms == 0,
        report.writer.last_error is None,
{
    HealthResponse {
        status: "ok",
        version,
        engine: "mcts",
        evaluator: config.engine.play.evaluator.clone(),
        sqlite_wal: true,
        schema_version,
        face: FaceHealth {
            enabled: face.enabled,
            provider: face.provider,
            device_requested: face.device_requested.as_health_string(),
            device: face.device.as_health_string(),
            device_name: clone_name(&face.device_name),
            profile: face.device.profile_name(),
            model_id: face.model_id.clone(),
            model_loaded: face.model_loaded,
            resident_mb: face.resident_mb,
            vram_used_mb: face.vram_used_mb,
            vram_budget_mb: face.vram_budget_mb,
            circuit: breaker.state(),
            consecutive_failures: breaker.consecutive_failures(),
            trips_total: breaker.trips_total(),
            cooldown_remaining_seconds: breaker.cooldown_remaining_seconds(now_ms),
        },
        transposition_table: TtHealth {
            mode: match config.engine.play.transposition_mode {
                TtMode::Deterministic => "deterministic",
                TtMode::Throughput => "throughput",
            },
            entries: tt_entries,
            capacity: tt_capacity,
            resident_mb: 0,
            stats: tt_stats,
        },
        writer: WriterHealth {
            queue_depth: 0,
            queue_capacity: config.database.writer.channel_capacity,
            rows_committed: 0,
            last_commit_ms: 0,
            last_error: None,
        },
    }
}

} // verus!
