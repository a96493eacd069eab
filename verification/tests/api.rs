use axum::http::StatusCode;

use draughts::api::health::health_report;
use draughts::api::state::FaceStatus;
use draughts::config::{Config, TtMode};
use draughts::engine::evaluator::RandomRolloutEvaluator;
use draughts::engine::mcts::{MctsConfig, MctsEngine};
use draughts::engine::transposition::TranspositionTable;
use draughts::error::ApiError;
use draughts::face::breaker::{CircuitBreaker, CircuitState};
use draughts::face::device::{DeviceKind, DeviceRequest};
use draughts::face::FaceError;

#[test]
fn error_codes_and_statuses_match_the_contract() {
    let cases: Vec<(ApiError, &str, StatusCode)> = vec![
        (
            ApiError::NotFound { what: "match" },
            "not_found",
            StatusCode::NOT_FOUND,
        ),
        (
            ApiError::InvalidRequest("bad".into()),
            "invalid_request",
            StatusCode::BAD_REQUEST,
        ),
        (ApiError::IllegalMove, "illegal_move", StatusCode::CONFLICT),
        (ApiError::MatchFinished, "match_finished", StatusCode::CONFLICT),
        (
            ApiError::BatchNotCancellable,
            "batch_not_cancellable",
            StatusCode::CONFLICT,
        ),
        (
            ApiError::EngineUnavailable,
            "engine_unavailable",
            StatusCode::SERVICE_UNAVAILABLE,
        ),
        (
            ApiError::WriteQueueSaturated,
            "write_queue_saturated",
            StatusCode::SERVICE_UNAVAILABLE,
        ),
        (
            ApiError::UnsupportedFormatVersion { found: 255 },
            "unsupported_format_version",
            StatusCode::CONFLICT,
        ),
    ];

    for (error, code, status) in cases {
        assert_eq!(error.code(), code);
        assert_eq!(error.status(), status, "status for {code}");
        assert_eq!(error.status_code(), status.as_u16());
    }
}

#[test]
fn an_internal_error_hides_its_detail() {
    let error: ApiError = anyhow::Error::msg("disk on fire").into();
    assert_eq!(error.code(), "internal_error");
    assert_eq!(error.status(), StatusCode::INTERNAL_SERVER_ERROR);
    assert_eq!(error.message(), "internal error");
}

#[test]
fn error_messages_name_their_subject() {
    assert_eq!(
        ApiError::NotFound { what: "batch" }.message(),
        "batch does not exist"
    );
    assert_eq!(
        ApiError::UnsupportedFormatVersion { found: 7 }.message(),
        "stored data uses format_version 7, which this build cannot decode"
    );
}

fn report_for(breaker: &CircuitBreaker) -> draughts::api::health::HealthResponse {
    let config = Config::default();
    let face = FaceStatus::unloaded_cpu(&config);
    let table = TranspositionTable::disabled();
    health_report(
        &config,
        &face,
        breaker,
        table.len(),
        table.capacity(),
        table.stats(),
        1,
        "0.1.0",
        0,
    )
}

#[test]
fn a_tripped_circuit_does_not_make_the_service_unhealthy() {
    let config = Config::default();
    let mut breaker = CircuitBreaker::new(&config.face.circuit_breaker);
    for tick in 0..3 {
        breaker.on_failure(tick, &FaceError::Timeout);
    }

    let response = report_for(&breaker);

    assert_eq!(response.status, "ok");
    assert_eq!(response.face.circuit, CircuitState::Open);
    assert_eq!(response.face.trips_total, 1);
}

#[test]
fn an_unloaded_model_is_reported_rather_than_hidden() {
    let config = Config::default();
    let response = report_for(&CircuitBreaker::new(&config.face.circuit_breaker));

    assert!(!response.face.model_loaded);
    assert_eq!(response.status, "ok");
    assert_eq!(response.face.device, "cpu");
    assert_eq!(response.face.profile, "cpu_profile");
    assert_eq!(response.face.vram_budget_mb, None, "null on the CPU path");
}

#[test]
fn health_reports_what_was_asked_for_beside_what_was_resolved() {
    let config = Config::default();
    let response = report_for(&CircuitBreaker::new(&config.face.circuit_breaker));

    assert_eq!(response.face.device_requested, "auto");
    assert_eq!(response.face.device, "cpu");
    assert_eq!(response.engine, "mcts");
    assert_eq!(response.version, "0.1.0");
    assert_eq!(
        response.writer.queue_capacity,
        config.database.writer.channel_capacity
    );
    let expected_mode = match config.engine.play.transposition_mode {
        TtMode::Deterministic => "deterministic",
        TtMode::Throughput => "throughput",
    };
    assert_eq!(response.transposition_table.mode, expected_mode);
}

#[test]
fn an_unloaded_status_describes_the_cpu_fallback() {
    let config = Config::default();
    let status = FaceStatus::unloaded_cpu(&config);
    assert_eq!(status.provider, "canned");
    assert_eq!(status.device, DeviceKind::Cpu);
    assert_eq!(status.device_requested, DeviceRequest::Auto);
    assert_eq!(status.model_id, config.face.cpu_profile.model_id);
}

#[test]
fn the_engine_accepts_a_disabled_table() {
    let config = Config::default();
    let engine = MctsEngine::new(
        RandomRolloutEvaluator::new(0, 200),
        MctsConfig::from_search_config(&config.engine.play, 0),
        TranspositionTable::disabled(),
    );

    assert!(engine.transposition_table().is_disabled());
    assert_eq!(engine.evaluator().name(), "random_rollout");
}

#[test]
fn health_is_answerable_with_nothing_loaded() {
    let config = Config::default();
    let response = report_for(&CircuitBreaker::new(&config.face.circuit_breaker));

    assert_eq!(response.status, "ok");
    assert_eq!(response.version, "0.1.0");
    assert!(!response.face.model_loaded);
}
