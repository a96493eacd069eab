use draughts::config::validate::{
    check_against_host, check_against_host_memory, host_memory_bytes, projected_vram_mb, validate,
    ModelMeasurement, ModelMeasurements, ValidationError, ValidationWarning, GB, MB,
};
use draughts::config::{Config, LimitsConfig, NonProgressReset};
use draughts::face::device::DeviceKind;

fn unmeasured() -> ModelMeasurements {
    ModelMeasurements { cpu: None, cuda: None }
}

#[test]
fn default_configuration_fits_its_own_budget() {
    let config = Config::default();
    let report = validate(&config, DeviceKind::Cpu, &unmeasured());
    assert!(
        report.is_ok(),
        "the committed defaults must validate: {:?}",
        report.errors
    );
}

#[test]
fn a_wildly_oversized_value_saturates_instead_of_wrapping() {
    let mut config = Config::default();
    config.engine.transposition.capacity_entries = usize::MAX;

    let report = validate(&config, DeviceKind::Cpu, &unmeasured());

    assert!(
        report
            .errors
            .iter()
            .any(|e| matches!(e, ValidationError::MemoryBudgetExceeded { .. })),
        "expected a memory budget error, got {:?}",
        report.errors
    );
    assert_eq!(report.projected_memory_bytes(), u64::MAX);
}

#[test]
fn an_oversized_table_is_refused_and_names_its_key() {
    let mut config = Config::default();
    config.engine.transposition.capacity_entries = 2_000_000_000;

    let report = validate(&config, DeviceKind::Cpu, &unmeasured());

    let Some(ValidationError::MemoryBudgetExceeded { largest_key, .. }) = report
        .errors
        .iter()
        .find(|e| matches!(e, ValidationError::MemoryBudgetExceeded { .. }))
    else {
        panic!("expected a memory budget error, got {:?}", report.errors);
    };
    assert_eq!(*largest_key, "engine.transposition.capacity_entries");
}

#[test]
fn shard_count_must_be_a_power_of_two() {
    let mut config = Config::default();
    config.engine.transposition.shard_count = 500;

    let report = validate(&config, DeviceKind::Cpu, &unmeasured());

    assert!(report
        .errors
        .iter()
        .any(|e| matches!(e, ValidationError::ShardCountNotPowerOfTwo(500))));
}

#[test]
fn a_single_shard_is_refused_before_the_table_is_allocated() {
    let mut config = Config::default();
    config.engine.transposition.shard_count = 1;

    let report = validate(&config, DeviceKind::Cpu, &unmeasured());

    assert!(report
        .errors
        .iter()
        .any(|e| matches!(e, ValidationError::ShardCountNotPowerOfTwo(1))));
}

#[test]
fn the_cuda_profile_fits_the_vram_budget() {
    let projected = projected_vram_mb(1_000 * MB);
    assert_eq!(projected, 1_800);
    assert!(projected < LimitsConfig::default().max_vram_mb);
}

#[test]
fn an_active_profile_that_misses_its_deadline_is_refused() {
    let config = Config::default();
    let measured = ModelMeasurements {
        cpu: Some(ModelMeasurement {
            bytes: 1_000 * MB,
            projected_ms: 4_300,
        }),
        cuda: None,
    };
    let report = validate(&config, DeviceKind::Cpu, &measured);
    assert!(report
        .errors
        .iter()
        .any(|e| matches!(e, ValidationError::DeadlineInfeasible { .. })));

    let fast = ModelMeasurements {
        cpu: Some(ModelMeasurement {
            bytes: 400 * MB,
            projected_ms: 1_700,
        }),
        cuda: None,
    };
    assert!(validate(&config, DeviceKind::Cpu, &fast).is_ok());
}

#[test]
fn the_default_draw_policy_is_english_draughts_and_warns_about_nothing() {
    let config = Config::default();
    assert_eq!(config.rules.draw.non_progress_plies, 80);
    assert_eq!(config.rules.draw.repetition_count, 3);

    let report = validate(&config, DeviceKind::Cpu, &unmeasured());
    assert!(
        !report.warnings.iter().any(|w| matches!(
            w,
            ValidationWarning::DrawPolicyDeparts { .. } | ValidationWarning::DrawPolicyUnwired
        )),
        "the defaults must not warn about themselves: {:?}",
        report.warnings
    );
}

#[test]
fn a_zero_non_progress_threshold_is_refused_and_names_its_key() {
    let mut config = Config::default();
    config.rules.draw.non_progress_plies = 0;

    let report = validate(&config, DeviceKind::Cpu, &unmeasured());

    assert!(
        report.errors.iter().any(|e| matches!(
            e,
            ValidationError::MustBePositive {
                key: "rules.draw.non_progress_plies"
            }
        )),
        "expected a refusal naming the key, got {:?}",
        report.errors
    );
}

#[test]
fn a_repetition_count_below_two_is_refused() {
    for count in [0, 1] {
        let mut config = Config::default();
        config.rules.draw.repetition_count = count;

        let report = validate(&config, DeviceKind::Cpu, &unmeasured());

        assert!(
            report
                .errors
                .iter()
                .any(|e| matches!(e, ValidationError::RepetitionCountTooLow(_))),
            "repetition_count = {count} must be refused, got {:?}",
            report.errors
        );
    }
}

#[test]
fn a_departed_draw_policy_warns_and_names_only_the_keys_that_moved() {
    let mut config = Config::default();
    config.rules.draw.non_progress_plies = 100;
    config.rules.draw.non_progress_reset = NonProgressReset::Capture;

    let report = validate(&config, DeviceKind::Cpu, &unmeasured());

    assert!(report.is_ok(), "a departure is a warning, not a refusal");

    let warning = report
        .warnings
        .iter()
        .map(|w| w.message())
        .find(|w| w.contains("english_draughts"))
        .expect("a departed policy must warn");

    assert!(warning.contains("rules.draw.non_progress_plies"));
    assert!(warning.contains("rules.draw.non_progress_reset"));
    assert!(!warning.contains("rules.draw.repetition_count"));
    assert!(!warning.contains("rules.draw.repetition_window"));

    let departure = report
        .warnings
        .iter()
        .find(|w| matches!(w, ValidationWarning::DrawPolicyDeparts { .. }))
        .expect("the warning is the draw-policy departure");
    let keys = departure.departed_keys();
    assert!(keys.contains(&"rules.draw.non_progress_plies"));
    assert!(keys.contains(&"rules.draw.non_progress_reset"));
    assert!(!keys.contains(&"rules.draw.repetition_count"));
    assert!(!keys.contains(&"rules.draw.repetition_window"));
}

#[test]
fn a_budget_larger_than_the_host_warns_with_both_figures() {
    let config = Config::default();
    let mut report = validate(&config, DeviceKind::Cpu, &unmeasured());
    let before = report.warnings.len();

    check_against_host_memory(&config, 8 * GB, &mut report);
    assert_eq!(report.warnings.len(), before + 1);
    assert!(matches!(
        report.warnings.last(),
        Some(ValidationWarning::HostMemoryExceeded { budget_gb: 56, host_bytes }) if *host_bytes == 8 * GB
    ));

    check_against_host_memory(&config, 0, &mut report);
    check_against_host_memory(&config, 64 * GB, &mut report);
    assert_eq!(report.warnings.len(), before + 1, "unknown or ample RAM says nothing");
}

#[test]
fn the_host_check_only_ever_warns() {
    let mut config = Config::default();
    config.limits.max_total_memory_gb = u64::MAX;
    let mut report = validate(&config, DeviceKind::Cpu, &unmeasured());
    let errors = report.errors.len();
    let warnings = report.warnings.len();

    check_against_host(&config, &mut report);

    assert_eq!(report.errors.len(), errors);
    let expected = if host_memory_bytes() == 0 { warnings } else { warnings + 1 };
    assert_eq!(report.warnings.len(), expected);
}

#[test]
fn findings_are_worded_with_their_keys_and_figures() {
    assert_eq!(
        ValidationError::MustBePositive { key: "database.read_pool_size" }.message(),
        "database.read_pool_size must be greater than zero"
    );
    assert_eq!(
        ValidationError::ShardCountNotPowerOfTwo(500).message(),
        "engine.transposition.shard_count = 500 must be a power of two of at least 2"
    );
    assert_eq!(
        ValidationError::MemoryBudgetExceeded {
            projected_bytes: 3 * GB / 2,
            budget_gb: 1,
            largest_key: "database.writer_cache_mb",
            largest_bytes: GB / 4,
        }
        .message(),
        "projected memory ceiling is 1.5 GB, over the limits.max_total_memory_gb budget of 1 GB. \
         Largest consumer: database.writer_cache_mb at 0.2 GB"
    );
    assert_eq!(
        ValidationWarning::HostMemoryExceeded { budget_gb: 56, host_bytes: 8 * GB }.message(),
        "limits.max_total_memory_gb = 56 GB exceeds the host's 8.0 GB of RAM; the budget is not \
         a budget on this machine"
    );
    let departure = ValidationWarning::DrawPolicyDeparts {
        non_progress_plies: true,
        non_progress_reset: true,
        repetition_count: false,
        repetition_window: false,
    };
    let text = departure.message();
    assert!(text.starts_with("rules.draw.non_progress_plies, rules.draw.non_progress_reset departs"));
    assert!(text.contains("english_draughts"));
    assert!(!text.contains("rules.draw.repetition_count"));
}
