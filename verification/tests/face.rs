use draughts::config::CircuitBreakerConfig;
use draughts::face::breaker::{Admission, CircuitBreaker, CircuitState, MonotonicClock, SystemClock};
use draughts::face::candle_adapter::{Architecture, CandleFaceAdapter};
use draughts::face::canned::{count_words, lines_for, CannedFaceAdapter};
use draughts::face::device::{select_device, DeviceKind, DeviceRequest};
use draughts::face::prompt::{render, SYSTEM_PROMPT};
use draughts::face::sanitize::{sanitize, MAX_COMMENTARY_CHARS};
use draughts::face::service::{begin_commentary, finish_commentary, CommentaryStep};
use draughts::face::{
    Commentary, CommentaryContext, CommentaryEvent, FaceError, FallbackReason, GameStatusSummary,
    Tone,
};
use draughts::rules::board::Side;

fn breaker() -> CircuitBreaker {
    CircuitBreaker::new(&CircuitBreakerConfig::default())
}

fn context(event: CommentaryEvent, tone: Tone, ply: u32, material: i32) -> CommentaryContext {
    CommentaryContext {
        event,
        tone,
        ply,
        side_to_move: Side::Black,
        material_difference: material,
        game_status: GameStatusSummary::Ongoing,
        max_tokens: 64,
    }
}

// --- the circuit breaker ---------------------------------------------------

#[test]
fn three_consecutive_failures_open_the_circuit() {
    let mut breaker = breaker();

    breaker.on_failure(0, &FaceError::Timeout);
    assert_eq!(breaker.state(), CircuitState::Closed);
    breaker.on_failure(1, &FaceError::Timeout);
    assert_eq!(breaker.state(), CircuitState::Closed);
    breaker.on_failure(2, &FaceError::Timeout);
    assert_eq!(breaker.state(), CircuitState::Open);
    assert_eq!(breaker.trips_total(), 1);
}

#[test]
fn a_success_resets_the_failure_count_to_zero() {
    let mut breaker = breaker();

    breaker.on_failure(0, &FaceError::Timeout);
    breaker.on_failure(1, &FaceError::Timeout);
    breaker.on_success();
    assert_eq!(breaker.consecutive_failures(), 0);
    breaker.on_failure(2, &FaceError::Timeout);
    breaker.on_failure(3, &FaceError::Timeout);

    assert_eq!(breaker.state(), CircuitState::Closed);
}

#[test]
fn saturation_never_trips_the_breaker() {
    let mut breaker = breaker();
    for tick in 0..100 {
        breaker.on_failure(tick, &FaceError::Saturated);
        breaker.on_failure(tick, &FaceError::Disabled);
    }
    assert_eq!(breaker.state(), CircuitState::Closed);
    assert_eq!(breaker.trips_total(), 0);
}

#[test]
fn the_cooldown_admits_exactly_one_probe() {
    let mut breaker = breaker();
    for tick in 0..3 {
        breaker.on_failure(tick, &FaceError::Timeout);
    }

    assert_eq!(breaker.admit_request(1_000), Admission::ShortCircuit);
    assert_eq!(breaker.cooldown_remaining_seconds(1_000), 299);

    let after_cooldown = 300_100;
    let admitted = (0..100)
        .filter(|_| breaker.admit_request(after_cooldown) == Admission::Allow)
        .count();
    assert_eq!(admitted, 1);
    assert_eq!(breaker.state(), CircuitState::HalfOpen);
}

#[test]
fn a_successful_probe_closes_the_circuit() {
    let mut breaker = breaker();
    for tick in 0..3 {
        breaker.on_failure(tick, &FaceError::Timeout);
    }

    assert_eq!(breaker.admit_request(300_100), Admission::Allow);
    breaker.on_success();

    assert_eq!(breaker.state(), CircuitState::Closed);
    assert_eq!(breaker.admit_request(300_101), Admission::Allow);
}

#[test]
fn a_failed_probe_reopens_with_a_fresh_cooldown() {
    let mut breaker = breaker();
    for tick in 0..3 {
        breaker.on_failure(tick, &FaceError::Timeout);
    }

    assert_eq!(breaker.admit_request(300_100), Admission::Allow);
    breaker.on_failure(300_101, &FaceError::Timeout);

    assert_eq!(breaker.state(), CircuitState::Open);
    assert_eq!(breaker.trips_total(), 2);
    assert_eq!(breaker.admit_request(300_102), Admission::ShortCircuit);
    assert_eq!(breaker.cooldown_remaining_seconds(300_102), 299);
}

#[test]
fn a_stale_success_does_not_close_an_open_circuit() {
    let mut breaker = breaker();
    for tick in 0..3 {
        breaker.on_failure(tick, &FaceError::Timeout);
    }
    assert_eq!(breaker.state(), CircuitState::Open);

    breaker.on_success();

    assert_eq!(breaker.state(), CircuitState::Open);
    assert_eq!(
        breaker.admit_request(1),
        Admission::ShortCircuit,
        "cooldown must still apply"
    );
}

#[test]
fn a_reopened_circuit_admits_a_probe_after_the_next_cooldown() {
    let mut breaker = breaker();
    for tick in 0..3 {
        breaker.on_failure(tick, &FaceError::Timeout);
    }

    assert_eq!(breaker.admit_request(300_100), Admission::Allow);
    breaker.on_failure(300_101, &FaceError::Timeout);

    assert_eq!(breaker.admit_request(300_102), Admission::ShortCircuit);
    assert_eq!(breaker.admit_request(600_200), Admission::Allow);
    breaker.on_success();
    assert_eq!(breaker.state(), CircuitState::Closed);
}

#[test]
fn a_permanently_open_circuit_never_admits_a_probe() {
    let mut breaker = breaker();
    breaker.open_permanently(0);

    assert_eq!(breaker.state(), CircuitState::Open);
    assert_eq!(breaker.admit_request(0), Admission::ShortCircuit);
    assert_eq!(breaker.admit_request(600_000), Admission::ShortCircuit);
    assert_eq!(breaker.admit_request(86_400_000), Admission::ShortCircuit);
    assert_eq!(
        breaker.state(),
        CircuitState::Open,
        "the health report must keep saying open, not drift to half_open"
    );
}

#[test]
fn short_circuits_are_counted() {
    let mut breaker = breaker();
    breaker.open_permanently(0);
    breaker.admit_request(1);
    breaker.admit_request(2);
    assert_eq!(breaker.short_circuited_total(), 2);
    assert_eq!(breaker.trips_total(), 1);
}

#[test]
fn a_zero_threshold_trips_on_the_first_fault() {
    let mut breaker = CircuitBreaker::new(&CircuitBreakerConfig {
        failure_threshold: 0,
        cooldown_seconds: 1,
        half_open_probes: 1,
    });
    breaker.on_failure(0, &FaceError::EmptyOutput);
    assert_eq!(breaker.state(), CircuitState::Open);
    assert_eq!(breaker.cooldown_remaining_seconds(0), 1);
    assert_eq!(breaker.cooldown_remaining_seconds(999), 0);
    assert_eq!(breaker.admit_request(1_000), Admission::Allow);
}

#[test]
fn an_oversized_cooldown_saturates() {
    let breaker = CircuitBreaker::new(&CircuitBreakerConfig {
        failure_threshold: 3,
        cooldown_seconds: u64::MAX,
        half_open_probes: 1,
    });
    assert_eq!(breaker.snapshot().cooldown_ms, u64::MAX);
}

#[test]
fn circuit_states_have_persisted_codes() {
    for state in [CircuitState::Closed, CircuitState::Open, CircuitState::HalfOpen] {
        assert_eq!(CircuitState::from_u8(state.as_i64() as u8), state);
    }
    assert_eq!(CircuitState::Open.as_i64(), 1);
    assert_eq!(CircuitState::from_u8(77), CircuitState::Closed);
}

#[test]
fn the_system_clock_is_monotonic() {
    let clock = SystemClock::new();
    let first = clock.now_ms();
    let second = clock.now_ms();
    assert!(second >= first);
}

// --- errors ------------------------------------------------------------------

#[test]
fn only_real_faults_count_toward_the_trip_threshold() {
    assert!(FaceError::Timeout.counts_toward_trip());
    assert!(FaceError::Inference("boom".into()).counts_toward_trip());
    assert!(FaceError::ModelNotLoaded.counts_toward_trip());
    assert!(FaceError::EmptyOutput.counts_toward_trip());

    assert!(!FaceError::Saturated.counts_toward_trip());
    assert!(!FaceError::Disabled.counts_toward_trip());
}

#[test]
fn every_error_maps_to_a_persisted_fallback_reason() {
    let cases = [
        (FaceError::Timeout, "timeout"),
        (FaceError::Saturated, "saturated"),
        (FaceError::Disabled, "disabled"),
        (FaceError::EmptyOutput, "empty_output"),
        (FaceError::ModelNotLoaded, "model_not_loaded"),
        (FaceError::Inference("x".into()), "inference_error"),
    ];

    for (error, expected) in cases {
        assert_eq!(error.fallback_reason().as_str(), expected);
    }
}

#[test]
fn error_messages_carry_their_detail() {
    assert_eq!(
        FaceError::Inference("boom".into()).message(),
        "inference failed: boom"
    );
    assert_eq!(FaceError::Timeout.message(), "commentary deadline exceeded");
}

// --- the candle adapter ------------------------------------------------------

#[test]
fn an_unloaded_adapter_reports_itself_unavailable() {
    let adapter = CandleFaceAdapter::unloaded();
    assert!(!adapter.model_loaded());
    assert!(adapter.runtime().is_none());
}

#[test]
fn an_unloaded_adapter_fails_rather_than_hanging() {
    let adapter = CandleFaceAdapter::unloaded();
    let error = adapter.readiness().expect_err("no model is loaded");
    assert!(matches!(error, FaceError::ModelNotLoaded));
    assert!(error.counts_toward_trip());
}

#[test]
fn an_unsupported_architecture_names_itself() {
    assert_eq!(
        Architecture::from_gguf_name("qwen2").unwrap(),
        Architecture::Qwen2
    );
    assert_eq!(
        Architecture::from_gguf_name("llama").unwrap(),
        Architecture::Llama
    );

    let error = Architecture::from_gguf_name("mamba").expect_err("unsupported");
    assert!(error.message().contains("mamba"));
}

// --- canned lines ------------------------------------------------------------

#[test]
fn every_event_and_tone_pair_is_covered() {
    let adapter = CannedFaceAdapter::new();

    for event in CommentaryEvent::ALL {
        for tone in Tone::ALL {
            let lines = lines_for(event, tone);
            assert!(!lines.is_empty(), "no lines for {event:?}/{tone:?}");

            for ply in 0..8 {
                let commentary = adapter.canned(
                    &context(event, tone, ply, 0),
                    FallbackReason::CircuitOpen,
                    CircuitState::Open,
                );
                assert!(
                    !commentary.text.trim().is_empty(),
                    "blank line for {event:?}/{tone:?} at ply {ply}"
                );
                assert!(commentary.fallback_used);
            }
        }
    }
}

#[test]
fn no_canned_line_names_a_square_or_a_move() {
    for event in CommentaryEvent::ALL {
        for tone in Tone::ALL {
            for line in lines_for(event, tone) {
                assert!(
                    !line.chars().any(|c| c.is_ascii_digit()),
                    "canned line mentions a number, which reads as a square: {line:?}"
                );
                for banned in ["square", "jump to", "move to", "->"] {
                    assert!(
                        !line.to_lowercase().contains(banned),
                        "canned line {line:?} contains {banned:?}"
                    );
                }
            }
        }
    }
}

#[test]
fn the_line_varies_with_ply() {
    let adapter = CannedFaceAdapter::new();
    let first = adapter.canned(
        &context(CommentaryEvent::Capture, Tone::Playful, 0, 0),
        FallbackReason::CircuitOpen,
        CircuitState::Open,
    );
    let second = adapter.canned(
        &context(CommentaryEvent::Capture, Tone::Playful, 1, 0),
        FallbackReason::CircuitOpen,
        CircuitState::Open,
    );
    assert_ne!(first.text, second.text);
}

#[test]
fn a_canned_line_reports_how_it_was_produced() {
    let commentary = CannedFaceAdapter::default().canned(
        &context(CommentaryEvent::GameStart, Tone::Neutral, 0, 0),
        FallbackReason::Timeout,
        CircuitState::HalfOpen,
    );
    assert_eq!(commentary.text, "Board's set. Let's begin.");
    assert_eq!(commentary.token_count, 4);
    assert_eq!(commentary.provider, "canned");
    assert_eq!(commentary.fallback_reason, Some(FallbackReason::Timeout));
    assert_eq!(commentary.circuit_state, CircuitState::HalfOpen);
    assert_eq!(commentary.latency_ms, 0);
}

#[test]
fn words_are_separated_by_any_whitespace() {
    assert_eq!(count_words(""), 0);
    assert_eq!(count_words("   "), 0);
    assert_eq!(count_words(" one\ttwo\n three  "), 3);
}

// --- the facade's decisions --------------------------------------------------

fn generated() -> Commentary {
    Commentary {
        text: "Nice.".to_string(),
        provider: "candle",
        fallback_used: false,
        fallback_reason: None,
        circuit_state: CircuitState::Closed,
        latency_ms: 12,
        token_count: 1,
    }
}

#[test]
fn a_closed_circuit_sends_the_request_to_the_primary_adapter() {
    let mut breaker = breaker();
    let fallback = CannedFaceAdapter::new();
    let ctx = context(CommentaryEvent::CpuMove, Tone::Neutral, 3, 0);

    let step = begin_commentary(&mut breaker, &fallback, &ctx, 0);
    assert!(matches!(step, CommentaryStep::CallPrimary));

    let line = finish_commentary(&mut breaker, &fallback, &ctx, Ok(generated()), 1);
    assert_eq!(line.text, "Nice.");
    assert!(!line.fallback_used);
}

#[test]
fn a_failed_request_falls_back_and_is_counted() {
    let mut breaker = breaker();
    let fallback = CannedFaceAdapter::new();
    let ctx = context(CommentaryEvent::CpuMove, Tone::Neutral, 3, 0);

    let line = finish_commentary(&mut breaker, &fallback, &ctx, Err(FaceError::Timeout), 1);
    assert!(line.fallback_used);
    assert_eq!(line.fallback_reason, Some(FallbackReason::Timeout));
    assert_eq!(breaker.consecutive_failures(), 1);
}

#[test]
fn an_open_circuit_serves_a_canned_line_at_once() {
    let mut breaker = breaker();
    breaker.open_permanently(0);
    let fallback = CannedFaceAdapter::new();
    let ctx = context(CommentaryEvent::Win, Tone::Sarcastic, 0, 0);

    match begin_commentary(&mut breaker, &fallback, &ctx, 5) {
        CommentaryStep::Serve(line) => {
            assert_eq!(line.fallback_reason, Some(FallbackReason::CircuitOpen));
            assert_eq!(line.circuit_state, CircuitState::Open);
            assert_eq!(line.text, "Shocking outcome.");
        }
        CommentaryStep::CallPrimary => panic!("an open circuit must not call the model"),
    }
}

// --- prompts -----------------------------------------------------------------

#[test]
fn no_rendered_prompt_names_a_move_or_a_square() {
    for event in CommentaryEvent::ALL {
        for tone in Tone::ALL {
            for ply in [0, 20, 80] {
                for material in [-5, -1, 0, 1, 5] {
                    let prompt = render(&context(event, tone, ply, material));

                    assert!(
                        !prompt.chars().any(|c| c.is_ascii_digit()),
                        "a digit in a prompt reads as a square index: {prompt:?}"
                    );

                    for banned in [
                        "square",
                        "move to",
                        "jump",
                        "coordinate",
                        "legal",
                        "best",
                        "should play",
                        "suggest",
                        "recommend",
                        "->",
                    ] {
                        assert!(
                            !prompt.to_lowercase().contains(banned),
                            "prompt for {event:?}/{tone:?} contains {banned:?}: {prompt:?}"
                        );
                    }
                }
            }
        }
    }
}

#[test]
fn the_system_prompt_forbids_playing() {
    let lowered = SYSTEM_PROMPT.to_lowercase();
    assert!(lowered.contains("do not play"));
    assert!(lowered.contains("never mention squares"));
}

#[test]
fn material_is_given_as_a_band_not_a_number() {
    let prompt = render(&context(CommentaryEvent::Capture, Tone::Neutral, 20, 7));
    assert!(prompt.contains("well ahead"));
    assert!(!prompt.contains('7'));
}

#[test]
fn a_rendered_prompt_reads_as_one_situation() {
    let prompt = render(&context(CommentaryEvent::GameStart, Tone::Playful, 0, 0));
    assert_eq!(
        prompt,
        "Situation: the game has just started. It is the opening and material is level; \
         the game is still going. Tone: playful. One sentence."
    );
    let late = render(&context(CommentaryEvent::Loss, Tone::Neutral, 46, -3));
    assert!(late.contains("the endgame"));
    assert!(late.contains("you are well behind"));
    let middle = render(&context(CommentaryEvent::Loss, Tone::Neutral, 45, -2));
    assert!(middle.contains("the middlegame"));
    assert!(middle.contains("you are slightly behind"));
}

// --- sanitization ------------------------------------------------------------

#[test]
fn ordinary_output_survives_intact() {
    assert_eq!(sanitize("Nice try."), Some("Nice try.".to_string()));
}

#[test]
fn script_tags_cannot_reach_a_template() {
    let escaped = sanitize("<script>alert('x')</script>").expect("not empty");
    assert!(!escaped.contains('<'));
    assert!(!escaped.contains('>'));
    assert!(escaped.contains("&lt;script&gt;"));
}

#[test]
fn every_markup_character_is_escaped() {
    assert_eq!(
        sanitize("a & b \"c\" 'd'"),
        Some("a &amp; b &quot;c&quot; &#x27;d&#x27;".to_string())
    );
}

#[test]
fn ansi_escapes_are_stripped() {
    assert_eq!(sanitize("\u{1B}[31mred\u{1B}[0m"), Some("red".to_string()));
}

#[test]
fn a_lone_escape_is_dropped_alone() {
    assert_eq!(sanitize("a\u{1B}b"), Some("ab".to_string()));
}

#[test]
fn control_characters_and_bidi_overrides_are_stripped() {
    let cleaned = sanitize("a\u{0}b\u{202E}c\u{200B}d").expect("not empty");
    assert_eq!(cleaned, "abcd");
}

#[test]
fn arabic_letter_mark_is_stripped() {
    let cleaned = sanitize("a\u{061C}b").expect("not empty");
    assert_eq!(cleaned, "ab");
}

#[test]
fn bidi_isolate_controls_are_stripped() {
    let cleaned = sanitize("a\u{2066}b\u{2069}c").expect("not empty");
    assert_eq!(cleaned, "abc");
}

#[test]
fn newlines_collapse_to_single_spaces() {
    assert_eq!(
        sanitize("one\n\n\ttwo   three"),
        Some("one two three".to_string())
    );
}

#[test]
fn ten_thousand_tokens_are_truncated() {
    let flood = "word ".repeat(10_000);
    let cleaned = sanitize(&flood).expect("not empty");
    assert!(cleaned.chars().count() <= MAX_COMMENTARY_CHARS);
}

#[test]
fn truncation_never_splits_a_character() {
    let cleaned = sanitize(&"é".repeat(1_000)).expect("not empty");
    assert_eq!(cleaned.chars().count(), MAX_COMMENTARY_CHARS);
}

#[test]
fn nothing_usable_is_none_rather_than_an_empty_string() {
    assert_eq!(sanitize(""), None);
    assert_eq!(sanitize("   \n\t  "), None);
    assert_eq!(sanitize("\u{1B}[0m\u{0}\u{200B}"), None);
}

// --- devices -----------------------------------------------------------------

#[test]
fn cpu_is_always_honoured() {
    let (_, kind) = select_device(DeviceRequest::Cpu);
    assert_eq!(kind, DeviceKind::Cpu);
}

#[test]
fn requesting_cuda_never_fails() {
    let (_, kind) = select_device(DeviceRequest::Cuda { ordinal: 0 });
    assert!(matches!(kind, DeviceKind::Cpu | DeviceKind::Cuda { .. }));
}

#[test]
fn auto_never_fails() {
    let (_, kind) = select_device(DeviceRequest::Auto);
    assert!(matches!(kind, DeviceKind::Cpu | DeviceKind::Cuda { .. }));
}

#[test]
fn the_default_build_has_no_cuda_path() {
    for request in [DeviceRequest::Auto, DeviceRequest::Cuda { ordinal: 0 }] {
        let (_, kind) = select_device(request);
        assert_eq!(kind, DeviceKind::Cpu);
    }
}

#[test]
fn the_default_build_resolves_every_request_to_cpu() {
    for request in [
        DeviceRequest::Cpu,
        DeviceRequest::Auto,
        DeviceRequest::Cuda { ordinal: 0 },
    ] {
        let (_, kind) = select_device(request);
        assert_eq!(kind, DeviceKind::Cpu, "for {request:?}");
    }
}

#[test]
fn device_resolution_never_fails() {
    for request in [
        DeviceRequest::Cpu,
        DeviceRequest::Auto,
        DeviceRequest::Cuda { ordinal: 0 },
        DeviceRequest::Cuda { ordinal: 7 },
    ] {
        let (_, kind) = select_device(request);
        assert!(matches!(kind, DeviceKind::Cpu | DeviceKind::Cuda { .. }));
    }
}

#[test]
fn the_resolved_device_names_its_profile() {
    assert_eq!(DeviceKind::Cpu.profile_name(), "cpu_profile");
    assert_eq!(DeviceKind::Cuda { ordinal: 0 }.profile_name(), "cuda_profile");
    assert_eq!(DeviceKind::Cuda { ordinal: 1 }.as_health_string(), "cuda:1");
}

#[test]
fn a_device_request_reports_what_was_asked_for() {
    assert_eq!(DeviceRequest::Auto.as_health_string(), "auto");
    assert_eq!(DeviceRequest::Cuda { ordinal: 3 }.ordinal(), Some(3));
    assert_eq!(DeviceRequest::Cpu.ordinal(), None);
}
