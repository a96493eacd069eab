//! Startup validation.
//!
//! A configuration that can exhaust memory, or that puts a slow model against
//! a short deadline, fails at startup with a message naming the offending key.
//! Every figure below is derived from the deployment's hardware budget.
//!
//! Reading the model files' sizes and projecting generation time (a
//! floating-point estimate) happen before validation; validation itself
//! receives those measurements as plain values.

use vstd::prelude::*;

use super::{Config, DrawConfig};
use crate::face::device::DeviceKind;

verus! {

/// About 64 packed bytes plus about 30 % map bookkeeping per table entry.
pub const TT_BYTES_PER_ENTRY: u64 = 83;

/// Worst-case size of one queued write message.
pub const WRITE_MESSAGE_BYTES: u64 = 8192;

/// Arena cap per MCTS worker, in MB.
pub const MCTS_ARENA_MB: u64 = 512;

/// Tokenizer and staging buffers on either device, in MB.
pub const FACE_STAGING_MB: u64 = 1024;

/// Allocator overhead and fragmentation, in MB.
pub const RUNTIME_OVERHEAD_MB: u64 = 4096;

/// KV cache plus CUDA context, workspace and allocator slack, in MB.
pub const VRAM_FIXED_OVERHEAD_MB: u64 = 800;

pub const MB: u64 = 1_048_576;

pub const GB: u64 = 1_073_741_824;

/// A validation failure that names the key responsible for it.
#[derive(Debug, Clone)]
pub enum ValidationError {
    /// The projected host-memory ceiling exceeds the budget.
    MemoryBudgetExceeded {
        projected_bytes: u64,
        budget_gb: u64,
        largest_key: &'static str,
        largest_bytes: u64,
    },
    VramBudgetExceeded { profile: &'static str, model_mb: u64, projected_mb: u64, budget_mb: u64 },
    DeadlineInfeasible {
        profile: &'static str,
        device: &'static str,
        model_mb: u64,
        projected_ms: u64,
        max_tokens: u32,
        deadline_ms: u64,
    },
    ShardCountNotPowerOfTwo(usize),
    RetryBackoffLengthMismatch { expected: u32, actual: usize },
    MustBePositive { key: &'static str },
    RepetitionCountTooLow(u32),
}

/// A finding that does not prevent startup.
#[derive(Debug, Clone)]
pub enum ValidationWarning {
    /// The shard count does not comfortably exceed the lab worker count.
    ShardContention { shard_count: usize, lab_worker_threads: usize },
    /// A failure threshold of zero is clamped to one at runtime.
    FailureThresholdClamped,
    /// `face.circuit_breaker.half_open_probes` has no effect yet.
    HalfOpenProbesUnwired,
    /// `lab.sampling.only_store_high_visit_edges` has no effect yet.
    HighVisitEdgesUnwired,
    /// `rules.draw` has no effect yet.
    DrawPolicyUnwired,
    /// The draw policy departs from the English-draughts rules; each flag
    /// says whether that key moved from its default.
    DrawPolicyDeparts {
        non_progress_plies: bool,
        non_progress_reset: bool,
        repetition_count: bool,
        repetition_window: bool,
    },
    /// A lab time budget makes a batch's strength depend on machine load.
    LabTimeBudget,
    /// The mmap window alone exceeds the whole memory budget.
    MmapExceedsBudget { mmap_size_gb: u64 },
    /// A profile's model file could not be read, so its deadline could not
    /// be checked.
    ModelUnreadable { profile: &'static str, path: String },
    /// The inactive profile cannot meet its deadline.
    InactiveProfileDeadline(ValidationError),
    /// The memory budget exceeds the host's RAM.
    HostMemoryExceeded { budget_gb: u64, host_bytes: u64 },
}

/// The outcome of validation. Warnings do not prevent startup; errors do.
#[derive(Debug)]
pub struct ValidationReport {
    pub errors: Vec<ValidationError>,
    pub warnings: Vec<ValidationWarning>,
    /// Line items behind the memory projection.
    pub memory_breakdown: Vec<(&'static str, u64)>,
}

/// A model file's size and the projected time to generate the configured
/// number of tokens from it on its profile's device.
#[derive(Debug, Clone, Copy, PartialEq, Eq, Structural)]
pub struct ModelMeasurement {
    pub bytes: u64,
    pub projected_ms: u64,
}

/// What was measured of the two profiles' model files; `None` for a file that
/// could not be read.
#[derive(Debug, Clone, Copy, PartialEq, Eq, Structural)]
pub struct ModelMeasurements {
    pub cpu: Option<ModelMeasurement>,
    pub cuda: Option<ModelMeasurement>,
}

/// `a * b`, or `u64::MAX` where the product does not fit.
pub open spec fn sat_mul(a: int, b: int) -> u64 {
    if a * b > u64::MAX {
        u64::MAX
    } else {
        (a * b) as u64
    }
}

/// `a + b`, or `u64::MAX` where the sum does not fit.
pub open spec fn sat_add(a: int, b: int) -> u64 {
    if a + b > u64::MAX {
        u64::MAX
    } else {
        (a + b) as u64
    }
}

fn saturating_mul(a: u64, b: u64) -> (product: u64)
    ensures
        product == sat_mul(a as int, b as int),
{
    match a.checked_mul(b) {
        Some(product) => product,
        None => u64::MAX,
    }
}

/// Whether `n` is a power of two.
pub open spec fn is_power_of_two(n: nat) -> bool
    decreases n,
{
    if n == 0 {
        false
    } else if n == 1 {
        true
    } else {
        n % 2 == 0 && is_power_of_two(n / 2)
    }
}

/// Whether `n` is a power of two.
pub fn usize_is_power_of_two(n: usize) -> (result: bool)
    ensures
        result == is_power_of_two(n as nat),
{
    if n == 0 {
        return false;
    }
    let mut m = n;
    while m > 1
        invariant
            m >= 1,
            is_power_of_two(m as nat) == is_power_of_two(n as nat),
        decreases m,
    {
        if m % 2 != 0 {
            return false;
        }
        m = m / 2;
    }
    true
}

/// A one-element sequence when `condition` holds, else the empty sequence.
pub open spec fn when<T>(condition: bool, item: T) -> Seq<T> {
    if condition {
        seq![item]
    } else {
        Seq::empty()
    }
}

/// The shard-count refusal: a sharded map needs a power of two of at least two.
#[verifier::opaque]
pub open spec fn shard_errors(config: &Config) -> Seq<ValidationError> {
    let tt = config.engine.transposition;
    when(
        tt.enabled && (!is_power_of_two(tt.shard_count as nat) || tt.shard_count < 2),
        ValidationError::ShardCountNotPowerOfTwo(tt.shard_count),
    )
}

/// The writer's retry schedule must have one backoff per retry.
#[verifier::opaque]
pub open spec fn retry_errors(config: &Config) -> Seq<ValidationError> {
    let writer = config.database.writer;
    when(
        writer.retry_backoff_ms@.len() != writer.max_retries,
        ValidationError::RetryBackoffLengthMismatch {
            expected: writer.max_retries,
            actual: writer.retry_backoff_ms@.len() as usize,
        },
    )
}

/// Counts that must be positive.
#[verifier::opaque]
pub open spec fn positive_errors(config: &Config) -> Seq<ValidationError> {
    let writer = config.database.writer;
    when(
        writer.db_batch_rows == 0,
        ValidationError::MustBePositive { key: "database.writer.db_batch_rows" },
    ) + when(
        writer.channel_capacity == 0,
        ValidationError::MustBePositive { key: "database.writer.channel_capacity" },
    ) + when(
        config.database.read_pool_size == 0,
        ValidationError::MustBePositive { key: "database.read_pool_size" },
    ) + when(
        config.server.worker_threads == 0,
        ValidationError::MustBePositive { key: "server.worker_threads" },
    ) + when(
        config.engine.play.worker_threads == 0,
        ValidationError::MustBePositive { key: "engine.play.worker_threads" },
    ) + when(
        config.engine.lab.worker_threads == 0,
        ValidationError::MustBePositive { key: "engine.lab.worker_threads" },
    )
}

/// A search needs an iteration or a time budget.
#[verifier::opaque]
pub open spec fn search_budget_errors(config: &Config) -> Seq<ValidationError> {
    let play = config.engine.play;
    let lab = config.engine.lab;
    when(
        play.iterations == 0 && play.time_budget_ms == 0,
        ValidationError::MustBePositive {
            key: "engine.play.iterations (or engine.play.time_budget_ms)",
        },
    ) + when(
        lab.iterations == 0 && lab.time_budget_ms == 0,
        ValidationError::MustBePositive {
            key: "engine.lab.iterations (or engine.lab.time_budget_ms)",
        },
    )
}

/// The errors of the structural checks, in the order they are reported.
pub open spec fn shape_errors(config: &Config) -> Seq<ValidationError> {
    shard_errors(config) + retry_errors(config) + positive_errors(config) + search_budget_errors(
        config,
    ) + draw_policy_errors(config.rules.draw)
}

/// The draw policy's refusals: a policy that draws every game before its
/// first move, or at the opening position, is not a game.
#[verifier::opaque]
pub open spec fn draw_policy_errors(draw: DrawConfig) -> Seq<ValidationError> {
    when(
        draw.non_progress_plies == 0,
        ValidationError::MustBePositive { key: "rules.draw.non_progress_plies" },
    ) + when(
        draw.repetition_count < 2,
        ValidationError::RepetitionCountTooLow(draw.repetition_count),
    )
}

/// The draw policy's warning: which keys departed from the defaults.
#[verifier::opaque]
pub open spec fn draw_policy_warnings(draw: DrawConfig) -> Seq<ValidationWarning> {
    let plies = draw.non_progress_plies != 80;
    let reset = draw.non_progress_reset != super::NonProgressReset::CaptureOrManMove;
    let count = draw.repetition_count != 3;
    let window = draw.repetition_window != 0;
    when(
        plies || reset || count || window,
        ValidationWarning::DrawPolicyDeparts {
            non_progress_plies: plies,
            non_progress_reset: reset,
            repetition_count: count,
            repetition_window: window,
        },
    )
}

/// Warnings about keys that are accepted but not yet wired to anything.
#[verifier::opaque]
pub open spec fn unwired_warnings(config: &Config) -> Seq<ValidationWarning> {
    when(
        config.face.circuit_breaker.failure_threshold == 0,
        ValidationWarning::FailureThresholdClamped,
    ) + when(
        config.face.circuit_breaker.half_open_probes != 1,
        ValidationWarning::HalfOpenProbesUnwired,
    ) + when(
        config.lab.sampling.only_store_high_visit_edges,
        ValidationWarning::HighVisitEdgesUnwired,
    ) + when(!config.rules.draw.is_default(), ValidationWarning::DrawPolicyUnwired)
}

/// The warnings of the structural checks, in the order they are reported.
pub open spec fn shape_warnings(config: &Config) -> Seq<ValidationWarning> {
    let tt = config.engine.transposition;
    when(
        tt.enabled && tt.shard_count <= config.engine.lab.worker_threads,
        ValidationWarning::ShardContention {
            shard_count: tt.shard_count,
            lab_worker_threads: config.engine.lab.worker_threads,
        },
    ) + unwired_warnings(config) + draw_policy_warnings(config.rules.draw) + when(
        config.engine.lab.time_budget_ms != 0,
        ValidationWarning::LabTimeBudget,
    )
}

/// Host bytes attributable to the Face layer: staging buffers plus the CPU
/// profile's weights, when the layer is enabled.
pub open spec fn face_host_bytes(config: &Config, cpu_model_bytes: Option<u64>) -> u64 {
    if !config.face.enabled {
        0
    } else {
        (FACE_STAGING_MB * MB + match cpu_model_bytes {
            Some(bytes) => bytes as int,
            None => 0,
        }) as u64
    }
}

/// The line items of the host-memory projection, each saturating.
pub open spec fn memory_breakdown(config: &Config, cpu_model_bytes: Option<u64>) -> Seq<
    (&'static str, u64),
> {
    let db = config.database;
    let tt = config.engine.transposition;
    seq![
        (
            "engine.transposition.capacity_entries",
            if tt.enabled {
                sat_mul(tt.capacity_entries as int, TT_BYTES_PER_ENTRY as int)
            } else {
                0u64
            },
        ),
        (
            "database.writer.channel_capacity",
            sat_mul(db.writer.channel_capacity as int, WRITE_MESSAGE_BYTES as int),
        ),
        ("database.writer_cache_mb", sat_mul(db.writer_cache_mb as int, MB as int)),
        (
            "database.reader_cache_mb × read_pool_size",
            sat_mul(
                sat_mul(db.reader_cache_mb as int, db.read_pool_size as int) as int,
                MB as int,
            ),
        ),
        (
            "engine.lab.worker_threads (MCTS arenas)",
            sat_mul(
                sat_mul(config.engine.lab.worker_threads as int, MCTS_ARENA_MB as int) as int,
                MB as int,
            ),
        ),
        ("face (staging + CPU-profile weights)", face_host_bytes(config, cpu_model_bytes)),
        ("rust runtime and allocator overhead", (RUNTIME_OVERHEAD_MB * MB) as u64),
    ]
}

/// The saturating total of a breakdown, summed front to back.
pub open spec fn saturating_total(items: Seq<(&'static str, u64)>) -> u64
    decreases items.len(),
{
    if items.len() == 0 {
        0
    } else {
        sat_add(saturating_total(items.drop_last()) as int, items.last().1 as int)
    }
}

/// The index of the largest line item; the last one among equals.
pub open spec fn largest_index(items: Seq<(&'static str, u64)>) -> int
    decreases items.len(),
{
    if items.len() <= 1 {
        0
    } else {
        let best = largest_index(items.drop_last());
        if items.last().1 >= items[best].1 {
            items.len() - 1
        } else {
            best
        }
    }
}

/// The memory-budget refusal, if the projection exceeds the budget.
pub open spec fn memory_errors(config: &Config, cpu_model_bytes: Option<u64>) -> Seq<
    ValidationError,
> {
    let items = memory_breakdown(config, cpu_model_bytes);
    let projected = saturating_total(items);
    let budget = sat_mul(config.limits.max_total_memory_gb as int, GB as int);
    let largest = items[largest_index(items)];
    when(
        projected > budget,
        ValidationError::MemoryBudgetExceeded {
            projected_bytes: projected,
            budget_gb: config.limits.max_total_memory_gb,
            largest_key: largest.0,
            largest_bytes: largest.1,
        },
    )
}

/// The mmap warning: the window is not counted as process memory, but a
/// window larger than the whole budget is worth saying.
pub open spec fn memory_warnings(config: &Config) -> Seq<ValidationWarning> {
    when(
        sat_mul(config.database.mmap_size_gb as int, GB as int) > sat_mul(
            config.limits.max_total_memory_gb as int,
            GB as int,
        ),
        ValidationWarning::MmapExceedsBudget { mmap_size_gb: config.database.mmap_size_gb },
    )
}

/// The deadline-feasibility failure of one profile, if its projection
/// exceeds the deadline.
pub open spec fn deadline_failure(
    config: &Config,
    profile: &'static str,
    device: &'static str,
    measured: ModelMeasurement,
) -> ValidationError {
    ValidationError::DeadlineInfeasible {
        profile,
        device,
        model_mb: measured.bytes / MB,
        projected_ms: measured.projected_ms,
        max_tokens: config.face.max_tokens,
        deadline_ms: config.face.deadline_ms,
    }
}

/// One profile's deadline check: (errors, warnings).
pub open spec fn profile_deadline(
    config: &Config,
    profile: &'static str,
    device: &'static str,
    path: String,
    is_active: bool,
    measured: Option<ModelMeasurement>,
) -> (Seq<ValidationError>, Seq<ValidationWarning>) {
    match measured {
        None => (Seq::empty(), seq![ValidationWarning::ModelUnreadable { profile, path }]),
        Some(m) => if m.projected_ms <= config.face.deadline_ms {
            (Seq::empty(), Seq::empty())
        } else if is_active {
            (seq![deadline_failure(config, profile, device, m)], Seq::empty())
        } else {
            (
                Seq::empty(),
                seq![
                    ValidationWarning::InactiveProfileDeadline(
                        deadline_failure(config, profile, device, m),
                    ),
                ],
            )
        },
    }
}

/// Both profiles' deadline checks, CUDA first; nothing when the layer is off.
pub open spec fn deadline_checks(
    config: &Config,
    device: DeviceKind,
    measured: ModelMeasurements,
) -> (Seq<ValidationError>, Seq<ValidationWarning>) {
    if !config.face.enabled {
        (Seq::empty(), Seq::empty())
    } else {
        let cuda = profile_deadline(
            config,
            "cuda_profile",
            "cuda",
            config.face.cuda_profile.model_path,
            device is Cuda,
            measured.cuda,
        );
        let cpu = profile_deadline(
            config,
            "cpu_profile",
            "cpu",
            config.face.cpu_profile.model_path,
            device is Cpu,
            measured.cpu,
        );
        (cuda.0 + cpu.0, cuda.1 + cpu.1)
    }
}

/// Projected VRAM for a profile, in MB: the weights plus the fixed overhead.
pub open spec fn spec_projected_vram_mb(model_bytes: u64) -> int {
    model_bytes / MB + VRAM_FIXED_OVERHEAD_MB
}

/// The VRAM refusal, checked only when the resolved device is CUDA.
pub open spec fn vram_errors(config: &Config, device: DeviceKind, measured: ModelMeasurements) -> Seq<
    ValidationError,
> {
    if !config.face.enabled || !(device is Cuda) {
        Seq::empty()
    } else {
        match measured.cuda {
            None => Seq::empty(),
            Some(m) => when(
                spec_projected_vram_mb(m.bytes) > config.limits.max_vram_mb,
                ValidationError::VramBudgetExceeded {
                    profile: "cuda_profile",
                    model_mb: m.bytes / MB,
                    projected_mb: spec_projected_vram_mb(m.bytes) as u64,
                    budget_mb: config.limits.max_vram_mb,
                },
            ),
        }
    }
}

/// The model sizes this validation can account for without overflow.
pub open spec fn measurements_in_range(measured: ModelMeasurements) -> bool {
    measured.cpu matches Some(m) ==> m.bytes <= u64::MAX - FACE_STAGING_MB * MB
}

/// The draw-policy keys a departure names, in declaration order: those whose
/// flag is set.
pub open spec fn departed_key_names(
    non_progress_plies: bool,
    non_progress_reset: bool,
    repetition_count: bool,
    repetition_window: bool,
) -> Seq<Seq<char>> {
    (if non_progress_plies { seq!["rules.draw.non_progress_plies"@] } else { seq![] })
        + (if non_progress_reset { seq!["rules.draw.non_progress_reset"@] } else { seq![] })
        + (if repetition_count { seq!["rules.draw.repetition_count"@] } else { seq![] })
        + (if repetition_window { seq!["rules.draw.repetition_window"@] } else { seq![] })
}

impl ValidationWarning {
    /// The configuration keys a draw-policy departure names; none for any
    /// other warning.
    pub fn departed_keys(&self) -> (keys: Vec<&'static str>)
        ensures
            (*self matches ValidationWarning::DrawPolicyDeparts {
                non_progress_plies,
                non_progress_reset,
                repetition_count,
                repetition_window,
            } ==> keys@.map_values(|key: &'static str| key@) == departed_key_names(
                non_progress_plies,
                non_progress_reset,
                repetition_count,
                repetition_window,
            )),
            !(self is DrawPolicyDeparts) ==> keys@.len() == 0,
    {
        let mut keys: Vec<&'static str> = Vec::new();
        match self {
            ValidationWarning::DrawPolicyDeparts {
                non_progress_plies,
                non_progress_reset,
                repetition_count,
                repetition_window,
            } => {
                if *non_progress_plies {
                    keys.push("rules.draw.non_progress_plies");
                }
                if *non_progress_reset {
                    keys.push("rules.draw.non_progress_reset");
                }
                if *repetition_count {
                    keys.push("rules.draw.repetition_count");
                }
                if *repetition_window {
                    keys.push("rules.draw.repetition_window");
                }
                assert(keys@.map_values(|key: &'static str| key@) =~= departed_key_names(
                    *non_progress_plies,
                    *non_progress_reset,
                    *repetition_count,
                    *repetition_window,
                ));
            },
            _ => {},
        }
        keys
    }
}

impl ValidationReport {
    pub fn is_ok(&self) -> (ok: bool)
        ensures
            ok == (self.errors@.len() == 0),
    {
        self.errors.len() == 0
    }

    /// The saturating sum of the memory breakdown.
    pub fn projected_memory_bytes(&self) -> (total: u64)
        ensures
            total == saturating_total(self.memory_breakdown@),
    {
        let mut total: u64 = 0;
        let mut i: usize = 0;
        while i < self.memory_breakdown.len()
            invariant
                i <= self.memory_breakdown@.len(),
                total == saturating_total(self.memory_breakdown@.take(i as int)),
            decreases self.memory_breakdown@.len() - i,
        {
            let (_, bytes) = self.memory_breakdown[i];
            assert(self.memory_breakdown@.take(i + 1).drop_last() =~= self.memory_breakdown@.take(
                i as int,
            ));
            total = total.saturating_add(bytes);
            i = i + 1;
        }
        assert(self.memory_breakdown@.take(i as int) =~= self.memory_breakdown@);
        total
    }
}

/// Validate a parsed configuration against the resolved inference device and
/// the measured model files.
///
/// The active profile failing its deadline refuses startup; the inactive one
/// failing is a warning.
pub fn validate(config: &Config, device: DeviceKind, measured: &ModelMeasurements) -> (report:
    ValidationReport)
    requires
        measurements_in_range(*measured),
    ensures
        report.errors@ == shape_errors(config) + memory_errors(config, cpu_bytes(*measured))
            + deadline_checks(config, device, *measured).0 + vram_errors(config, device, *measured),
        report.errors@ == validation_errors(config, device, *measured),
        report.warnings@ == shape_warnings(config) + memory_warnings(config) + deadline_checks(
            config,
            device,
            *measured,
        ).1,
        report.memory_breakdown@ == memory_breakdown(config, cpu_bytes(*measured)),
{
    let mut report = ValidationReport {
        errors: Vec::new(),
        warnings: Vec::new(),
        memory_breakdown: Vec::new(),
    };
    check_shapes(config, &mut report);
    let cpu = match measured.cpu {
        Some(m) => Some(m.bytes),
        None => None,
    };
    check_host_memory(config, cpu, &mut report);
    check_deadlines(config, device, measured, &mut report);
    check_vram(config, device, measured, &mut report);
    report
}

/// The CPU profile's model size, if it was measured.
pub open spec fn cpu_bytes(measured: ModelMeasurements) -> Option<u64> {
    match measured.cpu {
        Some(m) => Some(m.bytes),
        None => None,
    }
}

fn push_error_if(report: &mut ValidationReport, condition: bool, error: ValidationError)
    ensures
        final(report).errors@ == old(report).errors@ + when(condition, error),
        final(report).warnings@ == old(report).warnings@,
        final(report).memory_breakdown@ == old(report).memory_breakdown@,
{
    if condition {
        report.errors.push(error);
    } else {
        assert(old(report).errors@ + when(condition, error) =~= old(report).errors@);
    }
}

fn push_warning_if(report: &mut ValidationReport, condition: bool, warning: ValidationWarning)
    ensures
        final(report).warnings@ == old(report).warnings@ + when(condition, warning),
        final(report).errors@ == old(report).errors@,
        final(report).memory_breakdown@ == old(report).memory_breakdown@,
{
    if condition {
        report.warnings.push(warning);
    } else {
        assert(old(report).warnings@ + when(condition, warning) =~= old(report).warnings@);
    }
}

/// Cheap structural checks that need no arithmetic to justify.
fn check_shapes(config: &Config, report: &mut ValidationReport)
    ensures
        final(report).errors@ == old(report).errors@ + shape_errors(config),
        final(report).warnings@ == old(report).warnings@ + shape_warnings(config),
        final(report).memory_breakdown@ == old(report).memory_breakdown@,
{
    let ghost e0 = report.errors@;
    let ghost w0 = report.warnings@;
    check_shards_and_retries(config, report);
    let ghost e1 = report.errors@;
    let ghost w1 = report.warnings@;
    check_positive_counts(config, report);
    let ghost e2 = report.errors@;
    check_search_budgets(config, report);
    let ghost e3 = report.errors@;
    check_unwired_keys(config, report);
    let ghost w2 = report.warnings@;
    check_draw_policy(config.rules.draw, report);
    let ghost e4 = report.errors@;
    let ghost w3 = report.warnings@;
    push_warning_if(
        report,
        config.engine.lab.time_budget_ms != 0,
        ValidationWarning::LabTimeBudget,
    );
    proof {
        let a = shard_errors(config) + retry_errors(config);
        let b = positive_errors(config);
        let c = search_budget_errors(config);
        let d = draw_policy_errors(config.rules.draw);
        assert(e4 == e0 + a + b + c + d);
        assert(e0 + a + b + c + d =~= e0 + (a + b + c + d));
        let wa = when(
            config.engine.transposition.enabled && config.engine.transposition.shard_count
                <= config.engine.lab.worker_threads,
            ValidationWarning::ShardContention {
                shard_count: config.engine.transposition.shard_count,
                lab_worker_threads: config.engine.lab.worker_threads,
            },
        );
        let wb = unwired_warnings(config);
        let wc = draw_policy_warnings(config.rules.draw);
        let wd = when(config.engine.lab.time_budget_ms != 0, ValidationWarning::LabTimeBudget);
        assert(report.warnings@ == w0 + wa + wb + wc + wd);
        assert(w0 + wa + wb + wc + wd =~= w0 + (wa + wb + wc + wd));
    }
}

fn check_shards_and_retries(config: &Config, report: &mut ValidationReport)
    ensures
        final(report).errors@ == old(report).errors@ + shard_errors(config) + retry_errors(config),
        final(report).warnings@ == old(report).warnings@ + when(
            config.engine.transposition.enabled && config.engine.transposition.shard_count
                <= config.engine.lab.worker_threads,
            ValidationWarning::ShardContention {
                shard_count: config.engine.transposition.shard_count,
                lab_worker_threads: config.engine.lab.worker_threads,
            },
        ),
        final(report).memory_breakdown@ == old(report).memory_breakdown@,
{
    reveal(shard_errors);
    reveal(retry_errors);
    let tt = &config.engine.transposition;
    let shard_ok = usize_is_power_of_two(tt.shard_count);
    push_error_if(
        report,
        tt.enabled && (!shard_ok || tt.shard_count < 2),
        ValidationError::ShardCountNotPowerOfTwo(tt.shard_count),
    );
    push_warning_if(
        report,
        tt.enabled && tt.shard_count <= config.engine.lab.worker_threads,
        ValidationWarning::ShardContention {
            shard_count: tt.shard_count,
            lab_worker_threads: config.engine.lab.worker_threads,
        },
    );
    let writer = &config.database.writer;
    let backoffs = writer.retry_backoff_ms.len();
    push_error_if(
        report,
        backoffs != writer.max_retries as usize,
        ValidationError::RetryBackoffLengthMismatch {
            expected: writer.max_retries,
            actual: backoffs,
        },
    );
}

#[verifier::rlimit(40)]
fn check_positive_counts(config: &Config, report: &mut ValidationReport)
    ensures
        final(report).errors@ == old(report).errors@ + positive_errors(config),
        final(report).warnings@ == old(report).warnings@,
        final(report).memory_breakdown@ == old(report).memory_breakdown@,
{
    reveal(positive_errors);
    let ghost e0 = report.errors@;
    let writer = &config.database.writer;
    push_error_if(
        report,
        writer.db_batch_rows == 0,
        ValidationError::MustBePositive { key: "database.writer.db_batch_rows" },
    );
    push_error_if(
        report,
        writer.channel_capacity == 0,
        ValidationError::MustBePositive { key: "database.writer.channel_capacity" },
    );
    push_error_if(
        report,
        config.database.read_pool_size == 0,
        ValidationError::MustBePositive { key: "database.read_pool_size" },
    );
    push_error_if(
        report,
        config.server.worker_threads == 0,
        ValidationError::MustBePositive { key: "server.worker_threads" },
    );
    push_error_if(
        report,
        config.engine.play.worker_threads == 0,
        ValidationError::MustBePositive { key: "engine.play.worker_threads" },
    );
    push_error_if(
        report,
        config.engine.lab.worker_threads == 0,
        ValidationError::MustBePositive { key: "engine.lab.worker_threads" },
    );
    assert(report.errors@ =~= e0 + positive_errors(config));
}

fn check_search_budgets(config: &Config, report: &mut ValidationReport)
    ensures
        final(report).errors@ == old(report).errors@ + search_budget_errors(config),
        final(report).warnings@ == old(report).warnings@,
        final(report).memory_breakdown@ == old(report).memory_breakdown@,
{
    reveal(search_budget_errors);
    let ghost e0 = report.errors@;
    push_error_if(
        report,
        config.engine.play.iterations == 0 && config.engine.play.time_budget_ms == 0,
        ValidationError::MustBePositive {
            key: "engine.play.iterations (or engine.play.time_budget_ms)",
        },
    );
    push_error_if(
        report,
        config.engine.lab.iterations == 0 && config.engine.lab.time_budget_ms == 0,
        ValidationError::MustBePositive {
            key: "engine.lab.iterations (or engine.lab.time_budget_ms)",
        },
    );
    assert(report.errors@ =~= e0 + search_budget_errors(config));
}

fn check_unwired_keys(config: &Config, report: &mut ValidationReport)
    ensures
        final(report).errors@ == old(report).errors@,
        final(report).warnings@ == old(report).warnings@ + unwired_warnings(config),
        final(report).memory_breakdown@ == old(report).memory_breakdown@,
{
    reveal(unwired_warnings);
    let ghost w0 = report.warnings@;
    push_warning_if(
        report,
        config.face.circuit_breaker.failure_threshold == 0,
        ValidationWarning::FailureThresholdClamped,
    );
    push_warning_if(
        report,
        config.face.circuit_breaker.half_open_probes != 1,
        ValidationWarning::HalfOpenProbesUnwired,
    );
    push_warning_if(
        report,
        config.lab.sampling.only_store_high_visit_edges,
        ValidationWarning::HighVisitEdgesUnwired,
    );
    let departed = !(config.rules.draw == DrawConfig::default());
    push_warning_if(report, departed, ValidationWarning::DrawPolicyUnwired);
    assert(report.warnings@ =~= w0 + unwired_warnings(config));
}

/// The draw policy: checked for shape, and for departure from the defaults.
fn check_draw_policy(draw: DrawConfig, report: &mut ValidationReport)
    ensures
        final(report).errors@ == old(report).errors@ + draw_policy_errors(draw),
        final(report).warnings@ == old(report).warnings@ + draw_policy_warnings(draw),
        final(report).memory_breakdown@ == old(report).memory_breakdown@,
{
    reveal(draw_policy_errors);
    reveal(draw_policy_warnings);
    let ghost e0 = report.errors@;
    push_error_if(
        report,
        draw.non_progress_plies == 0,
        ValidationError::MustBePositive { key: "rules.draw.non_progress_plies" },
    );
    push_error_if(
        report,
        draw.repetition_count < 2,
        ValidationError::RepetitionCountTooLow(draw.repetition_count),
    );
    assert(report.errors@ =~= e0 + draw_policy_errors(draw));
    let defaults = DrawConfig::default();
    let plies = draw.non_progress_plies != defaults.non_progress_plies;
    let reset = draw.non_progress_reset != defaults.non_progress_reset;
    let count = draw.repetition_count != defaults.repetition_count;
    let window = draw.repetition_window != defaults.repetition_window;
    push_warning_if(
        report,
        plies || reset || count || window,
        ValidationWarning::DrawPolicyDeparts {
            non_progress_plies: plies,
            non_progress_reset: reset,
            repetition_count: count,
            repetition_window: window,
        },
    );
}

/// The host-memory ceiling, computed across sections.
fn check_host_memory(config: &Config, cpu_model_bytes: Option<u64>, report: &mut ValidationReport)
    requires
        cpu_model_bytes matches Some(b) ==> b <= u64::MAX - FACE_STAGING_MB * MB,
    ensures
        final(report).errors@ == old(report).errors@ + memory_errors(config, cpu_model_bytes),
        final(report).warnings@ == old(report).warnings@ + memory_warnings(config),
        final(report).memory_breakdown@ == memory_breakdown(config, cpu_model_bytes),
{
    let db = &config.database;
    let tt = &config.engine.transposition;
    let tt_bytes = if tt.enabled {
        saturating_mul(tt.capacity_entries as u64, TT_BYTES_PER_ENTRY)
    } else {
        0
    };
    let face_bytes = if !config.face.enabled {
        0
    } else {
        FACE_STAGING_MB * MB + match cpu_model_bytes {
            Some(bytes) => bytes,
            None => 0,
        }
    };
    let mut items: Vec<(&'static str, u64)> = Vec::new();
    items.push(("engine.transposition.capacity_entries", tt_bytes));
    items.push(
        (
            "database.writer.channel_capacity",
            saturating_mul(db.writer.channel_capacity as u64, WRITE_MESSAGE_BYTES),
        ),
    );
    items.push(("database.writer_cache_mb", saturating_mul(db.writer_cache_mb, MB)));
    items.push(
        (
            "database.reader_cache_mb × read_pool_size",
            saturating_mul(saturating_mul(db.reader_cache_mb, db.read_pool_size as u64), MB),
        ),
    );
    items.push(
        (
            "engine.lab.worker_threads (MCTS arenas)",
            saturating_mul(
                saturating_mul(config.engine.lab.worker_threads as u64, MCTS_ARENA_MB),
                MB,
            ),
        ),
    );
    items.push(("face (staging + CPU-profile weights)", face_bytes));
    items.push(("rust runtime and allocator overhead", RUNTIME_OVERHEAD_MB * MB));
    assert(items@ =~= memory_breakdown(config, cpu_model_bytes));
    report.memory_breakdown = items;
    let projected = report.projected_memory_bytes();
    let budget = saturating_mul(config.limits.max_total_memory_gb, GB);
    if projected > budget {
        let largest = largest_item(&report.memory_breakdown);
        let (largest_key, largest_bytes) = report.memory_breakdown[largest];
        report.errors.push(
            ValidationError::MemoryBudgetExceeded {
                projected_bytes: projected,
                budget_gb: config.limits.max_total_memory_gb,
                largest_key,
                largest_bytes,
            },
        );
    } else {
        assert(old(report).errors@ + memory_errors(config, cpu_model_bytes) =~= old(
            report,
        ).errors@);
    }
    let mmap = saturating_mul(db.mmap_size_gb, GB);
    push_warning_if(
        report,
        mmap > budget,
        ValidationWarning::MmapExceedsBudget { mmap_size_gb: db.mmap_size_gb },
    );
}

/// The index of the largest item, the last one among equals.
fn largest_item(items: &Vec<(&'static str, u64)>) -> (index: usize)
    requires
        items@.len() > 0,
    ensures
        index == largest_index(items@),
        index < items@.len(),
{
    let mut best: usize = 0;
    let mut i: usize = 1;
    while i < items.len()
        invariant
            1 <= i <= items@.len(),
            best < i,
            best == largest_index(items@.take(i as int)),
        decreases items@.len() - i,
    {
        assert(items@.take(i + 1).drop_last() =~= items@.take(i as int));
        assert(items@.take(i as int)[best as int] == items@[best as int]);
        if items[i].1 >= items[best].1 {
            best = i;
        }
        i = i + 1;
    }
    assert(items@.take(i as int) =~= items@);
    best
}

/// Deadline feasibility, checked for both profiles.
fn check_deadlines(
    config: &Config,
    device: DeviceKind,
    measured: &ModelMeasurements,
    report: &mut ValidationReport,
)
    ensures
        final(report).errors@ == old(report).errors@ + deadline_checks(config, device, *measured).0,
        final(report).warnings@ == old(report).warnings@ + deadline_checks(
            config,
            device,
            *measured,
        ).1,
        final(report).memory_breakdown@ == old(report).memory_breakdown@,
{
    if !config.face.enabled {
        assert(old(report).errors@ + Seq::<ValidationError>::empty() =~= old(report).errors@);
        assert(old(report).warnings@ + Seq::<ValidationWarning>::empty() =~= old(
            report,
        ).warnings@);
        return ;
    }
    let ghost e0 = report.errors@;
    let ghost w0 = report.warnings@;
    check_profile_deadline(
        config,
        "cuda_profile",
        "cuda",
        &config.face.cuda_profile.model_path,
        device.is_cuda(),
        measured.cuda,
        report,
    );
    check_profile_deadline(
        config,
        "cpu_profile",
        "cpu",
        &config.face.cpu_profile.model_path,
        !device.is_cuda(),
        measured.cpu,
        report,
    );
    assert(report.errors@ =~= e0 + deadline_checks(config, device, *measured).0);
    assert(report.warnings@ =~= w0 + deadline_checks(config, device, *measured).1);
}

fn check_profile_deadline(
    config: &Config,
    profile: &'static str,
    device_name: &'static str,
    path: &String,
    is_active: bool,
    measured: Option<ModelMeasurement>,
    report: &mut ValidationReport,
)
    ensures
        final(report).errors@ == old(report).errors@ + profile_deadline(
            config,
            profile,
            device_name,
            *path,
            is_active,
            measured,
        ).0,
        final(report).warnings@ == old(report).warnings@ + profile_deadline(
            config,
            profile,
            device_name,
            *path,
            is_active,
            measured,
        ).1,
        final(report).memory_breakdown@ == old(report).memory_breakdown@,
{
    match measured {
        None => {
            report.warnings.push(ValidationWarning::ModelUnreadable { profile, path: path.clone() });
            assert(old(report).errors@ + Seq::<ValidationError>::empty() =~= old(report).errors@);
        },
        Some(m) => {
            if m.projected_ms <= config.face.deadline_ms {
                assert(old(report).errors@ + Seq::<ValidationError>::empty() =~= old(
                    report,
                ).errors@);
                assert(old(report).warnings@ + Seq::<ValidationWarning>::empty() =~= old(
                    report,
                ).warnings@);
                return ;
            }
            let failure = ValidationError::DeadlineInfeasible {
                profile,
                device: device_name,
                model_mb: m.bytes / MB,
                projected_ms: m.projected_ms,
                max_tokens: config.face.max_tokens,
                deadline_ms: config.face.deadline_ms,
            };
            if is_active {
                report.errors.push(failure);
                assert(old(report).warnings@ + Seq::<ValidationWarning>::empty() =~= old(
                    report,
                ).warnings@);
            } else {
                report.warnings.push(ValidationWarning::InactiveProfileDeadline(failure));
                assert(old(report).errors@ + Seq::<ValidationError>::empty() =~= old(
                    report,
                ).errors@);
            }
        },
    }
}

/// Projected VRAM for a profile, in MB.
pub fn projected_vram_mb(model_bytes: u64) -> (projected: u64)
    ensures
        projected == spec_projected_vram_mb(model_bytes),
{
    model_bytes / MB + VRAM_FIXED_OVERHEAD_MB
}

/// The VRAM budget, meaningful only when the resolved device is CUDA.
fn check_vram(
    config: &Config,
    device: DeviceKind,
    measured: &ModelMeasurements,
    report: &mut ValidationReport,
)
    ensures
        final(report).errors@ == old(report).errors@ + vram_errors(config, device, *measured),
        final(report).warnings@ == old(report).warnings@,
        final(report).memory_breakdown@ == old(report).memory_breakdown@,
{
    if !config.face.enabled || !device.is_cuda() {
        assert(old(report).errors@ + Seq::<ValidationError>::empty() =~= old(report).errors@);
        return ;
    }
    match measured.cuda {
        None => {
            assert(old(report).errors@ + Seq::<ValidationError>::empty() =~= old(report).errors@);
        },
        Some(m) => {
            let projected_mb = projected_vram_mb(m.bytes);
            push_error_if(
                report,
                projected_mb > config.limits.max_vram_mb,
                ValidationError::VramBudgetExceeded {
                    profile: "cuda_profile",
                    model_mb: m.bytes / MB,
                    projected_mb,
                    budget_mb: config.limits.max_vram_mb,
                },
            );
        },
    }
}

/// Warn when the memory budget exceeds the host's RAM (`host_bytes`, as read
/// from the machine; `0` when it could not be read).
pub fn check_against_host_memory(config: &Config, host_bytes: u64, report: &mut ValidationReport)
    ensures
        final(report).errors@ == old(report).errors@,
        final(report).memory_breakdown@ == old(report).memory_breakdown@,
        final(report).warnings@ == old(report).warnings@ + when(
            host_bytes != 0 && sat_mul(config.limits.max_total_memory_gb as int, GB as int)
                > host_bytes,
            ValidationWarning::HostMemoryExceeded {
                budget_gb: config.limits.max_total_memory_gb,
                host_bytes,
            },
        ),
{
    if host_bytes == 0 {
        assert(old(report).warnings@ + Seq::<ValidationWarning>::empty() =~= old(
            report,
        ).warnings@);
        return ;
    }
    let budget = saturating_mul(config.limits.max_total_memory_gb, GB);
    push_warning_if(
        report,
        budget > host_bytes,
        ValidationWarning::HostMemoryExceeded {
            budget_gb: config.limits.max_total_memory_gb,
            host_bytes,
        },
    );
}

#[verifier::external_type_specification]
#[verifier::external_body]
pub struct ExSystem(sysinfo::System);

/// `sysinfo::System::new`: a handle on the machine's information, or `None`
/// where the platform cannot provide one. Which it is depends on the machine.
#[verifier::external_body]
fn open_system() -> Option<sysinfo::System> {
    sysinfo::System::new().ok()
}

/// `System::refresh_memory`: re-reads the memory figures. Nothing is claimed
/// of what it reads.
#[verifier::external_body]
fn refresh_memory(system: &mut sysinfo::System) {
    system.refresh_memory()
}

/// `System::total_memory`: the RAM size in bytes, as last read. Nothing is
/// claimed of it; it is a property of the machine.
#[verifier::external_body]
fn total_memory(system: &sysinfo::System) -> u64 {
    system.total_memory()
}

/// The host's RAM in bytes, or `0` where it cannot be read.
pub fn host_memory_bytes() -> u64 {
    match open_system() {
        Some(mut system) => {
            refresh_memory(&mut system);
            total_memory(&system)
        },
        None => 0,
    }
}

/// Warn when the configuration promises more memory than the host has.
/// Separate from [`validate`] because it reads the machine rather than the
/// document.
pub fn check_against_host(config: &Config, report: &mut ValidationReport)
    ensures
        final(report).errors@ == old(report).errors@,
        final(report).memory_breakdown@ == old(report).memory_breakdown@,
        exists|host_bytes: u64|
            final(report).warnings@ == old(report).warnings@ + when(
                host_bytes != 0 && sat_mul(config.limits.max_total_memory_gb as int, GB as int)
                    > host_bytes,
                ValidationWarning::HostMemoryExceeded {
                    budget_gb: config.limits.max_total_memory_gb,
                    host_bytes,
                },
            ),
{
    let host_bytes = host_memory_bytes();
    check_against_host_memory(config, host_bytes, report);
}

proof fn lemma_saturating_total_bounds_each_item(items: Seq<(&'static str, u64)>)
    ensures
        forall|i: int| 0 <= i < items.len() ==> (#[trigger] items[i]).1 <= saturating_total(items),
    decreases items.len(),
{
    if items.len() > 0 {
        lemma_saturating_total_bounds_each_item(items.drop_last());
        assert forall|i: int| 0 <= i < items.len() implies (#[trigger] items[i]).1 <= saturating_total(
            items,
        ) by {
            if i < items.len() - 1 {
                assert(items[i] == items.drop_last()[i]);
            }
        }
    }
}

proof fn lemma_largest_index_is_largest(items: Seq<(&'static str, u64)>)
    requires
        items.len() > 0,
    ensures
        0 <= largest_index(items) < items.len(),
        forall|i: int| 0 <= i < items.len() ==> (#[trigger] items[i]).1 <= items[largest_index(items)].1,
    decreases items.len(),
{
    if items.len() > 1 {
        lemma_largest_index_is_largest(items.drop_last());
        assert forall|i: int| 0 <= i < items.len() implies (#[trigger] items[i]).1
            <= items[largest_index(items)].1 by {
            if i < items.len() - 1 {
                assert(items[i] == items.drop_last()[i]);
            }
            assert(items[largest_index(items.drop_last())] == items.drop_last()[largest_index(
                items.drop_last(),
            )]);
        }
    }
}

/// The memory projection saturates rather than wrapping: it is never below
/// any of its line items, so a single line item over the budget is always a
/// refusal; and a refusal names the largest consumer.
pub proof fn law_the_memory_projection_never_understates(config: &Config, cpu_model_bytes: Option<u64>)
    ensures
        forall|i: int|
            0 <= i < memory_breakdown(config, cpu_model_bytes).len() ==> (#[trigger] memory_breakdown(
                config,
                cpu_model_bytes,
            )[i]).1 <= saturating_total(memory_breakdown(config, cpu_model_bytes)),
        forall|i: int|
            0 <= i < memory_breakdown(config, cpu_model_bytes).len() && (#[trigger] memory_breakdown(
                config,
                cpu_model_bytes,
            )[i]).1 > sat_mul(config.limits.max_total_memory_gb as int, GB as int) ==> memory_errors(
                config,
                cpu_model_bytes,
            ).len() == 1,
        memory_errors(config, cpu_model_bytes).len() == 1 ==> (memory_errors(
            config,
            cpu_model_bytes,
        )[0] matches ValidationError::MemoryBudgetExceeded { largest_bytes, .. } && forall|i: int|
            0 <= i < memory_breakdown(config, cpu_model_bytes).len() ==> (#[trigger] memory_breakdown(
                config,
                cpu_model_bytes,
            )[i]).1 <= largest_bytes),
{
    let items = memory_breakdown(config, cpu_model_bytes);
    lemma_saturating_total_bounds_each_item(items);
    lemma_largest_index_is_largest(items);
}

/// The errors `validate` reports, in the order it reports them.
pub open spec fn validation_errors(
    config: &Config,
    device: DeviceKind,
    measured: ModelMeasurements,
) -> Seq<ValidationError> {
    shape_errors(config) + memory_errors(config, cpu_bytes(measured)) + deadline_checks(
        config,
        device,
        measured,
    ).0 + vram_errors(config, device, measured)
}

/// No error of `errors` is a VRAM refusal.
pub open spec fn refuses_no_vram(errors: Seq<ValidationError>) -> bool {
    forall|i: int| 0 <= i < errors.len() ==> !(#[trigger] errors[i] is VramBudgetExceeded)
}

proof fn lemma_no_vram_concat(a: Seq<ValidationError>, b: Seq<ValidationError>)
    requires
        refuses_no_vram(a),
        refuses_no_vram(b),
    ensures
        refuses_no_vram(a + b),
{
    assert forall|i: int| 0 <= i < (a + b).len() implies !(#[trigger] (a + b)[i] is VramBudgetExceeded) by {
        if i < a.len() {
            assert((a + b)[i] == a[i]);
        } else {
            assert((a + b)[i] == b[i - a.len()]);
        }
    }
}

proof fn lemma_no_vram_when(condition: bool, error: ValidationError)
    requires
        !(error is VramBudgetExceeded),
    ensures
        refuses_no_vram(when(condition, error)),
{
}

/// The VRAM budget binds on the CUDA device and only there. With the Face
/// layer on, the device CUDA and the CUDA model measured, a projection (the
/// model's whole megabytes plus the fixed overhead) above `max_vram_mb` is
/// reported as a VRAM refusal naming the CUDA profile and the three figures;
/// a projection within the budget is not refused; and on the CPU device no
/// VRAM refusal is ever reported, whatever the measurements.
pub proof fn law_the_vram_budget_binds_on_cuda_only(
    config: &Config,
    device: DeviceKind,
    measured: ModelMeasurements,
    model: ModelMeasurement,
)
    ensures
        (config.face.enabled && device is Cuda && measured.cuda == Some(model) && model.bytes / MB
            + VRAM_FIXED_OVERHEAD_MB > config.limits.max_vram_mb) ==> validation_errors(
            config,
            device,
            measured,
        ).contains(
            ValidationError::VramBudgetExceeded {
                profile: "cuda_profile",
                model_mb: model.bytes / MB,
                projected_mb: (model.bytes / MB + VRAM_FIXED_OVERHEAD_MB) as u64,
                budget_mb: config.limits.max_vram_mb,
            },
        ),
        (measured.cuda == Some(model) && model.bytes / MB + VRAM_FIXED_OVERHEAD_MB
            <= config.limits.max_vram_mb) ==> vram_errors(config, device, measured).len() == 0,
        device is Cpu ==> refuses_no_vram(validation_errors(config, device, measured)),
{
    let prefix = shape_errors(config) + memory_errors(config, cpu_bytes(measured))
        + deadline_checks(config, device, measured).0;
    let all = validation_errors(config, device, measured);
    if config.face.enabled && device is Cuda && measured.cuda == Some(model) && model.bytes / MB
        + VRAM_FIXED_OVERHEAD_MB > config.limits.max_vram_mb {
        let e = ValidationError::VramBudgetExceeded {
            profile: "cuda_profile",
            model_mb: model.bytes / MB,
            projected_mb: (model.bytes / MB + VRAM_FIXED_OVERHEAD_MB) as u64,
            budget_mb: config.limits.max_vram_mb,
        };
        assert(vram_errors(config, device, measured) == seq![e]);
        assert(all == prefix + seq![e]);
        assert(all[prefix.len() as int] == e);
    }
    if device is Cpu {
        reveal(shard_errors);
        reveal(retry_errors);
        reveal(positive_errors);
        reveal(search_budget_errors);
        reveal(draw_policy_errors);
        let tt = config.engine.transposition;
        let writer = config.database.writer;
        let play = config.engine.play;
        let lab = config.engine.lab;
        let draw = config.rules.draw;
        lemma_no_vram_when(
            tt.enabled && (!is_power_of_two(tt.shard_count as nat) || tt.shard_count < 2),
            ValidationError::ShardCountNotPowerOfTwo(tt.shard_count),
        );
        lemma_no_vram_when(
            writer.retry_backoff_ms@.len() != writer.max_retries,
            ValidationError::RetryBackoffLengthMismatch {
                expected: writer.max_retries,
                actual: writer.retry_backoff_ms@.len() as usize,
            },
        );
        let p1 = when(
            writer.db_batch_rows == 0,
            ValidationError::MustBePositive { key: "database.writer.db_batch_rows" },
        );
        let p2 = when(
            writer.channel_capacity == 0,
            ValidationError::MustBePositive { key: "database.writer.channel_capacity" },
        );
        let p3 = when(
            config.database.read_pool_size == 0,
            ValidationError::MustBePositive { key: "database.read_pool_size" },
        );
        let p4 = when(
            config.server.worker_threads == 0,
            ValidationError::MustBePositive { key: "server.worker_threads" },
        );
        let p5 = when(
            play.worker_threads == 0,
            ValidationError::MustBePositive { key: "engine.play.worker_threads" },
        );
        let p6 = when(
            lab.worker_threads == 0,
            ValidationError::MustBePositive { key: "engine.lab.worker_threads" },
        );
        lemma_no_vram_concat(p1, p2);
        lemma_no_vram_concat(p1 + p2, p3);
        lemma_no_vram_concat(p1 + p2 + p3, p4);
        lemma_no_vram_concat(p1 + p2 + p3 + p4, p5);
        lemma_no_vram_concat(p1 + p2 + p3 + p4 + p5, p6);
        let b1 = when(
            play.iterations == 0 && play.time_budget_ms == 0,
            ValidationError::MustBePositive {
                key: "engine.play.iterations (or engine.play.time_budget_ms)",
            },
        );
        let b2 = when(
            lab.iterations == 0 && lab.time_budget_ms == 0,
            ValidationError::MustBePositive {
                key: "engine.lab.iterations (or engine.lab.time_budget_ms)",
            },
        );
        lemma_no_vram_concat(b1, b2);
        let d1 = when(
            draw.non_progress_plies == 0,
            ValidationError::MustBePositive { key: "rules.draw.non_progress_plies" },
        );
        let d2 = when(draw.repetition_count < 2, ValidationError::RepetitionCountTooLow(draw.repetition_count));
        lemma_no_vram_concat(d1, d2);
        let s1 = shard_errors(config);
        let s2 = retry_errors(config);
        let s3 = positive_errors(config);
        let s4 = search_budget_errors(config);
        let s5 = draw_policy_errors(config.rules.draw);
        lemma_no_vram_concat(s1, s2);
        lemma_no_vram_concat(s1 + s2, s3);
        lemma_no_vram_concat(s1 + s2 + s3, s4);
        lemma_no_vram_concat(s1 + s2 + s3 + s4, s5);
        let items = memory_breakdown(config, cpu_bytes(measured));
        let largest = items[largest_index(items)];
        lemma_no_vram_when(
            saturating_total(items) > sat_mul(config.limits.max_total_memory_gb as int, GB as int),
            ValidationError::MemoryBudgetExceeded {
                projected_bytes: saturating_total(items),
                budget_gb: config.limits.max_total_memory_gb,
                largest_key: largest.0,
                largest_bytes: largest.1,
            },
        );
        let dl = deadline_checks(config, device, measured).0;
        assert(refuses_no_vram(dl)) by {
            if config.face.enabled {
                let cuda = profile_deadline(
                    config,
                    "cuda_profile",
                    "cuda",
                    config.face.cuda_profile.model_path,
                    device is Cuda,
                    measured.cuda,
                );
                let cpu = profile_deadline(
                    config,
                    "cpu_profile",
                    "cpu",
                    config.face.cpu_profile.model_path,
                    device is Cpu,
                    measured.cpu,
                );
                assert(refuses_no_vram(cuda.0));
                assert(refuses_no_vram(cpu.0));
                lemma_no_vram_concat(cuda.0, cpu.0);
            }
        }
        lemma_no_vram_concat(shape_errors(config), memory_errors(config, cpu_bytes(measured)));
        lemma_no_vram_concat(
            shape_errors(config) + memory_errors(config, cpu_bytes(measured)),
            dl,
        );
        assert(vram_errors(config, device, measured) =~= Seq::<ValidationError>::empty());
        lemma_no_vram_concat(prefix, vram_errors(config, device, measured));
    }
}

} // verus!
