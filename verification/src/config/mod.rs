//! Configuration: one file, one binary, no environment-specific code paths.
//!
//! Every field mirrors a key of the configuration file. Paths are held as
//! strings, and the handful of floating-point tuning knobs are held as their
//! IEEE-754 bit patterns: no logic in this library reads them, it only carries
//! them from the file to the components that use them.

pub mod messages;
pub mod validate;

use vstd::prelude::*;

pub use validate::{ValidationError, ValidationReport, ValidationWarning};

verus! {

/// The whole configuration file.
#[derive(Debug, Clone)]
pub struct Config {
    pub server: ServerConfig,
    pub database: DatabaseConfig,
    pub engine: EngineConfig,
    pub lab: LabConfig,
    pub face: FaceConfig,
    pub limits: LimitsConfig,
    pub rules: RulesConfig,
}

impl Default for Config {
    fn default() -> (config: Config)
        ensures
            config.server.is_default(),
            config.database.is_default(),
            config.engine.is_default(),
            config.lab.sampling.is_default(),
            config.face.is_default(),
            config.limits.is_default(),
            config.rules.draw.is_default(),
    {
        Config {
            server: ServerConfig::default(),
            database: DatabaseConfig::default(),
            engine: EngineConfig::default(),
            lab: LabConfig::default(),
            face: FaceConfig::default(),
            limits: LimitsConfig::default(),
            rules: RulesConfig::default(),
        }
    }
}

/// `[server]`
#[derive(Debug, Clone)]
pub struct ServerConfig {
    pub host: String,
    pub port: u16,
    pub static_dir: String,
    /// Tokio runtime; HTTP only. The engine does not run there.
    pub worker_threads: usize,
}

impl ServerConfig {
    pub open spec fn is_default(&self) -> bool {
        &&& self.host@ == "127.0.0.1"@
        &&& self.port == 8080
        &&& self.static_dir@ == "./static"@
        &&& self.worker_threads == 4
    }
}

impl Default for ServerConfig {
    fn default() -> (config: ServerConfig)
        ensures
            config.is_default(),
    {
        ServerConfig {
            host: "127.0.0.1".to_owned(),
            port: 8080,
            static_dir: "./static".to_owned(),
            worker_threads: 4,
        }
    }
}

/// `[database]`
#[derive(Debug, Clone)]
pub struct DatabaseConfig {
    pub path: String,
    /// Applied at creation only; ignored for an existing file.
    pub page_size: u32,
    pub writer_cache_mb: u64,
    /// Per reader connection, not per pool.
    pub reader_cache_mb: u64,
    pub mmap_size_gb: u64,
    pub read_pool_size: usize,
    pub busy_timeout_ms: u64,
    pub checkpoint_every_commits: u64,
    pub journal_size_limit_mb: u64,
    pub writer: WriterConfig,
}

impl DatabaseConfig {
    pub open spec fn is_default(&self) -> bool {
        &&& self.path@ == "./data/draughts.db"@
        &&& self.page_size == 8192
        &&& self.writer_cache_mb == 4096
        &&& self.reader_cache_mb == 256
        &&& self.mmap_size_gb == 8
        &&& self.read_pool_size == 6
        &&& self.busy_timeout_ms == 30_000
        &&& self.checkpoint_every_commits == 64
        &&& self.journal_size_limit_mb == 4096
        &&& self.writer.is_default()
    }
}

impl Default for DatabaseConfig {
    fn default() -> (config: DatabaseConfig)
        ensures
            config.is_default(),
    {
        DatabaseConfig {
            path: "./data/draughts.db".to_owned(),
            page_size: 8192,
            writer_cache_mb: 4096,
            reader_cache_mb: 256,
            mmap_size_gb: 8,
            read_pool_size: 6,
            busy_timeout_ms: 30_000,
            checkpoint_every_commits: 64,
            journal_size_limit_mb: 4096,
            writer: WriterConfig::default(),
        }
    }
}

/// `[database.writer]`: the actor that owns the only write connection.
#[derive(Debug, Clone)]
pub struct WriterConfig {
    /// Bounded, and the bound is a memory budget.
    pub channel_capacity: usize,
    /// Target rows per transaction.
    pub db_batch_rows: usize,
    /// Commit even when the batch is not full.
    pub flush_interval_ms: u64,
    pub max_retries: u32,
    pub retry_backoff_ms: Vec<u64>,
}

impl WriterConfig {
    pub open spec fn is_default(&self) -> bool {
        &&& self.channel_capacity == 262_144
        &&& self.db_batch_rows == 50_000
        &&& self.flush_interval_ms == 250
        &&& self.max_retries == 5
        &&& self.retry_backoff_ms@ == seq![10u64, 50, 250, 1000, 5000]
    }
}

impl Default for WriterConfig {
    fn default() -> (config: WriterConfig)
        ensures
            config.is_default(),
    {
        WriterConfig {
            channel_capacity: 262_144,
            db_batch_rows: 50_000,
            flush_interval_ms: 250,
            max_retries: 5,
            retry_backoff_ms: vec![10, 50, 250, 1000, 5000],
        }
    }
}

/// `[engine]`
#[derive(Debug, Clone)]
pub struct EngineConfig {
    pub play: SearchConfig,
    pub lab: SearchConfig,
    pub transposition: TranspositionConfig,
}

impl EngineConfig {
    pub open spec fn is_default(&self) -> bool {
        &&& self.play.is_play_default()
        &&& self.lab.is_lab_default()
        &&& self.transposition.is_default()
    }
}

impl Default for EngineConfig {
    fn default() -> (config: EngineConfig)
        ensures
            config.is_default(),
    {
        EngineConfig {
            play: SearchConfig::play_defaults(),
            lab: SearchConfig::lab_defaults(),
            transposition: TranspositionConfig::default(),
        }
    }
}

/// `[engine.play]` and `[engine.lab]`.
#[derive(Debug, Clone)]
pub struct SearchConfig {
    pub evaluator: String,
    /// A ceiling; in Play Mode the time budget usually binds first.
    pub iterations: u32,
    /// `0` means iteration-bounded, the only reproducible setting.
    pub time_budget_ms: u64,
    /// The UCB exploration constant, as the bit pattern of an `f32`.
    pub exploration_constant: u32,
    pub worker_threads: usize,
    pub transposition_mode: TtMode,
}

impl SearchConfig {
    pub open spec fn is_play_default(&self) -> bool {
        &&& self.evaluator@ == "random_rollout"@
        &&& self.iterations == 4000
        &&& self.time_budget_ms == 1500
        &&& self.exploration_constant == 0x3FB3_3333u32
        &&& self.worker_threads == 1
        &&& self.transposition_mode == TtMode::Deterministic
    }

    pub open spec fn is_lab_default(&self) -> bool {
        &&& self.evaluator@ == "random_rollout"@
        &&& self.iterations == 800
        &&& self.time_budget_ms == 0
        &&& self.exploration_constant == 0x3F99_999Au32
        &&& self.worker_threads == 10
        &&& self.transposition_mode == TtMode::Throughput
    }

    /// Play Mode: time-bounded, single-threaded, deterministic table use
    /// (exploration constant 1.4).
    pub fn play_defaults() -> (config: SearchConfig)
        ensures
            config.is_play_default(),
    {
        SearchConfig {
            evaluator: "random_rollout".to_owned(),
            iterations: 4000,
            time_budget_ms: 1500,
            exploration_constant: 0x3FB3_3333,
            worker_threads: 1,
            transposition_mode: TtMode::Deterministic,
        }
    }

    /// Lab Mode: iteration-bounded, ten workers, throughput table use
    /// (exploration constant 1.2).
    pub fn lab_defaults() -> (config: SearchConfig)
        ensures
            config.is_lab_default(),
    {
        SearchConfig {
            evaluator: "random_rollout".to_owned(),
            iterations: 800,
            time_budget_ms: 0,
            exploration_constant: 0x3F99_999A,
            worker_threads: 10,
            transposition_mode: TtMode::Throughput,
        }
    }
}

impl Default for SearchConfig {
    fn default() -> (config: SearchConfig)
        ensures
            config.is_play_default(),
    {
        SearchConfig::play_defaults()
    }
}

/// Whether the table may serve the sample mean of an impure evaluator.
#[derive(Debug, Clone, Copy, PartialEq, Eq, Structural)]
pub enum TtMode {
    /// Move lists and proven scores only. Reproducible.
    Deterministic,
    /// Estimates too. Faster, and deliberately not reproducible.
    Throughput,
}

/// `[engine.transposition]`
#[derive(Debug, Clone)]
pub struct TranspositionConfig {
    pub enabled: bool,
    pub capacity_entries: usize,
    /// Power of two, comfortably above the worker count.
    pub shard_count: usize,
    pub reset_between_batches: bool,
    pub retire_batch_size: usize,
    pub huge_pages: HugePages,
}

impl TranspositionConfig {
    pub open spec fn is_default(&self) -> bool {
        &&& self.enabled
        &&& self.capacity_entries == 256_000_000
        &&& self.shard_count == 512
        &&& !self.reset_between_batches
        &&& self.retire_batch_size == 65_536
        &&& self.huge_pages == HugePages::Advise
    }
}

impl Default for TranspositionConfig {
    fn default() -> (config: TranspositionConfig)
        ensures
            config.is_default(),
    {
        TranspositionConfig {
            enabled: true,
            capacity_entries: 256_000_000,
            shard_count: 512,
            reset_between_batches: false,
            retire_batch_size: 65_536,
            huge_pages: HugePages::Advise,
        }
    }
}

/// `MADV_HUGEPAGE` on the table's backing allocation.
#[derive(Debug, Clone, Copy, PartialEq, Eq, Structural)]
pub enum HugePages {
    Advise,
    Off,
}

/// `[lab]`
#[derive(Debug, Clone)]
pub struct LabConfig {
    pub sampling: SamplingConfig,
}

impl Default for LabConfig {
    fn default() -> (config: LabConfig)
        ensures
            config.sampling.is_default(),
    {
        LabConfig { sampling: SamplingConfig::default() }
    }
}

/// `[lab.sampling]`
#[derive(Debug, Clone, Copy, PartialEq, Eq, Structural)]
pub struct SamplingConfig {
    pub record_positions_every_n_plies: u32,
    pub record_terminal_positions: bool,
    pub max_edges_per_position: usize,
    pub store_child_stats: bool,
    pub only_store_high_visit_edges: bool,
}

impl SamplingConfig {
    pub open spec fn is_default(&self) -> bool {
        &&& self.record_positions_every_n_plies == 2
        &&& self.record_terminal_positions
        &&& self.max_edges_per_position == 16
        &&& self.store_child_stats
        &&& !self.only_store_high_visit_edges
    }
}

impl Default for SamplingConfig {
    fn default() -> (config: SamplingConfig)
        ensures
            config.is_default(),
    {
        SamplingConfig {
            record_positions_every_n_plies: 2,
            record_terminal_positions: true,
            max_edges_per_position: 16,
            store_child_stats: true,
            only_store_high_visit_edges: false,
        }
    }
}

/// `[face]`
#[derive(Debug, Clone)]
pub struct FaceConfig {
    pub enabled: bool,
    pub provider: String,
    /// `cuda`, `cpu` or `auto`; resolved exactly once, at startup.
    pub device: DeviceRequestConfig,
    /// Which CUDA device, when there is more than one.
    pub device_index: usize,
    pub warm_on_start: bool,
    pub deadline_ms: u64,
    pub max_tokens: u32,
    pub max_queue_depth: usize,
    /// CPU path only; inert on CUDA.
    pub inference_threads: usize,
    pub min_interval_ms: u64,
    pub lab_mode_enabled: bool,
    pub fallback: String,
    pub verbosity: String,
    /// Two profiles, because the resolved device can change between boots.
    pub cuda_profile: ModelProfile,
    pub cpu_profile: ModelProfile,
    pub sampling: FaceSamplingConfig,
    pub circuit_breaker: CircuitBreakerConfig,
}

impl FaceConfig {
    pub open spec fn is_default(&self) -> bool {
        &&& self.enabled
        &&& self.provider@ == "candle"@
        &&& self.device == DeviceRequestConfig::Auto
        &&& self.device_index == 0
        &&& self.warm_on_start
        &&& self.deadline_ms == 2500
        &&& self.max_tokens == 80
        &&& self.max_queue_depth == 2
        &&& self.inference_threads == 2
        &&& self.min_interval_ms == 4000
        &&& !self.lab_mode_enabled
        &&& self.fallback@ == "canned"@
        &&& self.verbosity@ == "low"@
        &&& self.cuda_profile.is_cuda_default()
        &&& self.cpu_profile.is_cpu_default()
        &&& self.sampling.is_default()
        &&& self.circuit_breaker.is_default()
    }
}

impl Default for FaceConfig {
    fn default() -> (config: FaceConfig)
        ensures
            config.is_default(),
    {
        FaceConfig {
            enabled: true,
            provider: "candle".to_owned(),
            device: DeviceRequestConfig::Auto,
            device_index: 0,
            warm_on_start: true,
            deadline_ms: 2500,
            max_tokens: 80,
            max_queue_depth: 2,
            inference_threads: 2,
            min_interval_ms: 4000,
            lab_mode_enabled: false,
            fallback: "canned".to_owned(),
            verbosity: "low".to_owned(),
            cuda_profile: ModelProfile::cuda_defaults(),
            cpu_profile: ModelProfile::cpu_defaults(),
            sampling: FaceSamplingConfig::default(),
            circuit_breaker: CircuitBreakerConfig::default(),
        }
    }
}

#[derive(Debug, Clone, Copy, PartialEq, Eq, Structural)]
pub enum DeviceRequestConfig {
    /// CUDA where available, CPU otherwise. Never an error.
    Auto,
    Cpu,
    Cuda,
}

/// One device profile. Which one is live is decided by device selection.
#[derive(Debug, Clone)]
pub struct ModelProfile {
    pub model_path: String,
    pub tokenizer_path: String,
    pub model_id: String,
}

impl ModelProfile {
    pub open spec fn is_cuda_default(&self) -> bool {
        &&& self.model_path@ == "./models/qwen2.5-1.5b-instruct-q4_k_m.gguf"@
        &&& self.tokenizer_path@ == "./models/qwen2.5-1.5b-instruct/tokenizer.json"@
        &&& self.model_id@ == "qwen2.5-1.5b-instruct-q4_k_m"@
    }

    pub open spec fn is_cpu_default(&self) -> bool {
        &&& self.model_path@ == "./models/qwen2.5-0.5b-instruct-q4_k_m.gguf"@
        &&& self.tokenizer_path@ == "./models/qwen2.5-0.5b-instruct/tokenizer.json"@
        &&& self.model_id@ == "qwen2.5-0.5b-instruct-q4_k_m"@
    }

    /// The CUDA profile's files: the 1.5B model.
    pub fn cuda_defaults() -> (profile: ModelProfile)
        ensures
            profile.is_cuda_default(),
    {
        ModelProfile {
            model_path: "./models/qwen2.5-1.5b-instruct-q4_k_m.gguf".to_owned(),
            tokenizer_path: "./models/qwen2.5-1.5b-instruct/tokenizer.json".to_owned(),
            model_id: "qwen2.5-1.5b-instruct-q4_k_m".to_owned(),
        }
    }

    /// The CPU profile's files: the 0.5B model.
    pub fn cpu_defaults() -> (profile: ModelProfile)
        ensures
            profile.is_cpu_default(),
    {
        ModelProfile {
            model_path: "./models/qwen2.5-0.5b-instruct-q4_k_m.gguf".to_owned(),
            tokenizer_path: "./models/qwen2.5-0.5b-instruct/tokenizer.json".to_owned(),
            model_id: "qwen2.5-0.5b-instruct-q4_k_m".to_owned(),
        }
    }
}

impl Default for ModelProfile {
    fn default() -> (profile: ModelProfile)
        ensures
            profile.is_cpu_default(),
    {
        ModelProfile::cpu_defaults()
    }
}

/// `[face.sampling]`. The floating-point knobs are held as bit patterns.
#[derive(Debug, Clone, Copy, PartialEq, Eq, Structural)]
pub struct FaceSamplingConfig {
    /// `f64` bit pattern.
    pub temperature: u64,
    /// `f64` bit pattern.
    pub top_p: u64,
    /// `f32` bit pattern.
    pub repeat_penalty: u32,
    pub repeat_last_n: usize,
    /// `0` means per-request; non-zero means reproducible taunts.
    pub seed: u64,
}

impl FaceSamplingConfig {
    pub open spec fn is_default(&self) -> bool {
        &&& self.temperature == 0x3FE6_6666_6666_6666u64
        &&& self.top_p == 0x3FEC_CCCC_CCCC_CCCDu64
        &&& self.repeat_penalty == 0x3F8C_CCCDu32
        &&& self.repeat_last_n == 64
        &&& self.seed == 0
    }
}

impl Default for FaceSamplingConfig {
    /// Temperature 0.7, top-p 0.9, repeat penalty 1.1 over the last 64 tokens.
    fn default() -> (config: FaceSamplingConfig)
        ensures
            config.is_default(),
    {
        FaceSamplingConfig {
            temperature: 0x3FE6_6666_6666_6666,
            top_p: 0x3FEC_CCCC_CCCC_CCCD,
            repeat_penalty: 0x3F8C_CCCD,
            repeat_last_n: 64,
            seed: 0,
        }
    }
}

/// `[face.circuit_breaker]`: three failures amputate the Face layer for five
/// minutes.
#[derive(Debug, Clone, Copy, PartialEq, Eq, Structural)]
pub struct CircuitBreakerConfig {
    pub failure_threshold: u32,
    pub cooldown_seconds: u64,
    pub half_open_probes: u32,
}

impl CircuitBreakerConfig {
    pub open spec fn is_default(&self) -> bool {
        &&& self.failure_threshold == 3
        &&& self.cooldown_seconds == 300
        &&& self.half_open_probes == 1
    }
}

impl Default for CircuitBreakerConfig {
    fn default() -> (config: CircuitBreakerConfig)
        ensures
            config.is_default(),
    {
        CircuitBreakerConfig { failure_threshold: 3, cooldown_seconds: 300, half_open_probes: 1 }
    }
}

/// `[limits]`
#[derive(Debug, Clone, Copy, PartialEq, Eq, Structural)]
pub struct LimitsConfig {
    /// Host RAM ceiling, validated before the listener binds.
    pub max_total_memory_gb: u64,
    /// Device memory ceiling, validated before the model loads.
    pub max_vram_mb: u64,
}

impl LimitsConfig {
    pub open spec fn is_default(&self) -> bool {
        &&& self.max_total_memory_gb == 56
        &&& self.max_vram_mb == 4608
    }
}

impl Default for LimitsConfig {
    fn default() -> (config: LimitsConfig)
        ensures
            config.is_default(),
    {
        LimitsConfig { max_total_memory_gb: 56, max_vram_mb: 4608 }
    }
}

/// `[rules]`
#[derive(Debug, Clone, Copy, PartialEq, Eq, Structural)]
pub struct RulesConfig {
    pub draw: DrawConfig,
}

impl Default for RulesConfig {
    fn default() -> (config: RulesConfig)
        ensures
            config.draw.is_default(),
    {
        RulesConfig { draw: DrawConfig::default() }
    }
}

/// `[rules.draw]`: the draw policy. The defaults are the English-draughts
/// rules.
#[derive(Debug, Clone, Copy, PartialEq, Eq, Structural)]
pub struct DrawConfig {
    /// Plies without progress after which the game is drawn.
    pub non_progress_plies: u32,
    /// What counts as progress.
    pub non_progress_reset: NonProgressReset,
    /// Occurrences of one position that draw the game.
    pub repetition_count: u32,
    /// Plies looked back for repetitions; `0` means the whole game.
    pub repetition_window: u32,
}

impl DrawConfig {
    pub open spec fn is_default(&self) -> bool {
        &&& self.non_progress_plies == 80
        &&& self.non_progress_reset == NonProgressReset::CaptureOrManMove
        &&& self.repetition_count == 3
        &&& self.repetition_window == 0
    }
}

impl Default for DrawConfig {
    fn default() -> (config: DrawConfig)
        ensures
            config.is_default(),
    {
        DrawConfig {
            non_progress_plies: 80,
            non_progress_reset: NonProgressReset::CaptureOrManMove,
            repetition_count: 3,
            repetition_window: 0,
        }
    }
}

/// What resets the non-progress counter.
#[derive(Debug, Clone, Copy, PartialEq, Eq, Structural)]
pub enum NonProgressReset {
    /// A capture or a move by a man (the English-draughts rule).
    CaptureOrManMove,
    /// A capture only.
    Capture,
}

} // verus!
