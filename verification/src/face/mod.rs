//! The commentary ("Face") layer: optional banter that never plays.
//!
//! [`CommentaryContext`] is the whole of what the layer is ever given, and
//! there is no move in it. The engine is authoritative and this layer is
//! optional: a game played entirely on canned lines is a fully valid game.

pub mod breaker;
pub mod candle_adapter;
pub mod canned;
pub mod prompt;
pub mod sanitize;
pub mod service;
pub mod device;
pub mod text;

pub use breaker::{Admission, CircuitBreaker, CircuitState, MonotonicClock, SystemClock};
pub use canned::CannedFaceAdapter;
pub use device::{select_device, DeviceKind, DeviceRequest};

use vstd::prelude::*;

use crate::rules::board::Side;

verus! {

#[derive(Clone, Copy, PartialEq, Eq, Hash, Debug, Structural)]
pub enum CommentaryEvent {
    GameStart,
    HumanMove,
    CpuMove,
    Capture,
    MultiCapture,
    Promotion,
    Win,
    Loss,
    Draw,
    IdleTaunt,
}

impl CommentaryEvent {
    /// Every variant, so that a coverage check cannot go stale when one is
    /// added.
    pub const ALL: [CommentaryEvent; 10] = [
        CommentaryEvent::GameStart,
        CommentaryEvent::HumanMove,
        CommentaryEvent::CpuMove,
        CommentaryEvent::Capture,
        CommentaryEvent::MultiCapture,
        CommentaryEvent::Promotion,
        CommentaryEvent::Win,
        CommentaryEvent::Loss,
        CommentaryEvent::Draw,
        CommentaryEvent::IdleTaunt,
    ];
}

#[derive(Clone, Copy, PartialEq, Eq, Hash, Debug, Structural)]
pub enum Tone {
    Neutral,
    Playful,
    Sarcastic,
    Competitive,
}

impl Tone {
    pub const ALL: [Tone; 4] = [Tone::Neutral, Tone::Playful, Tone::Sarcastic, Tone::Competitive];
}

#[derive(Clone, Copy, PartialEq, Eq, Debug, Structural)]
pub enum GameStatusSummary {
    Ongoing,
    HumanWon,
    CpuWon,
    Drawn,
}

/// Everything the Face layer is permitted to know.
///
/// There is no move, no square index, no legal-move list, no search statistic
/// and no handle to anything that could produce one.
#[derive(Clone, Copy, Debug)]
pub struct CommentaryContext {
    pub event: CommentaryEvent,
    pub tone: Tone,
    pub ply: u32,
    pub side_to_move: Side,
    pub material_difference: i32,
    pub game_status: GameStatusSummary,
    pub max_tokens: u32,
}

/// A generated (or canned) line, plus how it was produced.
#[derive(Clone, Debug)]
pub struct Commentary {
    pub text: String,
    pub provider: &'static str,
    pub fallback_used: bool,
    /// `None` when the primary adapter produced the line.
    pub fallback_reason: Option<FallbackReason>,
    pub circuit_state: CircuitState,
    pub latency_ms: u64,
    pub token_count: u32,
}

/// The persisted `face_events.fallback_reason` values.
#[derive(Clone, Copy, PartialEq, Eq, Debug, Structural)]
pub enum FallbackReason {
    CircuitOpen,
    Timeout,
    InferenceError,
    Saturated,
    ModelNotLoaded,
    EmptyOutput,
    Disabled,
    RateLimited,
}

impl FallbackReason {
    pub open spec fn spec_as_str(self) -> Seq<char> {
        match self {
            FallbackReason::CircuitOpen => "circuit_open"@,
            FallbackReason::Timeout => "timeout"@,
            FallbackReason::InferenceError => "inference_error"@,
            FallbackReason::Saturated => "saturated"@,
            FallbackReason::ModelNotLoaded => "model_not_loaded"@,
            FallbackReason::EmptyOutput => "empty_output"@,
            FallbackReason::Disabled => "disabled"@,
            FallbackReason::RateLimited => "rate_limited"@,
        }
    }

    pub fn as_str(self) -> (text: &'static str)
        ensures
            text@ == self.spec_as_str(),
    {
        match self {
            FallbackReason::CircuitOpen => "circuit_open",
            FallbackReason::Timeout => "timeout",
            FallbackReason::InferenceError => "inference_error",
            FallbackReason::Saturated => "saturated",
            FallbackReason::ModelNotLoaded => "model_not_loaded",
            FallbackReason::EmptyOutput => "empty_output",
            FallbackReason::Disabled => "disabled",
            FallbackReason::RateLimited => "rate_limited",
        }
    }
}

#[derive(Debug)]
pub enum FaceError {
    Timeout,
    Inference(String),
    ModelNotLoaded,
    Saturated,
    Disabled,
    EmptyOutput,
    ModelArchitectureMissing,
    UnsupportedArchitecture { architecture: String },
    Tokenizer(String),
}

impl FaceError {
    /// Whether the error is a fault of the model. Saturation is expected
    /// backpressure and a disabled layer is not consulted at all; counting
    /// either would trip the breaker under exactly the load it exists for.
    pub open spec fn spec_counts_toward_trip(&self) -> bool {
        !(self is Saturated || self is Disabled)
    }

    pub fn counts_toward_trip(&self) -> (counts: bool)
        ensures
            counts == self.spec_counts_toward_trip(),
    {
        match self {
            FaceError::Saturated => false,
            FaceError::Disabled => false,
            _ => true,
        }
    }

    pub open spec fn spec_fallback_reason(&self) -> FallbackReason {
        match self {
            FaceError::Timeout => FallbackReason::Timeout,
            FaceError::Saturated => FallbackReason::Saturated,
            FaceError::Disabled => FallbackReason::Disabled,
            FaceError::EmptyOutput => FallbackReason::EmptyOutput,
            FaceError::ModelNotLoaded => FallbackReason::ModelNotLoaded,
            FaceError::ModelArchitectureMissing => FallbackReason::ModelNotLoaded,
            FaceError::UnsupportedArchitecture { .. } => FallbackReason::ModelNotLoaded,
            FaceError::Inference(_) => FallbackReason::InferenceError,
            FaceError::Tokenizer(_) => FallbackReason::InferenceError,
        }
    }

    pub fn fallback_reason(&self) -> (reason: FallbackReason)
        ensures
            reason == self.spec_fallback_reason(),
    {
        match self {
            FaceError::Timeout => FallbackReason::Timeout,
            FaceError::Saturated => FallbackReason::Saturated,
            FaceError::Disabled => FallbackReason::Disabled,
            FaceError::EmptyOutput => FallbackReason::EmptyOutput,
            FaceError::ModelNotLoaded => FallbackReason::ModelNotLoaded,
            FaceError::ModelArchitectureMissing => FallbackReason::ModelNotLoaded,
            FaceError::UnsupportedArchitecture { .. } => FallbackReason::ModelNotLoaded,
            FaceError::Inference(_) => FallbackReason::InferenceError,
            FaceError::Tokenizer(_) => FallbackReason::InferenceError,
        }
    }

    pub open spec fn spec_message(&self) -> Seq<char> {
        match self {
            FaceError::Timeout => "commentary deadline exceeded"@,
            FaceError::Inference(detail) => "inference failed: "@ + detail@,
            FaceError::ModelNotLoaded => "no model is loaded"@,
            FaceError::Saturated => "the commentary queue is full"@,
            FaceError::Disabled => "the Face layer is disabled in configuration"@,
            FaceError::EmptyOutput => "the model produced nothing usable after sanitization"@,
            FaceError::ModelArchitectureMissing => "the GGUF file declares no model architecture"@,
            FaceError::UnsupportedArchitecture { architecture } => "unsupported model architecture: "@
                + architecture@,
            FaceError::Tokenizer(detail) => "tokenizer error: "@ + detail@,
        }
    }

    /// The human-readable description of the error.
    pub fn message(&self) -> (text: String)
        ensures
            text@ == self.spec_message(),
    {
        match self {
            FaceError::Timeout => "commentary deadline exceeded".to_owned(),
            FaceError::Inference(detail) => {
                let mut text = "inference failed: ".to_owned();
                text.append(detail.as_str());
                text
            },
            FaceError::ModelNotLoaded => "no model is loaded".to_owned(),
            FaceError::Saturated => "the commentary queue is full".to_owned(),
            FaceError::Disabled => "the Face layer is disabled in configuration".to_owned(),
            FaceError::EmptyOutput => "the model produced nothing usable after sanitization".to_owned(),
            FaceError::ModelArchitectureMissing => "the GGUF file declares no model architecture".to_owned(),
            FaceError::UnsupportedArchitecture { architecture } => {
                let mut text = "unsupported model architecture: ".to_owned();
                text.append(architecture.as_str());
                text
            },
            FaceError::Tokenizer(detail) => {
                let mut text = "tokenizer error: ".to_owned();
                text.append(detail.as_str());
                text
            },
        }
    }
}

} // verus!
