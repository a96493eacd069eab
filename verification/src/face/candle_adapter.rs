//! The in-process inference runtime's surface.
//!
//! The `Device` arrives here as a parameter: it is constructed once, in
//! [`super::device::select_device`], and never rebuilt.

use vstd::prelude::*;

use candle_core::Device;

use super::device::DeviceKind;
use super::FaceError;
use crate::config::ModelProfile;

verus! {

/// Sampling parameters, resolved once from `[face.sampling]`. The
/// floating-point knobs are held as bit patterns.
#[derive(Clone, Copy, Debug)]
pub struct SamplingParams {
    /// `f64` bit pattern.
    pub temperature: u64,
    /// `f64` bit pattern.
    pub top_p: u64,
    /// `f32` bit pattern.
    pub repeat_penalty: u32,
    pub repeat_last_n: usize,
    /// `0` means "draw a fresh seed per request".
    pub seed: u64,
}

/// Hard budgets, enforced by the runtime rather than trusted to the model.
#[derive(Clone, Copy, Debug)]
pub struct InferenceBudget {
    pub max_tokens: u32,
    pub deadline_ms: u64,
    pub max_queue_depth: usize,
}

/// Which quantized architectures this build can load. A GGUF that declares
/// anything else is a startup error naming the architecture.
#[derive(Clone, Copy, PartialEq, Eq, Debug, Structural)]
pub enum Architecture {
    Qwen2,
    Llama,
}

impl Architecture {
    pub fn from_gguf_name(name: &str) -> (architecture: Result<Architecture, FaceError>)
        ensures
            name@ == "qwen2"@ ==> (architecture matches Ok(Architecture::Qwen2)),
            name@ == "llama"@ ==> (architecture matches Ok(Architecture::Llama)),
            (name@ != "qwen2"@ && name@ != "llama"@) ==> (architecture matches Err(
                FaceError::UnsupportedArchitecture { architecture: named },
            ) && named@ == name@),
    {
        proof {
            reveal_strlit("qwen2");
            reveal_strlit("llama");
            assert("qwen2"@[0] != "llama"@[0]);
        }
        let owned = name.to_owned();
        if owned == "qwen2".to_owned() {
            Ok(Architecture::Qwen2)
        } else if owned == "llama".to_owned() {
            Ok(Architecture::Llama)
        } else {
            Err(FaceError::UnsupportedArchitecture { architecture: owned })
        }
    }
}

/// Owns the loaded model and serializes every inference request through it.
/// Never constructs a `Device`.
pub struct InferenceRuntime {
    device: Device,
    device_kind: DeviceKind,
    profile: ModelProfile,
    sampling: SamplingParams,
    budget: InferenceBudget,
}

impl InferenceRuntime {
    pub closed spec fn spec_device(&self) -> Device {
        self.device
    }

    pub closed spec fn spec_device_kind(&self) -> DeviceKind {
        self.device_kind
    }

    pub closed spec fn spec_model_id(&self) -> Seq<char> {
        self.profile.model_id@
    }

    pub closed spec fn spec_budget(&self) -> InferenceBudget {
        self.budget
    }

    pub closed spec fn spec_sampling(&self) -> SamplingParams {
        self.sampling
    }

    /// The device this runtime was loaded onto. Borrowed, never rebuilt.
    pub fn device(&self) -> (device: &Device)
        ensures
            *device == self.spec_device(),
    {
        &self.device
    }

    pub fn device_kind(&self) -> (kind: DeviceKind)
        ensures
            kind == self.spec_device_kind(),
    {
        self.device_kind
    }

    pub fn model_id(&self) -> (id: &str)
        ensures
            id@ == self.spec_model_id(),
    {
        self.profile.model_id.as_str()
    }

    pub fn budget(&self) -> (budget: InferenceBudget)
        ensures
            budget == self.spec_budget(),
    {
        self.budget
    }

    pub fn sampling(&self) -> (sampling: SamplingParams)
        ensures
            sampling == self.spec_sampling(),
    {
        self.sampling
    }

    /// Device memory in use: none on the CPU path, where the weights live in
    /// host memory.
    pub fn vram_used_mb(&self) -> (mb: u64)
        requires
            self.spec_device_kind() is Cpu,
        ensures
            mb == 0,
    {
        0
    }
}

pub struct CandleFaceAdapter {
    runtime: Option<InferenceRuntime>,
}

impl CandleFaceAdapter {
    pub closed spec fn spec_model_loaded(&self) -> bool {
        self.runtime is Some
    }

    pub fn new(runtime: Option<InferenceRuntime>) -> (adapter: CandleFaceAdapter)
        ensures
            adapter.spec_model_loaded() == (runtime is Some),
    {
        CandleFaceAdapter { runtime }
    }

    /// A model that never loaded: the circuit opens permanently and a complete
    /// game is still playable on canned lines.
    pub fn unloaded() -> (adapter: CandleFaceAdapter)
        ensures
            !adapter.spec_model_loaded(),
    {
        CandleFaceAdapter { runtime: None }
    }

    pub fn runtime(&self) -> (runtime: Option<&InferenceRuntime>)
        ensures
            runtime is Some == self.spec_model_loaded(),
    {
        match &self.runtime {
            Some(runtime) => Some(runtime),
            None => None,
        }
    }

    pub fn model_loaded(&self) -> (loaded: bool)
        ensures
            loaded == self.spec_model_loaded(),
    {
        self.runtime.is_some()
    }

    /// The adapter's answer before any inference: with no model loaded,
    /// commentary fails at once with an error the breaker counts, rather than
    /// hanging.
    pub fn readiness(&self) -> (ready: Result<(), FaceError>)
        ensures
            self.spec_model_loaded() ==> ready is Ok,
            !self.spec_model_loaded() ==> ready matches Err(FaceError::ModelNotLoaded),
    {
        if self.runtime.is_none() {
            return Err(FaceError::ModelNotLoaded);
        }
        Ok(())
    }
}

} // verus!
