//! What the Face layer resolved at startup, reported verbatim on `/health`.

use vstd::prelude::*;

use crate::config::Config;
use crate::face::device::{DeviceKind, DeviceRequest};

verus! {

/// A snapshot rather than re-derived per request: the device is resolved
/// exactly once, and a report that could disagree with the running
/// configuration would be worse than none.
#[derive(Clone, Debug)]
pub struct FaceStatus {
    pub enabled: bool,
    pub provider: &'static str,
    pub device_requested: DeviceRequest,
    pub device: DeviceKind,
    pub device_name: Option<String>,
    pub model_id: String,
    pub model_loaded: bool,
    pub resident_mb: u64,
    pub vram_used_mb: u64,
    /// `None` on the CPU path.
    pub vram_budget_mb: Option<u64>,
}

impl FaceStatus {
    /// A process that resolved to the CPU and loaded nothing: what is
    /// reported when no model file is present, a fully playable
    /// configuration.
    pub fn unloaded_cpu(config: &Config) -> (status: FaceStatus)
        ensures
            status.enabled == config.face.enabled,
            status.provider@ == "canned"@,
            status.device_requested == DeviceRequest::spec_from_config(
                config.face.device,
                config.face.device_index,
            ),
            status.device == DeviceKind::Cpu,
            status.device_name is None,
            status.model_id@ == config.face.cpu_profile.model_id@,
            !status.model_loaded,
            status.resident_mb == 0,
            status.vram_used_mb == 0,
            status.vram_budget_mb is None,
    {
        FaceStatus {
            enabled: config.face.enabled,
            provider: "canned",
            device_requested: DeviceRequest::from_config(config.face.device, config.face.device_index),
            device: DeviceKind::Cpu,
            device_name: None,
            model_id: config.face.cpu_profile.model_id.clone(),
            model_loaded: false,
            resident_mb: 0,
            vram_used_mb: 0,
            vram_budget_mb: None,
        }
    }
}

} // verus!
