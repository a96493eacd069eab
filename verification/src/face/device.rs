//! Device selection for the inference runtime.
//!
//! `candle_core::Device` is constructed in exactly one function,
//! [`select_device`]. A GPU that is not there is not an error: every request
//! resolves to a device.

use vstd::prelude::*;

use candle_core::Device;

use crate::config::DeviceRequestConfig;

verus! {

#[verifier::external_type_specification]
#[verifier::external_body]
pub struct ExDevice(Device);

/// `candle_core::Device::Cpu`. Nothing is claimed of the value beyond its
/// construction, which cannot fail.
#[verifier::external_body]
fn cpu_device() -> Device {
    Device::Cpu
}

/// What was actually resolved, reported beside what was requested.
#[derive(Clone, Copy, PartialEq, Eq, Debug, Structural)]
pub enum DeviceKind {
    Cpu,
    Cuda { ordinal: usize },
}

impl DeviceKind {
    /// Whether `text` is the health report's `device` field for this device:
    /// `cpu`, or `cuda:` followed by the ordinal in decimal.
    pub open spec fn names_device(self, text: Seq<char>) -> bool {
        match self {
            DeviceKind::Cpu => text == "cpu"@,
            DeviceKind::Cuda { ordinal } => exists|digits: String|
                text == "cuda:"@ + digits@ && vstd::string::to_string_from_display_ensures::<
                    usize,
                >(&ordinal, digits),
        }
    }

    pub open spec fn spec_profile_name(self) -> Seq<char> {
        match self {
            DeviceKind::Cpu => "cpu_profile"@,
            DeviceKind::Cuda { .. } => "cuda_profile"@,
        }
    }

    /// The health report's `device` field: `cpu` or `cuda:<ordinal>`.
    pub fn as_health_string(self) -> (text: String)
        ensures
            self.names_device(text@),
    {
        match self {
            DeviceKind::Cpu => "cpu".to_owned(),
            DeviceKind::Cuda { ordinal } => {
                let digits = ordinal.to_string();
                let mut text = "cuda:".to_owned();
                text.append(digits.as_str());
                text
            },
        }
    }

    /// Which `[face.*_profile]` section is live on this device.
    pub fn profile_name(self) -> (name: &'static str)
        ensures
            name@ == self.spec_profile_name(),
    {
        match self {
            DeviceKind::Cpu => "cpu_profile",
            DeviceKind::Cuda { .. } => "cuda_profile",
        }
    }

    pub fn is_cuda(self) -> (cuda: bool)
        ensures
            cuda == (self is Cuda),
    {
        match self {
            DeviceKind::Cpu => false,
            DeviceKind::Cuda { .. } => true,
        }
    }
}

#[derive(Clone, Copy, PartialEq, Eq, Debug, Structural)]
pub enum DeviceRequest {
    /// Never use the device, even where one exists.
    Cpu,
    /// CUDA where available, CPU otherwise. The default.
    Auto,
    /// CUDA specifically; still falls back rather than failing.
    Cuda { ordinal: usize },
}

impl DeviceRequest {
    pub open spec fn spec_from_config(request: DeviceRequestConfig, device_index: usize) -> DeviceRequest {
        match request {
            DeviceRequestConfig::Cpu => DeviceRequest::Cpu,
            DeviceRequestConfig::Auto => DeviceRequest::Auto,
            DeviceRequestConfig::Cuda => DeviceRequest::Cuda { ordinal: device_index },
        }
    }

    pub fn from_config(request: DeviceRequestConfig, device_index: usize) -> (resolved:
        DeviceRequest)
        ensures
            resolved == DeviceRequest::spec_from_config(request, device_index),
    {
        match request {
            DeviceRequestConfig::Cpu => DeviceRequest::Cpu,
            DeviceRequestConfig::Auto => DeviceRequest::Auto,
            DeviceRequestConfig::Cuda => DeviceRequest::Cuda { ordinal: device_index },
        }
    }

    pub fn ordinal(self) -> (ordinal: Option<usize>)
        ensures
            ordinal == (match self {
                DeviceRequest::Cuda { ordinal } => Some(ordinal),
                _ => None,
            }),
    {
        match self {
            DeviceRequest::Cuda { ordinal } => Some(ordinal),
            DeviceRequest::Cpu | DeviceRequest::Auto => None,
        }
    }

    pub open spec fn spec_health_string(self) -> Seq<char> {
        match self {
            DeviceRequest::Cpu => "cpu"@,
            DeviceRequest::Auto => "auto"@,
            DeviceRequest::Cuda { .. } => "cuda"@,
        }
    }

    /// The health report's `device_requested` field.
    pub fn as_health_string(self) -> (text: &'static str)
        ensures
            text@ == self.spec_health_string(),
    {
        match self {
            DeviceRequest::Cpu => "cpu",
            DeviceRequest::Auto => "auto",
            DeviceRequest::Cuda { .. } => "cuda",
        }
    }
}

/// Resolve the inference device, exactly once, at startup.
///
/// This build carries no CUDA support, so every request is honoured as far
/// as it can be: on the CPU. The only function permitted to construct a
/// `Device`.
pub fn select_device(request: DeviceRequest) -> (resolved: (Device, DeviceKind))
    ensures
        resolved.1 == DeviceKind::Cpu,
{
    match request {
        DeviceRequest::Cpu => (cpu_device(), DeviceKind::Cpu),
        DeviceRequest::Auto | DeviceRequest::Cuda { .. } => (cpu_device(), DeviceKind::Cpu),
    }
}

/// A configured device request keeps its kind: `cpu` resolves to the request
/// that never uses the device, and only `cpu` does; `auto` to automatic
/// selection, and only `auto` does; `cuda` to CUDA on the configured device
/// index. The health report therefore names the request as it was
/// configured.
pub proof fn law_a_configured_request_keeps_its_kind(
    request: DeviceRequestConfig,
    device_index: usize,
)
    ensures
        (DeviceRequest::spec_from_config(request, device_index) == DeviceRequest::Cpu) <==> (request
            == DeviceRequestConfig::Cpu),
        (DeviceRequest::spec_from_config(request, device_index) == DeviceRequest::Auto) <==> (request
            == DeviceRequestConfig::Auto),
        request == DeviceRequestConfig::Cuda ==> DeviceRequest::spec_from_config(request, device_index)
            == (DeviceRequest::Cuda { ordinal: device_index }),
        DeviceRequest::spec_from_config(request, device_index).spec_health_string() == (match request {
            DeviceRequestConfig::Cpu => "cpu"@,
            DeviceRequestConfig::Auto => "auto"@,
            DeviceRequestConfig::Cuda => "cuda"@,
        }),
{
}

} // verus!
