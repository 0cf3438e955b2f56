//! Hardware acceleration devices and their names.
use vstd::prelude::*;

verus! {

/// Hardware acceleration device for ONNX Runtime inference.
///
/// - `Cpu`: CPU-only inference (the default, always available)
/// - `DirectML`: DirectML acceleration (Windows, DirectX 12 GPU)
/// - `Cuda`: CUDA acceleration (NVIDIA GPU)
/// - `OpenVINO`: Intel OpenVINO acceleration (Windows/Linux)
/// - `Nnapi`: Android NNAPI acceleration (Android)
/// - `Coreml`: Apple CoreML acceleration (macOS/iOS)
/// - `Cann`: Huawei CANN / Ascend NPU acceleration (Linux)
#[derive(Debug, Clone, Copy, PartialEq, Eq, Structural)]
pub enum AccelerationDevice {
    /// CPU-only inference (default, always available)
    Cpu,
    /// DirectML acceleration (Windows, DirectX 12 GPU)
    DirectML,
    /// CUDA acceleration (NVIDIA GPU)
    Cuda,
    /// Intel OpenVINO acceleration (Windows/Linux)
    OpenVINO,
    /// Android NNAPI acceleration (Android)
    Nnapi,
    /// Apple CoreML acceleration (macOS/iOS)
    Coreml,
    /// Huawei CANN / Ascend NPU acceleration (Linux)
    Cann,
}

/// The device that a lower-case device string names, if any.
pub open spec fn device_named(s: Seq<char>) -> Option<AccelerationDevice> {
    if s == "cpu"@ {
        Some(AccelerationDevice::Cpu)
    } else if s == "cuda"@ || s == "nvidia"@ {
        Some(AccelerationDevice::Cuda)
    } else if s == "directml"@ || s == "dml"@ {
        Some(AccelerationDevice::DirectML)
    } else if s == "openvino"@ || s == "open-vino"@ || s == "ov"@ {
        Some(AccelerationDevice::OpenVINO)
    } else if s == "nnapi"@ {
        Some(AccelerationDevice::Nnapi)
    } else if s == "coreml"@ || s == "apple"@ {
        Some(AccelerationDevice::Coreml)
    } else if s == "cann"@ || s == "ascend"@ || s == "huawei"@ {
        Some(AccelerationDevice::Cann)
    } else {
        None
    }
}

/// The human-readable name of a device.
pub open spec fn device_label(d: AccelerationDevice) -> Seq<char> {
    match d {
        AccelerationDevice::Cpu => "CPU"@,
        AccelerationDevice::DirectML => "DirectML"@,
        AccelerationDevice::Cuda => "CUDA"@,
        AccelerationDevice::OpenVINO => "OpenVINO"@,
        AccelerationDevice::Nnapi => "NNAPI"@,
        AccelerationDevice::Coreml => "CoreML"@,
        AccelerationDevice::Cann => "CANN"@,
    }
}

/// What `str::to_lowercase` returns for a string: its lower-case equivalent under
/// Unicode's `Lowercase` property.
pub uninterp spec fn unicode_lowercase(s: Seq<char>) -> Seq<char>;

/// Calls `str::to_lowercase`. Claimed: the result is `unicode_lowercase` of the
/// argument, that is, it depends on the argument's characters alone.
#[verifier::external_body]
fn str_to_lowercase(s: &str) -> (r: String)
    ensures
        r@ == unicode_lowercase(s@),
{
    s.to_lowercase()
}

/// Whether two string slices hold the same characters.
fn str_equals(a: &str, b: &str) -> (r: bool)
    ensures
        r == (a@ == b@),
{
    a.to_owned() == b.to_owned()
}

impl Default for AccelerationDevice {
    /// The default device is the CPU.
    fn default() -> (d: Self)
        ensures
            d == AccelerationDevice::Cpu,
    {
        AccelerationDevice::Cpu
    }
}

impl AccelerationDevice {
    /// Parse a device string (case-insensitive).
    ///
    /// Supported values: "cpu", "cuda"/"nvidia", "directml"/"dml",
    /// "openvino"/"open-vino"/"ov", "nnapi", "coreml"/"apple",
    /// "cann"/"ascend"/"huawei".
    pub fn from_str_loose(s: &str) -> (r: Option<Self>)
        ensures
            r == device_named(unicode_lowercase(s@)),
    {
        let lower = str_to_lowercase(s);
        Self::from_lowercase_name(lower.as_str())
    }

    /// Parse a device string that is already in lower case.
    pub fn from_lowercase_name(s: &str) -> (r: Option<Self>)
        ensures
            r == device_named(s@),
    {
        if str_equals(s, "cpu") {
            Some(AccelerationDevice::Cpu)
        } else if str_equals(s, "cuda") || str_equals(s, "nvidia") {
            Some(AccelerationDevice::Cuda)
        } else if str_equals(s, "directml") || str_equals(s, "dml") {
            Some(AccelerationDevice::DirectML)
        } else if str_equals(s, "openvino") || str_equals(s, "open-vino") || str_equals(s, "ov") {
            Some(AccelerationDevice::OpenVINO)
        } else if str_equals(s, "nnapi") {
            Some(AccelerationDevice::Nnapi)
        } else if str_equals(s, "coreml") || str_equals(s, "apple") {
            Some(AccelerationDevice::Coreml)
        } else if str_equals(s, "cann") || str_equals(s, "ascend") || str_equals(s, "huawei") {
            Some(AccelerationDevice::Cann)
        } else {
            None
        }
    }

    /// The device's human-readable name ("CPU", "DirectML", "CUDA", "OpenVINO",
    /// "NNAPI", "CoreML", "CANN").
    pub fn display_name(&self) -> (r: String)
        ensures
            r@ == device_label(*self),
    {
        match self {
            AccelerationDevice::Cpu => "CPU".to_owned(),
            AccelerationDevice::DirectML => "DirectML".to_owned(),
            AccelerationDevice::Cuda => "CUDA".to_owned(),
            AccelerationDevice::OpenVINO => "OpenVINO".to_owned(),
            AccelerationDevice::Nnapi => "NNAPI".to_owned(),
            AccelerationDevice::Coreml => "CoreML".to_owned(),
            AccelerationDevice::Cann => "CANN".to_owned(),
        }
    }
}

} // verus!
