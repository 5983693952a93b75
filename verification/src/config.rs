//! Decisions behind model configurations.
use vstd::prelude::*;

verus! {

/// The JSON that every new configuration is overlaid with: it makes the runtime use
/// model bytes that were added to the configuration directly, without a copy.
pub const MODEL_BYTES_OVERLAY: &'static str = "{\"session\": {\"use_ort_model_bytes_directly\": \"1\"}}";

/// Hardware device type used for execution-provider configuration.
#[derive(Debug, Clone, Copy, PartialEq, Eq, Structural)]
pub enum HardwareDeviceType {
    CPU,
    GPU,
    NPU,
}

/// The name under which the native library knows a hardware device type.
pub open spec fn hardware_device_type_name(t: HardwareDeviceType) -> Seq<char> {
    match t {
        HardwareDeviceType::CPU => "CPU"@,
        HardwareDeviceType::GPU => "GPU"@,
        HardwareDeviceType::NPU => "NPU"@,
    }
}

impl HardwareDeviceType {
    /// Returns the name handed to the native library for this device type.
    pub fn name(self) -> (s: &'static str)
        ensures
            s@ == hardware_device_type_name(self),
    {
        match self {
            HardwareDeviceType::CPU => "CPU",
            HardwareDeviceType::GPU => "GPU",
            HardwareDeviceType::NPU => "NPU",
        }
    }
}

/// Distinct device types have distinct names.
pub proof fn lemma_hardware_device_type_names_distinct(a: HardwareDeviceType, b: HardwareDeviceType)
    ensures
        a != b ==> hardware_device_type_name(a) != hardware_device_type_name(b),
{
    reveal_strlit("CPU");
    reveal_strlit("GPU");
    reveal_strlit("NPU");
    if a != b {
        assert(hardware_device_type_name(a)[0] != hardware_device_type_name(b)[0]);
    }
}

} // verus!
