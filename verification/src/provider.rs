//! The calls into NVML. Nothing in this module is proved: each function
//! hands one query to the `nvml_wrapper` crate, and what comes back depends
//! on the driver and the hardware, so no contract promises a value.

use nvml_wrapper::enum_wrappers::device::TemperatureSensor;
use nvml_wrapper::error::NvmlError;
use nvml_wrapper::{Device, Nvml};
use vstd::prelude::*;

use crate::snapshot::MemoryReading;

verus! {

/// `nvml_wrapper::Nvml`, the initialised library. Opaque to the verifier.
#[verifier::external_type_specification]
#[verifier::external_body]
pub struct ExNvml(nvml_wrapper::Nvml);

/// `nvml_wrapper::Device`, the handle of one device, borrowed from the
/// library it was obtained from. Opaque to the verifier.
#[verifier::external_type_specification]
#[verifier::external_body]
pub struct ExDevice<'nvml>(nvml_wrapper::Device<'nvml>);

/// `nvml_wrapper::error::NvmlError`. Opaque to the verifier: the library only
/// distinguishes success from failure.
#[verifier::external_type_specification]
#[verifier::external_body]
pub struct ExNvmlError(nvml_wrapper::error::NvmlError);

/// Calls `Nvml::init`, which loads the NVML shared library and initialises
/// it. Whether that succeeds depends on the machine; nothing is claimed.
#[verifier::external_body]
pub(crate) fn initialize() -> (library: Result<Nvml, NvmlError>) {
    Nvml::init()
}

/// Calls `Nvml::device_count`. Nothing is claimed of the count.
#[verifier::external_body]
pub(crate) fn device_count(library: &Nvml) -> (count: Result<u32, NvmlError>) {
    library.device_count()
}

/// Calls `Nvml::device_by_index`. Nothing is claimed of the outcome; NVML
/// itself rejects an index it has no device for.
#[verifier::external_body]
pub(crate) fn device_by_index<'nvml>(library: &'nvml Nvml, index: u32) -> (device: Result<
    Device<'nvml>,
    NvmlError,
>) {
    library.device_by_index(index)
}

/// Calls `Device::name`. Nothing is claimed of the text.
#[verifier::external_body]
pub(crate) fn device_name(device: &Device) -> (name: Result<String, NvmlError>) {
    device.name()
}

/// Calls `Device::memory_info` and keeps the `used` and `total` fields of
/// the answer, both in bytes. Nothing is claimed of the numbers.
#[verifier::external_body]
pub(crate) fn memory_info(device: &Device) -> (memory: Result<MemoryReading, NvmlError>) {
    device.memory_info().map(|info| MemoryReading { used_bytes: info.used, total_bytes: info.total })
}

/// Calls `Device::temperature` for the sensor on the GPU die, the only
/// sensor NVML has. Nothing is claimed of the reading.
#[verifier::external_body]
pub(crate) fn temperature(device: &Device) -> (celsius: Result<u32, NvmlError>) {
    device.temperature(TemperatureSensor::Gpu)
}

/// Calls `Device::encoder_utilization` and keeps the `utilization` field of
/// the answer. Nothing is claimed of the number.
#[verifier::external_body]
pub(crate) fn encoder_utilization(device: &Device) -> (percent: Result<u32, NvmlError>) {
    device.encoder_utilization().map(|info| info.utilization)
}

/// Calls `Device::fan_speed` for the fan at `fan_index`. Nothing is claimed
/// of the speed.
#[verifier::external_body]
pub(crate) fn fan_speed(device: &Device, fan_index: u32) -> (percent: Result<u32, NvmlError>) {
    device.fan_speed(fan_index)
}

/// Calls `Device::num_fans`. Nothing is claimed of the count.
#[verifier::external_body]
pub(crate) fn fan_count(device: &Device) -> (count: Result<u32, NvmlError>) {
    device.num_fans()
}

} // verus!
