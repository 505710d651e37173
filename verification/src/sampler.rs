//! Sampling one device of the telemetry provider.
//!
//! Every method of [`Sampler`] works in two steps. The provider is asked,
//! which no proof can reach; then a function that takes the answers as
//! values ([`reading`], [`resolve`], [`resolve_name`], [`resolve_fan_count`],
//! [`Sampler::connected`]) decides what they amount to, which is proved for
//! every answer the provider could give.

use nvml_wrapper::error::NvmlError;
use nvml_wrapper::{Device, Nvml};
use vstd::prelude::*;

use crate::provider;
use crate::snapshot::{
    assembled, outcome_view, Field, Readings, ReadingsView, SamplingError, Snapshot, SnapshotView,
};

verus! {

/// The largest memory size, in megabytes, that a snapshot can report.
pub const MAX_MEGABYTES: u64 = 0xFFF_FFFF_FFFF;

/// Whether the memory sizes of `snapshot` are ones that a byte count can
/// convert to.
pub open spec fn reportable(snapshot: Snapshot) -> bool {
    &&& snapshot.memory_used_mb <= MAX_MEGABYTES
    &&& snapshot.memory_total_mb <= MAX_MEGABYTES
}

/// Mathematical content of the readings of a device, where `None` stands for
/// a device that gave no readings at all.
pub open spec fn readings_view(readings: Option<Readings>) -> Option<ReadingsView> {
    match readings {
        Some(readings) => Some(readings@),
        None => None,
    }
}

/// The outcome of sampling the device at `device_index` of a provider that
/// has `device_count` devices, when that device answered `readings`.
///
/// An index that is not below the count finds no device, whatever the
/// readings; neither does a device that gave no readings. Otherwise the
/// readings decide.
pub open spec fn sampled(
    device_count: u32,
    device_index: u32,
    readings: Option<ReadingsView>,
) -> Result<SnapshotView, SamplingError> {
    if device_index >= device_count {
        Err(SamplingError::DeviceNotFound)
    } else {
        match readings {
            Some(readings) => assembled(readings),
            None => Err(SamplingError::DeviceNotFound),
        }
    }
}

/// Decides the outcome of a sample from what the provider answered:
/// `device_count` devices, and `readings` from the one at `device_index`
/// (`None` if it could not be reached).
pub fn resolve(device_count: u32, device_index: u32, readings: Option<Readings>) -> (outcome:
    Result<Snapshot, SamplingError>)
    ensures
        outcome_view(outcome) == sampled(device_count, device_index, readings_view(readings)),
{
    if device_index >= device_count {
        return Err(SamplingError::DeviceNotFound);
    }
    match readings {
        Some(readings) => Snapshot::from_readings(readings),
        None => Err(SamplingError::DeviceNotFound),
    }
}

/// What a query of the provider amounts to: the value it answered, or
/// nothing if the query failed. Why it failed plays no part.
pub fn reading<T>(answer: Result<T, NvmlError>) -> (value: Option<T>)
    ensures
        value == match answer {
            Ok(given) => Some(given),
            Err(_) => None,
        },
{
    match answer {
        Ok(given) => Some(given),
        Err(_) => None,
    }
}

/// Decides the outcome of asking a device for its name. `None` stands for a
/// device that could not be reached, `Some(None)` for one that was reached
/// and gave no name.
pub fn resolve_name(answer: Option<Option<String>>) -> (name: Result<String, SamplingError>)
    ensures
        match answer {
            Some(Some(text)) => name == Ok::<String, SamplingError>(text),
            Some(None) => name == Err::<String, SamplingError>(
                SamplingError::FieldUnavailable(Field::DeviceName),
            ),
            None => name == Err::<String, SamplingError>(SamplingError::DeviceNotFound),
        },
{
    match answer {
        Some(Some(text)) => Ok(text),
        Some(None) => Err(SamplingError::FieldUnavailable(Field::DeviceName)),
        None => Err(SamplingError::DeviceNotFound),
    }
}

/// Decides the number of fans to report. `None` stands for a device that
/// could not be reached, `Some(None)` for one that was reached and gave no
/// count; both count as no fans, since fan telemetry is optional.
pub fn resolve_fan_count(answer: Option<Option<u32>>) -> (count: u32)
    ensures
        count == match answer {
            Some(Some(fans)) => fans,
            _ => 0u32,
        },
{
    match answer {
        Some(Some(fans)) => fans,
        _ => 0,
    }
}

/// A connection to the telemetry provider.
pub struct Sampler {
    library: Nvml,
}

impl Sampler {
    /// Connects to the telemetry provider. Fails with `ProviderUnavailable`,
    /// and with nothing else, when the provider cannot be initialised.
    pub fn new() -> (sampler: Result<Sampler, SamplingError>)
        ensures
            sampler matches Err(error) ==> error == SamplingError::ProviderUnavailable,
    {
        Sampler::connected(provider::initialize())
    }

    /// The library that this sampler puts its queries to.
    pub closed spec fn library(&self) -> Nvml {
        self.library
    }

    /// Decides what an attempt to initialise the provider amounts to: a
    /// sampler on the library that came up, or `ProviderUnavailable` if none
    /// did.
    pub fn connected(attempt: Result<Nvml, NvmlError>) -> (sampler: Result<Sampler, SamplingError>)
        ensures
            match attempt {
                Ok(library) => sampler matches Ok(made) && made.library() == library,
                Err(_) => sampler matches Err(error) && error
                    == SamplingError::ProviderUnavailable,
            },
    {
        match attempt {
            Ok(library) => Ok(Sampler { library }),
            Err(_) => Err(SamplingError::ProviderUnavailable),
        }
    }

    /// The number of devices the provider reports, or `None` when it cannot
    /// tell.
    pub fn device_count(&self) -> (count: Option<u32>) {
        reading(provider::device_count(&self.library))
    }

    /// The name of the device at `device_index`.
    pub fn device_name(&self, device_index: u32) -> (name: Result<String, SamplingError>)
        ensures
            name matches Err(error) ==> error == SamplingError::DeviceNotFound || error
                == SamplingError::FieldUnavailable(Field::DeviceName),
    {
        let answer = match provider::device_by_index(&self.library, device_index) {
            Ok(device) => Some(reading(provider::device_name(&device))),
            Err(_) => None,
        };
        resolve_name(answer)
    }

    /// The number of fans of the device at `device_index`; 0 when the device
    /// or the number cannot be had, since fan telemetry is optional.
    pub fn fan_count(&self, device_index: u32) -> (count: u32) {
        let answer = match provider::device_by_index(&self.library, device_index) {
            Ok(device) => Some(reading(provider::fan_count(&device))),
            Err(_) => None,
        };
        resolve_fan_count(answer)
    }

    /// Samples the device at `device_index`, reading the speed of its fan at
    /// `fan_index`, given that the provider reported `device_count` devices.
    ///
    /// The provider is asked for the device only if the index is below the
    /// count. Whatever it answers, the outcome is the one that [`resolve`]
    /// gives for some readings.
    pub fn sample_among(&self, device_count: u32, device_index: u32, fan_index: u32) -> (outcome:
        Result<Snapshot, SamplingError>)
        ensures
            exists|readings: Option<ReadingsView>|
                outcome_view(outcome) == #[trigger] sampled(device_count, device_index, readings),
            device_index >= device_count ==> outcome_view(outcome) == Err::<
                SnapshotView,
                SamplingError,
            >(SamplingError::DeviceNotFound),
            outcome matches Ok(snapshot) ==> device_index < device_count && reportable(snapshot),
            outcome matches Err(error) ==> error != SamplingError::ProviderUnavailable,
    {
        let readings = if device_index < device_count {
            match provider::device_by_index(&self.library, device_index) {
                Ok(device) => Some(read_device(&device, fan_index)),
                Err(_) => None,
            }
        } else {
            None
        };
        resolve(device_count, device_index, readings)
    }

    /// Samples the device at `device_index`, reading the speed of its fan at
    /// `fan_index`. The provider is first asked how many devices it has; if
    /// it cannot tell, it is taken to have none.
    pub fn sample(&self, device_index: u32, fan_index: u32) -> (outcome: Result<
        Snapshot,
        SamplingError,
    >)
        ensures
            exists|device_count: u32, readings: Option<ReadingsView>|
                outcome_view(outcome) == #[trigger] sampled(device_count, device_index, readings),
            outcome matches Ok(snapshot) ==> reportable(snapshot),
            outcome matches Err(error) ==> error != SamplingError::ProviderUnavailable,
    {
        let device_count = match self.device_count() {
            Some(count) => count,
            None => 0,
        };
        self.sample_among(device_count, device_index, fan_index)
    }
}

/// Puts every query of one sample to `device`; a query that fails leaves its
/// field empty.
fn read_device(device: &Device, fan_index: u32) -> (readings: Readings) {
    Readings {
        device_name: reading(provider::device_name(device)),
        memory: reading(provider::memory_info(device)),
        temperature_c: reading(provider::temperature(device)),
        encoder_utilization_pct: reading(provider::encoder_utilization(device)),
        fan_speed_pct: reading(provider::fan_speed(device, fan_index)),
    }
}

/// A sample succeeds exactly when the device exists, answered, and gave
/// every required field; the fan speed is not among them.
pub proof fn lemma_sample_succeeds_iff(
    device_count: u32,
    device_index: u32,
    readings: Option<ReadingsView>,
)
    ensures
        sampled(device_count, device_index, readings) is Ok <==> {
            &&& device_index < device_count
            &&& readings matches Some(given)
            &&& given.device_name is Some
            &&& given.memory is Some
            &&& given.temperature_c is Some
            &&& given.encoder_utilization_pct is Some
        },
{
}

} // verus!
