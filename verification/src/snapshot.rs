//! One telemetry read of one device, and the rules that build it from the
//! raw readings.

use vstd::prelude::*;

verus! {

/// Number of bytes in the megabyte that memory sizes are reported in.
pub const BYTES_PER_MEGABYTE: u64 = 1_048_576;

/// A telemetry field that a snapshot cannot do without.
#[derive(Debug, Clone, Copy, PartialEq, Eq, Structural)]
pub enum Field {
    DeviceName,
    MemoryInfo,
    Temperature,
    EncoderUtilization,
}

/// Why no snapshot could be produced.
#[derive(Debug, Clone, Copy, PartialEq, Eq, Structural)]
pub enum SamplingError {
    /// The telemetry provider could not be initialised: no compatible
    /// driver or device is present.
    ProviderUnavailable,
    /// The provider has no device at the requested index.
    DeviceNotFound,
    /// A required field could not be read from the device.
    FieldUnavailable(Field),
}

/// Memory usage of a device as the provider reports it, in bytes.
#[derive(Debug, Clone, Copy, PartialEq, Eq, Structural)]
pub struct MemoryReading {
    pub used_bytes: u64,
    pub total_bytes: u64,
}

/// What the provider answered for each field of one device. `None` stands
/// for a query that failed.
#[derive(Debug, Clone, PartialEq, Eq)]
pub struct Readings {
    pub device_name: Option<String>,
    pub memory: Option<MemoryReading>,
    pub temperature_c: Option<u32>,
    pub encoder_utilization_pct: Option<u32>,
    pub fan_speed_pct: Option<u32>,
}

/// Mathematical content of [`Readings`].
pub ghost struct ReadingsView {
    pub device_name: Option<Seq<char>>,
    pub memory: Option<MemoryReading>,
    pub temperature_c: Option<u32>,
    pub encoder_utilization_pct: Option<u32>,
    pub fan_speed_pct: Option<u32>,
}

impl View for Readings {
    type V = ReadingsView;

    open spec fn view(&self) -> ReadingsView {
        ReadingsView {
            device_name: match self.device_name {
                Some(name) => Some(name@),
                None => None,
            },
            memory: self.memory,
            temperature_c: self.temperature_c,
            encoder_utilization_pct: self.encoder_utilization_pct,
            fan_speed_pct: self.fan_speed_pct,
        }
    }
}

/// The state of one device at one point in time, in display units.
#[derive(Debug, Clone, PartialEq, Eq)]
pub struct Snapshot {
    pub device_name: String,
    pub memory_used_mb: u64,
    pub memory_total_mb: u64,
    pub temperature_c: u32,
    pub encoder_utilization_pct: u32,
    pub fan_speed_pct: u32,
}

/// Mathematical content of a [`Snapshot`].
pub ghost struct SnapshotView {
    pub device_name: Seq<char>,
    pub memory_used_mb: u64,
    pub memory_total_mb: u64,
    pub temperature_c: u32,
    pub encoder_utilization_pct: u32,
    pub fan_speed_pct: u32,
}

impl View for Snapshot {
    type V = SnapshotView;

    open spec fn view(&self) -> SnapshotView {
        SnapshotView {
            device_name: self.device_name@,
            memory_used_mb: self.memory_used_mb,
            memory_total_mb: self.memory_total_mb,
            temperature_c: self.temperature_c,
            encoder_utilization_pct: self.encoder_utilization_pct,
            fan_speed_pct: self.fan_speed_pct,
        }
    }
}

/// Whole megabytes in `bytes`; a remainder is dropped.
pub open spec fn megabytes_of(bytes: u64) -> u64 {
    (bytes / BYTES_PER_MEGABYTE) as u64
}

/// The first required field that `readings` lacks, in the order name,
/// memory, temperature, encoder utilization. The fan speed is optional and
/// never counts as missing.
pub open spec fn first_missing(readings: ReadingsView) -> Option<Field> {
    if readings.device_name is None {
        Some(Field::DeviceName)
    } else if readings.memory is None {
        Some(Field::MemoryInfo)
    } else if readings.temperature_c is None {
        Some(Field::Temperature)
    } else if readings.encoder_utilization_pct is None {
        Some(Field::EncoderUtilization)
    } else {
        None
    }
}

/// The fan speed to report: the reading, or 0 when the device gave none.
pub open spec fn fan_speed_or_default(reading: Option<u32>) -> u32 {
    match reading {
        Some(speed) => speed,
        None => 0,
    }
}

/// The snapshot that `readings` amount to: an error naming the first missing
/// required field, or else every reading in display units.
pub open spec fn assembled(readings: ReadingsView) -> Result<SnapshotView, SamplingError> {
    match first_missing(readings) {
        Some(field) => Err(SamplingError::FieldUnavailable(field)),
        None => Ok(
            SnapshotView {
                device_name: readings.device_name->0,
                memory_used_mb: megabytes_of(readings.memory->0.used_bytes),
                memory_total_mb: megabytes_of(readings.memory->0.total_bytes),
                temperature_c: readings.temperature_c->0,
                encoder_utilization_pct: readings.encoder_utilization_pct->0,
                fan_speed_pct: fan_speed_or_default(readings.fan_speed_pct),
            },
        ),
    }
}

/// Mathematical content of a sampling outcome.
pub open spec fn outcome_view(outcome: Result<Snapshot, SamplingError>) -> Result<
    SnapshotView,
    SamplingError,
> {
    match outcome {
        Ok(snapshot) => Ok(snapshot@),
        Err(error) => Err(error),
    }
}

/// Converts a size in bytes to whole megabytes, truncating.
pub fn bytes_to_megabytes(bytes: u64) -> (megabytes: u64)
    ensures
        megabytes == megabytes_of(bytes),
        megabytes == bytes / 1_048_576,
{
    bytes / BYTES_PER_MEGABYTE
}

impl Field {
    /// The name of the field as spelled in a snapshot.
    pub open spec fn spec_name(self) -> Seq<char> {
        match self {
            Field::DeviceName => "device_name"@,
            Field::MemoryInfo => "memory_info"@,
            Field::Temperature => "temperature"@,
            Field::EncoderUtilization => "encoder_utilization"@,
        }
    }

    /// The name of the field as spelled in a snapshot.
    pub fn name(self) -> (text: &'static str)
        ensures
            text@ == self.spec_name(),
    {
        match self {
            Field::DeviceName => "device_name",
            Field::MemoryInfo => "memory_info",
            Field::Temperature => "temperature",
            Field::EncoderUtilization => "encoder_utilization",
        }
    }
}

impl Snapshot {
    /// Builds the snapshot from what the provider answered. A missing
    /// required field is an error, reported for the first such field; a
    /// missing fan speed is reported as 0.
    pub fn from_readings(readings: Readings) -> (outcome: Result<Snapshot, SamplingError>)
        ensures
            outcome_view(outcome) == assembled(readings@),
    {
        let device_name = match readings.device_name {
            Some(name) => name,
            None => {
                return Err(SamplingError::FieldUnavailable(Field::DeviceName));
            },
        };
        let memory = match readings.memory {
            Some(memory) => memory,
            None => {
                return Err(SamplingError::FieldUnavailable(Field::MemoryInfo));
            },
        };
        let temperature_c = match readings.temperature_c {
            Some(celsius) => celsius,
            None => {
                return Err(SamplingError::FieldUnavailable(Field::Temperature));
            },
        };
        let encoder_utilization_pct = match readings.encoder_utilization_pct {
            Some(percent) => percent,
            None => {
                return Err(SamplingError::FieldUnavailable(Field::EncoderUtilization));
            },
        };
        let fan_speed_pct = match readings.fan_speed_pct {
            Some(speed) => speed,
            None => 0,
        };
        Ok(
            Snapshot {
                device_name,
                memory_used_mb: bytes_to_megabytes(memory.used_bytes),
                memory_total_mb: bytes_to_megabytes(memory.total_bytes),
                temperature_c,
                encoder_utilization_pct,
                fan_speed_pct,
            },
        )
    }
}

} // verus!
