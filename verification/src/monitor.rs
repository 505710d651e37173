//! The state of the dashboard between two refreshes, and the refresh itself.

use vstd::prelude::*;

use crate::history::{pushed, HistoryBuffer, DEFAULT_CAPACITY};
use crate::sampler::{reportable, sampled, Sampler};
use crate::snapshot::{
    first_missing, outcome_view, ReadingsView, SamplingError, Snapshot, SnapshotView,
};
use crate::temperature::{displayed_of, displayed_temperature, TemperatureUnit};

verus! {

/// Which device is watched, and which of its fans.
#[derive(Debug, Clone, Copy, PartialEq, Eq, Structural)]
pub struct Selection {
    pub device_index: u32,
    pub fan_index: u32,
}

impl Selection {
    /// The first fan of the first device.
    pub fn new() -> (selection: Selection)
        ensures
            selection.device_index == 0,
            selection.fan_index == 0,
    {
        Selection { device_index: 0, fan_index: 0 }
    }

    /// Watches the device at `device_index` from now on.
    pub fn select_device(&mut self, device_index: u32)
        ensures
            final(self).device_index == device_index,
            final(self).fan_index == old(self).fan_index,
    {
        self.device_index = device_index;
    }

    /// Watches the fan at `fan_index` from now on.
    pub fn select_fan(&mut self, fan_index: u32)
        ensures
            final(self).fan_index == fan_index,
            final(self).device_index == old(self).device_index,
    {
        self.fan_index = fan_index;
    }
}

/// Contents of a history under `capacity` after a sampling cycle that ended
/// in `outcome`: a snapshot contributes its used memory, a failure nothing.
pub open spec fn recorded(
    history: Seq<u64>,
    capacity: nat,
    outcome: Result<SnapshotView, SamplingError>,
) -> Seq<u64> {
    match outcome {
        Ok(snapshot) => pushed(history, capacity, snapshot.memory_used_mb),
        Err(_) => history,
    }
}

/// Everything the dashboard shows: the selection, the display unit, the
/// latest snapshot and the history of used memory.
pub struct Monitor {
    pub selection: Selection,
    pub unit: TemperatureUnit,
    pub history: HistoryBuffer,
    pub latest: Option<Snapshot>,
}

impl Monitor {
    /// The state at startup: first device, first fan, Celsius, no snapshot
    /// and an empty history of default capacity.
    pub fn new() -> (monitor: Monitor)
        ensures
            monitor.selection == (Selection { device_index: 0, fan_index: 0 }),
            monitor.unit == TemperatureUnit::Celsius,
            monitor.history@ == Seq::<u64>::empty(),
            monitor.history.capacity() == DEFAULT_CAPACITY,
            monitor.latest is None,
    {
        Monitor {
            selection: Selection::new(),
            unit: TemperatureUnit::Celsius,
            history: HistoryBuffer::new(),
            latest: None,
        }
    }

    /// Switches the display between Celsius and Fahrenheit.
    pub fn toggle_unit(&mut self)
        ensures
            final(self).unit == old(self).unit.toggled(),
            final(self).selection == old(self).selection,
            final(self).history == old(self).history,
            final(self).latest == old(self).latest,
    {
        self.unit = self.unit.toggled();
    }

    /// The temperature of the latest snapshot in the display unit, if there
    /// is a snapshot.
    pub fn displayed_temperature(&self) -> (shown: Option<u64>)
        ensures
            match self.latest {
                Some(snapshot) => shown == Some(
                    displayed_of(snapshot.temperature_c as int, self.unit) as u64,
                ),
                None => shown is None,
            },
    {
        match &self.latest {
            Some(snapshot) => Some(displayed_temperature(snapshot.temperature_c, self.unit)),
            None => None,
        }
    }

    /// Takes in the outcome of one sampling cycle. A snapshot becomes the
    /// latest one and its used memory the newest sample of the history; a
    /// failure is handed back and changes nothing.
    pub fn record(&mut self, outcome: Result<Snapshot, SamplingError>) -> (status: Result<
        (),
        SamplingError,
    >)
        ensures
            final(self).selection == old(self).selection,
            final(self).unit == old(self).unit,
            final(self).history.capacity() == old(self).history.capacity(),
            final(self).history@ == recorded(
                old(self).history@,
                old(self).history.capacity() as nat,
                outcome_view(outcome),
            ),
            match outcome {
                Ok(snapshot) => status is Ok && final(self).latest == Some(snapshot),
                Err(error) => status == Err::<(), SamplingError>(error) && final(self).latest
                    == old(self).latest,
            },
    {
        match outcome {
            Ok(snapshot) => {
                self.history.push(snapshot.memory_used_mb);
                self.latest = Some(snapshot);
                Ok(())
            },
            Err(error) => Err(error),
        }
    }

    /// Runs one sampling cycle: samples the selected device through
    /// `sampler` and records the outcome.
    ///
    /// When the cycle fails, for whatever reason, the history and the latest
    /// snapshot are as they were. When it succeeds, the history has gained
    /// exactly the used memory of the new latest snapshot.
    pub fn refresh(&mut self, sampler: &Sampler) -> (status: Result<(), SamplingError>)
        ensures
            final(self).selection == old(self).selection,
            final(self).unit == old(self).unit,
            final(self).history.capacity() == old(self).history.capacity(),
            match status {
                Ok(_) => {
                    &&& final(self).latest matches Some(snapshot)
                    &&& reportable(snapshot)
                    &&& final(self).history@ == pushed(
                        old(self).history@,
                        old(self).history.capacity() as nat,
                        snapshot.memory_used_mb,
                    )
                },
                Err(error) => {
                    &&& error != SamplingError::ProviderUnavailable
                    &&& final(self).latest == old(self).latest
                    &&& final(self).history@ == old(self).history@
                },
            },
    {
        let outcome = sampler.sample(self.selection.device_index, self.selection.fan_index);
        self.record(outcome)
    }
}

/// Sampling a device that the provider does not have fails with
/// `DeviceNotFound` and leaves the history as it was, whatever the history
/// held, whatever its capacity, and whatever any device would have answered.
pub proof fn lemma_missing_device_keeps_history(
    device_count: u32,
    device_index: u32,
    readings: Option<ReadingsView>,
    history: Seq<u64>,
    capacity: nat,
)
    requires
        device_index >= device_count,
    ensures
        sampled(device_count, device_index, readings) == Err::<SnapshotView, SamplingError>(
            SamplingError::DeviceNotFound,
        ),
        recorded(history, capacity, sampled(device_count, device_index, readings)) == history,
{
}

/// A cycle in which a required field cannot be read fails and pushes nothing
/// into the history.
pub proof fn lemma_missing_field_keeps_history(
    device_count: u32,
    device_index: u32,
    readings: ReadingsView,
    history: Seq<u64>,
    capacity: nat,
)
    requires
        first_missing(readings) is Some,
    ensures
        sampled(device_count, device_index, Some(readings)) is Err,
        recorded(history, capacity, sampled(device_count, device_index, Some(readings)))
            == history,
{
}

} // verus!
