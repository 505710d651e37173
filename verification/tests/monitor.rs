use gpu_stats::monitor::{Monitor, Selection};
use gpu_stats::sampler::{resolve, Sampler};
use gpu_stats::snapshot::{Field, MemoryReading, Readings, SamplingError, Snapshot};
use gpu_stats::temperature::TemperatureUnit;

fn snapshot_using(megabytes: u64) -> Snapshot {
    Snapshot {
        device_name: String::from("Quadro"),
        memory_used_mb: megabytes,
        memory_total_mb: 8192,
        temperature_c: 37,
        encoder_utilization_pct: 3,
        fan_speed_pct: 20,
    }
}

fn readings_using(bytes: u64) -> Readings {
    Readings {
        device_name: Some(String::from("Quadro")),
        memory: Some(MemoryReading { used_bytes: bytes, total_bytes: 8_589_934_592 }),
        temperature_c: Some(37),
        encoder_utilization_pct: Some(3),
        fan_speed_pct: Some(20),
    }
}

#[test]
fn monitor_starts_with_defaults() {
    let monitor = Monitor::new();
    assert_eq!(monitor.selection, Selection { device_index: 0, fan_index: 0 });
    assert_eq!(monitor.unit, TemperatureUnit::Celsius);
    assert_eq!(monitor.history.capacity(), 10);
    assert!(monitor.history.is_empty());
    assert_eq!(monitor.latest, None);
    assert_eq!(monitor.displayed_temperature(), None);
}

#[test]
fn selection_setters_change_one_index_each() {
    let mut selection = Selection::new();
    assert_eq!(selection, Selection { device_index: 0, fan_index: 0 });
    selection.select_device(3);
    assert_eq!(selection, Selection { device_index: 3, fan_index: 0 });
    selection.select_fan(2);
    assert_eq!(selection, Selection { device_index: 3, fan_index: 2 });
    selection.select_device(1);
    assert_eq!(selection, Selection { device_index: 1, fan_index: 2 });
}

#[test]
fn snapshot_is_recorded_as_latest_and_in_history() {
    let mut monitor = Monitor::new();
    assert_eq!(monitor.record(Ok(snapshot_using(512))), Ok(()));
    assert_eq!(monitor.latest, Some(snapshot_using(512)));
    assert_eq!(monitor.history.values(), vec![512]);
    assert_eq!(monitor.record(Ok(snapshot_using(640))), Ok(()));
    assert_eq!(monitor.latest, Some(snapshot_using(640)));
    assert_eq!(monitor.history.values(), vec![512, 640]);
}

#[test]
fn recording_respects_the_history_capacity() {
    let mut monitor = Monitor::new();
    monitor.history.set_capacity(2);
    for megabytes in [1u64, 2, 3, 4] {
        assert_eq!(monitor.record(Ok(snapshot_using(megabytes))), Ok(()));
    }
    assert_eq!(monitor.history.values(), vec![3, 4]);
    assert_eq!(monitor.history.capacity(), 2);
}

#[test]
fn missing_device_leaves_the_history_unmodified() {
    let mut monitor = Monitor::new();
    monitor.record(Ok(snapshot_using(100))).unwrap();
    monitor.selection.select_device(2);
    let outcome = resolve(2, monitor.selection.device_index, Some(readings_using(900 << 20)));
    assert_eq!(outcome, Err(SamplingError::DeviceNotFound));
    assert_eq!(monitor.record(outcome), Err(SamplingError::DeviceNotFound));
    assert_eq!(monitor.history.values(), vec![100]);
    assert_eq!(monitor.latest, Some(snapshot_using(100)));
}

#[test]
fn missing_required_field_pushes_nothing() {
    let mut monitor = Monitor::new();
    monitor.record(Ok(snapshot_using(100))).unwrap();
    let mut readings = readings_using(900 << 20);
    readings.memory = None;
    let outcome = resolve(1, 0, Some(readings));
    assert_eq!(monitor.record(outcome), Err(SamplingError::FieldUnavailable(Field::MemoryInfo)));
    assert_eq!(monitor.history.values(), vec![100]);
    let mut readings = readings_using(900 << 20);
    readings.temperature_c = None;
    let outcome = resolve(1, 0, Some(readings));
    assert_eq!(monitor.record(outcome), Err(SamplingError::FieldUnavailable(Field::Temperature)));
    assert_eq!(monitor.history.values(), vec![100]);
    assert_eq!(monitor.latest, Some(snapshot_using(100)));
}

#[test]
fn missing_fan_speed_still_pushes() {
    let mut monitor = Monitor::new();
    let mut readings = readings_using(900 << 20);
    readings.fan_speed_pct = None;
    assert_eq!(monitor.record(resolve(1, 0, Some(readings))), Ok(()));
    assert_eq!(monitor.history.values(), vec![900]);
    assert_eq!(monitor.latest.as_ref().map(|snapshot| snapshot.fan_speed_pct), Some(0));
}

#[test]
fn provider_failure_is_handed_back_unchanged() {
    let mut monitor = Monitor::new();
    assert_eq!(
        monitor.record(Err(SamplingError::ProviderUnavailable)),
        Err(SamplingError::ProviderUnavailable)
    );
    assert!(monitor.history.is_empty());
    assert_eq!(monitor.latest, None);
}

#[test]
fn displayed_temperature_follows_the_unit() {
    let mut monitor = Monitor::new();
    monitor.record(Ok(snapshot_using(1))).unwrap();
    assert_eq!(monitor.displayed_temperature(), Some(37));
    monitor.toggle_unit();
    assert_eq!(monitor.unit, TemperatureUnit::Fahrenheit);
    assert_eq!(monitor.displayed_temperature(), Some(98));
    assert_eq!(monitor.latest, Some(snapshot_using(1)));
    monitor.toggle_unit();
    assert_eq!(monitor.unit, TemperatureUnit::Celsius);
    assert_eq!(monitor.displayed_temperature(), Some(37));
}

#[test]
fn failed_refresh_changes_nothing() {
    if let Ok(sampler) = Sampler::new() {
        let mut monitor = Monitor::new();
        monitor.record(Ok(snapshot_using(5))).unwrap();
        monitor.selection.select_device(u32::MAX);
        assert_eq!(monitor.refresh(&sampler), Err(SamplingError::DeviceNotFound));
        assert_eq!(monitor.history.values(), vec![5]);
        assert_eq!(monitor.latest, Some(snapshot_using(5)));
    }
}
