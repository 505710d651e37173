//! Telemetry core of a GPU dashboard.
//!
//! The crate samples one NVIDIA device through NVML, turns the raw readings
//! into a [`snapshot::Snapshot`], and keeps the most recent memory readings
//! in a bounded [`history::HistoryBuffer`] for plotting. Everything that
//! decides or computes is verified; drawing is left to the application.

pub mod gradient;
pub mod history;
pub mod monitor;
mod provider;
pub mod sampler;
pub mod snapshot;
pub mod temperature;
