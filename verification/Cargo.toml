[package]
name = "gpu_stats"
version = "0.1.0"
edition = "2021"
publish = false

[dependencies]
nvml-wrapper = "0.10"
egui = "0.27"
egui_plot = "0.27"
env_logger = { version = "0.11", default-features = false }
