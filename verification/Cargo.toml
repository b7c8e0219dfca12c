[package]
name = "opentelemetry_system_metrics"
version = "0.4.0"
edition = "2021"
publish = false

[dependencies]
eyre = "0.6"
nvml-wrapper = "0.10"
opentelemetry = "0.29"
sysinfo = "0.34"
tokio = { version = "1", features = ["time"] }
tracing = "0.1"
