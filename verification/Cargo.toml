[package]
name = "alumet_plugins"
version = "0.1.0"
edition = "2021"
publish = false

[dependencies]
perf-event2 = "=0.7.4"
perf-event-open-sys2 = "=5.0.6"
regex = "=1.13.1"
procfs = "=0.18.0"
walkdir = "=2.5.0"
nvml-wrapper = { version = "=0.13.0", features = ["legacy-functions"] }
rlimit = "=0.11.0"
chrono = "=0.4.45"
