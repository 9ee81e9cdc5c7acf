//! Verified core logic of a collection of measurement plugins: perf event descriptors and
//! multiplexing correction, Grace Hopper power telemetry, procfs statistics and process
//! watching, NVIDIA GPU features and polls, lm-sensors, Jetson, Quarch and Kwollect inputs, and
//! the filter, energy-to-carbon, Prometheus and OpenTelemetry stages.

pub mod perf;
pub mod text;
pub mod pieces;
pub mod grace_hopper;
pub mod procfs;
pub mod nvml;
pub mod units;
pub mod prometheus;
pub mod jetson;
pub mod kwollect;
pub mod kwollect_time;
pub mod quarch;
pub mod quarch_link;
pub mod filter;
pub mod lmsensors;
pub mod otel;
pub mod carbon;
