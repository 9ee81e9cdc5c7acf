//! Grace and Grace Hopper superchips: hwmon power telemetry.

pub mod hwmon;
pub mod probe;
pub mod total;
pub mod source;
