//! The configuration of the NVML plugin and the decisions it makes when it starts: how a
//! failing device is handled, how each source is named, and whether a device can be measured
//! in minimal mode.

use vstd::prelude::*;
use crate::nvml::detect::DeviceFailureStrategy;
use crate::nvml::features::OptionalFeatures;
use crate::text::{push_str, string_of};

verus! {

/// Which measurements are made.
#[derive(Debug, Clone, Copy, PartialEq, Eq, Structural)]
pub enum Mode {
    /// Every available feature of each device.
    Full,
    /// The power only, the energy being estimated from it.
    Minimal,
}

/// The configuration of the plugin, with its intervals in nanoseconds.
#[derive(Debug, Clone, Copy, PartialEq, Eq, Structural)]
pub struct Config {
    pub poll_interval: u64,
    pub flush_interval: u64,
    /// Whether a device that fails during the detection is skipped (else the start fails).
    pub skip_failed_devices: bool,
    pub mode: Mode,
}

impl Default for Config {
    /// Polls every second, flushes every five seconds, skips the failed devices and measures
    /// everything.
    fn default() -> (c: Self)
        ensures
            c == (Config {
                poll_interval: 1_000_000_000,
                flush_interval: 5_000_000_000,
                skip_failed_devices: true,
                mode: Mode::Full,
            }),
    {
        Config {
            poll_interval: 1_000_000_000,
            flush_interval: 5_000_000_000,
            skip_failed_devices: true,
            mode: Mode::Full,
        }
    }
}

/// Whether failed devices are skipped when the configuration does not say.
pub fn default_true() -> (b: bool)
    ensures
        b,
{
    true
}

/// What to do with a device that fails during the detection.
pub fn failure_strategy(skip_failed_devices: bool) -> (s: DeviceFailureStrategy)
    ensures
        s == (if skip_failed_devices {
            DeviceFailureStrategy::Skip
        } else {
            DeviceFailureStrategy::Fail
        }),
{
    if skip_failed_devices {
        DeviceFailureStrategy::Skip
    } else {
        DeviceFailureStrategy::Fail
    }
}

/// The name of the source of the device on bus `bus_id`.
pub fn source_name(bus_id: &str) -> (r: String)
    ensures
        r@ == "device_"@ + bus_id@,
{
    let mut out: Vec<char> = Vec::new();
    push_str(&mut out, "device_");
    push_str(&mut out, bus_id);
    string_of(out.as_slice())
}

/// Why a device cannot be measured in minimal mode.
#[derive(Debug, Clone, PartialEq, Eq)]
pub struct MinimalModeError {
    pub bus_id: String,
}

impl MinimalModeError {
    /// What went wrong, in words.
    pub fn message(&self) -> (s: String)
        ensures
            s@ == "minimal mode cannot be used on GPU ["@ + self.bus_id@
                + "]: nvmlDeviceGetPowerUsage is not supported"@,
    {
        let mut out: Vec<char> = Vec::new();
        push_str(&mut out, "minimal mode cannot be used on GPU [");
        push_str(&mut out, self.bus_id.as_str());
        push_str(&mut out, "]: nvmlDeviceGetPowerUsage is not supported");
        string_of(out.as_slice())
    }
}

/// Checks that the device on bus `bus_id` can be measured in minimal mode, which reads its
/// power only.
pub fn check_minimal(features: &OptionalFeatures, bus_id: &str) -> (r: Result<(), MinimalModeError>)
    ensures
        r is Ok <==> features.instant_power,
        r matches Err(e) ==> e.bus_id@ == bus_id@,
{
    if features.instant_power {
        Ok(())
    } else {
        Err(MinimalModeError { bus_id: bus_id.to_owned() })
    }
}

} // verus!
