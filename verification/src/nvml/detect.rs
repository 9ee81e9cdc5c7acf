//! Detection of the GPU devices: which ones are kept, and what to do when one fails.

use vstd::prelude::*;
use crate::nvml::features::{any_feature, OptionalFeatures};

verus! {

/// A device that supports at least one useful feature, with its features.
pub struct DetectedDevice<D> {
    /// Which feature is available on this device.
    pub features: OptionalFeatures,
    pub inner: D,
}

/// Statistics about the device detection.
#[derive(Debug, Clone, Copy, PartialEq, Eq, Structural)]
pub struct DetectionStats {
    pub found_devices: usize,
    pub working_devices: usize,
}

/// What to do when there is an error with a specific device during the detection.
#[derive(Debug, Clone, Copy, PartialEq, Eq, Structural)]
pub enum DeviceFailureStrategy {
    /// Skip the device: the detection continues.
    Skip,
    /// Fail immediately: the detection is stopped and the error is returned.
    Fail,
}

/// The devices met during a detection, in order, each kept with its features or left out.
pub struct Devices<D> {
    devices: Vec<Option<DetectedDevice<D>>>,
}

/// The features of a kept device, or nothing for a device left out.
pub open spec fn slot_view<D>(d: Option<DetectedDevice<D>>) -> Option<OptionalFeatures> {
    match d {
        Some(x) => Some(x.features),
        None => None,
    }
}

/// How many entries of `s` hold a value.
pub open spec fn count_present<T>(s: Seq<Option<T>>) -> nat
    decreases s.len(),
{
    if s.len() == 0 {
        0
    } else {
        count_present(s.drop_last()) + if s.last() is Some {
            1nat
        } else {
            0nat
        }
    }
}

/// Where a device ends up after its probe: kept with its features when it has any useful
/// feature, else left out. A failed probe leaves the device out under `Skip` and stops the
/// detection (`None`) under `Fail`.
pub open spec fn slot_after<D, E>(
    probe: Result<(D, OptionalFeatures), E>,
    on_failure: DeviceFailureStrategy,
) -> Option<Option<OptionalFeatures>> {
    match probe {
        Ok((_, f)) => Some(
            if any_feature(f) {
                Some(f)
            } else {
                None
            },
        ),
        Err(_) => match on_failure {
            DeviceFailureStrategy::Skip => Some(None),
            DeviceFailureStrategy::Fail => None,
        },
    }
}

proof fn lemma_count_bounded<T>(s: Seq<Option<T>>)
    ensures
        count_present(s) <= s.len(),
    decreases s.len(),
{
    if s.len() > 0 {
        lemma_count_bounded(s.drop_last());
    }
}

impl<D> Devices<D> {
    /// What the detection found so far: for each device met, its features if it was kept.
    pub closed spec fn slots(&self) -> Seq<Option<OptionalFeatures>> {
        self.devices@.map_values(|d: Option<DetectedDevice<D>>| slot_view(d))
    }

    /// A detection that has met no device yet.
    pub fn new() -> (r: Self)
        ensures
            r.slots() == Seq::<Option<OptionalFeatures>>::empty(),
    {
        let r = Devices { devices: Vec::new() };
        assert(r.slots() =~= Seq::<Option<OptionalFeatures>>::empty());
        r
    }

    /// Takes the outcome of probing the next device: keeps the device if it supports a useful
    /// feature, leaves it out otherwise or when its probe failed under `Skip`, and returns the
    /// failure under `Fail`, leaving the detection as it was.
    pub fn record<E>(&mut self, probe: Result<(D, OptionalFeatures), E>, on_failure: DeviceFailureStrategy) -> (r: Result<(), E>)
        ensures
            match slot_after(probe, on_failure) {
                Some(slot) => r is Ok && final(self).slots() == old(self).slots().push(slot),
                None => probe matches Err(e) && r == Err::<(), E>(e) && final(self).slots() == old(
                    self,
                ).slots(),
            },
    {
        let ghost before = self.slots();
        match probe {
            Ok((gpu, features)) => {
                if features.has_any() {
                    self.devices.push(Some(DetectedDevice { features, inner: gpu }));
                } else {
                    self.devices.push(None);
                }
                assert(self.slots() =~= before.push(
                    if any_feature(features) {
                        Some(features)
                    } else {
                        None
                    },
                ));
                Ok(())
            },
            Err(e) => match on_failure {
                DeviceFailureStrategy::Skip => {
                    self.devices.push(None);
                    assert(self.slots() =~= before.push(None));
                    Ok(())
                },
                DeviceFailureStrategy::Fail => Err(e),
            },
        }
    }

    /// How many devices were met, and how many of them were kept.
    pub fn detection_stats(&self) -> (s: DetectionStats)
        ensures
            s.found_devices == self.slots().len(),
            s.working_devices == count_present(self.slots()),
            s.working_devices <= s.found_devices,
    {
        let n_found = self.devices.len();
        let mut n_failed: usize = 0;
        let mut i: usize = 0;
        while i < n_found
            invariant
                n_found == self.devices@.len(),
                0 <= i <= n_found,
                n_failed + count_present(self.slots().take(i as int)) == i,
            decreases n_found - i,
        {
            let ghost t = self.slots().take(i + 1);
            assert(t.drop_last() =~= self.slots().take(i as int));
            if self.devices[i].is_none() {
                n_failed = n_failed + 1;
            }
            i = i + 1;
        }
        assert(self.slots().take(n_found as int) =~= self.slots());
        proof {
            lemma_count_bounded(self.slots());
        }
        DetectionStats { found_devices: n_found, working_devices: n_found - n_failed }
    }

    /// The kept devices, in the order in which they were met.
    pub fn iter(&self) -> (r: Vec<&DetectedDevice<D>>)
        ensures
            r@.map_values(|d: &DetectedDevice<D>| Some(d.features)) == self.slots().filter(
                |s: Option<OptionalFeatures>| s is Some,
            ),
    {
        let mut r: Vec<&DetectedDevice<D>> = Vec::new();
        let mut i: usize = 0;
        while i < self.devices.len()
            invariant
                0 <= i <= self.devices@.len(),
                r@.map_values(|d: &DetectedDevice<D>| Some(d.features)) == self.slots().take(
                    i as int,
                ).filter(|s: Option<OptionalFeatures>| s is Some),
            decreases self.devices.len() - i,
        {
            let ghost before = r@.map_values(|d: &DetectedDevice<D>| Some(d.features));
            let ghost t = self.slots().take(i + 1);
            assert(t.drop_last() =~= self.slots().take(i as int));
            proof {
                self.slots().take(i as int).lemma_filter_push(
                    self.slots()[i as int],
                    |s: Option<OptionalFeatures>| s is Some,
                );
            }
            assert(t =~= self.slots().take(i as int).push(self.slots()[i as int]));
            match &self.devices[i] {
                Some(d) => {
                    r.push(d);
                    assert(r@.map_values(|d: &DetectedDevice<D>| Some(d.features)) =~= before.push(
                        Some(d.features),
                    ));
                },
                None => {},
            }
            i = i + 1;
        }
        assert(self.slots().take(self.devices@.len() as int) =~= self.slots());
        r
    }
}


/// Why the measurement of GPUs cannot start after a detection.
#[derive(Debug, Clone, Copy, PartialEq, Eq, Structural)]
pub enum StartupError {
    /// No device was found.
    NoDevice,
    /// Devices were found (so many), but none of them is worth measuring.
    NoWorkingDevice(usize),
}

/// Whether the measurement can start after a detection that gave `stats`: it needs a device,
/// and a working one.
pub fn check_detection(stats: &DetectionStats) -> (r: Result<(), StartupError>)
    ensures
        stats.found_devices == 0 ==> r == Err::<(), StartupError>(StartupError::NoDevice),
        stats.found_devices > 0 && stats.working_devices == 0 ==> r == Err::<(), StartupError>(
            StartupError::NoWorkingDevice(stats.found_devices),
        ),
        stats.found_devices > 0 && stats.working_devices > 0 ==> r is Ok,
{
    if stats.found_devices == 0 {
        Err(StartupError::NoDevice)
    } else if stats.working_devices == 0 {
        Err(StartupError::NoWorkingDevice(stats.found_devices))
    } else {
        Ok(())
    }
}

impl StartupError {
    /// What went wrong, in words.
    pub fn message(&self) -> (s: String)
        ensures
            *self == StartupError::NoDevice ==> s@ == "No NVML-compatible GPU found. If your device is a Jetson edge device, please disable the `nvml` feature of the plugin."@,
            self matches StartupError::NoWorkingDevice(n) ==> s@ == crate::text::dec_of(n as nat)
                + " NVML-compatible devices found but none of them is working (see previous warnings)."@,
    {
        match self {
            StartupError::NoDevice => "No NVML-compatible GPU found. If your device is a Jetson edge device, please disable the `nvml` feature of the plugin.".to_owned(),
            StartupError::NoWorkingDevice(n) => {
                let mut out: Vec<char> = crate::text::dec_digits(*n as u64);
                crate::text::push_str(&mut out, " NVML-compatible devices found but none of them is working (see previous warnings).");
                crate::text::string_of(out.as_slice())
            },
        }
    }
}

} // verus!
