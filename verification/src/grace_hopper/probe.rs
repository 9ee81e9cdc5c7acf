//! Power figures derived from the hwmon sensors.

use vstd::prelude::*;

verus! {

/// Helper to estimate the DRAM power.
///
/// Grace and Grace Hopper superchips do not provide a sensor that is dedicated to the RAM, but
/// its consumption can be estimated from the existing sensors.
#[derive(Debug, Clone, Copy, PartialEq, Eq, Structural)]
pub struct DramComputation {
    pub grace_value: Option<u64>,
    pub cpu_value: Option<u64>,
    pub sysio_value: Option<u64>,
}

/// The DRAM estimate `grace - cpu - sysio`, when every input is known and `cpu + sysio` does not
/// exceed `grace`.
pub open spec fn dram_of(d: DramComputation) -> Option<u64> {
    match (d.grace_value, d.cpu_value, d.sysio_value) {
        (Some(g), Some(c), Some(s)) => if c + s > g {
            None
        } else {
            Some((g - c - s) as u64)
        },
        _ => None,
    }
}

impl DramComputation {
    /// Estimates the DRAM power by computing `grace - cpu - sysio`.
    ///
    /// This overestimates the consumption of the DRAM, because it contains the consumption of
    /// some controllers.
    pub fn compute(&self) -> (r: Option<u64>)
        requires
            self.cpu_value is Some && self.sysio_value is Some && self.grace_value is Some
                ==> self.cpu_value->0 + self.sysio_value->0 <= u64::MAX,
        ensures
            r == dram_of(*self),
    {
        let grace = self.grace_value?;
        let cpu = self.cpu_value?;
        let sysio = self.sysio_value?;
        if cpu + sysio > grace {
            None
        } else {
            Some(grace - cpu - sysio)
        }
    }
}

} // verus!
