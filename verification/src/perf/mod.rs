//! Hardware performance counters: event descriptors and counter correction.

pub mod multiplexing;
pub mod spec;
pub mod native;
pub mod pmu;
pub mod raw;
pub mod plugin;
