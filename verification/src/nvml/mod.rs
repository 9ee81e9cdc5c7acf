//! NVIDIA GPU monitoring: feature detection, device selection and the measurements of a poll.

pub mod features;
pub mod gpm;
pub mod detect;
pub mod source;
pub mod metrics;
pub mod plugin;
